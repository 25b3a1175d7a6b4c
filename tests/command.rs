use hellvents::command::{
    melee_mania_config, parse_command, ChatSubcommand, CommandError, HellventCommand, StartEvent,
    USAGE,
};
use hellvents::events::EventKind;
use hellvents::melee_mania::MeleeManiaConfig;
use hellvents::span::Span;

fn sub(text: &str) -> Result<ChatSubcommand, CommandError> {
    match parse_command(text) {
        Ok(Some(HellventCommand { sub_command })) => Ok(sub_command),
        Ok(None) => panic!("not addressed to the bot: {}", text),
        Err(e) => Err(e),
    }
}

#[test]
fn lines_without_marker_are_not_commands() {
    assert_eq!(parse_command("/other start mm"), Ok(None));
    assert_eq!(parse_command("hello"), Ok(None));
    assert_eq!(parse_command(" /hv start mm"), Ok(None));
}

#[test]
fn start_melee_mania_with_defaults() {
    let expected = ChatSubcommand::Start { event: StartEvent::MeleeMania(MeleeManiaConfig::default()) };
    assert_eq!(sub("/hv start melee-mania"), Ok(expected));
    assert_eq!(sub("/hellvents s mm"), Ok(expected));
}

#[test]
fn start_melee_mania_with_options() {
    let cfg = MeleeManiaConfig { delay: Span::from_secs(60), duration: Span::from_secs(180) };
    assert_eq!(sub("/hv start mm 1m 3m"), Ok(ChatSubcommand::Start { event: StartEvent::MeleeMania(cfg) }));
    let cfg = MeleeManiaConfig { delay: Span::from_secs(30), duration: Span::from_secs(300) };
    assert_eq!(sub("/hv start mm 30s"), Ok(ChatSubcommand::Start { event: StartEvent::MeleeMania(cfg) }));
    assert_eq!(sub("/hv start mm later"), Err(CommandError::InvalidDuration));
    assert_eq!(sub("/hv start mm 1m 2m 3m"), Err(CommandError::UnexpectedArgument));
    assert_eq!(
        sub("/hv start mm 18446744073709551615s1000ms"),
        Err(CommandError::InvalidDuration)
    );
    let cfg = MeleeManiaConfig { delay: Span::from_secs(99_999_999_999), duration: Span::from_secs(300) };
    assert_eq!(sub("/hv start mm 99999999999s"), Ok(ChatSubcommand::Start { event: StartEvent::MeleeMania(cfg) }));
    assert_eq!(sub("/hv start mm 999999999999s"), Err(CommandError::InvalidDuration));
}

#[test]
fn start_other_events() {
    assert_eq!(sub("/hv start radio-spies"), Ok(ChatSubcommand::Start { event: StartEvent::RadioSpies }));
    assert_eq!(sub("/hv start rs"), Ok(ChatSubcommand::Start { event: StartEvent::RadioSpies }));
    assert_eq!(sub("/hv start rs now"), Err(CommandError::UnexpectedArgument));
    assert_eq!(sub("/hv start sky-eye"), Err(CommandError::UnknownEvent));
    assert_eq!(sub("/hv start"), Err(CommandError::MissingEvent));
}

#[test]
fn stop_status_and_exit() {
    assert_eq!(sub("/hv stop melee-mania"), Ok(ChatSubcommand::Stop { kind: EventKind::MeleeMania }));
    assert_eq!(sub("/hv stop sky-eye"), Ok(ChatSubcommand::Stop { kind: EventKind::SkyEye }));
    assert_eq!(sub("/hv stop"), Err(CommandError::MissingKind));
    assert_eq!(sub("/hv stop cake"), Err(CommandError::UnknownKind));
    assert_eq!(sub("/hv stop radio-spies now"), Err(CommandError::UnexpectedArgument));
    assert_eq!(sub("/hv stop-all"), Ok(ChatSubcommand::StopAll));
    assert_eq!(sub("/hv status"), Ok(ChatSubcommand::Status { kind: None }));
    assert_eq!(sub("/hv status radio-spies"), Ok(ChatSubcommand::Status { kind: Some(EventKind::RadioSpies) }));
    assert_eq!(sub("/hv emergency-exit"), Ok(ChatSubcommand::EmergencyExit));
    assert_eq!(sub("/hv eexit"), Ok(ChatSubcommand::EmergencyExit));
}

#[test]
fn malformed_commands() {
    assert_eq!(sub("/hv"), Err(CommandError::MissingSubcommand));
    assert_eq!(sub("/hv dance"), Err(CommandError::UnknownSubcommand));
    assert_eq!(sub("/hv  stop-all"), Err(CommandError::UnknownSubcommand));
    assert_eq!(sub("/hv help"), Err(CommandError::Help));
    assert_eq!(sub("/hv --help"), Err(CommandError::Help));
}

#[test]
fn errors_render_with_usage() {
    assert_eq!(CommandError::Help.render(), USAGE);
    assert_eq!(
        CommandError::UnknownKind.render(),
        format!("error: invalid event kind\n\n{}", USAGE)
    );
}

#[test]
fn melee_config_from_parsed_arguments() {
    assert_eq!(melee_mania_config(None, None), Ok(MeleeManiaConfig::default()));
    assert_eq!(
        melee_mania_config(Some(Some((5, 0))), None),
        Ok(MeleeManiaConfig { delay: Span::from_secs(5), duration: Span::from_secs(300) })
    );
    assert_eq!(melee_mania_config(Some(None), None), Err(CommandError::InvalidDuration));
    assert_eq!(melee_mania_config(None, Some(None)), Err(CommandError::InvalidDuration));
}
