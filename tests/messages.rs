use hellvents::messages::{
    end_message, info_message, message_command, open_source_disclaimer, running_message,
    start_message,
};
use hellvents::span::{parse_span, Span};
use hellvents::words::split_words;

const PENALTIES: &str = "Invalid kills result in penalities!\n1 & 2 Invalid Kills: Forced Redeploy\n3+ Invalid Kills: Kick";

#[test]
fn info_message_names_delay_and_duration() {
    let text = info_message(&Span::from_secs(130), &Span::from_secs(300));
    let expected = format!(
        "HELLVENTS | INFO\n\nThe mini game MELEE MANIA will start in 2m 10s. For a period of 5m, only melee weapons will be allowed.\n\nYou will receive a message when the mini game has started and ended.\n\n{}",
        PENALTIES
    );
    assert_eq!(text, expected);
}

#[test]
fn start_message_names_duration() {
    let text = start_message(&Span::from_secs(60));
    let expected = format!(
        "HELLVENTS | START\n\nThe mini game MELEE MANIA has started. For a period of 1m, only melee weapons will be allowed.\n\nYou will receive a message when the mini game has ended.\n\n{}",
        PENALTIES
    );
    assert_eq!(text, expected);
}

#[test]
fn running_message_names_remaining_time() {
    let text = running_message(&Span { secs: 90, nanos: 0 });
    assert!(text.starts_with("HELLVENTS | RUNNING\n"));
    assert!(text.contains("For a period of 1m 30s, only melee weapons will be allowed."));
    assert!(text.ends_with(PENALTIES));
}

#[test]
fn end_message_carries_disclaimer() {
    let text = end_message();
    assert_eq!(
        text,
        format!(
            "HELLVENTS | END\n\nThe mini game MELEE MANIA has ended.\n\nThanks for participating.\n\n-----\n\n{}",
            open_source_disclaimer()
        )
    );
    assert!(open_source_disclaimer().starts_with("Hellvents is open source"));
}

#[test]
fn message_command_addresses_player() {
    assert_eq!(message_command("7656", "hello there"), "Message 7656 hello there");
}

#[test]
fn spans_parse_and_format() {
    assert_eq!(parse_span("2m"), Some(Span { secs: 120, nanos: 0 }));
    assert_eq!(parse_span("1h 30min"), Some(Span { secs: 5400, nanos: 0 }));
    assert_eq!(parse_span("250ms"), Some(Span { secs: 0, nanos: 250_000_000 }));
    assert_eq!(parse_span("soon"), None);
    assert_eq!(parse_span(""), None);
    assert_eq!(parse_span("18446744073709551615s1000ms"), None);
    assert_eq!(parse_span("1\t2\t3\t4\t5\t6\t7\t8\t9\t0\t1\t2s"), None);
    assert_eq!(Span::from_secs(130).format(), "2m 10s");
    assert_eq!(Span::zero().format(), "0s");
}

#[test]
fn span_arithmetic() {
    let a = Span { secs: 5, nanos: 700_000_000 };
    let b = Span { secs: 1, nanos: 400_000_000 };
    assert_eq!(a.checked_add(b), Some(Span { secs: 7, nanos: 100_000_000 }));
    assert_eq!(a.saturating_sub(b), Span { secs: 4, nanos: 300_000_000 });
    assert_eq!(b.saturating_sub(a), Span::zero());
    assert_eq!(Span::from_secs(u64::MAX).checked_add(Span::from_secs(1)), None);
    assert!(a.reached(b));
    assert!(!b.reached(a));
}

#[test]
fn words_split_on_every_space() {
    assert_eq!(split_words("a  b"), vec!["a".to_string(), String::new(), "b".to_string()]);
    assert_eq!(split_words(""), vec![String::new()]);
    assert_eq!(split_words("/hv start mm"), vec!["/hv", "start", "mm"]);
}
