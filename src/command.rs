use vstd::prelude::*;
use vstd::string::*;
use crate::events::EventKind;
use crate::melee_mania::MeleeManiaConfig;
use crate::span::{parse_span, parsed_duration, readable_duration, Span};
use crate::words::{split_spaces, split_words, views, word_is};

verus! {

/// A mini-game to start, with its options.
#[derive(Clone, Copy, Debug, PartialEq, Eq, Structural)]
pub enum StartEvent {
    MeleeMania(MeleeManiaConfig),
    SkyEye { cam_count: usize },
    RadioSpies,
}

impl StartEvent {
    pub open spec fn spec_kind(self) -> EventKind {
        match self {
            StartEvent::MeleeMania(_) => EventKind::MeleeMania,
            StartEvent::SkyEye { .. } => EventKind::SkyEye,
            StartEvent::RadioSpies => EventKind::RadioSpies,
        }
    }

    pub fn kind(&self) -> (r: EventKind)
        ensures
            r == self.spec_kind(),
    {
        match self {
            StartEvent::MeleeMania(_) => EventKind::MeleeMania,
            StartEvent::SkyEye { .. } => EventKind::SkyEye,
            StartEvent::RadioSpies => EventKind::RadioSpies,
        }
    }
}

/// The verbs of the chat command.
#[derive(Clone, Copy, Debug, PartialEq, Eq, Structural)]
pub enum ChatSubcommand {
    Start { event: StartEvent },
    Stop { kind: EventKind },
    StopAll,
    Status { kind: Option<EventKind> },
    EmergencyExit,
}

/// A parsed chat command.
#[derive(Clone, Copy, Debug, PartialEq, Eq, Structural)]
pub struct HellventCommand {
    pub sub_command: ChatSubcommand,
}

/// Why a chat line addressed to the bot is not a command.
#[derive(Clone, Copy, Debug, PartialEq, Eq, Structural)]
pub enum CommandError {
    /// Help was asked for.
    Help,
    MissingSubcommand,
    UnknownSubcommand,
    MissingEvent,
    UnknownEvent,
    MissingKind,
    UnknownKind,
    InvalidDuration,
    UnexpectedArgument,
}

pub const LONG_MARKER: &'static str = "/hellvents";

pub const SHORT_MARKER: &'static str = "/hv";

pub const WORD_HELP: &'static str = "help";

pub const WORD_HELP_SHORT: &'static str = "-h";

pub const WORD_HELP_LONG: &'static str = "--help";

pub const WORD_START: &'static str = "start";

pub const WORD_START_SHORT: &'static str = "s";

pub const WORD_STOP: &'static str = "stop";

pub const WORD_STOP_ALL: &'static str = "stop-all";

pub const WORD_STATUS: &'static str = "status";

pub const WORD_EXIT: &'static str = "emergency-exit";

pub const WORD_EXIT_SHORT: &'static str = "eexit";

pub const WORD_MELEE_MANIA: &'static str = "melee-mania";

pub const WORD_MELEE_MANIA_SHORT: &'static str = "mm";

pub const WORD_SKY_EYE: &'static str = "sky-eye";

pub const WORD_RADIO_SPIES: &'static str = "radio-spies";

pub const WORD_RADIO_SPIES_SHORT: &'static str = "rs";

pub open spec fn is_marker(w: Seq<char>) -> bool {
    w == LONG_MARKER@ || w == SHORT_MARKER@
}

pub open spec fn is_help(w: Seq<char>) -> bool {
    w == WORD_HELP@ || w == WORD_HELP_SHORT@ || w == WORD_HELP_LONG@
}

/// The kind that a word names, as `stop` and `status` take it.
pub open spec fn kind_named(w: Seq<char>) -> Option<EventKind> {
    if w == WORD_MELEE_MANIA@ {
        Some(EventKind::MeleeMania)
    } else if w == WORD_SKY_EYE@ {
        Some(EventKind::SkyEye)
    } else if w == WORD_RADIO_SPIES@ {
        Some(EventKind::RadioSpies)
    } else {
        None
    }
}

/// An optional duration argument: absent, or what humantime made of it (nothing
/// for a text with too many digits).
pub open spec fn duration_arg(args: Seq<Seq<char>>, i: int) -> Option<Option<(u64, u32)>> {
    if i < args.len() {
        if readable_duration(args[i]) {
            Some(parsed_duration(args[i]))
        } else {
            Some(None)
        }
    } else {
        None
    }
}

/// The value of an optional duration argument, with its default.
pub open spec fn duration_value(
    arg: Option<Option<(u64, u32)>>,
    default_secs: u64,
) -> Result<Span, CommandError> {
    match arg {
        None => Ok(Span { secs: default_secs, nanos: 0 }),
        Some(None) => Err(CommandError::InvalidDuration),
        Some(Some(p)) => Ok(Span { secs: p.0, nanos: p.1 }),
    }
}

/// Melee-mania options from their parsed arguments: delay first, then duration.
pub open spec fn melee_config_of(
    delay: Option<Option<(u64, u32)>>,
    duration: Option<Option<(u64, u32)>>,
) -> Result<MeleeManiaConfig, CommandError> {
    match duration_value(delay, 130) {
        Err(e) => Err(e),
        Ok(d) => match duration_value(duration, 300) {
            Err(e) => Err(e),
            Ok(u) => Ok(MeleeManiaConfig { delay: d, duration: u }),
        },
    }
}

/// What follows `start`.
pub open spec fn start_event_of(args: Seq<Seq<char>>) -> Result<StartEvent, CommandError> {
    if args.len() == 0 {
        Err(CommandError::MissingEvent)
    } else if args[0] == WORD_MELEE_MANIA@ || args[0] == WORD_MELEE_MANIA_SHORT@ {
        if args.len() > 3 {
            Err(CommandError::UnexpectedArgument)
        } else {
            match melee_config_of(duration_arg(args, 1), duration_arg(args, 2)) {
                Ok(c) => Ok(StartEvent::MeleeMania(c)),
                Err(e) => Err(e),
            }
        }
    } else if args[0] == WORD_RADIO_SPIES@ || args[0] == WORD_RADIO_SPIES_SHORT@ {
        if args.len() > 1 {
            Err(CommandError::UnexpectedArgument)
        } else {
            Ok(StartEvent::RadioSpies)
        }
    } else {
        Err(CommandError::UnknownEvent)
    }
}

/// The words after the command marker, read as a subcommand.
pub open spec fn subcommand_of(args: Seq<Seq<char>>) -> Result<ChatSubcommand, CommandError> {
    if args.len() == 0 {
        Err(CommandError::MissingSubcommand)
    } else if is_help(args[0]) {
        Err(CommandError::Help)
    } else if args[0] == WORD_START@ || args[0] == WORD_START_SHORT@ {
        match start_event_of(args.drop_first()) {
            Ok(e) => Ok(ChatSubcommand::Start { event: e }),
            Err(e) => Err(e),
        }
    } else if args[0] == WORD_STOP@ {
        if args.len() < 2 {
            Err(CommandError::MissingKind)
        } else if args.len() > 2 {
            Err(CommandError::UnexpectedArgument)
        } else {
            match kind_named(args[1]) {
                Some(k) => Ok(ChatSubcommand::Stop { kind: k }),
                None => Err(CommandError::UnknownKind),
            }
        }
    } else if args[0] == WORD_STOP_ALL@ {
        if args.len() > 1 {
            Err(CommandError::UnexpectedArgument)
        } else {
            Ok(ChatSubcommand::StopAll)
        }
    } else if args[0] == WORD_STATUS@ {
        if args.len() == 1 {
            Ok(ChatSubcommand::Status { kind: None })
        } else if args.len() > 2 {
            Err(CommandError::UnexpectedArgument)
        } else {
            match kind_named(args[1]) {
                Some(k) => Ok(ChatSubcommand::Status { kind: Some(k) }),
                None => Err(CommandError::UnknownKind),
            }
        }
    } else if args[0] == WORD_EXIT@ || args[0] == WORD_EXIT_SHORT@ {
        if args.len() > 1 {
            Err(CommandError::UnexpectedArgument)
        } else {
            Ok(ChatSubcommand::EmergencyExit)
        }
    } else {
        Err(CommandError::UnknownSubcommand)
    }
}

/// A chat line read as a command: `Ok(None)` where its first word is not the
/// command marker.
pub open spec fn command_of(content: Seq<char>) -> Result<Option<HellventCommand>, CommandError> {
    let words = split_spaces(content);
    if !is_marker(words[0]) {
        Ok(None)
    } else {
        match subcommand_of(words.drop_first()) {
            Ok(c) => Ok(Some(HellventCommand { sub_command: c })),
            Err(e) => Err(e),
        }
    }
}

/// Melee-mania options from the parsed delay and duration arguments (`None`: the
/// argument is absent; `Some(None)`: it did not read as a duration).
pub fn melee_mania_config(
    delay: Option<Option<(u64, u32)>>,
    duration: Option<Option<(u64, u32)>>,
) -> (r: Result<MeleeManiaConfig, CommandError>)
    requires
        delay matches Some(Some(p)) ==> p.1 < 1_000_000_000,
        duration matches Some(Some(p)) ==> p.1 < 1_000_000_000,
    ensures
        r == melee_config_of(delay, duration),
        r matches Ok(c) ==> c.wf(),
{
    let d = match delay {
        None => Span::from_secs(130),
        Some(None) => return Err(CommandError::InvalidDuration),
        Some(Some(p)) => Span { secs: p.0, nanos: p.1 },
    };
    let u = match duration {
        None => Span::from_secs(300),
        Some(None) => return Err(CommandError::InvalidDuration),
        Some(Some(p)) => Span { secs: p.0, nanos: p.1 },
    };
    Ok(MeleeManiaConfig { delay: d, duration: u })
}

fn read_duration_arg(args: &Vec<String>, i: usize) -> (r: Option<Option<(u64, u32)>>)
    ensures
        r == duration_arg(views(args@), i as int),
        r matches Some(Some(p)) ==> p.1 < 1_000_000_000,
{
    if i < args.len() {
        match parse_span(args[i].as_str()) {
            Some(s) => Some(Some((s.secs, s.nanos))),
            None => Some(None),
        }
    } else {
        None
    }
}

fn read_kind(w: &String) -> (r: Option<EventKind>)
    ensures
        r == kind_named(w@),
{
    if word_is(w, WORD_MELEE_MANIA) {
        Some(EventKind::MeleeMania)
    } else if word_is(w, WORD_SKY_EYE) {
        Some(EventKind::SkyEye)
    } else if word_is(w, WORD_RADIO_SPIES) {
        Some(EventKind::RadioSpies)
    } else {
        None
    }
}

/// Reads what follows `start`; `args` are the words after it.
fn read_start_event(args: &Vec<String>) -> (r: Result<StartEvent, CommandError>)
    ensures
        r == start_event_of(views(args@)),
{
    if args.len() == 0 {
        return Err(CommandError::MissingEvent);
    }
    if word_is(&args[0], WORD_MELEE_MANIA) || word_is(&args[0], WORD_MELEE_MANIA_SHORT) {
        if args.len() > 3 {
            return Err(CommandError::UnexpectedArgument);
        }
        let delay = read_duration_arg(args, 1);
        let duration = read_duration_arg(args, 2);
        match melee_mania_config(delay, duration) {
            Ok(c) => Ok(StartEvent::MeleeMania(c)),
            Err(e) => Err(e),
        }
    } else if word_is(&args[0], WORD_RADIO_SPIES) || word_is(&args[0], WORD_RADIO_SPIES_SHORT) {
        if args.len() > 1 {
            Err(CommandError::UnexpectedArgument)
        } else {
            Ok(StartEvent::RadioSpies)
        }
    } else {
        Err(CommandError::UnknownEvent)
    }
}

/// The words from index `from` on.
fn tail(v: &Vec<String>, from: usize) -> (r: Vec<String>)
    requires
        from <= v.len(),
    ensures
        views(r@) == views(v@).subrange(from as int, v@.len() as int),
{
    let mut out: Vec<String> = Vec::new();
    let mut i: usize = from;
    while i < v.len()
        invariant
            from <= i <= v.len(),
            views(out@) == views(v@).subrange(from as int, i as int),
        decreases v.len() - i,
    {
        let w = v[i].clone();
        proof {
            assert(views(out@.push(w)) =~= views(out@).push(w@));
            assert(views(v@).subrange(from as int, i as int + 1) =~= views(v@).subrange(
                from as int,
                i as int,
            ).push(v@[i as int]@));
        }
        out.push(w);
        i += 1;
    }
    out
}

/// Reads the words after the command marker.
fn read_subcommand(args: &Vec<String>) -> (r: Result<ChatSubcommand, CommandError>)
    ensures
        r == subcommand_of(views(args@)),
{
    if args.len() == 0 {
        return Err(CommandError::MissingSubcommand);
    }
    let verb = &args[0];
    if word_is(verb, WORD_HELP) || word_is(verb, WORD_HELP_SHORT) || word_is(verb, WORD_HELP_LONG) {
        Err(CommandError::Help)
    } else if word_is(verb, WORD_START) || word_is(verb, WORD_START_SHORT) {
        let rest = tail(args, 1);
        proof {
            assert(views(args@).drop_first() =~= views(args@).subrange(1, args@.len() as int));
        }
        match read_start_event(&rest) {
            Ok(e) => Ok(ChatSubcommand::Start { event: e }),
            Err(e) => Err(e),
        }
    } else if word_is(verb, WORD_STOP) {
        if args.len() < 2 {
            Err(CommandError::MissingKind)
        } else if args.len() > 2 {
            Err(CommandError::UnexpectedArgument)
        } else {
            match read_kind(&args[1]) {
                Some(k) => Ok(ChatSubcommand::Stop { kind: k }),
                None => Err(CommandError::UnknownKind),
            }
        }
    } else if word_is(verb, WORD_STOP_ALL) {
        if args.len() > 1 {
            Err(CommandError::UnexpectedArgument)
        } else {
            Ok(ChatSubcommand::StopAll)
        }
    } else if word_is(verb, WORD_STATUS) {
        if args.len() == 1 {
            Ok(ChatSubcommand::Status { kind: None })
        } else if args.len() > 2 {
            Err(CommandError::UnexpectedArgument)
        } else {
            match read_kind(&args[1]) {
                Some(k) => Ok(ChatSubcommand::Status { kind: Some(k) }),
                None => Err(CommandError::UnknownKind),
            }
        }
    } else if word_is(verb, WORD_EXIT) || word_is(verb, WORD_EXIT_SHORT) {
        if args.len() > 1 {
            Err(CommandError::UnexpectedArgument)
        } else {
            Ok(ChatSubcommand::EmergencyExit)
        }
    } else {
        Err(CommandError::UnknownSubcommand)
    }
}

/// Parses a chat line: `Ok(None)` where it does not begin with `/hellvents` or
/// `/hv`, the command where the rest is well formed, the error otherwise.
pub fn parse_command(content: &str) -> (r: Result<Option<HellventCommand>, CommandError>)
    ensures
        r == command_of(content@),
{
    let words = split_words(content);
    if !(word_is(&words[0], LONG_MARKER) || word_is(&words[0], SHORT_MARKER)) {
        return Ok(None);
    }
    let args = tail(&words, 1);
    proof {
        assert(views(words@).drop_first() =~= views(words@).subrange(1, words@.len() as int));
    }
    match read_subcommand(&args) {
        Ok(c) => Ok(Some(HellventCommand { sub_command: c })),
        Err(e) => Err(e),
    }
}


pub const USAGE: &'static str = "Usage: /hv <COMMAND>\n\nCommands:\n  start <melee-mania|radio-spies> [DELAY] [DURATION]\n  stop <KIND>\n  stop-all\n  status [KIND]\n  emergency-exit\n\nKinds: melee-mania, sky-eye, radio-spies";

pub const ERROR_OPENING: &'static str = "error: ";

pub const ERROR_CLOSING: &'static str = "\n\n";

pub const NO_SUBCOMMAND: &'static str = "a subcommand is required";

pub const BAD_SUBCOMMAND: &'static str = "unrecognized subcommand";

pub const NO_EVENT: &'static str = "an event to start is required";

pub const BAD_EVENT: &'static str = "unrecognized event";

pub const NO_KIND: &'static str = "an event kind is required";

pub const BAD_KIND: &'static str = "invalid event kind";

pub const BAD_DURATION: &'static str = "invalid duration";

pub const EXTRA_ARGUMENT: &'static str = "unexpected argument";

impl CommandError {
    pub open spec fn spec_description(self) -> Seq<char> {
        match self {
            CommandError::Help => Seq::empty(),
            CommandError::MissingSubcommand => NO_SUBCOMMAND@,
            CommandError::UnknownSubcommand => BAD_SUBCOMMAND@,
            CommandError::MissingEvent => NO_EVENT@,
            CommandError::UnknownEvent => BAD_EVENT@,
            CommandError::MissingKind => NO_KIND@,
            CommandError::UnknownKind => BAD_KIND@,
            CommandError::InvalidDuration => BAD_DURATION@,
            CommandError::UnexpectedArgument => EXTRA_ARGUMENT@,
        }
    }

    /// Help is the usage alone; an error is its description above the usage.
    pub open spec fn spec_render(self) -> Seq<char> {
        match self {
            CommandError::Help => USAGE@,
            _ => ERROR_OPENING@ + self.spec_description() + ERROR_CLOSING@ + USAGE@,
        }
    }

    /// The usage text that answers a malformed command.
    pub fn render(&self) -> (r: String)
        ensures
            r@ == self.spec_render(),
    {
        let description = match self {
            CommandError::Help => return String::from_str(USAGE),
            CommandError::MissingSubcommand => NO_SUBCOMMAND,
            CommandError::UnknownSubcommand => BAD_SUBCOMMAND,
            CommandError::MissingEvent => NO_EVENT,
            CommandError::UnknownEvent => BAD_EVENT,
            CommandError::MissingKind => NO_KIND,
            CommandError::UnknownKind => BAD_KIND,
            CommandError::InvalidDuration => BAD_DURATION,
            CommandError::UnexpectedArgument => EXTRA_ARGUMENT,
        };
        let mut s = String::from_str(ERROR_OPENING);
        s.append(description);
        s.append(ERROR_CLOSING);
        s.append(USAGE);
        s
    }
}

} // verus!
