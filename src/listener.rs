use vstd::prelude::*;
use vstd::string::*;
use crate::command::{command_of, parse_command, ChatSubcommand, CommandError, StartEvent};
use crate::config::{AdminConfig, FileConfig};
use crate::events::EventKind;

verus! {

/// Control surface of one running mini-game instance.
pub trait EventHandle {
    /// Asks the instance to stop after its own cleanup.
    fn stop(&self);

    /// Ends the instance at once, skipping its cleanup.
    fn abort(&self);

    /// A one-line status of the instance.
    fn short_info(&self) -> String;

    /// A detailed status of the instance.
    fn long_info(&self) -> String;
}

/// The answer to one chat line.
pub enum Reply {
    Success(String),
    Failure(String),
    /// Usage text for a malformed command.
    Clap(String),
    Silent,
}

pub const OK_HEADER: &'static str = "HELLVENTS | OK\n\n";

pub const ERROR_HEADER: &'static str = "HELLVENTS | ERROR\n\n";

pub open spec fn reply_ok(r: Reply, text: Seq<char>) -> bool {
    r matches Reply::Success(s) && s@ == text
}

pub open spec fn reply_err(r: Reply, text: Seq<char>) -> bool {
    r matches Reply::Failure(s) && s@ == text
}

impl Reply {
    /// The message sent back to the sender, if any.
    pub fn to_string(self) -> (r: Option<String>)
        ensures
            match self {
                Reply::Success(s) => r matches Some(t) && t@ == OK_HEADER@ + s@,
                Reply::Failure(s) => r matches Some(t) && t@ == ERROR_HEADER@ + s@,
                Reply::Clap(s) => r matches Some(t) && t@ == s@,
                Reply::Silent => r is None,
            },
    {
        match self {
            Reply::Success(s) => {
                let mut t = String::from_str(OK_HEADER);
                t.append(s.as_str());
                Some(t)
            },
            Reply::Failure(s) => {
                let mut t = String::from_str(ERROR_HEADER);
                t.append(s.as_str());
                Some(t)
            },
            Reply::Clap(s) => Some(s),
            Reply::Silent => None,
        }
    }
}

/// The running mini-games, at most one per kind.
pub struct Registry<H> {
    melee_mania: Option<H>,
    sky_eye: Option<H>,
    radio_spies: Option<H>,
}

impl<H: EventHandle> Registry<H> {
    pub closed spec fn slot(&self, kind: EventKind) -> Option<H> {
        match kind {
            EventKind::MeleeMania => self.melee_mania,
            EventKind::SkyEye => self.sky_eye,
            EventKind::RadioSpies => self.radio_spies,
        }
    }

    /// The handle of each running kind.
    pub open spec fn running(&self) -> Map<EventKind, H> {
        Map::new(|k: EventKind| self.slot(k) is Some, |k: EventKind| self.slot(k)->Some_0)
    }

    pub fn new() -> (r: Registry<H>)
        ensures
            r.running() == Map::<EventKind, H>::empty(),
    {
        let r = Registry { melee_mania: None, sky_eye: None, radio_spies: None };
        assert(r.running() =~= Map::<EventKind, H>::empty());
        r
    }

    pub fn is_running(&self, kind: EventKind) -> (r: bool)
        ensures
            r == self.running().contains_key(kind),
    {
        match kind {
            EventKind::MeleeMania => self.melee_mania.is_some(),
            EventKind::SkyEye => self.sky_eye.is_some(),
            EventKind::RadioSpies => self.radio_spies.is_some(),
        }
    }

    /// Takes the handle of `kind` out of the registry.
    pub fn remove(&mut self, kind: EventKind) -> (r: Option<H>)
        ensures
            r == old(self).slot(kind),
            r is Some <==> old(self).running().contains_key(kind),
            r matches Some(h) ==> h == old(self).running()[kind],
            final(self).running() == old(self).running().remove(kind),
    {
        let r = match kind {
            EventKind::MeleeMania => self.melee_mania.take(),
            EventKind::SkyEye => self.sky_eye.take(),
            EventKind::RadioSpies => self.radio_spies.take(),
        };
        assert(self.running() =~= old(self).running().remove(kind));
        r
    }

    /// Puts `handle` in the slot of `kind` and returns what stood there.
    pub fn insert(&mut self, kind: EventKind, handle: H) -> (r: Option<H>)
        ensures
            r == old(self).slot(kind),
            r is Some <==> old(self).running().contains_key(kind),
            r matches Some(h) ==> h == old(self).running()[kind],
            final(self).running() == old(self).running().insert(kind, handle),
    {
        let r = match kind {
            EventKind::MeleeMania => self.melee_mania.take(),
            EventKind::SkyEye => self.sky_eye.take(),
            EventKind::RadioSpies => self.radio_spies.take(),
        };
        match kind {
            EventKind::MeleeMania => self.melee_mania = Some(handle),
            EventKind::SkyEye => self.sky_eye = Some(handle),
            EventKind::RadioSpies => self.radio_spies = Some(handle),
        }
        assert(self.running() =~= old(self).running().insert(kind, handle));
        r
    }
}

/// What has to happen to a handle that leaves the registry.
pub enum Retirement<H> {
    /// End the task at once, skipping its cleanup.
    Abort(H),
    /// Let the task finish its own cleanup.
    Stop(H),
}

impl<H: EventHandle> Retirement<H> {
    /// Calls `abort` or `stop` on the handle, as the variant says.
    pub fn carry_out(self) {
        match self {
            Retirement::Abort(h) => h.abort(),
            Retirement::Stop(h) => h.stop(),
        }
    }
}

/// What the caller has to do about one chat line.
pub enum ChatOutcome<H> {
    /// Send this reply (or nothing, for `Silent`) and retire these handles.
    Respond(Reply, Vec<Retirement<H>>),
    /// Build and start this mini-game, then hand its handle to `start_event`.
    Launch(StartEvent),
    /// End the process at once with a failure status.
    Exit,
}

pub const STARTED: &'static str = "Started event ";

pub const REPLACED: &'static str = "Aborted previous event of the same type and started event ";

pub const STOPPED: &'static str = "Stopped event ";

pub const NOT_RUNNING_OPENING: &'static str = "No event of type ";

pub const NOT_RUNNING_CLOSING: &'static str = " is currently running";

pub const NOTHING_RUNNING: &'static str = "No event is currently running";

pub const STOPPED_ALL: &'static str = "Stopped all events";

pub const DOT: &'static str = ".";

pub const COLON: &'static str = ": ";

pub const NEWLINE: &'static str = "\n";

pub const COMMAND_PREFIX: char = '/';

pub open spec fn not_running_text(kind: EventKind) -> Seq<char> {
    NOT_RUNNING_OPENING@ + kind.spec_name() + NOT_RUNNING_CLOSING@
}

pub open spec fn nothing_running<H>(running: Map<EventKind, H>) -> bool {
    !running.contains_key(EventKind::MeleeMania) && !running.contains_key(EventKind::SkyEye)
        && !running.contains_key(EventKind::RadioSpies)
}

/// A graceful stop of the handle of `kind`, where one runs.
pub open spec fn stop_if<H>(running: Map<EventKind, H>, kind: EventKind) -> Seq<Retirement<H>> {
    if running.contains_key(kind) {
        seq![Retirement::Stop(running[kind])]
    } else {
        Seq::empty()
    }
}

/// A graceful stop of every running handle, in the order of the kinds.
pub open spec fn stops_of<H>(running: Map<EventKind, H>) -> Seq<Retirement<H>> {
    stop_if(running, EventKind::MeleeMania) + stop_if(running, EventKind::SkyEye) + stop_if(
        running,
        EventKind::RadioSpies,
    )
}

/// One line of the status listing.
pub open spec fn status_line_text(kind: EventKind, short: Seq<char>) -> Seq<char> {
    kind.spec_name() + COLON@ + short + NEWLINE@
}

pub open spec fn line_if<H>(running: Map<EventKind, H>, kind: EventKind, short: Seq<char>) -> Seq<char> {
    if running.contains_key(kind) {
        status_line_text(kind, short)
    } else {
        Seq::empty()
    }
}

/// The listing of the running kinds, in the order of the kinds, each with its
/// short status as its handle gave it (`shorts` holds one text per kind).
pub open spec fn listing<H>(running: Map<EventKind, H>, shorts: Seq<Seq<char>>) -> Seq<char> {
    line_if(running, EventKind::MeleeMania, shorts[0]) + line_if(running, EventKind::SkyEye, shorts[1])
        + line_if(running, EventKind::RadioSpies, shorts[2])
}

/// Turns privileged chat lines into operations on the running mini-games.
pub struct CommandListener<H> {
    pub config: FileConfig,
    pub events: Registry<H>,
}

impl<H: EventHandle> CommandListener<H> {
    pub fn new(config: FileConfig) -> (r: CommandListener<H>)
        ensures
            r.config == config,
            r.events.running() == Map::<EventKind, H>::empty(),
    {
        CommandListener { config, events: Registry::new() }
    }

    /// Installs a freshly started instance. One of the same kind that still runs
    /// is taken out and handed back to be aborted, never stopped gracefully.
    pub fn start_event(&mut self, event: StartEvent, handle: H) -> (r: (Reply, Option<Retirement<H>>))
        ensures
            final(self).config == old(self).config,
            final(self).events.running() == old(self).events.running().insert(event.spec_kind(), handle),
            old(self).events.running().contains_key(event.spec_kind()) ==> reply_ok(
                r.0,
                REPLACED@ + event.spec_kind().spec_name() + DOT@,
            ) && r.1 == Some(Retirement::Abort(old(self).events.running()[event.spec_kind()])),
            !old(self).events.running().contains_key(event.spec_kind()) ==> reply_ok(
                r.0,
                STARTED@ + event.spec_kind().spec_name() + DOT@,
            ) && r.1 is None,
    {
        let kind = event.kind();
        let previous = self.events.remove(kind);
        let replaced = previous.is_some();
        self.events.insert(kind, handle);
        assert(self.events.running() =~= old(self).events.running().insert(kind, handle));
        let mut s = if replaced {
            String::from_str(REPLACED)
        } else {
            String::from_str(STARTED)
        };
        s.append(kind.name());
        s.append(DOT);
        let retired = match previous {
            Some(h) => Some(Retirement::Abort(h)),
            None => None,
        };
        (Reply::Success(s), retired)
    }

    /// Forgets the instance of `kind` and hands it back to be stopped gracefully.
    pub fn stop_event(&mut self, kind: EventKind) -> (r: (Reply, Option<Retirement<H>>))
        ensures
            final(self).config == old(self).config,
            final(self).events.running() == old(self).events.running().remove(kind),
            old(self).events.running().contains_key(kind) ==> reply_ok(r.0, STOPPED@ + kind.spec_name())
                && r.1 == Some(Retirement::Stop(old(self).events.running()[kind])),
            !old(self).events.running().contains_key(kind) ==> reply_err(r.0, not_running_text(kind))
                && r.1 is None,
    {
        match self.events.remove(kind) {
            Some(handle) => {
                let mut s = String::from_str(STOPPED);
                s.append(kind.name());
                (Reply::Success(s), Some(Retirement::Stop(handle)))
            },
            None => (Reply::Failure(not_running(kind)), None),
        }
    }

    /// Forgets every running instance and hands them back to be stopped gracefully.
    pub fn stop_all(&mut self) -> (r: (Reply, Vec<Retirement<H>>))
        ensures
            final(self).config == old(self).config,
            final(self).events.running() == Map::<EventKind, H>::empty(),
            r.1@ == stops_of(old(self).events.running()),
            nothing_running(old(self).events.running()) ==> reply_err(r.0, NOTHING_RUNNING@),
            !nothing_running(old(self).events.running()) ==> reply_ok(r.0, STOPPED_ALL@),
    {
        let ghost running = self.events.running();
        let any = self.events.is_running(EventKind::MeleeMania) || self.events.is_running(EventKind::SkyEye)
            || self.events.is_running(EventKind::RadioSpies);
        let mut retired: Vec<Retirement<H>> = Vec::new();
        match self.events.remove(EventKind::MeleeMania) {
            Some(h) => retired.push(Retirement::Stop(h)),
            None => {},
        }
        assert(retired@ =~= stop_if(running, EventKind::MeleeMania));
        let ghost first = retired@;
        match self.events.remove(EventKind::SkyEye) {
            Some(h) => retired.push(Retirement::Stop(h)),
            None => {},
        }
        assert(retired@ =~= first + stop_if(running, EventKind::SkyEye));
        let ghost second = retired@;
        match self.events.remove(EventKind::RadioSpies) {
            Some(h) => retired.push(Retirement::Stop(h)),
            None => {},
        }
        assert(retired@ =~= second + stop_if(running, EventKind::RadioSpies));
        assert(self.events.running() =~= Map::<EventKind, H>::empty());
        if any {
            (Reply::Success(String::from_str(STOPPED_ALL)), retired)
        } else {
            (Reply::Failure(String::from_str(NOTHING_RUNNING)), retired)
        }
    }

    /// The status of one kind in detail, or a line for each running kind with the
    /// short status its handle gives.
    pub fn status(&self, kind: Option<EventKind>) -> (r: Reply)
        ensures
            status_holds(self.events.running(), kind, r),
    {
        match kind {
            Some(k) => match k {
                EventKind::MeleeMania => match &self.events.melee_mania {
                    Some(h) => Reply::Success(h.long_info()),
                    None => Reply::Failure(not_running(k)),
                },
                EventKind::SkyEye => match &self.events.sky_eye {
                    Some(h) => Reply::Success(h.long_info()),
                    None => Reply::Failure(not_running(k)),
                },
                EventKind::RadioSpies => match &self.events.radio_spies {
                    Some(h) => Reply::Success(h.long_info()),
                    None => Reply::Failure(not_running(k)),
                },
            },
            None => {
                let ghost running = self.events.running();
                let ghost mut shorts: Seq<Seq<char>> = seq![Seq::empty(), Seq::empty(), Seq::empty()];
                let mut s = String::new();
                match &self.events.melee_mania {
                    Some(h) => {
                        let short = h.short_info();
                        status_line(&mut s, EventKind::MeleeMania, short.as_str());
                        proof {
                            shorts = shorts.update(0, short@);
                        }
                    },
                    None => {},
                }
                assert(s@ =~= line_if(running, EventKind::MeleeMania, shorts[0]));
                let ghost first = s@;
                match &self.events.sky_eye {
                    Some(h) => {
                        let short = h.short_info();
                        status_line(&mut s, EventKind::SkyEye, short.as_str());
                        proof {
                            shorts = shorts.update(1, short@);
                        }
                    },
                    None => {},
                }
                assert(s@ =~= first + line_if(running, EventKind::SkyEye, shorts[1]));
                let ghost second = s@;
                match &self.events.radio_spies {
                    Some(h) => {
                        let short = h.short_info();
                        status_line(&mut s, EventKind::RadioSpies, short.as_str());
                        proof {
                            shorts = shorts.update(2, short@);
                        }
                    },
                    None => {},
                }
                assert(s@ =~= second + line_if(running, EventKind::RadioSpies, shorts[2]));
                assert(s@ =~= listing(running, shorts));
                if self.events.is_running(EventKind::MeleeMania) || self.events.is_running(EventKind::SkyEye)
                    || self.events.is_running(EventKind::RadioSpies) {
                    Reply::Success(s)
                } else {
                    Reply::Success(String::from_str(NOTHING_RUNNING))
                }
            },
        }
    }

    /// Reads one chat line from `sender_id`. Lines from players off the allow-list,
    /// and lines that do not start with `/` or a command marker, get no answer.
    pub fn handle_chat(&mut self, sender_id: &String, content: &str) -> (r: ChatOutcome<H>)
        ensures
            final(self).config == old(self).config,
            !old(self).config.admin.allows(sender_id@) || !starts_with_prefix(content@)
                ==> is_silent(r) && final(self).events.running() == old(self).events.running(),
            old(self).config.admin.allows(sender_id@) && starts_with_prefix(content@) ==> chat_holds(
                *old(self),
                command_of(content@),
                *final(self),
                r,
            ),
    {
        if !self.config.admin.is_allowed(sender_id) {
            return ChatOutcome::Respond(Reply::Silent, Vec::new());
        }
        if !has_prefix(content) {
            return ChatOutcome::Respond(Reply::Silent, Vec::new());
        }
        match parse_command(content) {
            Ok(None) => ChatOutcome::Respond(Reply::Silent, Vec::new()),
            Err(e) => ChatOutcome::Respond(Reply::Clap(e.render()), Vec::new()),
            Ok(Some(command)) => match command.sub_command {
                ChatSubcommand::Start { event } => ChatOutcome::Launch(event),
                ChatSubcommand::Stop { kind } => {
                    let (reply, retired) = self.stop_event(kind);
                    let mut all = Vec::new();
                    match retired {
                        Some(h) => all.push(h),
                        None => {},
                    }
                    ChatOutcome::Respond(reply, all)
                },
                ChatSubcommand::StopAll => {
                    let (reply, retired) = self.stop_all();
                    ChatOutcome::Respond(reply, retired)
                },
                ChatSubcommand::Status { kind } => ChatOutcome::Respond(self.status(kind), Vec::new()),
                ChatSubcommand::EmergencyExit => ChatOutcome::Exit,
            },
        }
    }
}

/// What an allowed, prefixed chat line does, given how it parsed.
pub open spec fn chat_holds<H: EventHandle>(
    before: CommandListener<H>,
    parsed: Result<Option<crate::command::HellventCommand>, CommandError>,
    after: CommandListener<H>,
    r: ChatOutcome<H>,
) -> bool {
    match parsed {
        Ok(None) => is_silent(r) && after.events.running() == before.events.running(),
        Err(e) => responds_usage(r, e.spec_render()) && retires(r, Seq::empty())
            && after.events.running() == before.events.running(),
        Ok(Some(c)) => match c.sub_command {
            ChatSubcommand::Start { event } => r == ChatOutcome::<H>::Launch(event) && after.events.running()
                == before.events.running(),
            ChatSubcommand::Stop { kind } => after.events.running() == before.events.running().remove(kind)
                && retires(r, stop_if(before.events.running(), kind))
                && (before.events.running().contains_key(kind) ==> responds_ok(r, STOPPED@ + kind.spec_name()))
                && (!before.events.running().contains_key(kind) ==> responds_err(r, not_running_text(kind))),
            ChatSubcommand::StopAll => after.events.running() == Map::<EventKind, H>::empty()
                && retires(r, stops_of(before.events.running()))
                && (nothing_running(before.events.running()) ==> responds_err(r, NOTHING_RUNNING@))
                && (!nothing_running(before.events.running()) ==> responds_ok(r, STOPPED_ALL@)),
            ChatSubcommand::Status { kind } => after.events.running() == before.events.running()
                && retires(r, Seq::empty())
                && (r matches ChatOutcome::Respond(rep, _) && status_holds(before.events.running(), kind, rep)),
            ChatSubcommand::EmergencyExit => r is Exit && after.events.running() == before.events.running(),
        },
    }
}

pub open spec fn is_silent<H>(r: ChatOutcome<H>) -> bool {
    r matches ChatOutcome::Respond(Reply::Silent, rs) && rs@.len() == 0
}

pub open spec fn retires<H>(r: ChatOutcome<H>, handles: Seq<Retirement<H>>) -> bool {
    r matches ChatOutcome::Respond(_, rs) && rs@ == handles
}

pub open spec fn responds_ok<H>(r: ChatOutcome<H>, text: Seq<char>) -> bool {
    r matches ChatOutcome::Respond(rep, _) && reply_ok(rep, text)
}

pub open spec fn responds_err<H>(r: ChatOutcome<H>, text: Seq<char>) -> bool {
    r matches ChatOutcome::Respond(rep, _) && reply_err(rep, text)
}

pub open spec fn responds_usage<H>(r: ChatOutcome<H>, text: Seq<char>) -> bool {
    r matches ChatOutcome::Respond(Reply::Clap(s), _) && s@ == text
}

/// A status request for a kind that is not running: an error that says so; for a
/// running kind: its handle's detailed status. Without a kind: the listing of the
/// running kinds, or word that nothing runs.
pub open spec fn status_holds<H>(running: Map<EventKind, H>, kind: Option<EventKind>, r: Reply) -> bool {
    match kind {
        Some(k) => if running.contains_key(k) {
            r is Success
        } else {
            reply_err(r, not_running_text(k))
        },
        None => if nothing_running(running) {
            reply_ok(r, NOTHING_RUNNING@)
        } else {
            r matches Reply::Success(s) && exists|shorts: Seq<Seq<char>>|
                shorts.len() == 3 && s@ == #[trigger] listing(running, shorts)
        },
    }
}

pub open spec fn starts_with_prefix(content: Seq<char>) -> bool {
    content.len() > 0 && content[0] == COMMAND_PREFIX
}

fn has_prefix(content: &str) -> (r: bool)
    ensures
        r == starts_with_prefix(content@),
{
    content.unicode_len() > 0 && content.get_char(0) == COMMAND_PREFIX
}

fn not_running(kind: EventKind) -> (r: String)
    ensures
        r@ == not_running_text(kind),
{
    let mut s = String::from_str(NOT_RUNNING_OPENING);
    s.append(kind.name());
    s.append(NOT_RUNNING_CLOSING);
    s
}

/// Appends the status line of `kind`.
pub fn status_line(s: &mut String, kind: EventKind, short: &str)
    ensures
        final(s)@ == old(s)@ + status_line_text(kind, short@),
{
    s.append(kind.name());
    s.append(COLON);
    s.append(short);
    s.append(NEWLINE);
}

} // verus!
