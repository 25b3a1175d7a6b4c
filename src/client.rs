use vstd::prelude::*;
use crate::messages::{message_command, message_command_text};
use crate::span::Span;

verus! {

/// Where the event service listens, and the token that logs in to it.
#[derive(Clone, Debug)]
pub struct ClientConfig {
    pub address: String,
    pub token: String,
}

/// How long a request waits for its response.
pub const REQUEST_TIMEOUT_SECS: u64 = 60;

/// Relies on `uuid::Uuid::new_v4` and its hyphenated text form: a random identifier
/// of 36 characters.
#[verifier::external_body]
fn random_id() -> (r: String)
    ensures
        r@.len() == 36,
{
    uuid::Uuid::new_v4().to_string()
}

/// A request in flight: its correlation id and the instant at which it gives up.
pub struct PendingRequest {
    id: String,
    deadline: Span,
}

/// Where a request stands after one observation.
#[derive(Clone, Copy, Debug, PartialEq, Eq, Structural)]
pub enum RequestStep {
    /// The response with this request's id arrived.
    Resolved,
    /// Keep listening.
    Waiting,
    /// The time is up: there is no response.
    Expired,
}

/// What a request makes of a message that carries `incoming` as its response id
/// (`None`: the message is no response, or none came) at the instant `now`.
pub open spec fn request_step(id: Seq<char>, deadline: Span, incoming: Option<Seq<char>>, now: Span) -> RequestStep {
    if incoming == Some(id) {
        RequestStep::Resolved
    } else if now.total() >= deadline.total() {
        RequestStep::Expired
    } else {
        RequestStep::Waiting
    }
}

impl PendingRequest {
    pub closed spec fn spec_id(&self) -> Seq<char> {
        self.id@
    }

    pub closed spec fn spec_deadline(&self) -> Span {
        self.deadline
    }

    /// A request with a fresh random id, opened at `now`.
    pub fn open(now: Span) -> (r: PendingRequest)
        requires
            now.wf(),
            now.secs < u64::MAX - REQUEST_TIMEOUT_SECS,
        ensures
            r.spec_deadline().wf(),
            r.spec_deadline().total() == now.total() + REQUEST_TIMEOUT_SECS * 1_000_000_000,
            r.spec_id().len() == 36,
    {
        PendingRequest::with_id(random_id(), now)
    }

    /// A request with the given id, opened at `now`.
    pub fn with_id(id: String, now: Span) -> (r: PendingRequest)
        requires
            now.wf(),
            now.secs < u64::MAX - REQUEST_TIMEOUT_SECS,
        ensures
            r.spec_id() == id@,
            r.spec_deadline().wf(),
            r.spec_deadline().total() == now.total() + REQUEST_TIMEOUT_SECS * 1_000_000_000,
    {
        PendingRequest { id, deadline: Span { secs: now.secs + REQUEST_TIMEOUT_SECS, nanos: now.nanos } }
    }

    pub fn id(&self) -> (r: &String)
        ensures
            r@ == self.spec_id(),
    {
        &self.id
    }

    pub fn deadline(&self) -> (r: Span)
        ensures
            r == self.spec_deadline(),
    {
        self.deadline
    }

    /// Looks at one message, or at the lack of one. A response to another request
    /// changes nothing; the own response resolves the request whenever it comes.
    pub fn observe(&self, incoming: Option<&String>, now: Span) -> (r: RequestStep)
        requires
            self.spec_deadline().wf(),
            now.wf(),
        ensures
            r == request_step(
                self.spec_id(),
                self.spec_deadline(),
                match incoming {
                    Some(s) => Some(s@),
                    None => None,
                },
                now,
            ),
    {
        let own = match incoming {
            Some(s) => *s == self.id,
            None => false,
        };
        if own {
            RequestStep::Resolved
        } else if now.reached(self.deadline) {
            RequestStep::Expired
        } else {
            RequestStep::Waiting
        }
    }
}

/// Two requests with different ids never both take the same response.
pub proof fn lemma_response_resolves_one(
    a: Seq<char>,
    b: Seq<char>,
    da: Span,
    db: Span,
    response: Seq<char>,
    now: Span,
)
    requires
        a != b,
    ensures
        !(request_step(a, da, Some(response), now) == RequestStep::Resolved && request_step(
            b,
            db,
            Some(response),
            now,
        ) == RequestStep::Resolved),
        request_step(a, da, Some(response), now) == RequestStep::Resolved ==> response == a,
{
}

/// A request opened at `start` (its deadline is the timeout later) that sees no
/// own response gives up exactly when the timeout has passed: never before, always
/// after, and it never resolves.
pub proof fn lemma_expiry_at_timeout(
    id: Seq<char>,
    start: Span,
    deadline: Span,
    incoming: Option<Seq<char>>,
    now: Span,
)
    requires
        incoming != Some(id),
        deadline.total() == start.total() + REQUEST_TIMEOUT_SECS * 1_000_000_000,
    ensures
        request_step(id, deadline, incoming, now) == RequestStep::Expired <==> now.total() >= start.total()
            + REQUEST_TIMEOUT_SECS * 1_000_000_000,
        request_step(id, deadline, incoming, now) != RequestStep::Resolved,
{
}

/// One private-message command per player, each carrying `text`.
pub fn broadcast_commands(players: &Vec<String>, text: &str) -> (r: Vec<String>)
    ensures
        r@.len() == players@.len(),
        forall|i: int| 0 <= i < players@.len() ==> #[trigger] r@[i]@ == message_command_text(players@[i]@, text@),
{
    let mut out: Vec<String> = Vec::new();
    let mut i: usize = 0;
    while i < players.len()
        invariant
            i <= players@.len(),
            out@.len() == i,
            forall|j: int| 0 <= j < i ==> #[trigger] out@[j]@ == message_command_text(players@[j]@, text@),
        decreases players.len() - i,
    {
        out.push(message_command(players[i].as_str(), text));
        i += 1;
    }
    out
}

} // verus!
