use vstd::prelude::*;
use vstd::string::*;
use crate::span::Span;
use crate::words::word_is;

verus! {

pub const ALLIES: &'static str = "Allies";

pub const AXIS: &'static str = "Axis";

/// The team on the other side, for the two playing teams.
pub open spec fn opposite_of(team: Seq<char>) -> Option<Seq<char>> {
    if team == ALLIES@ {
        Some(AXIS@)
    } else if team == AXIS@ {
        Some(ALLIES@)
    } else {
        None
    }
}

pub fn opposite_team(team_in: &str) -> (r: Option<&'static str>)
    ensures
        match r {
            Some(s) => opposite_of(team_in@) == Some(s@),
            None => opposite_of(team_in@) is None,
        },
{
    let team = String::from_str(team_in);
    if word_is(&team, ALLIES) {
        Some(AXIS)
    } else if word_is(&team, AXIS) {
        Some(ALLIES)
    } else {
        None
    }
}

/// A chat message held back for delivery to the other side.
#[derive(Clone, Debug)]
pub struct CachedMessage {
    /// When it was sent, on the same clock as `now` below.
    pub time: Span,
    pub sender: String,
    pub content: String,
}

pub const AGO_OPENING: &'static str = "[";

pub const AGO_CLOSING: &'static str = " ago] ";

pub const SENDER_CLOSING: &'static str = ": ";

pub const COLLECTED_HEADER: &'static str = "Intelligence has gathered the following messages\n\n---\n\n";

pub const LINE_BREAK: &'static str = "\n";

/// Time since `time`, in whole seconds, or zero where `time` lies ahead.
pub open spec fn age_secs(time: Span, now: Span) -> u64 {
    if now.total() >= time.total() {
        ((now.total() - time.total()) / 1_000_000_000) as u64
    } else {
        0
    }
}

impl CachedMessage {
    pub open spec fn spec_render(self, now: Span) -> Seq<char> {
        AGO_OPENING@ + duration_text_secs(age_secs(self.time, now)) + AGO_CLOSING@ + self.sender@
            + SENDER_CLOSING@ + self.content@
    }

    pub fn new(time: Span, sender: String, content: String) -> (r: CachedMessage)
        ensures
            r.time == time,
            r.sender == sender,
            r.content == content,
    {
        CachedMessage { time, sender, content }
    }

    pub fn copy(&self) -> (r: CachedMessage)
        ensures
            r == *self,
    {
        CachedMessage { time: self.time, sender: self.sender.clone(), content: self.content.clone() }
    }

    /// "[2m 5s ago] sender: content", the age cut to whole seconds.
    pub fn render(&self, now: Span) -> (r: String)
        requires
            self.time.wf(),
            now.wf(),
        ensures
            r@ == self.spec_render(now),
    {
        let elapsed = now.saturating_sub(self.time);
        let age = elapsed.whole_secs();
        assert(age.secs == age_secs(self.time, now)) by {
            let d = elapsed;
            if now.total() >= self.time.total() {
                assert(d.secs as nat == d.total() / 1_000_000_000) by (nonlinear_arith)
                    requires d.total() == d.secs as nat * 1_000_000_000 + d.nanos as nat, d.nanos < 1_000_000_000;
            }
        }
        let mut s = String::from_str(AGO_OPENING);
        s.append(age.format().as_str());
        s.append(AGO_CLOSING);
        s.append(self.sender.as_str());
        s.append(SENDER_CLOSING);
        s.append(self.content.as_str());
        s
    }
}

pub open spec fn duration_text_secs(secs: u64) -> Seq<char> {
    crate::span::duration_text(secs, 0)
}

/// Header, then one line per message, the newest first.
pub open spec fn collected_text(messages: Seq<CachedMessage>, now: Span) -> Seq<char>
    decreases messages.len(),
{
    if messages.len() == 0 {
        COLLECTED_HEADER@
    } else {
        collected_text(messages.drop_first(), now) + LINE_BREAK@ + messages[0].spec_render(now)
    }
}

pub open spec fn all_wf(messages: Seq<CachedMessage>) -> bool {
    forall|i: int| 0 <= i < messages.len() ==> (#[trigger] messages[i]).time.wf()
}

pub fn build_collected_message(messages: &Vec<CachedMessage>, now: Span) -> (r: String)
    requires
        all_wf(messages@),
        now.wf(),
    ensures
        r@ == collected_text(messages@, now),
{
    let mut s = String::from_str(COLLECTED_HEADER);
    let mut i: usize = messages.len();
    proof {
        assert(messages@.subrange(messages@.len() as int, messages@.len() as int).len() == 0);
    }
    while i > 0
        invariant
            i <= messages@.len(),
            all_wf(messages@),
            now.wf(),
            s@ == collected_text(messages@.subrange(i as int, messages@.len() as int), now),
        decreases i,
    {
        i -= 1;
        proof {
            let tail = messages@.subrange(i as int, messages@.len() as int);
            assert(tail.drop_first() =~= messages@.subrange(i as int + 1, messages@.len() as int));
            assert(tail[0] == messages@[i as int]);
        }
        s.append(LINE_BREAK);
        s.append(messages[i].render(now).as_str());
    }
    proof {
        assert(messages@.subrange(0, messages@.len() as int) =~= messages@);
    }
    s
}

/// The messages that `team` sent, in the order they came.
pub open spec fn of_team(entries: Seq<(String, CachedMessage)>, team: Seq<char>) -> Seq<CachedMessage>
    decreases entries.len(),
{
    if entries.len() == 0 {
        Seq::empty()
    } else if entries.last().0@ == team {
        of_team(entries.drop_last(), team).push(entries.last().1)
    } else {
        of_team(entries.drop_last(), team)
    }
}

/// For each player in turn whose opposing team said something: the player's
/// identity and the collected messages of that team.
pub open spec fn deliveries(
    players: Seq<(String, String)>,
    entries: Seq<(String, CachedMessage)>,
    now: Span,
) -> Seq<(Seq<char>, Seq<char>)>
    decreases players.len(),
{
    if players.len() == 0 {
        Seq::empty()
    } else {
        let rest = deliveries(players.drop_last(), entries, now);
        let p = players.last();
        match opposite_of(p.1@) {
            Some(o) => if of_team(entries, o).len() > 0 {
                rest.push((p.0@, collected_text(of_team(entries, o), now)))
            } else {
                rest
            },
            None => rest,
        }
    }
}

pub open spec fn pair_views(v: Seq<(String, String)>) -> Seq<(Seq<char>, Seq<char>)> {
    v.map_values(|p: (String, String)| (p.0@, p.1@))
}

/// Chat gathered on each side, to be passed to the other side in batches.
pub struct RadioSpies {
    messages: Vec<(String, CachedMessage)>,
}

impl RadioSpies {
    pub closed spec fn entries(&self) -> Seq<(String, CachedMessage)> {
        self.messages@
    }

    pub closed spec fn wf(&self) -> bool {
        forall|i: int| 0 <= i < self.messages@.len() ==> (#[trigger] self.messages@[i]).1.time.wf()
    }

    /// Messages of `team` waiting for delivery.
    pub open spec fn cached(&self, team: Seq<char>) -> Seq<CachedMessage> {
        of_team(self.entries(), team)
    }

    pub fn new() -> (r: RadioSpies)
        ensures
            r.wf(),
            forall|team: Seq<char>| r.cached(team).len() == 0,
    {
        RadioSpies { messages: Vec::new() }
    }

    /// Holds back a chat message of `team`.
    pub fn record(&mut self, team: String, message: CachedMessage)
        requires
            old(self).wf(),
            message.time.wf(),
        ensures
            final(self).wf(),
            final(self).cached(team@) == old(self).cached(team@).push(message),
            forall|other: Seq<char>| other != team@ ==> final(self).cached(other) == old(self).cached(other),
    {
        let ghost before = self.messages@;
        self.messages.push((team, message));
        proof {
            assert(self.messages@.drop_last() =~= before);
        }
    }

    fn team_messages(&self, team: &str) -> (r: Vec<CachedMessage>)
        requires
            self.wf(),
        ensures
            r@ == self.cached(team@),
            all_wf(r@),
    {
        let mut out: Vec<CachedMessage> = Vec::new();
        let mut i: usize = 0;
        while i < self.messages.len()
            invariant
                i <= self.messages@.len(),
                self.wf(),
                out@ == of_team(self.messages@.subrange(0, i as int), team@),
                all_wf(out@),
            decreases self.messages.len() - i,
        {
            proof {
                assert(self.messages@.subrange(0, i as int + 1).drop_last() =~= self.messages@.subrange(0, i as int));
            }
            if word_is(&self.messages[i].0, team) {
                out.push(self.messages[i].1.copy());
            }
            i += 1;
        }
        proof {
            assert(self.messages@.subrange(0, self.messages@.len() as int) =~= self.messages@);
        }
        out
    }

    /// Builds, for each player (identity, team), the batch from the opposing team,
    /// then forgets every held message.
    pub fn flush(&mut self, players: &Vec<(String, String)>, now: Span) -> (r: Vec<(String, String)>)
        requires
            old(self).wf(),
            now.wf(),
        ensures
            final(self).wf(),
            pair_views(r@) == deliveries(players@, old(self).entries(), now),
            forall|team: Seq<char>| final(self).cached(team).len() == 0,
    {
        let mut out: Vec<(String, String)> = Vec::new();
        let mut i: usize = 0;
        proof {
            assert(players@.subrange(0, 0) =~= Seq::<(String, String)>::empty());
            assert(pair_views(out@) =~= Seq::<(Seq<char>, Seq<char>)>::empty());
        }
        while i < players.len()
            invariant
                i <= players@.len(),
                self.wf(),
                now.wf(),
                pair_views(out@) == deliveries(players@.subrange(0, i as int), self.entries(), now),
            decreases players.len() - i,
        {
            proof {
                assert(players@.subrange(0, i as int + 1).drop_last() =~= players@.subrange(0, i as int));
            }
            match opposite_team(players[i].1.as_str()) {
                Some(o) => {
                    let batch = self.team_messages(o);
                    if batch.len() > 0 {
                        let text = build_collected_message(&batch, now);
                        let id = players[i].0.clone();
                        proof {
                            assert(pair_views(out@.push((id, text))) =~= pair_views(out@).push((id@, text@)));
                        }
                        out.push((id, text));
                    }
                },
                None => {},
            }
            i += 1;
        }
        proof {
            assert(players@.subrange(0, players@.len() as int) =~= players@);
        }
        self.messages = Vec::new();
        out
    }
}

} // verus!
