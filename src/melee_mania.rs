use vstd::prelude::*;
use vstd::string::*;
use crate::infractions::{InfractionTable, next_count};
use crate::messages::{
    end_message, end_text, info_message, info_text, running_message, running_text, start_message,
    start_text,
};
use crate::span::Span;

verus! {

/// What `str::to_lowercase` returns for a text.
pub uninterp spec fn lower_of(s: Seq<char>) -> Seq<char>;

/// Relies on `str::to_lowercase`: the result depends on the characters alone.
#[verifier::external_body]
fn to_lowercase(s: &str) -> (r: String)
    ensures
        r@ == lower_of(s@),
{
    s.to_lowercase()
}

/// `pat` occurs in `s` as a run of consecutive characters.
pub open spec fn has_substring(s: Seq<char>, pat: Seq<char>) -> bool {
    exists|i: int| 0 <= i <= s.len() - pat.len() && #[trigger] s.subrange(i, i + pat.len()) == pat
}

/// Relies on `str::contains` with a `&str` pattern: whether `pat` occurs in `s`.
#[verifier::external_body]
fn str_contains(s: &str, pat: &str) -> (r: bool)
    ensures
        r == has_substring(s@, pat@),
{
    s.contains(pat)
}

pub const KNIFE: &'static str = "knife";

pub const SHOVEL: &'static str = "shovel";

pub const SPATEN: &'static str = "spaten";

pub const SPADE: &'static str = "spade";

pub const SYKES: &'static str = "sykes";

/// A lower-case weapon name counts as melee where it holds one of the melee keywords.
pub open spec fn names_melee_weapon(lower: Seq<char>) -> bool {
    has_substring(lower, KNIFE@) || has_substring(lower, SHOVEL@) || has_substring(lower, SPATEN@)
        || has_substring(lower, SPADE@) || has_substring(lower, SYKES@)
}

/// Whether an already lower-cased weapon name is a melee weapon.
pub fn is_lowered_weapon_melee(lower: &str) -> (r: bool)
    ensures
        r == names_melee_weapon(lower@),
{
    str_contains(lower, KNIFE) || str_contains(lower, SHOVEL) || str_contains(lower, SPATEN)
        || str_contains(lower, SPADE) || str_contains(lower, SYKES)
}

/// Whether a weapon is a melee weapon: a keyword match that ignores case. Any other
/// weapon, known or not, breaks the rule.
pub fn is_weapon_melee(name: &str) -> (r: bool)
    ensures
        r == names_melee_weapon(lower_of(name@)),
{
    let lower = to_lowercase(name);
    is_lowered_weapon_melee(lower.as_str())
}

/// Timing of one melee-only mini-game.
#[derive(Clone, Copy, Debug, PartialEq, Eq, Structural)]
pub struct MeleeManiaConfig {
    /// Time from the announcement to the start of enforcement.
    pub delay: Span,
    /// How long enforcement lasts.
    pub duration: Span,
}

pub const DEFAULT_DELAY_SECS: u64 = 130;

pub const DEFAULT_DURATION_SECS: u64 = 300;

impl MeleeManiaConfig {
    pub open spec fn wf(self) -> bool {
        self.delay.wf() && self.duration.wf()
    }
}

impl Default for MeleeManiaConfig {
    /// Two minutes and ten seconds of delay, five minutes of enforcement.
    fn default() -> (r: MeleeManiaConfig)
        ensures
            r.wf(),
            r.delay == (Span { secs: DEFAULT_DELAY_SECS, nanos: 0 }),
            r.duration == (Span { secs: DEFAULT_DURATION_SECS, nanos: 0 }),
    {
        MeleeManiaConfig {
            delay: Span::from_secs(DEFAULT_DELAY_SECS),
            duration: Span::from_secs(DEFAULT_DURATION_SECS),
        }
    }
}

/// A player as the event stream names them: display name and identity.
#[derive(Clone, Debug, PartialEq, Eq)]
pub struct Player {
    pub name: String,
    pub id: String,
}

impl Player {
    pub fn copy(&self) -> (r: Player)
        ensures
            r == *self,
    {
        Player { name: self.name.clone(), id: self.id.clone() }
    }
}

/// The parts of the server's event stream that mini-games read.
#[derive(Clone, Debug, PartialEq, Eq)]
pub enum GameEvent {
    Kill { killer: Player, victim: Player, weapon: String },
    Connect { player: Player },
    Other,
}

/// What wakes a running mini-game.
#[derive(Clone, Debug, PartialEq, Eq)]
pub enum Signal {
    /// The delay between announcement and enforcement has passed.
    DelayElapsed,
    /// The end of enforcement has come.
    DeadlineReached,
    /// The instance was asked to stop.
    Cancelled,
    /// A message arrived on the event stream.
    Incoming(GameEvent),
}

/// Work that a mini-game hands to the connection.
#[derive(Clone, Debug, PartialEq, Eq)]
pub enum Action {
    /// Send a message to every player on the server.
    Broadcast(String),
    /// Discard the event backlog that piled up unread.
    Drain,
    /// Force the named player to redeploy, with a reason.
    Punish { player: String, reason: String },
    /// Kick the named player, with a reason.
    Kick { player: String, reason: String },
    /// Send a private message to the player with this identity.
    Message { player: String, text: String },
}

pub open spec fn is_broadcast(a: Action, text: Seq<char>) -> bool {
    a matches Action::Broadcast(t) && t@ == text
}

pub open spec fn is_message(a: Action, player: Seq<char>, text: Seq<char>) -> bool {
    a matches Action::Message { player: p, text: t } && p@ == player && t@ == text
}

/// Life of one instance: linear, never re-entered.
#[derive(Clone, Copy, Debug, PartialEq, Eq, Structural)]
pub enum Phase {
    Announced,
    Delayed,
    Enforcing,
    Ended,
}

/// Penalty tier for a rule-breaking kill.
#[derive(Clone, Copy, Debug, PartialEq, Eq, Structural)]
pub enum PenaltyKind {
    Punish,
    Kick,
}

/// The tier that the `count`-th violation earns: one or two punish, three or more kick.
pub open spec fn penalty_for(count: nat) -> PenaltyKind {
    if count <= 2 {
        PenaltyKind::Punish
    } else {
        PenaltyKind::Kick
    }
}

pub const KILLER_OPENING: &'static str = "\"Your kill with ";

pub const KILLER_PUNISH_CLOSING: &'static str =
    " violated the melee only rule. You may only use your melee weapon during this event.\"";

pub const KILLER_KICK_CLOSING: &'static str =
    " violated the melee only rule. Due to previous infractions you have been kicked.\"";

pub const VICTIM_OPENING: &'static str = "Your killer ";

pub const VICTIM_PUNISH_MIDDLE: &'static str = " has been redeployed for killing you with ";

pub const VICTIM_KICK_MIDDLE: &'static str = " has been kicked for killing you with ";

pub const FULL_STOP: &'static str = ".";

/// The reason that the offender is given.
pub open spec fn killer_text(kind: PenaltyKind, weapon: Seq<char>) -> Seq<char> {
    match kind {
        PenaltyKind::Punish => KILLER_OPENING@ + weapon + KILLER_PUNISH_CLOSING@,
        PenaltyKind::Kick => KILLER_OPENING@ + weapon + KILLER_KICK_CLOSING@,
    }
}

/// The notice that the victim is sent.
pub open spec fn victim_text(kind: PenaltyKind, killer: Seq<char>, weapon: Seq<char>) -> Seq<char> {
    match kind {
        PenaltyKind::Punish => VICTIM_OPENING@ + killer + VICTIM_PUNISH_MIDDLE@ + weapon + FULL_STOP@,
        PenaltyKind::Kick => VICTIM_OPENING@ + killer + VICTIM_KICK_MIDDLE@ + weapon + FULL_STOP@,
    }
}

/// A kill that broke the rule: who killed whom, and with what.
pub struct PenaltyContext {
    pub killer: Player,
    pub victim: Player,
    pub weapon: String,
}

impl PenaltyContext {
    pub fn new(killer: Player, victim: Player, weapon: String) -> (r: PenaltyContext)
        ensures
            r.killer == killer,
            r.victim == victim,
            r.weapon == weapon,
    {
        PenaltyContext { killer, victim, weapon }
    }
}

/// The two actions of a penalty: the enforcement on the killer, then the notice to the victim.
pub open spec fn penalty_actions_hold(
    kind: PenaltyKind,
    killer: Player,
    victim: Player,
    weapon: Seq<char>,
    acts: Seq<Action>,
) -> bool {
    &&& acts.len() == 2
    &&& match kind {
        PenaltyKind::Punish => acts[0] matches Action::Punish { player: p, reason: t } && p@
            == killer.name@ && t@ == killer_text(kind, weapon),
        PenaltyKind::Kick => acts[0] matches Action::Kick { player: p, reason: t } && p@
            == killer.name@ && t@ == killer_text(kind, weapon),
    }
    &&& is_message(acts[1], victim.id@, victim_text(kind, killer.name@, weapon))
}

impl PenaltyKind {
    /// The actions that carry out this penalty for one kill.
    pub fn execute(&self, ctx: &PenaltyContext) -> (r: Vec<Action>)
        ensures
            penalty_actions_hold(*self, ctx.killer, ctx.victim, ctx.weapon@, r@),
    {
        let mut reason = String::from_str(KILLER_OPENING);
        reason.append(ctx.weapon.as_str());
        let mut notice = String::from_str(VICTIM_OPENING);
        notice.append(ctx.killer.name.as_str());
        match self {
            PenaltyKind::Punish => {
                reason.append(KILLER_PUNISH_CLOSING);
                notice.append(VICTIM_PUNISH_MIDDLE);
            },
            PenaltyKind::Kick => {
                reason.append(KILLER_KICK_CLOSING);
                notice.append(VICTIM_KICK_MIDDLE);
            },
        }
        notice.append(ctx.weapon.as_str());
        notice.append(FULL_STOP);
        let player = ctx.killer.name.clone();
        let enforce = match self {
            PenaltyKind::Punish => Action::Punish { player, reason },
            PenaltyKind::Kick => Action::Kick { player, reason },
        };
        let mut acts = Vec::new();
        acts.push(enforce);
        acts.push(Action::Message { player: ctx.victim.id.clone(), text: notice });
        acts
    }
}


/// One instance of the melee-only mini-game: announced, then delayed, then
/// enforcing the rule until its end or until it is cancelled.
pub struct MeleeMania {
    config: MeleeManiaConfig,
    phase: Phase,
    infractions: InfractionTable,
    end: Span,
}

impl MeleeMania {
    pub closed spec fn wf(&self) -> bool {
        self.config.wf() && self.end.wf() && self.infractions.wf()
    }

    pub closed spec fn spec_phase(&self) -> Phase {
        self.phase
    }

    pub closed spec fn spec_config(&self) -> MeleeManiaConfig {
        self.config
    }

    /// The instant at which enforcement stops, on the clock that `new` was given.
    pub closed spec fn spec_end(&self) -> Span {
        self.end
    }

    /// Violations of `id` in this instance.
    pub closed spec fn violations(&self, id: Seq<char>) -> nat {
        self.infractions.count(id)
    }

    /// A fresh instance created at `now`: it ends `delay + duration` later.
    pub fn new(config: MeleeManiaConfig, now: Span) -> (r: MeleeMania)
        requires
            config.wf(),
            now.wf(),
            now.total() + config.delay.total() + config.duration.total() < (u64::MAX as nat + 1)
                * 1_000_000_000,
        ensures
            r.wf(),
            r.spec_phase() == Phase::Announced,
            r.spec_config() == config,
            r.spec_end().total() == now.total() + config.delay.total() + config.duration.total(),
            forall|id: Seq<char>| r.violations(id) == 0,
    {
        let total = config.delay.checked_add(config.duration).unwrap();
        let end = now.checked_add(total).unwrap();
        MeleeMania { config, phase: Phase::Announced, infractions: InfractionTable::new(), end }
    }

    pub fn phase(&self) -> (r: Phase)
        ensures
            r == self.spec_phase(),
    {
        self.phase
    }

    pub fn config(&self) -> (r: MeleeManiaConfig)
        ensures
            r == self.spec_config(),
    {
        self.config
    }

    pub fn end(&self) -> (r: Span)
        ensures
            r == self.spec_end(),
    {
        self.end
    }

    /// Violations recorded for the player `id`.
    pub fn violations_of(&self, id: &String) -> (r: u64)
        requires
            self.wf(),
        ensures
            r as nat == self.violations(id@),
    {
        self.infractions.get(id)
    }

    /// Leaves `Announced`: the announcement goes out and the delay begins.
    pub fn announce(&mut self) -> (r: Vec<Action>)
        requires
            old(self).wf(),
        ensures
            final(self).wf(),
            final(self).spec_config() == old(self).spec_config(),
            final(self).spec_end() == old(self).spec_end(),
            forall|id: Seq<char>| final(self).violations(id) == old(self).violations(id),
            old(self).spec_phase() == Phase::Announced ==> {
                &&& final(self).spec_phase() == Phase::Delayed
                &&& r@.len() == 1
                &&& is_broadcast(
                    r@[0],
                    info_text(old(self).spec_config().delay.text(), old(self).spec_config().duration.text()),
                )
            },
            old(self).spec_phase() != Phase::Announced ==> final(self).spec_phase() == old(self).spec_phase()
                && r@.len() == 0,
    {
        let mut acts = Vec::new();
        if self.phase == Phase::Announced {
            acts.push(Action::Broadcast(info_message(&self.config.delay, &self.config.duration)));
            self.phase = Phase::Delayed;
        }
        acts
    }

    /// Reacts to one signal and returns what the connection has to do.
    pub fn step(&mut self, signal: Signal, now: Span) -> (r: Vec<Action>)
        requires
            old(self).wf(),
            now.wf(),
        ensures
            final(self).wf(),
            final(self).spec_config() == old(self).spec_config(),
            final(self).spec_end() == old(self).spec_end(),
            // Counts never go down, and only the offender of a counted kill gains one.
            forall|id: Seq<char>| #[trigger] final(self).violations(id) >= old(self).violations(id),
            step_holds(*old(self), signal, now, *final(self), r@),
    {
        let mut acts = Vec::new();
        match self.phase {
            Phase::Delayed => match signal {
                Signal::DelayElapsed => {
                    acts.push(Action::Broadcast(start_message(&self.config.duration)));
                    acts.push(Action::Drain);
                    self.phase = Phase::Enforcing;
                },
                Signal::Cancelled => {
                    self.phase = Phase::Ended;
                },
                _ => {},
            },
            Phase::Enforcing => match signal {
                Signal::Cancelled => {
                    acts.push(Action::Broadcast(end_message()));
                    self.phase = Phase::Ended;
                },
                Signal::DeadlineReached => {
                    if now.reached(self.end) {
                        acts.push(Action::Broadcast(end_message()));
                        self.phase = Phase::Ended;
                    }
                },
                Signal::Incoming(event) => {
                    acts = self.handle_event(event, now);
                },
                Signal::DelayElapsed => {},
            },
            _ => {},
        }
        acts
    }

    /// Enforcement of one event from the stream.
    fn handle_event(&mut self, event: GameEvent, now: Span) -> (r: Vec<Action>)
        requires
            old(self).wf(),
            now.wf(),
            old(self).spec_phase() == Phase::Enforcing,
        ensures
            final(self).wf(),
            final(self).spec_config() == old(self).spec_config(),
            final(self).spec_end() == old(self).spec_end(),
            final(self).spec_phase() == Phase::Enforcing,
            forall|id: Seq<char>| #[trigger] final(self).violations(id) >= old(self).violations(id),
            event_holds(*old(self), event, now, *final(self), r@),
    {
        match event {
            GameEvent::Connect { player } => {
                let remaining = self.end.saturating_sub(now);
                let text = running_message(&remaining);
                let mut acts = Vec::new();
                acts.push(Action::Message { player: player.id, text });
                acts
            },
            GameEvent::Kill { killer, victim, weapon } => {
                if is_weapon_melee(weapon.as_str()) {
                    return Vec::new();
                }
                let count = self.infractions.record(&killer.id);
                let kind = if count <= 2 {
                    PenaltyKind::Punish
                } else {
                    PenaltyKind::Kick
                };
                let ctx = PenaltyContext::new(killer, victim, weapon);
                kind.execute(&ctx)
            },
            GameEvent::Other => Vec::new(),
        }
    }
}

/// What a counted kill does: the offender gains one violation, no one else does,
/// and the penalty follows the new count.
pub open spec fn kill_holds(
    before: MeleeMania,
    killer: Player,
    victim: Player,
    weapon: Seq<char>,
    after: MeleeMania,
    acts: Seq<Action>,
) -> bool {
    &&& after.violations(killer.id@) == next_count(before.violations(killer.id@))
    &&& forall|other: Seq<char>| other != killer.id@ ==> after.violations(other) == before.violations(other)
    &&& penalty_actions_hold(penalty_for(after.violations(killer.id@)), killer, victim, weapon, acts)
}

/// The table of violations is the same before and after.
pub open spec fn same_violations(before: MeleeMania, after: MeleeMania) -> bool {
    forall|id: Seq<char>| after.violations(id) == before.violations(id)
}

/// How an enforcing instance answers one event.
pub open spec fn event_holds(
    before: MeleeMania,
    event: GameEvent,
    now: Span,
    after: MeleeMania,
    acts: Seq<Action>,
) -> bool {
    match event {
        GameEvent::Connect { player } => same_violations(before, after) && acts.len() == 1
            && exists|rem: Span| rem.wf() && is_message(acts[0], player.id@, running_text(rem.text()))
            && (before.spec_end().total() >= now.total() ==> rem.total() == before.spec_end().total() - now.total())
            && (before.spec_end().total() < now.total() ==> rem.total() == 0),
        GameEvent::Kill { killer, victim, weapon } => if names_melee_weapon(lower_of(weapon@)) {
            same_violations(before, after) && acts.len() == 0
        } else {
            kill_holds(before, killer, victim, weapon@, after, acts)
        },
        GameEvent::Other => same_violations(before, after) && acts.len() == 0,
    }
}

/// The whole transition relation of the mini-game.
pub open spec fn step_holds(
    before: MeleeMania,
    signal: Signal,
    now: Span,
    after: MeleeMania,
    acts: Seq<Action>,
) -> bool {
    match before.spec_phase() {
        Phase::Delayed => match signal {
            Signal::DelayElapsed => after.spec_phase() == Phase::Enforcing && same_violations(before, after)
                && acts.len() == 2 && is_broadcast(acts[0], start_text(before.spec_config().duration.text()))
                && acts[1] == Action::Drain,
            Signal::Cancelled => after.spec_phase() == Phase::Ended && same_violations(before, after)
                && acts.len() == 0,
            _ => after.spec_phase() == Phase::Delayed && same_violations(before, after) && acts.len() == 0,
        },
        Phase::Enforcing => match signal {
            Signal::Cancelled => after.spec_phase() == Phase::Ended && same_violations(before, after)
                && acts.len() == 1 && is_broadcast(acts[0], end_text()),
            // A deadline that comes early (a timer that fired ahead of the clock) changes nothing.
            Signal::DeadlineReached => if now.total() >= before.spec_end().total() {
                after.spec_phase() == Phase::Ended && same_violations(before, after) && acts.len() == 1
                    && is_broadcast(acts[0], end_text())
            } else {
                after.spec_phase() == Phase::Enforcing && same_violations(before, after) && acts.len() == 0
            },
            Signal::Incoming(event) => after.spec_phase() == Phase::Enforcing
                && event_holds(before, event, now, after, acts),
            Signal::DelayElapsed => after.spec_phase() == Phase::Enforcing && same_violations(before, after)
                && acts.len() == 0,
        },
        // Announced waits for `announce`; Ended is terminal.
        _ => after.spec_phase() == before.spec_phase() && same_violations(before, after) && acts.len() == 0,
    }
}

/// Once ended, an instance stays ended: no signal changes its phase or its table
/// of violations, and none makes it act.
pub proof fn lemma_ended_is_terminal(
    before: MeleeMania,
    signal: Signal,
    now: Span,
    after: MeleeMania,
    acts: Seq<Action>,
)
    requires
        before.spec_phase() == Phase::Ended,
        step_holds(before, signal, now, after, acts),
    ensures
        after.spec_phase() == Phase::Ended,
        forall|id: Seq<char>| after.violations(id) == before.violations(id),
        acts.len() == 0,
{
}

/// Enforcement ends before the instance's end time only when it is cancelled.
pub proof fn lemma_no_early_end(
    before: MeleeMania,
    signal: Signal,
    now: Span,
    after: MeleeMania,
    acts: Seq<Action>,
)
    requires
        before.spec_phase() == Phase::Enforcing,
        step_holds(before, signal, now, after, acts),
        signal != Signal::Cancelled,
        now.total() < before.spec_end().total(),
    ensures
        after.spec_phase() == Phase::Enforcing,
{
}

/// A counted kill raises the offender's violations by exactly one (below the
/// largest count) and never lowers anyone's; the first and second violation earn
/// the punish tier, every later one the kick tier.
pub proof fn lemma_violations_escalate(
    before: MeleeMania,
    killer: Player,
    victim: Player,
    weapon: Seq<char>,
    after: MeleeMania,
    acts: Seq<Action>,
)
    requires
        kill_holds(before, killer, victim, weapon, after, acts),
        before.violations(killer.id@) < u64::MAX,
    ensures
        after.violations(killer.id@) == before.violations(killer.id@) + 1,
        forall|id: Seq<char>| after.violations(id) >= before.violations(id),
        after.violations(killer.id@) <= 2 ==> acts[0] is Punish,
        after.violations(killer.id@) >= 3 ==> acts[0] is Kick,
{
}

/// How often the player `id` killed among `killers`.
pub open spec fn kills_by(killers: Seq<Player>, id: Seq<char>) -> nat
    decreases killers.len(),
{
    if killers.len() == 0 {
        0
    } else {
        kills_by(killers.drop_last(), id) + if killers.last().id@ == id {
            1nat
        } else {
            0nat
        }
    }
}

/// Consecutive counted kills: `states[i + 1]` follows from `states[i]` through the
/// `i`-th kill, which hands out `acts[i]`.
pub open spec fn kill_chain(
    states: Seq<MeleeMania>,
    killers: Seq<Player>,
    victims: Seq<Player>,
    weapons: Seq<Seq<char>>,
    acts: Seq<Seq<Action>>,
) -> bool {
    &&& states.len() == killers.len() + 1
    &&& victims.len() == killers.len()
    &&& weapons.len() == killers.len()
    &&& acts.len() == killers.len()
    &&& forall|i: int| 0 <= i < killers.len() ==> #[trigger] kill_holds(
        states[i],
        killers[i],
        victims[i],
        weapons[i],
        states[i + 1],
        acts[i],
    )
}

proof fn lemma_counts_along(
    states: Seq<MeleeMania>,
    killers: Seq<Player>,
    victims: Seq<Player>,
    weapons: Seq<Seq<char>>,
    acts: Seq<Seq<Action>>,
    j: int,
)
    requires
        kill_chain(states, killers, victims, weapons, acts),
        forall|id: Seq<char>| #[trigger] states[0].violations(id) + killers.len() < u64::MAX,
        0 <= j <= killers.len(),
    ensures
        forall|id: Seq<char>| #[trigger] states[j].violations(id) == states[0].violations(id) + kills_by(
            killers.take(j),
            id,
        ),
    decreases j,
{
    if j == 0 {
        assert forall|id: Seq<char>| #[trigger] states[j].violations(id) == states[0].violations(id)
            + kills_by(killers.take(j), id) by {
            assert(killers.take(0).len() == 0);
        }
    } else {
        lemma_counts_along(states, killers, victims, weapons, acts, j - 1);
        let k = j - 1;
        assert(kill_holds(states[k], killers[k], victims[k], weapons[k], states[k + 1], acts[k]));
        assert(killers.take(j).drop_last() =~= killers.take(k));
        assert forall|id: Seq<char>| #[trigger] states[j].violations(id) == states[0].violations(id)
            + kills_by(killers.take(j), id) by {
            assert(states[0].violations(id) + killers.len() < u64::MAX);
            if id == killers[k].id@ {
                assert(kills_by(killers.take(k), id) <= k) by {
                    lemma_kills_by_bound(killers.take(k), id);
                }
            }
        }
    }
}

proof fn lemma_kills_by_bound(killers: Seq<Player>, id: Seq<char>)
    ensures
        kills_by(killers, id) <= killers.len(),
    decreases killers.len(),
{
    if killers.len() > 0 {
        lemma_kills_by_bound(killers.drop_last(), id);
    }
}

/// Along any run of counted kills, the penalty of each kill is fixed by the table
/// at the start and the killers so far: a player's kill earns the tier of their
/// starting count plus the number of their kills up to and including this one.
/// The same start and the same killers give the same penalties, every time.
pub proof fn lemma_penalties_follow_tally(
    states: Seq<MeleeMania>,
    killers: Seq<Player>,
    victims: Seq<Player>,
    weapons: Seq<Seq<char>>,
    acts: Seq<Seq<Action>>,
)
    requires
        kill_chain(states, killers, victims, weapons, acts),
        forall|id: Seq<char>| #[trigger] states[0].violations(id) + killers.len() < u64::MAX,
    ensures
        forall|i: int| 0 <= i < killers.len() ==> penalty_actions_hold(
            penalty_for(states[0].violations(killers[i].id@) + kills_by(killers.take(i + 1), killers[i].id@)),
            killers[i],
            victims[i],
            weapons[i],
            #[trigger] acts[i],
        ),
{
    assert forall|i: int| 0 <= i < killers.len() implies penalty_actions_hold(
        penalty_for(states[0].violations(killers[i].id@) + kills_by(killers.take(i + 1), killers[i].id@)),
        killers[i],
        victims[i],
        weapons[i],
        #[trigger] acts[i],
    ) by {
        lemma_counts_along(states, killers, victims, weapons, acts, i + 1);
        assert(kill_holds(states[i], killers[i], victims[i], weapons[i], states[i + 1], acts[i]));
    }
}

} // verus!
