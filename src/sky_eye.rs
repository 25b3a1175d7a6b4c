use vstd::prelude::*;
use crate::melee_mania::Player;
use crate::words::word_is;

verus! {

/// Options of the admin-camera mini-game.
#[derive(Clone, Copy, Debug, PartialEq, Eq, Structural)]
pub struct SkyEyeConfig {
    /// How many players of each team get admin-camera access.
    pub cam_count: usize,
}

pub const NO_TEAM: &'static str = "None";

/// No index occurs twice.
pub open spec fn distinct(s: Seq<usize>) -> bool {
    forall|i: int, j: int| 0 <= i < j < s.len() ==> s[i] != s[j]
}

/// Relies on `rand::seq::IteratorRandom::choose_multiple` over `0..n`: it returns
/// `amount` of the items, or all `n` where there are fewer, each item at most once.
#[verifier::external_body]
fn choose_indices(n: usize, amount: usize) -> (r: Vec<usize>)
    ensures
        r@.len() == if n < amount { n } else { amount },
        forall|i: int| 0 <= i < r@.len() ==> r@[i] < n,
        distinct(r@),
{
    rand::seq::IteratorRandom::choose_multiple(0..n, &mut rand::thread_rng(), amount)
}

/// The teams that occur, but "None", each once, in order of first appearance.
fn teams_of(players: &Vec<(Player, String)>) -> (r: Vec<String>)
    ensures
        forall|i: int, j: int| 0 <= i < j < r@.len() ==> r@[i]@ != r@[j]@,
        forall|i: int| 0 <= i < r@.len() ==> r@[i]@ != NO_TEAM@,
        forall|k: int| 0 <= k < players@.len() && players@[k].1@ != NO_TEAM@ ==> exists|i: int|
            0 <= i < r@.len() && #[trigger] r@[i]@ == players@[k].1@,
{
    let mut teams: Vec<String> = Vec::new();
    let mut k: usize = 0;
    while k < players.len()
        invariant
            k <= players@.len(),
            forall|i: int, j: int| 0 <= i < j < teams@.len() ==> teams@[i]@ != teams@[j]@,
            forall|i: int| 0 <= i < teams@.len() ==> teams@[i]@ != NO_TEAM@,
            forall|m: int| 0 <= m < k && players@[m].1@ != NO_TEAM@ ==> exists|i: int|
                0 <= i < teams@.len() && #[trigger] teams@[i]@ == players@[m].1@,
        decreases players.len() - k,
    {
        let team = &players[k].1;
        if !word_is(team, NO_TEAM) {
            let mut seen = false;
            let mut i: usize = 0;
            while i < teams.len()
                invariant
                    i <= teams@.len(),
                    seen ==> exists|j: int| 0 <= j < teams@.len() && #[trigger] teams@[j]@ == team@,
                    !seen ==> forall|j: int| 0 <= j < i ==> teams@[j]@ != team@,
                decreases teams.len() - i,
            {
                if teams[i] == *team {
                    seen = true;
                }
                i += 1;
            }
            if !seen {
                let ghost before = teams@;
                teams.push(team.clone());
                proof {
                    assert forall|m: int| 0 <= m < k + 1 && players@[m].1@ != NO_TEAM@ implies exists|i: int|
                        0 <= i < teams@.len() && #[trigger] teams@[i]@ == players@[m].1@ by {
                        if m < k {
                            let i = choose|i: int| 0 <= i < before.len() && #[trigger] before[i]@ == players@[m].1@;
                            assert(teams@[i]@ == players@[m].1@);
                        } else {
                            assert(teams@[before.len() as int]@ == players@[m].1@);
                        }
                    }
                }
            }
        }
        k += 1;
    }
    teams
}

/// Indices of the players of `team`, ascending.
fn members_of(players: &Vec<(Player, String)>, team: &String) -> (r: Vec<usize>)
    ensures
        forall|i: int| #![trigger r@[i]] 0 <= i < r@.len() ==> r@[i] < players@.len() && players@[r@[i] as int].1@ == team@,
        forall|i: int, j: int| 0 <= i < j < r@.len() ==> r@[i] < r@[j],
        r@.len() == team_count(players@, team@),
{
    let mut out: Vec<usize> = Vec::new();
    let mut k: usize = 0;
    while k < players.len()
        invariant
            k <= players@.len(),
            forall|i: int| #![trigger out@[i]] 0 <= i < out@.len() ==> out@[i] < k && players@[out@[i] as int].1@ == team@,
            forall|i: int, j: int| 0 <= i < j < out@.len() ==> out@[i] < out@[j],
            out@.len() == team_count(players@.subrange(0, k as int), team@),
        decreases players.len() - k,
    {
        proof {
            lemma_team_count_push(players@.subrange(0, k as int), players@[k as int], team@);
            assert(players@.subrange(0, k as int).push(players@[k as int]) =~= players@.subrange(0, k as int + 1));
        }
        if players[k].1 == *team {
            let ghost before = out@;
            out.push(k);
            assert(forall|i: int| 0 <= i < before.len() ==> out@[i] == before[i]);
        }
        k += 1;
    }
    proof {
        assert(players@.subrange(0, players@.len() as int) =~= players@);
    }
    out
}

/// How many entries of `s` belong to `team`.
pub open spec fn team_count(s: Seq<(Player, String)>, team: Seq<char>) -> nat
    decreases s.len(),
{
    if s.len() == 0 {
        0
    } else {
        team_count(s.drop_last(), team) + if s.last().1@ == team {
            1nat
        } else {
            0nat
        }
    }
}

pub open spec fn min(a: nat, b: nat) -> nat {
    if a < b {
        a
    } else {
        b
    }
}

proof fn lemma_team_count_push(s: Seq<(Player, String)>, e: (Player, String), team: Seq<char>)
    ensures
        team_count(s.push(e), team) == team_count(s, team) + if e.1@ == team {
            1nat
        } else {
            0nat
        },
{
    assert(s.push(e).drop_last() =~= s);
}

proof fn lemma_team_count_witness(s: Seq<(Player, String)>, team: Seq<char>)
    requires
        team_count(s, team) > 0,
    ensures
        exists|k: int| 0 <= k < s.len() && #[trigger] s[k].1@ == team,
    decreases s.len(),
{
    if s.last().1@ == team {
        assert(s[s.len() - 1].1@ == team);
    } else {
        lemma_team_count_witness(s.drop_last(), team);
        let k = choose|k: int| 0 <= k < s.drop_last().len() && #[trigger] s.drop_last()[k].1@ == team;
        assert(s[k].1@ == team);
    }
}

/// `team` is among the first `t` teams.
pub open spec fn handled(teams: Seq<String>, t: int, team: Seq<char>) -> bool {
    exists|i: int| 0 <= i < t && #[trigger] teams[i]@ == team
}

/// The entries at the given indices, in that order.
pub open spec fn picked(players: Seq<(Player, String)>, chosen: Seq<usize>) -> Seq<(Player, String)> {
    chosen.map_values(|c: usize| players[c as int])
}

/// Indices into `players`, none twice, none of a player without a team.
pub open spec fn fair_choice(players: Seq<(Player, String)>, chosen: Seq<usize>) -> bool {
    &&& distinct(chosen)
    &&& forall|k: int| #![trigger chosen[k]] 0 <= k < chosen.len() ==> chosen[k] < players.len()
        && players[chosen[k] as int].1@ != NO_TEAM@
}

/// What every selection satisfies: of each team but "None", `amount` players are
/// picked, or all of them where the team has fewer; no one is picked twice.
pub open spec fn selection_holds(amount: nat, players: Seq<(Player, String)>, r: Seq<(Player, String)>) -> bool {
    &&& exists|chosen: Seq<usize>| fair_choice(players, chosen) && r == picked(players, chosen)
    &&& forall|team: Seq<char>| team != NO_TEAM@ ==> #[trigger] team_count(r, team) == min(
        amount,
        team_count(players, team),
    )
}

/// Picks up to `amount` players of each team at random; players without a team
/// ("None") are never picked, and no player is picked twice.
pub fn select_random_players(amount: usize, players_with_teams: Vec<(Player, String)>) -> (r: Vec<(Player, String)>)
    ensures
        selection_holds(amount as nat, players_with_teams@, r@),
{
    let players = players_with_teams;
    let teams = teams_of(&players);
    let mut out: Vec<(Player, String)> = Vec::new();
    let ghost mut chosen: Seq<usize> = Seq::empty();
    proof {
        assert(out@ =~= picked(players@, chosen));
    }
    let mut t: usize = 0;
    while t < teams.len()
        invariant
            t <= teams@.len(),
            forall|i: int, j: int| 0 <= i < j < teams@.len() ==> teams@[i]@ != teams@[j]@,
            forall|i: int| 0 <= i < teams@.len() ==> teams@[i]@ != NO_TEAM@,
            fair_choice(players@, chosen),
            out@ == picked(players@, chosen),
            // Each pick so far belongs to one of the teams already handled.
            forall|k: int| #![trigger chosen[k]] 0 <= k < chosen.len() ==> handled(teams@, t as int, players@[chosen[k] as int].1@),
            forall|team: Seq<char>| team != NO_TEAM@ ==> #[trigger] team_count(out@, team) == if handled(teams@, t as int, team) {
                min(amount as nat, team_count(players@, team))
            } else {
                0
            },
        decreases teams.len() - t,
    {
        let members = members_of(&players, &teams[t]);
        let wanted = if amount < members.len() {
            amount
        } else {
            members.len()
        };
        let picks = choose_indices(members.len(), wanted);
        let ghost start = chosen.len();
        proof {
            if handled(teams@, t as int, teams@[t as int]@) {
                let i = choose|i: int| 0 <= i < t && #[trigger] teams@[i]@ == teams@[t as int]@;
                assert(teams@[i]@ != teams@[t as int]@);
            }
        }
        let mut p: usize = 0;
        while p < picks.len()
            invariant
                t < teams@.len(),
                p <= picks@.len(),
                forall|i: int, j: int| 0 <= i < j < teams@.len() ==> teams@[i]@ != teams@[j]@,
                forall|i: int| 0 <= i < teams@.len() ==> teams@[i]@ != NO_TEAM@,
                forall|i: int| 0 <= i < picks@.len() ==> picks@[i] < members@.len(),
                distinct(picks@),
                forall|i: int| #![trigger members@[i]] 0 <= i < members@.len() ==> members@[i] < players@.len()
                    && players@[members@[i] as int].1@ == teams@[t as int]@,
                forall|i: int, j: int| 0 <= i < j < members@.len() ==> members@[i] < members@[j],
                start <= chosen.len(),
                chosen.len() - start == p,
                fair_choice(players@, chosen),
                out@ == picked(players@, chosen),
                forall|k: int| #![trigger chosen[k]] 0 <= k < start ==> handled(teams@, t as int, players@[chosen[k] as int].1@),
                forall|k: int| #![trigger chosen[k]] start <= k < chosen.len() ==> chosen[k]
                    == members@[picks@[k - start] as int],
                team_count(out@, teams@[t as int]@) == p,
                forall|team: Seq<char>| team != NO_TEAM@ && team != teams@[t as int]@ ==> #[trigger] team_count(out@, team)
                    == if handled(teams@, t as int, team) {
                    min(amount as nat, team_count(players@, team))
                } else {
                    0
                },
            decreases picks.len() - p,
        {
            let idx = members[picks[p]];
            let entry = (players[idx].0.copy(), players[idx].1.clone());
            proof {
                assert forall|k: int| 0 <= k < chosen.len() implies chosen[k] != idx by {
                    if k < start {
                        let i = choose|i: int| 0 <= i < t && #[trigger] teams@[i]@ == players@[chosen[k] as int].1@;
                        assert(players@[idx as int].1@ == teams@[t as int]@);
                    } else {
                        let q = picks@[k - start];
                        assert(q != picks@[p as int]);
                        if q < picks@[p as int] {
                            assert(members@[q as int] < members@[picks@[p as int] as int]);
                        } else {
                            assert(members@[picks@[p as int] as int] < members@[q as int]);
                        }
                    }
                }
                let ghost prev = chosen;
                chosen = chosen.push(idx);
                assert(picked(players@, chosen) =~= picked(players@, prev).push(players@[idx as int]));
                assert forall|k: int| #![trigger chosen[k]] 0 <= k < start implies handled(teams@, t as int, players@[chosen[k] as int].1@) by {
                    assert(chosen[k] == prev[k]);
                }
            }
            let ghost before = out@;
            out.push(entry);
            proof {
                assert(players@[members@[picks@[p as int] as int] as int].1@ == teams@[t as int]@);
                assert(entry.1@ == teams@[t as int]@);
                lemma_team_count_push(before, entry, teams@[t as int]@);
                assert forall|team: Seq<char>| team != NO_TEAM@ && team != teams@[t as int]@ implies #[trigger] team_count(out@, team)
                    == team_count(before, team) by {
                    lemma_team_count_push(before, entry, team);
                }
            }
            p += 1;
        }
        proof {
            assert forall|team: Seq<char>| team != NO_TEAM@ implies #[trigger] team_count(out@, team) == if handled(teams@, t + 1, team) {
                min(amount as nat, team_count(players@, team))
            } else {
                0
            } by {
                if team == teams@[t as int]@ {
                    assert(handled(teams@, t + 1, team)) by {
                        assert(teams@[t as int]@ == team);
                    }
                } else if handled(teams@, t + 1, team) {
                    let i = choose|i: int| 0 <= i < t + 1 && #[trigger] teams@[i]@ == team;
                    assert(i != t);
                    assert(handled(teams@, t as int, team));
                } else {
                    assert(!handled(teams@, t as int, team));
                }
            }
            assert forall|k: int| #![trigger chosen[k]] 0 <= k < chosen.len() implies handled(teams@, t + 1, players@[chosen[k] as int].1@) by {
                if k < start {
                    let i = choose|i: int| 0 <= i < t && #[trigger] teams@[i]@ == players@[chosen[k] as int].1@;
                    assert(teams@[i]@ == players@[chosen[k] as int].1@);
                } else {
                    assert(teams@[t as int]@ == players@[chosen[k] as int].1@);
                }
            }
        }
        t += 1;
    }
    proof {
        assert forall|team: Seq<char>| team != NO_TEAM@ implies #[trigger] team_count(out@, team) == min(
            amount as nat,
            team_count(players@, team),
        ) by {
            if !handled(teams@, t as int, team) && team_count(players@, team) > 0 {
                lemma_team_count_witness(players@, team);
                let k = choose|k: int| 0 <= k < players@.len() && #[trigger] players@[k].1@ == team;
                let i = choose|i: int| 0 <= i < teams@.len() && #[trigger] teams@[i]@ == players@[k].1@;
                assert(handled(teams@, t as int, team));
            }
        }
    }
    out
}

} // verus!
