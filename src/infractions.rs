use vstd::prelude::*;

verus! {

/// Violation count that follows `c` after one more infraction; it stays put at the
/// largest value a `u64` holds.
pub open spec fn next_count(c: nat) -> nat {
    if c < u64::MAX as nat {
        c + 1
    } else {
        c
    }
}

/// The count that the last entry for `id` holds, or zero where there is none.
pub open spec fn count_in(s: Seq<(String, u64)>, id: Seq<char>) -> nat
    decreases s.len(),
{
    if s.len() == 0 {
        0
    } else if s.last().0@ == id {
        s.last().1 as nat
    } else {
        count_in(s.drop_last(), id)
    }
}

pub open spec fn keys_unique(s: Seq<(String, u64)>) -> bool {
    forall|i: int, j: int| 0 <= i < j < s.len() ==> s[i].0@ != s[j].0@
}

proof fn lemma_count_at(s: Seq<(String, u64)>, id: Seq<char>, i: int)
    requires
        keys_unique(s),
        0 <= i < s.len(),
        s[i].0@ == id,
    ensures
        count_in(s, id) == s[i].1 as nat,
    decreases s.len(),
{
    if i < s.len() - 1 {
        assert(s.last().0@ != id);
        assert(keys_unique(s.drop_last()));
        lemma_count_at(s.drop_last(), id, i);
    }
}

proof fn lemma_count_absent(s: Seq<(String, u64)>, id: Seq<char>)
    requires
        forall|i: int| 0 <= i < s.len() ==> s[i].0@ != id,
    ensures
        count_in(s, id) == 0,
    decreases s.len(),
{
    if s.len() > 0 {
        assert(s.last().0@ != id);
        lemma_count_absent(s.drop_last(), id);
    }
}

/// How often each player broke the rule during one mini-game instance.
pub struct InfractionTable {
    entries: Vec<(String, u64)>,
}

impl InfractionTable {
    pub closed spec fn wf(&self) -> bool {
        keys_unique(self.entries@)
    }

    /// Violations recorded for the player `id`; zero for one never seen.
    pub closed spec fn count(&self, id: Seq<char>) -> nat {
        count_in(self.entries@, id)
    }

    pub fn new() -> (r: InfractionTable)
        ensures
            r.wf(),
            forall|id: Seq<char>| r.count(id) == 0,
    {
        InfractionTable { entries: Vec::new() }
    }

    /// Looks up the violations of `id`.
    pub fn get(&self, id: &String) -> (r: u64)
        requires
            self.wf(),
        ensures
            r as nat == self.count(id@),
    {
        let mut i: usize = 0;
        while i < self.entries.len()
            invariant
                i <= self.entries.len(),
                self.wf(),
                forall|j: int| 0 <= j < i ==> self.entries@[j].0@ != id@,
            decreases self.entries.len() - i,
        {
            if self.entries[i].0 == *id {
                proof {
                    lemma_count_at(self.entries@, id@, i as int);
                }
                return self.entries[i].1;
            }
            i += 1;
        }
        proof {
            lemma_count_absent(self.entries@, id@);
        }
        0
    }

    /// Records one more violation of `id` and returns the new count.
    pub fn record(&mut self, id: &String) -> (r: u64)
        requires
            old(self).wf(),
        ensures
            final(self).wf(),
            r as nat == final(self).count(id@),
            final(self).count(id@) == next_count(old(self).count(id@)),
            forall|other: Seq<char>| other != id@ ==> final(self).count(other) == old(self).count(other),
    {
        let ghost before = self.entries@;
        let mut i: usize = 0;
        while i < self.entries.len()
            invariant
                i <= self.entries.len(),
                self.entries@ == before,
                before == old(self).entries@,
                keys_unique(before),
                forall|j: int| 0 <= j < i ==> self.entries@[j].0@ != id@,
            decreases self.entries.len() - i,
        {
            if self.entries[i].0 == *id {
                let c = self.entries[i].1;
                let n: u64 = if c < u64::MAX { c + 1 } else { c };
                let key = self.entries[i].0.clone();
                self.entries.set(i, (key, n));
                proof {
                    let after = self.entries@;
                    assert(after == before.update(i as int, (key, n)));
                    assert(after[i as int].0@ == id@);
                    assert(keys_unique(after));
                    lemma_count_at(before, id@, i as int);
                    lemma_count_at(after, id@, i as int);
                    assert forall|other: Seq<char>| other != id@ implies count_in(after, other)
                        == count_in(before, other) by {
                        if exists|j: int| 0 <= j < before.len() && before[j].0@ == other {
                            let j = choose|j: int| 0 <= j < before.len() && before[j].0@ == other;
                            lemma_count_at(before, other, j);
                            lemma_count_at(after, other, j);
                        } else {
                            lemma_count_absent(before, other);
                            lemma_count_absent(after, other);
                        }
                    }
                    assert(count_in(before, id@) == c as nat);
                    assert(count_in(after, id@) == n as nat);
                    assert(next_count(c as nat) == n as nat);
                }
                return n;
            }
            i += 1;
        }
        proof {
            lemma_count_absent(before, id@);
        }
        self.entries.push((id.clone(), 1));
        proof {
            let after = self.entries@;
            assert(after.drop_last() == before);
            assert(keys_unique(after));
        }
        1
    }
}

} // verus!
