use vstd::prelude::*;
use vstd::string::*;

verus! {

/// Splits as `str::split(" ")` does: every single space ends a word, so two spaces
/// in a row give an empty word, and the result is never empty.
pub open spec fn split_acc(s: Seq<char>, cur: Seq<char>, done: Seq<Seq<char>>) -> Seq<Seq<char>>
    decreases s.len(),
{
    if s.len() == 0 {
        done.push(cur)
    } else if s[0] == ' ' {
        split_acc(s.drop_first(), Seq::empty(), done.push(cur))
    } else {
        split_acc(s.drop_first(), cur.push(s[0]), done)
    }
}

pub open spec fn split_spaces(s: Seq<char>) -> Seq<Seq<char>> {
    split_acc(s, Seq::empty(), Seq::empty())
}

proof fn lemma_split_len(s: Seq<char>, cur: Seq<char>, done: Seq<Seq<char>>)
    ensures
        split_acc(s, cur, done).len() >= done.len() + 1,
    decreases s.len(),
{
    if s.len() > 0 {
        if s[0] == ' ' {
            lemma_split_len(s.drop_first(), Seq::empty(), done.push(cur));
        } else {
            lemma_split_len(s.drop_first(), cur.push(s[0]), done);
        }
    }
}

pub proof fn lemma_split_nonempty(s: Seq<char>)
    ensures
        split_spaces(s).len() >= 1,
{
    lemma_split_len(s, Seq::empty(), Seq::empty());
}

pub open spec fn views(v: Seq<String>) -> Seq<Seq<char>> {
    v.map_values(|w: String| w@)
}

/// The words of `s` between single spaces.
pub fn split_words(s: &str) -> (r: Vec<String>)
    ensures
        views(r@) == split_spaces(s@),
        r@.len() >= 1,
{
    let n = s.unicode_len();
    let mut words: Vec<String> = Vec::new();
    let mut start: usize = 0;
    let mut i: usize = 0;
    proof {
        assert(s@.skip(0) =~= s@);
        assert(s@.subrange(0, 0) =~= Seq::<char>::empty());
        assert(views(words@) =~= Seq::<Seq<char>>::empty());
    }
    while i < n
        invariant
            n == s@.len(),
            start <= i <= n,
            split_acc(s@.skip(i as int), s@.subrange(start as int, i as int), views(words@))
                == split_spaces(s@),
        decreases n - i,
    {
        let c = s.get_char(i);
        proof {
            assert(s@.skip(i as int).drop_first() =~= s@.skip(i as int + 1));
            assert(s@.skip(i as int)[0] == c);
        }
        if c == ' ' {
            let w = String::from_str(s.substring_char(start, i));
            proof {
                assert(views(words@.push(w)) =~= views(words@).push(s@.subrange(start as int, i as int)));
                assert(s@.subrange(i as int + 1, i as int + 1) =~= Seq::<char>::empty());
            }
            words.push(w);
            start = i + 1;
        } else {
            proof {
                assert(s@.subrange(start as int, i as int + 1) =~= s@.subrange(start as int, i as int).push(c));
            }
        }
        i = i + 1;
    }
    let w = String::from_str(s.substring_char(start, n));
    proof {
        assert(s@.skip(n as int) =~= Seq::<char>::empty());
        assert(views(words@.push(w)) =~= views(words@).push(s@.subrange(start as int, n as int)));
        lemma_split_nonempty(s@);
    }
    words.push(w);
    words
}

/// Whether `w` is exactly the text `lit`.
pub fn word_is(w: &String, lit: &str) -> (r: bool)
    ensures
        r == (w@ == lit@),
{
    let l = String::from_str(lit);
    *w == l
}

} // verus!
