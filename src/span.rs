use vstd::prelude::*;

verus! {

/// Number of nanoseconds in one second.
pub const NANOS_PER_SEC: u32 = 1_000_000_000;

/// A length of time, or a point in time measured from a fixed origin,
/// held as whole seconds and the nanoseconds past them.
#[derive(Clone, Copy, Debug, PartialEq, Eq, Structural)]
pub struct Span {
    pub secs: u64,
    pub nanos: u32,
}

/// What `humantime::format_duration` renders for a duration of `secs` seconds and `nanos` nanoseconds.
pub uninterp spec fn duration_text(secs: u64, nanos: u32) -> Seq<char>;

/// What `humantime::parse_duration` reads from a text: seconds and nanoseconds, or `None` on an error.
pub uninterp spec fn parsed_duration(s: Seq<char>) -> Option<(u64, u32)>;

/// The most decimal digits a duration text may hold. Far below the point where
/// humantime's sums could reach the largest `Duration`.
pub const MAX_DURATION_DIGITS: usize = 11;

/// How many of the characters are the digits 0 to 9.
pub open spec fn digit_count(s: Seq<char>) -> nat
    decreases s.len(),
{
    if s.len() == 0 {
        0
    } else {
        digit_count(s.drop_last()) + if '0' <= s.last() && s.last() <= '9' {
            1nat
        } else {
            0nat
        }
    }
}

/// A text short enough in digits to be read as a duration.
pub open spec fn readable_duration(s: Seq<char>) -> bool {
    digit_count(s) <= MAX_DURATION_DIGITS
}

fn count_digits(s: &str) -> (r: usize)
    ensures
        r as nat == digit_count(s@),
{
    let n = s.unicode_len();
    let mut count: usize = 0;
    let mut i: usize = 0;
    while i < n
        invariant
            n == s@.len(),
            i <= n,
            count as nat == digit_count(s@.subrange(0, i as int)),
            count <= i,
        decreases n - i,
    {
        let c = s.get_char(i);
        proof {
            assert(s@.subrange(0, i as int + 1).drop_last() =~= s@.subrange(0, i as int));
        }
        if '0' <= c && c <= '9' {
            count += 1;
        }
        i += 1;
    }
    proof {
        assert(s@.subrange(0, n as int) =~= s@);
    }
    count
}

impl Span {
    pub open spec fn wf(self) -> bool {
        self.nanos < NANOS_PER_SEC
    }

    /// The span counted in nanoseconds.
    pub open spec fn total(self) -> nat {
        (self.secs as nat) * 1_000_000_000 + self.nanos as nat
    }

    pub open spec fn text(self) -> Seq<char> {
        duration_text(self.secs, self.nanos)
    }

    pub fn from_secs(secs: u64) -> (r: Span)
        ensures
            r.wf(),
            r.secs == secs,
            r.nanos == 0,
            r.total() == secs as nat * 1_000_000_000,
    {
        Span { secs, nanos: 0 }
    }

    pub fn zero() -> (r: Span)
        ensures
            r.wf(),
            r.total() == 0,
    {
        Span { secs: 0, nanos: 0 }
    }

    /// The sum of two spans, or `None` where the seconds do not fit.
    pub fn checked_add(self, other: Span) -> (r: Option<Span>)
        requires
            self.wf(),
            other.wf(),
        ensures
            r matches Some(s) ==> s.wf() && s.total() == self.total() + other.total(),
            r is None <==> self.total() + other.total() >= (u64::MAX as nat + 1) * 1_000_000_000,
    {
        let nanos: u32 = self.nanos + other.nanos;
        let carry: u64 = if nanos >= NANOS_PER_SEC { 1 } else { 0 };
        let nanos: u32 = if nanos >= NANOS_PER_SEC { nanos - NANOS_PER_SEC } else { nanos };
        match self.secs.checked_add(other.secs) {
            None => None,
            Some(secs) => match secs.checked_add(carry) {
                None => None,
                Some(secs) => Some(Span { secs, nanos }),
            },
        }
    }

    /// The span from `earlier` to `self`, or zero where `earlier` is later.
    pub fn saturating_sub(self, earlier: Span) -> (r: Span)
        requires
            self.wf(),
            earlier.wf(),
        ensures
            r.wf(),
            self.total() >= earlier.total() ==> r.total() == self.total() - earlier.total(),
            self.total() < earlier.total() ==> r.total() == 0,
    {
        if self.secs < earlier.secs || (self.secs == earlier.secs && self.nanos < earlier.nanos) {
            return Span { secs: 0, nanos: 0 };
        }
        if self.nanos >= earlier.nanos {
            Span { secs: self.secs - earlier.secs, nanos: self.nanos - earlier.nanos }
        } else {
            Span { secs: self.secs - earlier.secs - 1, nanos: self.nanos + NANOS_PER_SEC - earlier.nanos }
        }
    }

    /// Whether `self` is at or after `other`.
    pub fn reached(self, other: Span) -> (r: bool)
        requires
            self.wf(),
            other.wf(),
        ensures
            r == (self.total() >= other.total()),
    {
        self.secs > other.secs || (self.secs == other.secs && self.nanos >= other.nanos)
    }

    /// The span rendered as humantime renders durations ("2m 10s").
    pub fn format(self) -> (r: String)
        requires
            self.wf(),
        ensures
            r@ == self.text(),
    {
        format_duration(self.secs, self.nanos)
    }

    /// The span cut down to whole seconds.
    pub fn whole_secs(self) -> (r: Span)
        ensures
            r.wf(),
            r.secs == self.secs,
            r.nanos == 0,
    {
        Span { secs: self.secs, nanos: 0 }
    }
}

/// Reads a duration such as "2m" or "1h 30min". A text with more than
/// `MAX_DURATION_DIGITS` digits is refused unread.
pub fn parse_span(s: &str) -> (r: Option<Span>)
    ensures
        !readable_duration(s@) ==> r is None,
        readable_duration(s@) ==> (r is None <==> parsed_duration(s@) is None),
        r matches Some(d) ==> d.wf() && parsed_duration(s@) == Some((d.secs, d.nanos)),
{
    if count_digits(s) > MAX_DURATION_DIGITS {
        return None;
    }
    match parse_duration(s) {
        Some(p) => Some(Span { secs: p.0, nanos: p.1 }),
        None => None,
    }
}

/// Relies on `humantime::format_duration` and its `Display`: the text depends on
/// the duration alone.
#[verifier::external_body]
fn format_duration(secs: u64, nanos: u32) -> (r: String)
    requires
        nanos < NANOS_PER_SEC,
    ensures
        r@ == duration_text(secs, nanos),
{
    humantime::format_duration(std::time::Duration::new(secs, nanos)).to_string()
}

/// Relies on `humantime::parse_duration`: the result depends on the text alone, and a
/// `Duration`'s sub-second nanoseconds are below one billion. It panics where the
/// seconds it adds up reach the largest `Duration` (as in
/// "18446744073709551615s1000ms"); it skips whitespace inside numbers, so with at
/// most 11 digits in all every sum stays below 10^11 years' worth of seconds, far
/// under that limit.
#[verifier::external_body]
fn parse_duration(s: &str) -> (r: Option<(u64, u32)>)
    requires
        readable_duration(s@),
    ensures
        r == parsed_duration(s@),
        r matches Some(p) ==> p.1 < NANOS_PER_SEC,
{
    match humantime::parse_duration(s) {
        Ok(d) => Some((d.as_secs(), d.subsec_nanos())),
        Err(_) => None,
    }
}

} // verus!
