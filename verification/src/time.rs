//! Spans of time, in nanoseconds, and their written form.

use vstd::prelude::*;
use vstd::string::*;

use crate::text;

verus! {

/// Nanoseconds in a second.
pub const SECOND: u128 = 1_000_000_000;

/// Nanoseconds in a millisecond.
pub const MILLISECOND: u128 = 1_000_000;

/// The longest span: every `u64` second and the nanoseconds short of one more.
pub const LONGEST: u128 = 18_446_744_073_709_551_615_999_999_999;

/// A span of time of at most [`LONGEST`] nanoseconds.
#[derive(Debug, Clone, Copy, PartialEq, Eq, PartialOrd, Ord, Structural)]
pub struct Duration {
    nanos: u128,
}

impl View for Duration {
    type V = nat;

    closed spec fn view(&self) -> nat {
        self.nanos as nat
    }
}

impl Duration {
    #[verifier::type_invariant]
    spec fn bounded(self) -> bool {
        self.nanos <= LONGEST
    }

    /// Two spans of the same length are the same span.
    pub broadcast proof fn same_length(a: Duration, b: Duration)
        ensures
            #[trigger] a@ == #[trigger] b@ ==> a == b,
    {
    }

    pub fn from_millis(millis: u64) -> (r: Duration)
        ensures
            r@ == millis * MILLISECOND,
    {
        Duration { nanos: millis as u128 * MILLISECOND }
    }

    pub fn from_secs(secs: u64) -> (r: Duration)
        ensures
            r@ == secs * SECOND,
    {
        Duration { nanos: secs as u128 * SECOND }
    }

    /// Whole seconds and the nanoseconds beyond them.
    pub fn new(secs: u64, nanos: u32) -> (r: Duration)
        requires
            nanos < SECOND,
        ensures
            r@ == secs * SECOND + nanos,
    {
        Duration { nanos: secs as u128 * SECOND + nanos as u128 }
    }

    pub fn as_nanos(&self) -> (r: u128)
        ensures
            r == self@,
            r <= LONGEST,
    {
        proof {
            use_type_invariant(self);
        }
        self.nanos
    }

    /// Whole seconds.
    pub fn as_secs(&self) -> (r: u64)
        ensures
            r as nat == self@ / SECOND as nat,
    {
        proof {
            use_type_invariant(self);
        }
        (self.nanos / SECOND) as u64
    }

    /// The nanoseconds beyond the whole seconds.
    pub fn subsec_nanos(&self) -> (r: u32)
        ensures
            r as nat == self@ % SECOND as nat,
            r < SECOND,
    {
        (self.nanos % SECOND) as u32
    }

    pub fn is_zero(&self) -> (r: bool)
        ensures
            r == (self@ == 0),
    {
        self.nanos == 0
    }

    pub fn at_most(&self, other: &Duration) -> (r: bool)
        ensures
            r == (self@ <= other@),
    {
        self.nanos <= other.nanos
    }

    /// The shorter of the two.
    pub fn shorter(self, other: Duration) -> (r: Duration)
        ensures
            r@ == if self@ <= other@ {
                self@
            } else {
                other@
            },
            r == self || r == other,
    {
        if self.nanos <= other.nanos {
            self
        } else {
            other
        }
    }

    /// `k` times this span, or the longest span where that is longer.
    pub fn saturating_mul(self, k: u32) -> (r: Duration)
        ensures
            r@ == if self@ * k <= LONGEST {
                (self@ * k) as nat
            } else {
                LONGEST as nat
            },
    {
        proof {
            use_type_invariant(&self);
            assert(self.nanos * k <= LONGEST * 0x1_0000_0000) by (nonlinear_arith)
                requires
                    self.nanos <= LONGEST,
                    k <= 0xffff_ffff,
            ;
        }
        let product: u128 = self.nanos * (k as u128);
        if product <= LONGEST {
            Duration { nanos: product }
        } else {
            Duration { nanos: LONGEST }
        }
    }

    /// The two spans one after the other.
    pub fn plus(self, other: Duration) -> (r: Duration)
        requires
            self@ + other@ <= LONGEST,
        ensures
            r@ == self@ + other@,
    {
        Duration { nanos: self.nanos + other.nanos }
    }

    /// What is left of this span after `other`, or nothing.
    pub fn saturating_sub(self, other: Duration) -> (r: Duration)
        ensures
            r@ == if self@ >= other@ {
                (self@ - other@) as nat
            } else {
                0
            },
    {
        proof {
            use_type_invariant(&self);
        }
        if self.nanos >= other.nanos {
            Duration { nanos: self.nanos - other.nanos }
        } else {
            Duration { nanos: 0 }
        }
    }
}

// ---------------------------------------------------------------------------
// Written durations
// ---------------------------------------------------------------------------

/// Whether `c` is a decimal digit.
pub open spec fn is_digit(c: char) -> bool {
    '0' <= c <= '9'
}

/// Whether `c` may stand in the name of a unit.
pub open spec fn in_unit(c: char) -> bool {
    'a' <= c <= 'z' || 'A' <= c <= 'Z' || c == '\u{b5}'
}

/// The last character of `s` that is not whitespace, if there is one.
pub open spec fn last_inked(s: Seq<char>) -> Option<char>
    decreases s.len(),
{
    if s.len() == 0 {
        None
    } else if text::white(s.last()) {
        last_inked(s.drop_last())
    } else {
        Some(s.last())
    }
}

/// Whether a further span of a written duration starts at `i`: what stands
/// before is a unit, and here a number follows it, or anything at all after
/// whitespace.
pub open spec fn span_starts(s: Seq<char>, i: int) -> bool {
    &&& 0 < i < s.len()
    &&& !text::white(s[i])
    &&& last_inked(s.subrange(0, i)) matches Some(c) && in_unit(c)
    &&& is_digit(s[i]) || text::white(s[i - 1])
}

/// Whether `s` is written as one span.
pub open spec fn one_span(s: Seq<char>) -> bool {
    forall|i: int| !#[trigger] span_starts(s, i)
}

/// Where a span ends, looking from `j` on: at the next start, or at the end.
pub open spec fn span_end(s: Seq<char>, j: int) -> int
    decreases s.len() - j,
{
    if j >= s.len() || span_starts(s, j) {
        j
    } else {
        span_end(s, j + 1)
    }
}

/// How long a parse of whole seconds and the nanoseconds beyond them is.
pub open spec fn parsed_nanos(p: (u64, u32)) -> nat {
    (p.0 * SECOND + p.1) as nat
}

/// Whether the spans of `s` from `from` on, after `total` of earlier ones, add
/// up to no more than the longest duration. After a span that is none, nothing
/// is added any more.
pub open spec fn adds_up(s: Seq<char>, from: int, total: nat) -> bool
    decreases s.len() - from,
{
    if from < 0 || from >= s.len() {
        true
    } else {
        let to = span_end(s, from + 1);
        match humantime_parsed(s.subrange(from, to)) {
            Ok(p) => {
                &&& total + parsed_nanos(p) <= LONGEST
                &&& from < to <= s.len()
                &&& adds_up(s, to, total + parsed_nanos(p))
            },
            Err(_) => total < u64::MAX * SECOND,
        }
    }
}

/// Whether a written duration is within the parser's reach: it is one span, or
/// its spans do not add up to more than the longest duration.
pub open spec fn within_reach(s: Seq<char>) -> bool {
    one_span(s) || adds_up(s, 0, 0)
}

proof fn span_end_is_next(s: Seq<char>, j: int)
    requires
        0 <= j <= s.len(),
    ensures
        j <= span_end(s, j) <= s.len(),
        span_end(s, j) < s.len() ==> span_starts(s, span_end(s, j)),
        forall|k: int| j <= k < span_end(s, j) ==> !#[trigger] span_starts(s, k),
    decreases s.len() - j,
{
    if j < s.len() && !span_starts(s, j) {
        span_end_is_next(s, j + 1);
    }
}

/// Ink at the start of a part is all the part needs to end as the whole does.
proof fn ink_is_local(s: Seq<char>, from: int, to: int)
    requires
        0 <= from < to <= s.len(),
        from > 0 ==> !text::white(s[from]),
    ensures
        last_inked(s.subrange(from, to)) == last_inked(s.subrange(0, to)),
    decreases to - from,
{
    let part = s.subrange(from, to);
    let whole = s.subrange(0, to);
    assert(part.last() == whole.last());
    if from == 0 {
        assert(part =~= whole);
    } else if text::white(part.last()) {
        assert(to - 1 > from) by {
            assert(part[0] == s[from]);
        }
        assert(part.drop_last() =~= s.subrange(from, to - 1));
        assert(whole.drop_last() =~= s.subrange(0, to - 1));
        ink_is_local(s, from, to - 1);
    }
}

/// The part between two starts is one span.
proof fn parts_are_spans(s: Seq<char>, from: int, to: int)
    requires
        0 <= from < to <= s.len(),
        from > 0 ==> !text::white(s[from]),
        forall|k: int| from < k < to ==> !#[trigger] span_starts(s, k),
    ensures
        one_span(s.subrange(from, to)),
{
    let part = s.subrange(from, to);
    assert forall|i: int| !#[trigger] span_starts(part, i) by {
        if span_starts(part, i) {
            assert(part[i] == s[from + i]);
            assert(part[i - 1] == s[from + i - 1]);
            assert(part.subrange(0, i) =~= s.subrange(from, from + i));
            ink_is_local(s, from, from + i);
            assert(span_starts(s, from + i));
        }
    }
}

/// The index of the next start from `from` on, or the length.
fn next_start(cs: &Vec<char>, from: usize) -> (r: usize)
    requires
        0 < from <= cs@.len(),
    ensures
        r == span_end(cs@, from as int),
        from <= r <= cs@.len(),
{
    proof {
        span_end_is_next(cs@, from as int);
    }
    let n: usize = cs.len();
    let mut inked: Option<char> = None;
    let mut k: usize = 0;
    while k < from
        invariant
            k <= from <= n,
            n == cs@.len(),
            inked == last_inked(cs@.subrange(0, k as int)),
        decreases from - k,
    {
        assert(cs@.subrange(0, k + 1).drop_last() =~= cs@.subrange(0, k as int));
        assert(cs@.subrange(0, k + 1).last() == cs@[k as int]);
        if !text::is_white(cs[k]) {
            inked = Some(cs[k]);
        }
        k = k + 1;
    }
    let mut i: usize = from;
    while i < n
        invariant
            0 < from <= i <= n,
            n == cs@.len(),
            inked == last_inked(cs@.subrange(0, i as int)),
            span_end(cs@, from as int) == span_end(cs@, i as int),
        decreases n - i,
    {
        let c: char = cs[i];
        let blank = text::is_white(c);
        let after_unit = match inked {
            Some(u) => ('a' <= u && u <= 'z') || ('A' <= u && u <= 'Z') || u == '\u{b5}',
            None => false,
        };
        if !blank && after_unit && (('0' <= c && c <= '9') || text::is_white(cs[i - 1])) {
            assert(span_starts(cs@, i as int));
            return i;
        }
        assert(cs@.subrange(0, i + 1).drop_last() =~= cs@.subrange(0, i as int));
        assert(cs@.subrange(0, i + 1).last() == c);
        if !blank {
            inked = Some(c);
        }
        i = i + 1;
    }
    n
}

/// Whether a written duration is within the parser's reach. The spans are
/// parsed one by one; each of them is.
pub fn is_within_reach(s: &str) -> (r: bool)
    ensures
        r == within_reach(s@),
{
    let cs = text::chars_of(s);
    let n: usize = cs.len();
    if n == 0 {
        return true;
    }
    let first: usize = next_start(&cs, 1);
    proof {
        span_end_is_next(s@, 1);
    }
    if first == n {
        assert(one_span(s@));
        return true;
    }
    assert(!one_span(s@)) by {
        assert(span_starts(s@, first as int));
    }
    let mut from: usize = 0;
    let mut total: u128 = 0;
    while from < n
        invariant
            cs@ == s@,
            n == s@.len(),
            from <= n,
            0 < from < n ==> !text::white(s@[from as int]),
            total <= LONGEST,
            adds_up(s@, 0, 0) == adds_up(s@, from as int, total as nat),
            !one_span(s@),
        decreases n - from,
    {
        let to: usize = next_start(&cs, from + 1);
        proof {
            span_end_is_next(s@, from + 1);
            parts_are_spans(s@, from as int, to as int);
        }
        let span = s.substring_char(from, to);
        match call_parse_duration(span) {
            Ok((secs, nanos)) => {
                let next: u128 = total + secs as u128 * SECOND + nanos as u128;
                if next > LONGEST {
                    return false;
                }
                total = next;
            },
            Err(_) => {
                return total < 18_446_744_073_709_551_615 * SECOND;
            },
        }
        from = to;
    }
    true
}

/// What `humantime::parse_duration` makes of a text: whole seconds and the
/// nanoseconds beyond them, or the message of its error.
pub uninterp spec fn humantime_parsed(raw: Seq<char>) -> Result<(u64, u32), Seq<char>>;

/// Calls `humantime::parse_duration`, handing its duration on as whole seconds
/// and the nanoseconds beyond them and its error as the error's message.
///
/// Claimed: the answer is a function of the text, and the nanoseconds stay
/// below a second. The parser adds span after span, and it panics where the sum
/// has reached `u64::MAX` whole seconds and the nanoseconds of the next addend
/// make exactly one second more. One span alone never does that. Nor do spans
/// whose sum is no more than the longest duration. Of a span that is refused
/// the integer part may still be added; it adds nanoseconds only where it adds
/// no seconds, so it does no harm while the spans before it stay short of
/// `u64::MAX` seconds. What is left out is texts whose spans add up to more
/// than the longest duration, and texts with a refused span after `u64::MAX`
/// seconds or more.
#[verifier::external_body]
fn call_parse_duration(raw: &str) -> (r: Result<(u64, u32), String>)
    requires
        within_reach(raw@),
    ensures
        match r {
            Ok((secs, nanos)) => humantime_parsed(raw@) == Ok::<(u64, u32), Seq<char>>(
                (secs, nanos),
            ) && nanos < 1_000_000_000,
            Err(message) => humantime_parsed(raw@) == Err::<(u64, u32), Seq<char>>(message@),
        },
{
    humantime_serde::re::humantime::parse_duration(raw)
        .map(|d| (d.as_secs(), d.subsec_nanos()))
        .map_err(|e| e.to_string())
}

/// How `humantime::format_duration` writes a duration of whole seconds and
/// the nanoseconds beyond them.
pub uninterp spec fn humantime_written(secs: u64, nanos: u32) -> Seq<char>;

/// Calls `humantime::format_duration` and renders what it returns.
///
/// Claimed: the text is a function of the duration.
#[verifier::external_body]
fn call_format_duration(secs: u64, nanos: u32) -> (r: String)
    requires
        nanos < 1_000_000_000,
    ensures
        r@ == humantime_written(secs, nanos),
{
    humantime_serde::re::humantime::format_duration(std::time::Duration::new(secs, nanos)).to_string()
}

/// How a duration is written for an operator.
pub open spec fn written(d: nat) -> Seq<char> {
    humantime_written((d / SECOND as nat) as u64, (d % SECOND as nat) as u32)
}

/// How a duration is written for an operator.
pub fn write_duration(d: &Duration) -> (r: String)
    ensures
        r@ == written(d@),
{
    call_format_duration(d.as_secs(), d.subsec_nanos())
}

/// The duration an outside parse came to.
pub fn duration_of_parse(parsed: Result<(u64, u32), String>) -> (r: Result<Duration, String>)
    requires
        parsed matches Ok(p) ==> p.1 < 1_000_000_000,
    ensures
        match parsed {
            Ok(p) => r matches Ok(d) && d@ == p.0 * SECOND + p.1,
            Err(message) => r matches Err(m) && m@ == message@,
        },
{
    match parsed {
        Ok(p) => Ok(Duration::new(p.0, p.1)),
        Err(message) => Err(message),
    }
}

/// Parse a humane duration (`"60s"`, `"2m"`): a bare integer other than zero is
/// refused rather than silently meaning some unit.
pub fn parse_duration(raw: &str) -> (r: Result<Duration, String>)
    requires
        within_reach(raw@),
    ensures
        match humantime_parsed(raw@) {
            Ok(p) => r matches Ok(d) && d@ == p.0 * SECOND + p.1,
            Err(message) => r matches Err(m) && m@ == message,
        },
{
    duration_of_parse(call_parse_duration(raw))
}

// ---------------------------------------------------------------------------
// What the operations give
// ---------------------------------------------------------------------------

/// A millisecond is a million nanoseconds and a second a thousand of those.
pub proof fn units_are_what_they_say(n: u64, rest: u32, millis: Duration, secs: Duration, both: Duration)
    requires
        rest < 1_000_000_000,
        call_ensures(Duration::from_millis, (n,), millis),
        call_ensures(Duration::from_secs, (n,), secs),
        call_ensures(Duration::new, (n, rest), both),
    ensures
        millis@ == n * 1_000_000,
        secs@ == n * 1_000_000_000,
        both@ == n * 1_000_000_000 + rest,
{
}

/// A span is its whole seconds and the nanoseconds beyond them.
pub proof fn a_span_comes_apart(d: Duration, nanos: u128, secs: u64, beyond: u32)
    requires
        call_ensures(Duration::as_nanos, (&d,), nanos),
        call_ensures(Duration::as_secs, (&d,), secs),
        call_ensures(Duration::subsec_nanos, (&d,), beyond),
    ensures
        nanos == d@,
        d@ == secs * 1_000_000_000 + beyond,
        beyond < 1_000_000_000,
{
}

/// Spans compare, add and subtract as their lengths do.
pub proof fn spans_compute_as_lengths(
    a: Duration,
    b: Duration,
    none: bool,
    fits: bool,
    less: Duration,
    left: Duration,
)
    requires
        call_ensures(Duration::is_zero, (&a,), none),
        call_ensures(Duration::at_most, (&a, &b), fits),
        call_ensures(Duration::shorter, (a, b), less),
        call_ensures(Duration::saturating_sub, (a, b), left),
    ensures
        none <==> a@ == 0,
        fits <==> a@ <= b@,
        less@ <= a@ && less@ <= b@ && (less@ == a@ || less@ == b@),
        a@ >= b@ ==> left@ + b@ == a@,
        a@ <= b@ ==> left@ == 0,
{
}

/// Two spans one after the other last as long as both.
pub proof fn spans_add_up(a: Duration, b: Duration, r: Duration)
    requires
        call_ensures(Duration::plus, (a, b), r),
    ensures
        r@ == a@ + b@,
{
}

/// A multiple is the multiple, short of the longest span.
pub proof fn multiples_stop_at_the_longest(a: Duration, k: u32, r: Duration)
    requires
        call_ensures(Duration::saturating_mul, (a, k), r),
    ensures
        a@ * k <= 18_446_744_073_709_551_615_999_999_999 ==> r@ == a@ * k,
        a@ * k > 18_446_744_073_709_551_615_999_999_999 ==> r@
            == 18_446_744_073_709_551_615_999_999_999,
{
}

/// What was parsed is the span of its seconds and nanoseconds; a complaint
/// stays one.
pub proof fn a_parse_is_taken_as_read(
    parsed: Result<(u64, u32), String>,
    r: Result<Duration, String>,
)
    requires
        call_ensures(duration_of_parse, (parsed,), r),
        parsed matches Ok(p) ==> p.1 < 1_000_000_000,
    ensures
        parsed matches Ok(p) ==> (r matches Ok(d) && d@ == p.0 * 1_000_000_000 + p.1),
        parsed is Err ==> r is Err,
{
}

} // verus!
