//! A length of time, kept as whole seconds and a nanosecond part.

use vstd::prelude::*;

verus! {

/// The number of nanoseconds in one second.
pub const NANOS_PER_SEC: u32 = 1_000_000_000;

/// The number of nanoseconds in one millisecond.
pub const NANOS_PER_MILLI: u32 = 1_000_000;

/// The largest total a well-formed [`Span`] can hold, in nanoseconds.
pub open spec fn max_total_nanos() -> nat {
    (u64::MAX as nat) * 1_000_000_000 + 999_999_999
}

/// A length of time: `secs` whole seconds plus `nanos` nanoseconds.
///
/// The value it stands for is [`Span::total_nanos`]. A span is well formed
/// when the nanosecond part is below one second; every span this crate
/// returns is.
#[derive(Clone, Copy, Debug, PartialEq, Eq)]
pub struct Span {
    pub secs: u64,
    pub nanos: u32,
}

impl Span {
    /// The length in nanoseconds.
    pub open spec fn total_nanos(self) -> nat {
        (self.secs as nat) * 1_000_000_000 + (self.nanos as nat)
    }

    /// The nanosecond part is less than a second.
    pub open spec fn wf(self) -> bool {
        self.nanos < 1_000_000_000
    }

    /// The length in whole milliseconds, rounded down.
    pub open spec fn total_millis(self) -> nat {
        self.total_nanos() / 1_000_000
    }

    /// The well-formed span of `n` nanoseconds, for `n` up to [`max_total_nanos`].
    pub open spec fn of_nanos(n: nat) -> Span {
        Span { secs: (n / 1_000_000_000) as u64, nanos: (n % 1_000_000_000) as u32 }
    }

    /// The sum of two lengths, held at [`max_total_nanos`] where it would pass it.
    pub open spec fn saturating_sum(a: Span, b: Span) -> Span {
        let sum = a.total_nanos() + b.total_nanos();
        Span::of_nanos(if sum > max_total_nanos() { max_total_nanos() } else { sum })
    }

    /// The empty span.
    pub fn zero() -> (r: Span)
        ensures
            r == (Span { secs: 0, nanos: 0 }),
            r.total_nanos() == 0,
    {
        Span { secs: 0, nanos: 0 }
    }

    /// The longest span.
    pub fn max() -> (r: Span)
        ensures
            r.wf(),
            r.total_nanos() == max_total_nanos(),
    {
        Span { secs: u64::MAX, nanos: 999_999_999 }
    }

    /// A span of whole seconds.
    pub fn from_secs(secs: u64) -> (r: Span)
        ensures
            r == (Span { secs, nanos: 0 }),
    {
        Span { secs, nanos: 0 }
    }

    /// A span of whole milliseconds.
    pub fn from_millis(millis: u64) -> (r: Span)
        ensures
            r.wf(),
            r.total_nanos() == millis * 1_000_000,
            r == Span::of_nanos((millis * 1_000_000) as nat),
    {
        let secs: u64 = millis / 1000;
        let rest: u64 = millis % 1000;
        let nanos: u32 = (rest as u32) * NANOS_PER_MILLI;
        Span { secs, nanos }
    }

    /// The span of `secs` seconds and `nanos` nanoseconds, if `nanos` is
    /// less than a second.
    pub fn from_parts(secs: u64, nanos: u32) -> (r: Option<Span>)
        ensures
            r == (if nanos < 1_000_000_000 { Some(Span { secs, nanos }) } else { None }),
    {
        if nanos < NANOS_PER_SEC {
            Some(Span { secs, nanos })
        } else {
            None
        }
    }

    /// The length in whole milliseconds, rounded down.
    pub fn as_millis(&self) -> (r: u128)
        ensures
            r == self.total_millis(),
    {
        let total: u128 = (self.secs as u128) * 1_000_000_000u128 + (self.nanos as u128);
        total / 1_000_000u128
    }

    /// Adds two spans. Where the sum would pass the longest span, the
    /// longest span is returned instead.
    pub fn saturating_add(self, other: Span) -> (r: Span)
        ensures
            r == Span::saturating_sum(self, other),
            r.wf(),
            r.total_nanos() <= max_total_nanos(),
            r.total_nanos() == if self.total_nanos() + other.total_nanos() > max_total_nanos() {
                max_total_nanos()
            } else {
                self.total_nanos() + other.total_nanos()
            },
    {
        let a: u128 = (self.secs as u128) * 1_000_000_000u128 + (self.nanos as u128);
        let b: u128 = (other.secs as u128) * 1_000_000_000u128 + (other.nanos as u128);
        let limit: u128 = (u64::MAX as u128) * 1_000_000_000u128 + 999_999_999u128;
        let sum: u128 = a + b;
        let held: u128 = if sum > limit { limit } else { sum };
        let secs: u128 = held / 1_000_000_000u128;
        let nanos: u128 = held % 1_000_000_000u128;
        Span { secs: secs as u64, nanos: nanos as u32 }
    }
}

/// A well-formed span never holds more than the longest span.
pub proof fn lemma_wf_span_is_bounded(s: Span)
    requires
        s.wf(),
    ensures
        s.total_nanos() <= max_total_nanos(),
{
}

/// Adding to a well-formed span never shortens it.
pub proof fn lemma_saturating_sum_grows(a: Span, b: Span)
    requires
        a.wf(),
    ensures
        Span::saturating_sum(a, b).total_nanos() >= a.total_nanos(),
        Span::saturating_sum(a, b).total_nanos() <= max_total_nanos(),
        Span::saturating_sum(a, b).wf(),
{
}

} // verus!
