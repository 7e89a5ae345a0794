//! Lengths of time.

use vstd::prelude::*;

verus! {

/// A length of time in whole seconds and nanoseconds.
#[derive(Clone, Copy, Debug, PartialEq, Eq, Structural)]
pub struct Span {
    pub secs: u64,
    pub nanos: u32,
}

/// The text that `std::time::Duration` shows for debugging, of a duration of `secs` seconds and
/// `nanos` nanoseconds.
pub uninterp spec fn duration_text(secs: u64, nanos: u32) -> Seq<char>;

/// Calls the `Debug` impl of `std::time::Duration`, whose result depends on the duration alone.
#[verifier::external_body]
fn show_duration(secs: u64, nanos: u32) -> (text: String)
    requires
        nanos < 1_000_000_000,
    ensures
        text@ == duration_text(secs, nanos),
{
    format!("{:?}", std::time::Duration::new(secs, nanos))
}

impl Span {
    /// The part below a second is below a second.
    pub open spec fn wf(self) -> bool {
        self.nanos < 1_000_000_000
    }

    /// The number of nanoseconds.
    pub open spec fn total(self) -> int {
        self.secs * 1_000_000_000 + self.nanos
    }

    /// The longest span, which no sum may pass.
    pub open spec fn max_total() -> int {
        u64::MAX * 1_000_000_000 + 999_999_999
    }

    /// No time at all.
    pub fn zero() -> (span: Span)
        ensures
            span.wf(),
            span.total() == 0,
    {
        Span { secs: 0, nanos: 0 }
    }

    /// A span of whole seconds.
    pub fn from_secs(secs: u64) -> (span: Span)
        ensures
            span == (Span { secs, nanos: 0 }),
    {
        Span { secs, nanos: 0 }
    }

    /// A span of milliseconds.
    pub fn from_millis(millis: u64) -> (span: Span)
        ensures
            span.wf(),
            span.total() == millis * 1_000_000,
    {
        Span { secs: millis / 1_000, nanos: ((millis % 1_000) * 1_000_000) as u32 }
    }

    /// The number of whole milliseconds, where it fits in 64 bits, else the largest number that does.
    pub fn as_millis(&self) -> (millis: u64)
        requires
            self.wf(),
        ensures
            self.total() / 1_000_000 <= u64::MAX ==> millis == self.total() / 1_000_000,
            self.total() / 1_000_000 > u64::MAX ==> millis == u64::MAX,
    {
        let total: u128 = self.secs as u128 * 1_000 + (self.nanos / 1_000_000) as u128;
        proof {
            let s = self.secs as int;
            let n = self.nanos as int;
            assert((s * 1_000_000_000 + n) / 1_000_000 == s * 1_000 + n / 1_000_000);
        }
        if total > u64::MAX as u128 {
            u64::MAX
        } else {
            total as u64
        }
    }

    /// The two spans one after the other.
    pub fn plus(&self, other: &Span) -> (sum: Span)
        requires
            self.wf(),
            other.wf(),
            self.total() + other.total() <= Self::max_total(),
        ensures
            sum.wf(),
            sum.total() == self.total() + other.total(),
    {
        let nanos: u32 = self.nanos + other.nanos;
        if nanos >= 1_000_000_000 {
            Span { secs: self.secs + other.secs + 1, nanos: nanos - 1_000_000_000 }
        } else {
            Span { secs: self.secs + other.secs, nanos }
        }
    }

    /// Whether this span is shorter than another.
    pub fn shorter_than(&self, other: &Span) -> (shorter: bool)
        requires
            self.wf(),
            other.wf(),
        ensures
            shorter == (self.total() < other.total()),
    {
        self.secs < other.secs || (self.secs == other.secs && self.nanos < other.nanos)
    }

    /// The span as text.
    pub fn text(&self) -> (text: String)
        requires
            self.wf(),
        ensures
            text@ == duration_text(self.secs, self.nanos),
    {
        show_duration(self.secs, self.nanos)
    }
}

} // verus!
