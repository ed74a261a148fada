//! The timestamp model and the wrapper around it.

use core::cmp::Ordering;
use vstd::prelude::*;
use vstd::std_specs::cmp::PartialOrdSpec;

verus! {

/// Number of nanoseconds in one second.
pub const NANOS_PER_SEC: u32 = 1_000_000_000;

/// An absolute point in time, anchored at the Unix epoch: a whole number of
/// seconds elapsed since the epoch plus a sub-second remainder in
/// nanoseconds.
#[derive(Debug, Clone, Copy, PartialEq, Eq, Ord, Structural)]
pub struct Timestamp {
    /// Whole seconds elapsed since the Unix epoch.
    pub secs: u64,
    /// Sub-second remainder, in nanoseconds.
    pub nanos: u32,
}

impl Timestamp {
    /// A timestamp is well formed when its sub-second remainder is below one
    /// full second, so that each point in time has a single representation.
    pub open spec fn wf(self) -> bool {
        self.nanos < NANOS_PER_SEC
    }

    /// The point in time this value denotes, as total nanoseconds elapsed
    /// since the Unix epoch.
    pub open spec fn as_nanos(self) -> int {
        self.secs as int * NANOS_PER_SEC as int + self.nanos as int
    }

    /// The timestamp lying exactly `secs` whole seconds after the Unix
    /// epoch, with no sub-second remainder.
    pub open spec fn seconds_after_epoch(secs: u64) -> Timestamp {
        Timestamp { secs, nanos: 0 }
    }

    /// Build a timestamp from whole seconds since the Unix epoch and a
    /// nanosecond remainder.
    pub fn new(secs: u64, nanos: u32) -> (r: Timestamp)
        requires
            nanos < NANOS_PER_SEC,
        ensures
            r == (Timestamp { secs, nanos }),
            r.wf(),
    {
        Timestamp { secs, nanos }
    }
}

impl PartialOrd for Timestamp {
    /// Lexicographic comparison of seconds, then nanoseconds: for well-formed
    /// values this is the order of the points in time they denote.
    fn partial_cmp(&self, other: &Timestamp) -> (r: Option<Ordering>) {
        if self.secs < other.secs {
            Some(Ordering::Less)
        } else if other.secs < self.secs {
            Some(Ordering::Greater)
        } else if self.nanos < other.nanos {
            Some(Ordering::Less)
        } else if other.nanos < self.nanos {
            Some(Ordering::Greater)
        } else {
            Some(Ordering::Equal)
        }
    }
}

impl vstd::std_specs::cmp::PartialOrdSpecImpl for Timestamp {
    open spec fn obeys_partial_cmp_spec() -> bool {
        true
    }

    open spec fn partial_cmp_spec(&self, other: &Timestamp) -> Option<Ordering> {
        if self.secs < other.secs {
            Some(Ordering::Less)
        } else if other.secs < self.secs {
            Some(Ordering::Greater)
        } else if self.nanos < other.nanos {
            Some(Ordering::Less)
        } else if other.nanos < self.nanos {
            Some(Ordering::Greater)
        } else {
            Some(Ordering::Equal)
        }
    }
}

/// A wrapper around a timestamp, surfaced in generated foreign-language
/// bindings as a dedicated temporal type. It carries the value through
/// unchanged: construction and unwrapping are total and lossless, and
/// comparison and equality delegate to the wrapped timestamp.
#[derive(Debug, Clone, Copy, PartialEq, Eq, Ord, Structural)]
pub struct KotlinInstant(pub Timestamp);

impl KotlinInstant {
    /// Wrap an existing timestamp value unchanged.
    pub fn new(time: Timestamp) -> (r: Self)
        ensures
            r == KotlinInstant(time),
    {
        KotlinInstant(time)
    }

    /// The instant exactly `secs` whole seconds after the Unix epoch, with
    /// no sub-second remainder.
    pub fn from_epoch_secs(secs: u64) -> (r: Self)
        ensures
            r == KotlinInstant(Timestamp::seconds_after_epoch(secs)),
            r.0.wf(),
    {
        KotlinInstant(Timestamp { secs, nanos: 0 })
    }

    /// Return the wrapped timestamp value with no transformation.
    pub fn into_inner(self) -> (r: Timestamp)
        ensures
            r == self.0,
    {
        self.0
    }
}

impl From<Timestamp> for KotlinInstant {
    /// Wrapping conversion: total and lossless.
    fn from(time: Timestamp) -> (r: KotlinInstant) {
        KotlinInstant(time)
    }
}

impl vstd::std_specs::convert::FromSpecImpl<Timestamp> for KotlinInstant {
    open spec fn obeys_from_spec() -> bool {
        true
    }

    open spec fn from_spec(time: Timestamp) -> KotlinInstant {
        KotlinInstant(time)
    }
}

impl From<KotlinInstant> for Timestamp {
    /// Unwrapping conversion: total and lossless.
    fn from(instant: KotlinInstant) -> (r: Timestamp) {
        instant.0
    }
}

impl vstd::std_specs::convert::FromSpecImpl<KotlinInstant> for Timestamp {
    open spec fn obeys_from_spec() -> bool {
        true
    }

    open spec fn from_spec(instant: KotlinInstant) -> Timestamp {
        instant.0
    }
}

impl PartialOrd for KotlinInstant {
    /// Comparison delegates to the wrapped timestamp.
    fn partial_cmp(&self, other: &KotlinInstant) -> (r: Option<Ordering>) {
        self.0.partial_cmp(&other.0)
    }
}

impl vstd::std_specs::cmp::PartialOrdSpecImpl for KotlinInstant {
    open spec fn obeys_partial_cmp_spec() -> bool {
        true
    }

    open spec fn partial_cmp_spec(&self, other: &KotlinInstant) -> Option<Ordering> {
        PartialOrdSpec::partial_cmp_spec(&self.0, &other.0)
    }
}

/// Round trip: wrapping any timestamp and taking the inner value back out
/// returns the original timestamp.
pub proof fn lemma_wrap_unwrap(t: Timestamp)
    ensures
        KotlinInstant(t).0 == t,
{
}

/// Round trip the other way: rebuilding a wrapper from its inner timestamp
/// yields the original wrapper, bit for bit.
pub proof fn lemma_unwrap_wrap(i: KotlinInstant)
    ensures
        KotlinInstant(i.0) == i,
{
}

/// Epoch construction: for every second count `s`, the instant built from
/// `s` wraps the timestamp exactly `s` whole seconds after the Unix epoch,
/// with a zero sub-second remainder.
pub proof fn lemma_from_epoch_secs_exact(s: u64)
    ensures
        Timestamp::seconds_after_epoch(s).secs == s,
        Timestamp::seconds_after_epoch(s).nanos == 0,
        Timestamp::seconds_after_epoch(s).as_nanos() == s as int * NANOS_PER_SEC as int,
{
}

/// Ordering consistency: comparison and equality of wrapped instants are
/// exactly those of the wrapped timestamps; in particular one instant is
/// below another if and only if its timestamp is below the other's.
pub proof fn lemma_order_delegates(a: Timestamp, b: Timestamp)
    ensures
        KotlinInstant(a).partial_cmp_spec(&KotlinInstant(b)) == a.partial_cmp_spec(&b),
        (KotlinInstant(a).partial_cmp_spec(&KotlinInstant(b)) == Some(Ordering::Less)) <==> (
        a.partial_cmp_spec(&b) == Some(Ordering::Less)),
        (KotlinInstant(a) == KotlinInstant(b)) <==> (a == b),
{
}

/// For well-formed timestamps, comparison orders points in time: a timestamp
/// compares below, equal to, or above another exactly as the instant it
/// denotes is earlier than, the same as, or later than the other's.
pub proof fn lemma_order_matches_time(a: Timestamp, b: Timestamp)
    requires
        a.wf(),
        b.wf(),
    ensures
        (a.partial_cmp_spec(&b) == Some(Ordering::Less)) <==> (a.as_nanos() < b.as_nanos()),
        (a.partial_cmp_spec(&b) == Some(Ordering::Equal)) <==> (a.as_nanos() == b.as_nanos()),
        (a.partial_cmp_spec(&b) == Some(Ordering::Greater)) <==> (a.as_nanos() > b.as_nanos()),
{
}

} // verus!
