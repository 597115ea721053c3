//! Points in time and lengths of time as plain numbers.
//!
//! The library never reads a clock. Its callers do, and hand over what they
//! read as whole seconds and the nanoseconds beyond them.

use vstd::prelude::*;

verus! {

/// The nanoseconds in one second.
pub const NANOS_PER_SEC: u32 = 1_000_000_000;

/// A length of time: whole seconds, and nanoseconds below one second.
#[derive(Debug, Clone, Copy, PartialEq, Eq)]
pub struct TimeSpan {
    secs: u64,
    nanos: u32,
}

/// A point in time, counted from an origin that the clock's owner has fixed:
/// whole seconds, and nanoseconds below one second.
#[derive(Debug, Clone, Copy, PartialEq, Eq)]
pub struct Timestamp {
    secs: u64,
    nanos: u32,
}

/// What the standard library's debug formatting makes of a length of time of
/// `secs` seconds and `nanos` nanoseconds, such as `12s`, `1.5s` or `250ms`.
pub uninterp spec fn duration_debug(secs: u64, nanos: u32) -> Seq<char>;

/// Seconds and nanoseconds as nanoseconds.
pub open spec fn nanos_of(secs: u64, nanos: u32) -> nat {
    (secs * NANOS_PER_SEC + nanos) as nat
}

/// Seconds and nanoseconds order as the nanoseconds they stand for.
pub proof fn lemma_order(s1: u64, n1: u32, s2: u64, n2: u32)
    requires
        n1 < NANOS_PER_SEC,
        n2 < NANOS_PER_SEC,
    ensures
        nanos_of(s1, n1) < nanos_of(s2, n2) <==> (s1 < s2 || (s1 == s2 && n1 < n2)),
        nanos_of(s1, n1) == nanos_of(s2, n2) <==> (s1 == s2 && n1 == n2),
{
    assert((s1 * 1_000_000_000 + n1 < s2 * 1_000_000_000 + n2) <==> (s1 < s2 || (s1 == s2 && n1
        < n2))) by (nonlinear_arith)
        requires
            n1 < 1_000_000_000,
            n2 < 1_000_000_000,
            0 <= n1,
            0 <= n2,
    ;
    assert((s1 * 1_000_000_000 + n1 == s2 * 1_000_000_000 + n2) <==> (s1 == s2 && n1 == n2))
        by (nonlinear_arith)
        requires
            n1 < 1_000_000_000,
            n2 < 1_000_000_000,
            0 <= n1,
            0 <= n2,
    ;
}

impl TimeSpan {
    #[verifier::type_invariant]
    spec fn inv(self) -> bool {
        self.nanos < NANOS_PER_SEC
    }

    /// The whole seconds.
    pub closed spec fn secs(&self) -> u64 {
        self.secs
    }

    /// The nanoseconds beyond the whole seconds.
    pub closed spec fn nanos(&self) -> u32 {
        self.nanos
    }

    /// The nanoseconds stay below one second. This holds of every length of
    /// time that the program holds.
    pub open spec fn well_formed(&self) -> bool {
        self.nanos() < NANOS_PER_SEC
    }

    /// The whole length in nanoseconds.
    pub open spec fn as_nanos(&self) -> nat {
        nanos_of(self.secs(), self.nanos())
    }

    /// A length of time of `secs` seconds and `nanos` nanoseconds, where the
    /// nanoseconds stay below one second.
    pub fn new(secs: u64, nanos: u32) -> (r: Option<TimeSpan>)
        ensures
            r is Some <==> nanos < NANOS_PER_SEC,
            r matches Some(span) ==> span.secs() == secs && span.nanos() == nanos
                && span.well_formed(),
    {
        if nanos < NANOS_PER_SEC {
            Some(TimeSpan { secs, nanos })
        } else {
            None
        }
    }

    /// No time at all.
    pub fn zero() -> (r: TimeSpan)
        ensures
            r.secs() == 0,
            r.nanos() == 0,
            r.well_formed(),
    {
        TimeSpan { secs: 0, nanos: 0 }
    }

    /// A number of whole seconds.
    pub fn from_secs(secs: u64) -> (r: TimeSpan)
        ensures
            r.secs() == secs,
            r.nanos() == 0,
            r.well_formed(),
    {
        TimeSpan { secs, nanos: 0 }
    }

    /// The whole seconds.
    pub fn as_secs(&self) -> (r: u64)
        ensures
            r == self.secs(),
    {
        self.secs
    }

    /// The nanoseconds beyond the whole seconds.
    pub fn subsec_nanos(&self) -> (r: u32)
        ensures
            r == self.nanos(),
            self.well_formed(),
    {
        proof {
            use_type_invariant(self);
        }
        self.nanos
    }

    /// Whether this length of time is shorter than `other`.
    pub fn shorter_than(&self, other: &TimeSpan) -> (r: bool)
        ensures
            r == (self.as_nanos() < other.as_nanos()),
    {
        proof {
            use_type_invariant(self);
            use_type_invariant(other);
            lemma_order(self.secs, self.nanos, other.secs, other.nanos);
        }
        self.secs < other.secs || (self.secs == other.secs && self.nanos < other.nanos)
    }

    /// The length of time as the standard library's debug formatting shows it.
    pub fn debug_string(&self) -> (r: String)
        ensures
            r@ == duration_debug(self.secs(), self.nanos()),
    {
        proof {
            use_type_invariant(self);
        }
        duration_debug_text(self.secs, self.nanos)
    }
}

/// The text that the standard library's debug formatting gives for a length
/// of time.
///
/// Trusted: builds a `std::time::Duration` with `Duration::new` and formats it
/// with `{:?}`. The contract claims only that the text is the one that this
/// formatting gives for these seconds and nanoseconds. `Duration::new` panics
/// when the nanoseconds carry over into seconds that overflow, which the
/// precondition excludes.
#[verifier::external_body]
fn duration_debug_text(secs: u64, nanos: u32) -> (r: String)
    requires
        nanos < NANOS_PER_SEC,
    ensures
        r@ == duration_debug(secs, nanos),
{
    format!("{:?}", std::time::Duration::new(secs, nanos))
}

impl Timestamp {
    #[verifier::type_invariant]
    spec fn inv(self) -> bool {
        self.nanos < NANOS_PER_SEC
    }

    /// The whole seconds since the origin.
    pub closed spec fn secs(&self) -> u64 {
        self.secs
    }

    /// The nanoseconds beyond the whole seconds.
    pub closed spec fn nanos(&self) -> u32 {
        self.nanos
    }

    /// The nanoseconds stay below one second. This holds of every point in
    /// time that the program holds.
    pub open spec fn well_formed(&self) -> bool {
        self.nanos() < NANOS_PER_SEC
    }

    /// The nanoseconds since the origin.
    pub open spec fn as_nanos(&self) -> nat {
        nanos_of(self.secs(), self.nanos())
    }

    /// The point in time `secs` seconds and `nanos` nanoseconds after the
    /// origin, where the nanoseconds stay below one second.
    pub fn new(secs: u64, nanos: u32) -> (r: Option<Timestamp>)
        ensures
            r is Some <==> nanos < NANOS_PER_SEC,
            r matches Some(at) ==> at.secs() == secs && at.nanos() == nanos && at.well_formed(),
    {
        if nanos < NANOS_PER_SEC {
            Some(Timestamp { secs, nanos })
        } else {
            None
        }
    }

    /// The origin itself.
    pub fn origin() -> (r: Timestamp)
        ensures
            r.secs() == 0,
            r.nanos() == 0,
            r.well_formed(),
    {
        Timestamp { secs: 0, nanos: 0 }
    }

    /// The whole seconds since the origin.
    pub fn as_secs(&self) -> (r: u64)
        ensures
            r == self.secs(),
    {
        self.secs
    }

    /// The nanoseconds beyond the whole seconds.
    pub fn subsec_nanos(&self) -> (r: u32)
        ensures
            r == self.nanos(),
            self.well_formed(),
    {
        proof {
            use_type_invariant(self);
        }
        self.nanos
    }

    /// The time that has passed since `earlier`; no time at all where
    /// `earlier` is in fact the later of the two.
    pub fn duration_since(&self, earlier: &Timestamp) -> (r: TimeSpan)
        ensures
            r.well_formed(),
            self.as_nanos() >= earlier.as_nanos() ==> r.as_nanos() == self.as_nanos()
                - earlier.as_nanos(),
            self.as_nanos() < earlier.as_nanos() ==> r.as_nanos() == 0,
    {
        proof {
            use_type_invariant(self);
            use_type_invariant(earlier);
            lemma_order(self.secs, self.nanos, earlier.secs, earlier.nanos);
        }
        if self.secs < earlier.secs || (self.secs == earlier.secs && self.nanos < earlier.nanos) {
            TimeSpan { secs: 0, nanos: 0 }
        } else if self.nanos >= earlier.nanos {
            let r = TimeSpan { secs: self.secs - earlier.secs, nanos: self.nanos - earlier.nanos };
            assert(r.as_nanos() == self.as_nanos() - earlier.as_nanos()) by (nonlinear_arith)
                requires
                    r.secs == self.secs - earlier.secs,
                    r.nanos == self.nanos - earlier.nanos,
                    r.as_nanos() == r.secs * 1_000_000_000 + r.nanos,
                    self.as_nanos() == self.secs * 1_000_000_000 + self.nanos,
                    earlier.as_nanos() == earlier.secs * 1_000_000_000 + earlier.nanos,
            ;
            r
        } else {
            let r = TimeSpan {
                secs: self.secs - earlier.secs - 1,
                nanos: self.nanos + (NANOS_PER_SEC - earlier.nanos),
            };
            assert(r.as_nanos() == self.as_nanos() - earlier.as_nanos()) by (nonlinear_arith)
                requires
                    r.secs == self.secs - earlier.secs - 1,
                    r.nanos == self.nanos + 1_000_000_000 - earlier.nanos,
                    r.as_nanos() == r.secs * 1_000_000_000 + r.nanos,
                    self.as_nanos() == self.secs * 1_000_000_000 + self.nanos,
                    earlier.as_nanos() == earlier.secs * 1_000_000_000 + earlier.nanos,
            ;
            r
        }
    }
}

} // verus!
