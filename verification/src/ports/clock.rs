//! UTC instants and durations measured in whole nanoseconds.

use vstd::prelude::*;

verus! {

/// Nanoseconds in one second.
pub const NANOS_PER_SECOND: u32 = 1_000_000_000;

/// One more than the largest nanosecond count that a duration can hold.
pub open spec fn duration_limit() -> int {
    (u64::MAX as int + 1) * 1_000_000_000
}

/// One more than the largest nanosecond count since the epoch that a timestamp can hold.
pub open spec fn timestamp_limit() -> int {
    (i64::MAX as int + 1) * 1_000_000_000
}

/// A span of time, as `std::time::Duration` holds it: whole seconds and sub-second nanoseconds.
#[derive(Debug, Clone, Copy, PartialEq, Eq, PartialOrd, Ord, Hash, Structural)]
pub struct Duration {
    secs: u64,
    subsec_nanos: u32,
}

impl Duration {
    #[verifier::type_invariant]
    spec fn inv(self) -> bool {
        self.subsec_nanos < 1_000_000_000
    }

    /// Length of the span in nanoseconds.
    pub closed spec fn total_nanos(self) -> int {
        self.secs * 1_000_000_000 + self.subsec_nanos
    }

    /// Length of the span in whole milliseconds, rounded down.
    pub open spec fn total_millis(self) -> int {
        self.total_nanos() / 1_000_000
    }

    /// The empty span.
    pub fn zero() -> (d: Duration)
        ensures
            d.total_nanos() == 0,
    {
        Duration { secs: 0, subsec_nanos: 0 }
    }

    /// A span of `secs` whole seconds.
    pub fn from_secs(secs: u64) -> (d: Duration)
        ensures
            d.total_nanos() == secs * 1_000_000_000,
    {
        Duration { secs, subsec_nanos: 0 }
    }

    /// A span of `millis` milliseconds.
    pub fn from_millis(millis: u64) -> (d: Duration)
        ensures
            d.total_nanos() == millis * 1_000_000,
    {
        let secs = millis / 1000;
        let rest = millis % 1000;
        let subsec_nanos = (rest as u32) * 1_000_000;
        assert(secs * 1_000_000_000 + rest * 1_000_000 == millis * 1_000_000) by (nonlinear_arith)
            requires
                secs == millis / 1000,
                rest == millis % 1000,
        ;
        Duration { secs, subsec_nanos }
    }

    /// Whole seconds of the span.
    pub fn as_secs(&self) -> (s: u64)
        ensures
            s == self.total_nanos() / 1_000_000_000,
    {
        proof {
            use_type_invariant(self);
        }
        let s = self.secs;
        assert((self.secs * 1_000_000_000 + self.subsec_nanos) / 1_000_000_000 == self.secs)
            by (nonlinear_arith)
            requires
                self.subsec_nanos < 1_000_000_000,
        ;
        s
    }

    /// Nanoseconds beyond the whole seconds of the span.
    pub fn subsec_nanos(&self) -> (n: u32)
        ensures
            n == self.total_nanos() % 1_000_000_000,
            n < 1_000_000_000,
    {
        proof {
            use_type_invariant(self);
        }
        assert((self.secs * 1_000_000_000 + self.subsec_nanos) % 1_000_000_000 == self.subsec_nanos)
            by (nonlinear_arith)
            requires
                self.subsec_nanos < 1_000_000_000,
        ;
        self.subsec_nanos
    }

    /// Whole milliseconds of the span, saturated at `u64::MAX`.
    pub fn as_millis_saturating(&self) -> (m: u64)
        ensures
            m == if self.total_millis() > u64::MAX {
                u64::MAX as int
            } else {
                self.total_millis()
            },
    {
        proof {
            use_type_invariant(self);
        }
        let millis: u128 = (self.secs as u128) * 1000 + (self.subsec_nanos / 1_000_000) as u128;
        assert(millis == (self.secs * 1_000_000_000 + self.subsec_nanos) / 1_000_000)
            by (nonlinear_arith)
            requires
                millis == self.secs * 1000 + self.subsec_nanos / 1_000_000,
                self.subsec_nanos < 1_000_000_000,
        ;
        if millis > u64::MAX as u128 {
            u64::MAX
        } else {
            millis as u64
        }
    }

    /// Whether this span is strictly shorter than `other`.
    pub fn is_shorter_than(&self, other: &Duration) -> (b: bool)
        ensures
            b == (self.total_nanos() < other.total_nanos()),
    {
        proof {
            use_type_invariant(self);
            use_type_invariant(other);
        }
        self.secs < other.secs || (self.secs == other.secs && self.subsec_nanos < other.subsec_nanos)
    }

    /// Whether both spans have the same length.
    pub fn same_length(&self, other: &Duration) -> (b: bool)
        ensures
            b == (self.total_nanos() == other.total_nanos()),
    {
        proof {
            use_type_invariant(self);
            use_type_invariant(other);
        }
        self.secs == other.secs && self.subsec_nanos == other.subsec_nanos
    }

    /// Whether the span is empty.
    pub fn is_zero(&self) -> (b: bool)
        ensures
            b == (self.total_nanos() == 0),
    {
        proof {
            use_type_invariant(self);
        }
        self.secs == 0 && self.subsec_nanos == 0
    }

    /// The sum of both spans, as `Duration::checked_add` computes it; `None` when it cannot be
    /// represented.
    pub fn checked_add(self, other: Duration) -> (r: Option<Duration>)
        ensures
            match r {
                Some(d) => d.total_nanos() == self.total_nanos() + other.total_nanos(),
                None => self.total_nanos() + other.total_nanos() >= duration_limit(),
            },
    {
        proof {
            use_type_invariant(&self);
            use_type_invariant(&other);
        }
        let mut nanos: u32 = self.subsec_nanos + other.subsec_nanos;
        let mut carry: u128 = 0;
        if nanos >= NANOS_PER_SECOND {
            nanos = nanos - NANOS_PER_SECOND;
            carry = 1;
        }
        let secs: u128 = self.secs as u128 + other.secs as u128 + carry;
        if secs > u64::MAX as u128 {
            assert(self.total_nanos() + other.total_nanos() == secs * 1_000_000_000 + nanos) by (nonlinear_arith)
                requires
                    self.total_nanos() == self.secs * 1_000_000_000 + self.subsec_nanos,
                    other.total_nanos() == other.secs * 1_000_000_000 + other.subsec_nanos,
                    secs == self.secs + other.secs + carry,
                    nanos + carry * 1_000_000_000 == self.subsec_nanos + other.subsec_nanos,
            ;
            assert(secs * 1_000_000_000 >= duration_limit()) by (nonlinear_arith)
                requires
                    secs >= u64::MAX + 1,
            ;
            return None;
        }
        assert(self.total_nanos() + other.total_nanos() == secs * 1_000_000_000 + nanos) by (nonlinear_arith)
            requires
                self.total_nanos() == self.secs * 1_000_000_000 + self.subsec_nanos,
                other.total_nanos() == other.secs * 1_000_000_000 + other.subsec_nanos,
                secs == self.secs + other.secs + carry,
                nanos + carry * 1_000_000_000 == self.subsec_nanos + other.subsec_nanos,
        ;
        Some(Duration { secs: secs as u64, subsec_nanos: nanos })
    }

    /// The shorter of the two spans.
    pub fn shorter_of(self, other: Duration) -> (d: Duration)
        ensures
            d.total_nanos() == if self.total_nanos() <= other.total_nanos() {
                self.total_nanos()
            } else {
                other.total_nanos()
            },
    {
        if other.is_shorter_than(&self) {
            other
        } else {
            self
        }
    }
}

/// A UTC instant: signed whole seconds since the Unix epoch and sub-second nanoseconds, the
/// representation `std::time::SystemTime` uses on Unix platforms.
#[derive(Debug, Clone, Copy, PartialEq, Eq, PartialOrd, Ord, Hash, Structural)]
pub struct UtcTimestamp {
    secs: i64,
    subsec_nanos: u32,
}

impl UtcTimestamp {
    #[verifier::type_invariant]
    spec fn inv(self) -> bool {
        self.subsec_nanos < 1_000_000_000
    }

    /// Nanoseconds since the Unix epoch.
    pub closed spec fn epoch_nanos(self) -> int {
        self.secs * 1_000_000_000 + self.subsec_nanos
    }

    /// The Unix epoch.
    pub fn unix_epoch() -> (t: UtcTimestamp)
        ensures
            t.epoch_nanos() == 0,
    {
        UtcTimestamp { secs: 0, subsec_nanos: 0 }
    }

    /// The instant `secs` whole seconds after (or before, when negative) the Unix epoch.
    pub fn from_unix_seconds(secs: i64) -> (t: UtcTimestamp)
        ensures
            t.epoch_nanos() == secs * 1_000_000_000,
    {
        UtcTimestamp { secs, subsec_nanos: 0 }
    }

    /// The instant with `secs` whole seconds and `subsec_nanos` further nanoseconds since the
    /// epoch; `None` when `subsec_nanos` is not below one second.
    pub fn from_unix_parts(secs: i64, subsec_nanos: u32) -> (t: Option<UtcTimestamp>)
        ensures
            match t {
                Some(t) => subsec_nanos < 1_000_000_000 && t.epoch_nanos() == secs
                    * 1_000_000_000 + subsec_nanos,
                None => subsec_nanos >= 1_000_000_000,
            },
    {
        if subsec_nanos >= NANOS_PER_SECOND {
            None
        } else {
            Some(UtcTimestamp { secs, subsec_nanos })
        }
    }

    /// Whole seconds since the epoch, rounded towards negative infinity.
    pub fn unix_seconds(&self) -> (s: i64)
        ensures
            s == self.epoch_nanos() / 1_000_000_000,
    {
        proof {
            use_type_invariant(self);
        }
        assert((self.secs * 1_000_000_000 + self.subsec_nanos) / 1_000_000_000 == self.secs)
            by (nonlinear_arith)
            requires
                self.subsec_nanos < 1_000_000_000,
        ;
        self.secs
    }

    /// Nanoseconds beyond the whole seconds since the epoch.
    pub fn subsec_nanos(&self) -> (n: u32)
        ensures
            n == self.epoch_nanos() % 1_000_000_000,
    {
        proof {
            use_type_invariant(self);
        }
        assert((self.secs * 1_000_000_000 + self.subsec_nanos) % 1_000_000_000 == self.subsec_nanos)
            by (nonlinear_arith)
            requires
                self.subsec_nanos < 1_000_000_000,
        ;
        self.subsec_nanos
    }

    /// Whether this instant is strictly earlier than `other`.
    pub fn is_before(&self, other: &UtcTimestamp) -> (b: bool)
        ensures
            b == (self.epoch_nanos() < other.epoch_nanos()),
    {
        proof {
            use_type_invariant(self);
            use_type_invariant(other);
            lemma_lexicographic(self.secs as int, self.subsec_nanos as int, other.secs as int, other.subsec_nanos as int);
        }
        self.secs < other.secs || (self.secs == other.secs && self.subsec_nanos < other.subsec_nanos)
    }

    /// Whether both values denote the same instant.
    pub fn same_instant(&self, other: &UtcTimestamp) -> (b: bool)
        ensures
            b == (self.epoch_nanos() == other.epoch_nanos()),
    {
        proof {
            use_type_invariant(self);
            use_type_invariant(other);
            lemma_lexicographic(self.secs as int, self.subsec_nanos as int, other.secs as int, other.subsec_nanos as int);
            lemma_lexicographic(other.secs as int, other.subsec_nanos as int, self.secs as int, self.subsec_nanos as int);
        }
        self.secs == other.secs && self.subsec_nanos == other.subsec_nanos
    }

    /// The span from `earlier` to this instant, or the empty span when `earlier` is not
    /// earlier, as `duration_since(..).unwrap_or_default()` computes it.
    pub fn saturating_duration_since(&self, earlier: &UtcTimestamp) -> (d: Duration)
        ensures
            d.total_nanos() == if self.epoch_nanos() > earlier.epoch_nanos() {
                self.epoch_nanos() - earlier.epoch_nanos()
            } else {
                0
            },
    {
        proof {
            use_type_invariant(self);
            use_type_invariant(earlier);
            lemma_lexicographic(earlier.secs as int, earlier.subsec_nanos as int, self.secs as int, self.subsec_nanos as int);
        }
        if !(earlier.secs < self.secs || (earlier.secs == self.secs && earlier.subsec_nanos < self.subsec_nanos)) {
            return Duration { secs: 0, subsec_nanos: 0 };
        }
        let mut secs: i128 = self.secs as i128 - earlier.secs as i128;
        let nanos: u32 = if self.subsec_nanos >= earlier.subsec_nanos {
            self.subsec_nanos - earlier.subsec_nanos
        } else {
            secs = secs - 1;
            self.subsec_nanos + NANOS_PER_SECOND - earlier.subsec_nanos
        };
        assert(self.epoch_nanos() - earlier.epoch_nanos() == secs * 1_000_000_000 + nanos) by (nonlinear_arith)
            requires
                self.epoch_nanos() == self.secs * 1_000_000_000 + self.subsec_nanos,
                earlier.epoch_nanos() == earlier.secs * 1_000_000_000 + earlier.subsec_nanos,
                (self.subsec_nanos >= earlier.subsec_nanos && secs == self.secs - earlier.secs && nanos
                    == self.subsec_nanos - earlier.subsec_nanos) || (self.subsec_nanos < earlier.subsec_nanos
                    && secs == self.secs - earlier.secs - 1 && nanos == self.subsec_nanos + 1_000_000_000
                    - earlier.subsec_nanos),
        ;
        Duration { secs: secs as u64, subsec_nanos: nanos }
    }

    /// The instant `d` later, as `SystemTime::checked_add` computes it; `None` when it cannot
    /// be represented.
    pub fn checked_add(&self, d: Duration) -> (r: Option<UtcTimestamp>)
        ensures
            match r {
                Some(t) => t.epoch_nanos() == self.epoch_nanos() + d.total_nanos(),
                None => self.epoch_nanos() + d.total_nanos() >= timestamp_limit(),
            },
    {
        proof {
            use_type_invariant(self);
            use_type_invariant(&d);
        }
        let ds = d.as_secs();
        let dn = d.subsec_nanos();
        proof {
            assert(d.total_nanos() == ds * 1_000_000_000 + dn) by (nonlinear_arith)
                requires
                    ds == d.total_nanos() / 1_000_000_000,
                    dn == d.total_nanos() % 1_000_000_000,
                    d.total_nanos() >= 0,
            ;
        }
        let secs_wide: i128 = self.secs as i128 + ds as i128;
        let mut nanos: u32 = self.subsec_nanos + dn;
        let mut carry: i128 = 0;
        if nanos >= NANOS_PER_SECOND {
            nanos = nanos - NANOS_PER_SECOND;
            carry = 1;
        }
        let total: i128 = secs_wide + carry;
        if total > i64::MAX as i128 {
            proof {
                assert(self.epoch_nanos() + d.total_nanos() == total * 1_000_000_000 + nanos)
                    by (nonlinear_arith)
                    requires
                        self.epoch_nanos() == self.secs * 1_000_000_000 + self.subsec_nanos,
                        d.total_nanos() == ds * 1_000_000_000 + dn,
                        total == self.secs + ds + carry,
                        nanos + carry * 1_000_000_000 == self.subsec_nanos + dn,
                ;
                assert(total * 1_000_000_000 + nanos >= timestamp_limit()) by (nonlinear_arith)
                    requires
                        total >= i64::MAX + 1,
                        nanos >= 0,
                ;
            }
            return None;
        }
        let t = UtcTimestamp { secs: total as i64, subsec_nanos: nanos };
        proof {
            assert(t.epoch_nanos() == self.epoch_nanos() + d.total_nanos()) by (nonlinear_arith)
                requires
                    t.epoch_nanos() == total * 1_000_000_000 + nanos,
                    self.epoch_nanos() == self.secs * 1_000_000_000 + self.subsec_nanos,
                    d.total_nanos() == ds * 1_000_000_000 + dn,
                    total == self.secs + ds + carry,
                    nanos + carry * 1_000_000_000 == self.subsec_nanos + dn,
            ;
        }
        Some(t)
    }
}

proof fn lemma_lexicographic(s1: int, n1: int, s2: int, n2: int)
    requires
        0 <= n1 < 1_000_000_000,
        0 <= n2 < 1_000_000_000,
    ensures
        (s1 * 1_000_000_000 + n1 < s2 * 1_000_000_000 + n2) == (s1 < s2 || (s1 == s2 && n1 < n2)),
        (s1 * 1_000_000_000 + n1 == s2 * 1_000_000_000 + n2) == (s1 == s2 && n1 == n2),
{
    if s1 < s2 {
        assert(s1 * 1_000_000_000 + 1_000_000_000 <= s2 * 1_000_000_000) by (nonlinear_arith)
            requires
                s1 < s2,
        ;
    } else if s1 > s2 {
        assert(s2 * 1_000_000_000 + 1_000_000_000 <= s1 * 1_000_000_000) by (nonlinear_arith)
            requires
                s2 < s1,
        ;
    }
}

} // verus!
