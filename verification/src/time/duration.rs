use vstd::prelude::*;

verus! {

/// Nanoseconds in one second.
pub const NANOS_PER_SEC: u32 = 1_000_000_000;

/// Nanoseconds in one millisecond.
pub const NANOS_PER_MILLI: u32 = 1_000_000;

/// Nanoseconds in one microsecond.
pub const NANOS_PER_MICRO: u32 = 1_000;

/// A span of time, held as whole seconds and a sub-second part in nanoseconds.
///
/// The mathematical value of a duration is its total number of nanoseconds,
/// [`Duration::as_nanos`]. The sub-second part is always below one second, so two
/// durations are equal exactly when their totals are.
#[derive(Clone, Copy, Debug, PartialEq, Eq, PartialOrd, Ord, Hash, Structural)]
pub struct Duration {
    secs: u64,
    nanos: u32,
}

impl Duration {
    #[verifier::type_invariant]
    spec fn well_formed(self) -> bool {
        self.nanos < NANOS_PER_SEC
    }

    /// The whole seconds of this duration.
    pub closed spec fn secs_part(self) -> nat {
        self.secs as nat
    }

    /// The part of this duration below one second, in nanoseconds.
    pub closed spec fn nanos_part(self) -> nat {
        self.nanos as nat
    }

    /// The total length of this duration in nanoseconds.
    pub open spec fn as_nanos(self) -> nat {
        self.secs_part() * 1_000_000_000 + self.nanos_part()
    }

    /// The first total of nanoseconds that no duration can hold.
    pub open spec fn limit() -> nat {
        (u64::MAX as nat + 1) * 1_000_000_000
    }

    /// The duration whose total is `nanos` nanoseconds, for a total below
    /// [`Duration::limit`].
    pub closed spec fn of_nanos(nanos: nat) -> Duration {
        Duration { secs: (nanos / 1_000_000_000) as u64, nanos: (nanos % 1_000_000_000) as u32 }
    }

    /// The sum of two durations, where a duration can hold it.
    pub open spec fn checked_add_spec(self, rhs: Duration) -> Option<Duration> {
        if self.as_nanos() + rhs.as_nanos() < Duration::limit() {
            Some(Duration::of_nanos(self.as_nanos() + rhs.as_nanos()))
        } else {
            None
        }
    }

    /// The difference of two durations, where `rhs` is not the longer one.
    pub open spec fn checked_sub_spec(self, rhs: Duration) -> Option<Duration> {
        if rhs.as_nanos() <= self.as_nanos() {
            Some(Duration::of_nanos((self.as_nanos() - rhs.as_nanos()) as nat))
        } else {
            None
        }
    }

    /// The duration of no time at all.
    pub fn zero() -> (d: Duration)
        ensures
            d.as_nanos() == 0,
            d.secs_part() == 0,
            d.nanos_part() == 0,
    {
        Duration { secs: 0, nanos: 0 }
    }

    /// A duration of `secs` seconds and `nanos` further nanoseconds. A `nanos` of a
    /// second or more carries over into the seconds, which must stay within `u64`.
    pub fn new(secs: u64, nanos: u32) -> (d: Duration)
        requires
            secs + nanos / NANOS_PER_SEC <= u64::MAX,
        ensures
            d.as_nanos() == secs * 1_000_000_000 + nanos,
            d.secs_part() == secs + nanos / NANOS_PER_SEC,
            d.nanos_part() == nanos % NANOS_PER_SEC,
    {
        let carry: u32 = nanos / NANOS_PER_SEC;
        let rest: u32 = nanos % NANOS_PER_SEC;
        Duration { secs: secs + carry as u64, nanos: rest }
    }

    /// A duration of `secs` whole seconds.
    pub fn from_secs(secs: u64) -> (d: Duration)
        ensures
            d.as_nanos() == secs * 1_000_000_000,
            d.secs_part() == secs,
            d.nanos_part() == 0,
    {
        Duration { secs, nanos: 0 }
    }

    /// A duration of `millis` milliseconds.
    pub fn from_millis(millis: u64) -> (d: Duration)
        ensures
            d.as_nanos() == millis * 1_000_000,
            d.secs_part() == millis / 1_000,
            d.nanos_part() == (millis % 1_000) * 1_000_000,
    {
        let secs: u64 = millis / 1_000;
        let rest: u32 = (millis % 1_000) as u32;
        Duration { secs, nanos: rest * NANOS_PER_MILLI }
    }

    /// A duration of `micros` microseconds.
    pub fn from_micros(micros: u64) -> (d: Duration)
        ensures
            d.as_nanos() == micros * 1_000,
            d.secs_part() == micros / 1_000_000,
            d.nanos_part() == (micros % 1_000_000) * 1_000,
    {
        let secs: u64 = micros / 1_000_000;
        let rest: u32 = (micros % 1_000_000) as u32;
        Duration { secs, nanos: rest * NANOS_PER_MICRO }
    }

    /// A duration of `nanos` nanoseconds.
    pub fn from_nanos(nanos: u64) -> (d: Duration)
        ensures
            d.as_nanos() == nanos,
            d.secs_part() == nanos / 1_000_000_000,
            d.nanos_part() == nanos % 1_000_000_000,
    {
        let secs: u64 = nanos / 1_000_000_000;
        let rest: u32 = (nanos % 1_000_000_000) as u32;
        Duration { secs, nanos: rest }
    }

    /// The whole seconds of this duration.
    pub fn as_secs(&self) -> (s: u64)
        ensures
            s == self.secs_part(),
            s == self.as_nanos() / 1_000_000_000,
    {
        proof {
            use_type_invariant(self);
        }
        self.secs
    }

    /// The part of this duration below one second, in nanoseconds.
    pub fn subsec_nanos(&self) -> (n: u32)
        ensures
            n == self.nanos_part(),
            n == self.as_nanos() % 1_000_000_000,
            n < NANOS_PER_SEC,
    {
        proof {
            use_type_invariant(self);
        }
        self.nanos
    }

    /// Whether this duration is of no time at all.
    pub fn is_zero(&self) -> (z: bool)
        ensures
            z == (self.as_nanos() == 0),
    {
        self.secs == 0 && self.nanos == 0
    }

    /// Whether this duration is no longer than `other`.
    pub fn le(&self, other: &Duration) -> (b: bool)
        ensures
            b == (self.as_nanos() <= other.as_nanos()),
    {
        proof {
            use_type_invariant(self);
            use_type_invariant(other);
        }
        self.secs < other.secs || (self.secs == other.secs && self.nanos <= other.nanos)
    }

    /// Whether this duration is shorter than `other`.
    pub fn lt(&self, other: &Duration) -> (b: bool)
        ensures
            b == (self.as_nanos() < other.as_nanos()),
    {
        proof {
            use_type_invariant(self);
            use_type_invariant(other);
        }
        self.secs < other.secs || (self.secs == other.secs && self.nanos < other.nanos)
    }

    /// The sum of two durations, or `None` where the seconds of the sum do not fit `u64`.
    #[verifier::when_used_as_spec(checked_add_spec)]
    pub fn checked_add(self, rhs: Duration) -> (sum: Option<Duration>)
        ensures
            sum == self.checked_add_spec(rhs),
            sum is Some <==> self.as_nanos() + rhs.as_nanos() < Duration::limit(),
            sum matches Some(d) ==> d.as_nanos() == self.as_nanos() + rhs.as_nanos(),
    {
        proof {
            use_type_invariant(self);
            use_type_invariant(rhs);
            if self.as_nanos() + rhs.as_nanos() < Duration::limit() {
                lemma_of_nanos(self.as_nanos() + rhs.as_nanos());
            }
        }
        let total: u32 = self.nanos + rhs.nanos;
        let carry: u64 = if total >= NANOS_PER_SEC { 1 } else { 0 };
        let rest: u32 = if total >= NANOS_PER_SEC { total - NANOS_PER_SEC } else { total };
        match self.secs.checked_add(rhs.secs) {
            None => None,
            Some(secs) => match secs.checked_add(carry) {
                None => None,
                Some(secs) => Some(Duration { secs, nanos: rest }),
            },
        }
    }

    /// The difference of two durations, or `None` where `rhs` is the longer one.
    #[verifier::when_used_as_spec(checked_sub_spec)]
    pub fn checked_sub(self, rhs: Duration) -> (diff: Option<Duration>)
        ensures
            diff == self.checked_sub_spec(rhs),
            diff is Some <==> rhs.as_nanos() <= self.as_nanos(),
            diff matches Some(d) ==> d.as_nanos() == self.as_nanos() - rhs.as_nanos(),
    {
        proof {
            use_type_invariant(self);
            use_type_invariant(rhs);
            if rhs.as_nanos() <= self.as_nanos() {
                lemma_of_nanos((self.as_nanos() - rhs.as_nanos()) as nat);
            }
        }
        if self.secs < rhs.secs || (self.secs == rhs.secs && self.nanos < rhs.nanos) {
            None
        } else if self.nanos >= rhs.nanos {
            Some(Duration { secs: self.secs - rhs.secs, nanos: self.nanos - rhs.nanos })
        } else {
            Some(
                Duration {
                    secs: self.secs - rhs.secs - 1,
                    nanos: self.nanos + NANOS_PER_SEC - rhs.nanos,
                },
            )
        }
    }

    /// The difference of two durations, or no time at all where `rhs` is the longer one.
    pub fn saturating_sub(self, rhs: Duration) -> (diff: Duration)
        ensures
            diff.as_nanos() == if rhs.as_nanos() <= self.as_nanos() {
                self.as_nanos() - rhs.as_nanos()
            } else {
                0
            },
    {
        match self.checked_sub(rhs) {
            Some(d) => d,
            None => Duration::zero(),
        }
    }
}

impl core::ops::Add for Duration {
    type Output = Duration;

    /// The sum of two durations. The seconds of the sum must fit `u64`.
    fn add(self, rhs: Duration) -> (sum: Duration) {
        match self.checked_add(rhs) {
            Some(sum) => sum,
            None => self,
        }
    }
}

impl vstd::std_specs::ops::AddSpecImpl for Duration {
    open spec fn obeys_add_spec() -> bool {
        true
    }

    open spec fn add_req(self, rhs: Duration) -> bool {
        self.as_nanos() + rhs.as_nanos() < Duration::limit()
    }

    open spec fn add_spec(self, rhs: Duration) -> Duration {
        Duration::of_nanos(self.as_nanos() + rhs.as_nanos())
    }
}

impl core::ops::Sub for Duration {
    type Output = Duration;

    /// The difference of two durations, of which `rhs` must not be the longer one.
    fn sub(self, rhs: Duration) -> (diff: Duration) {
        match self.checked_sub(rhs) {
            Some(diff) => diff,
            None => self,
        }
    }
}

impl vstd::std_specs::ops::SubSpecImpl for Duration {
    open spec fn obeys_sub_spec() -> bool {
        true
    }

    open spec fn sub_req(self, rhs: Duration) -> bool {
        rhs.as_nanos() <= self.as_nanos()
    }

    open spec fn sub_spec(self, rhs: Duration) -> Duration {
        Duration::of_nanos((self.as_nanos() - rhs.as_nanos()) as nat)
    }
}

/// The duration made of a total below the limit has that total.
pub proof fn lemma_of_nanos(nanos: nat)
    requires
        nanos < Duration::limit(),
    ensures
        Duration::of_nanos(nanos).as_nanos() == nanos,
        Duration::of_nanos(nanos).secs_part() == nanos / 1_000_000_000,
        Duration::of_nanos(nanos).nanos_part() == nanos % 1_000_000_000,
{
}

} // verus!
