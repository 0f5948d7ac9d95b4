//! Monotonic timestamps and whole-second elapsed time.
//!
//! The daemon measures a phase by the whole seconds that have passed since
//! the phase began. A [`Timestamp`] is one reading of a monotonic clock;
//! [`elapsed_secs`] is the model of the distance between two readings, and
//! it is never negative: a reading that lies before the start counts as no
//! time at all.

use vstd::prelude::*;

verus! {

/// Nanoseconds in one second.
pub const NANOS_PER_SEC: u32 = 1_000_000_000;

/// Milliseconds in one second.
pub const MILLIS_PER_SEC: u64 = 1_000;

/// Nanoseconds in one millisecond.
pub const NANOS_PER_MILLI: u32 = 1_000_000;

/// A reading of a monotonic clock: whole seconds, and the nanoseconds into
/// the current second, counted from an origin that the caller fixes once.
#[derive(Clone, Copy, Debug, PartialEq, Eq, Structural)]
pub struct Timestamp {
    secs: u64,
    nanos: u32,
}

impl View for Timestamp {
    type V = nat;

    /// The reading in nanoseconds since the origin.
    closed spec fn view(&self) -> nat {
        (self.secs as nat) * (NANOS_PER_SEC as nat) + (self.nanos as nat)
    }
}

/// Whole seconds from `start` to `now`, rounded down; zero where `now` lies
/// before `start`.
pub open spec fn elapsed_secs(start: Timestamp, now: Timestamp) -> nat {
    if now@ >= start@ {
        ((now@ - start@) / (NANOS_PER_SEC as int)) as nat
    } else {
        0
    }
}

impl Timestamp {
    /// The nanosecond part stays below one second.
    #[verifier::type_invariant]
    pub closed spec fn wf(self) -> bool {
        self.nanos < NANOS_PER_SEC
    }

    /// The whole seconds of the reading.
    pub closed spec fn whole_secs(self) -> nat {
        self.secs as nat
    }

    /// The nanoseconds into the current second.
    pub closed spec fn subsec(self) -> nat {
        self.nanos as nat
    }

    /// The reading `secs` seconds and `nanos` nanoseconds after the origin,
    /// or `None` where `nanos` is a second or more.
    pub fn new(secs: u64, nanos: u32) -> (r: Option<Timestamp>)
        ensures
            r.is_some() <==> nanos < NANOS_PER_SEC,
            r matches Some(t) ==> t@ == secs as nat * (NANOS_PER_SEC as nat) + nanos as nat
                && t.whole_secs() == secs && t.subsec() == nanos && t.wf(),
    {
        if nanos < NANOS_PER_SEC {
            Some(Timestamp { secs, nanos })
        } else {
            None
        }
    }

    /// The reading exactly `secs` seconds after the origin.
    pub fn from_secs(secs: u64) -> (t: Timestamp)
        ensures
            t@ == secs as nat * (NANOS_PER_SEC as nat),
            t.whole_secs() == secs,
            t.subsec() == 0,
            t.wf(),
    {
        Timestamp { secs, nanos: 0 }
    }

    /// The reading `millis` milliseconds after the origin.
    pub fn from_millis(millis: u64) -> (t: Timestamp)
        ensures
            t@ == millis as nat * (NANOS_PER_MILLI as nat),
            t.whole_secs() == millis / MILLIS_PER_SEC,
            t.subsec() == (millis % MILLIS_PER_SEC) * (NANOS_PER_MILLI as nat),
            t.wf(),
    {
        let secs: u64 = millis / MILLIS_PER_SEC;
        let rest: u64 = millis % MILLIS_PER_SEC;
        let nanos: u32 = (rest as u32) * NANOS_PER_MILLI;
        Timestamp { secs, nanos }
    }

    /// The whole seconds of the reading.
    pub fn secs(&self) -> (s: u64)
        ensures
            s == self.whole_secs(),
    {
        self.secs
    }

    /// The nanoseconds into the current second.
    pub fn subsec_nanos(&self) -> (n: u32)
        ensures
            n == self.subsec(),
            n < NANOS_PER_SEC,
    {
        proof {
            use_type_invariant(self);
        }
        self.nanos
    }

    /// Whole seconds from `start` to this reading, rounded down. A reading
    /// before `start` gives zero: elapsed time is never negative.
    pub fn seconds_since(&self, start: Timestamp) -> (e: u64)
        ensures
            e == elapsed_secs(start, *self),
    {
        proof {
            use_type_invariant(self);
            use_type_invariant(start);
        }
        if self.secs < start.secs {
            0
        } else {
            let whole: u64 = self.secs - start.secs;
            if self.nanos >= start.nanos {
                proof {
                    lemma_split_seconds(whole as nat, (self.nanos - start.nanos) as nat);
                }
                whole
            } else if whole == 0 {
                0
            } else {
                proof {
                    lemma_split_seconds(
                        (whole - 1) as nat,
                        (NANOS_PER_SEC + self.nanos - start.nanos) as nat,
                    );
                }
                whole - 1
            }
        }
    }
}

/// `whole` seconds and a remainder below one second make `whole` whole
/// seconds.
proof fn lemma_split_seconds(whole: nat, rest: nat)
    requires
        rest < NANOS_PER_SEC,
    ensures
        (whole * (NANOS_PER_SEC as nat) + rest) / (NANOS_PER_SEC as nat) == whole,
{
    assert((whole * 1_000_000_000 + rest) / 1_000_000_000 == whole) by (nonlinear_arith)
        requires
            rest < 1_000_000_000,
    ;
}

/// A later second reading never shows less elapsed time.
pub proof fn lemma_elapsed_monotonic(start: Timestamp, earlier: Timestamp, later: Timestamp)
    requires
        earlier@ <= later@,
    ensures
        elapsed_secs(start, earlier) <= elapsed_secs(start, later),
{
    if earlier@ >= start@ {
        let a: int = earlier@ - start@;
        let b: int = later@ - start@;
        assert(a / 1_000_000_000 <= b / 1_000_000_000) by (nonlinear_arith)
            requires
                0 <= a <= b,
        ;
    }
}

/// No time has passed between a reading and itself.
pub proof fn lemma_elapsed_zero(t: Timestamp)
    ensures
        elapsed_secs(t, t) == 0,
{
}

/// A reading less than `k + 1` seconds after `start` shows at most `k`
/// elapsed seconds.
pub proof fn lemma_elapsed_bound(start: Timestamp, now: Timestamp, k: nat)
    requires
        now@ < start@ + (k + 1) * (NANOS_PER_SEC as nat),
    ensures
        elapsed_secs(start, now) <= k,
{
    if now@ >= start@ {
        let d: int = now@ - start@;
        assert(d / 1_000_000_000 <= k) by (nonlinear_arith)
            requires
                0 <= d < (k + 1) * 1_000_000_000,
        ;
    }
}

} // verus!
