//! Points in time, and how a thread came to stop waiting.

use vstd::prelude::*;

verus! {

/// The number of nanoseconds in a second.
pub const NANOS_PER_SEC: u32 = 1_000_000_000;

/// A span of time.
#[derive(Copy, Clone, Debug, PartialEq, Eq, PartialOrd, Ord, Hash, Structural)]
pub struct Duration {
    secs: u64,
    nanos: u32,
}

/// A point in time, on a clock that never goes back.
#[derive(Copy, Clone, Debug, PartialEq, Eq, PartialOrd, Ord, Hash, Structural)]
pub struct Instant {
    since: Duration,
}

impl View for Duration {
    type V = nat;

    /// The span in nanoseconds.
    closed spec fn view(&self) -> nat {
        (self.secs * 1_000_000_000 + self.nanos) as nat
    }
}

impl View for Instant {
    type V = nat;

    /// The nanoseconds since the clock started.
    closed spec fn view(&self) -> nat {
        self.since@
    }
}

impl Duration {
    #[verifier::type_invariant]
    spec fn inv(self) -> bool {
        self.nanos < 1_000_000_000
    }

    /// A span of whole seconds and nanoseconds.
    pub fn new(secs: u64, nanos: u32) -> (dur: Self)
        requires
            nanos < NANOS_PER_SEC,
        ensures
            dur@ == secs * 1_000_000_000 + nanos,
    {
        Duration { secs, nanos }
    }

    /// A span of whole seconds.
    pub fn from_secs(secs: u64) -> (dur: Self)
        ensures
            dur@ == secs * 1_000_000_000,
    {
        Duration { secs, nanos: 0 }
    }

    /// A span of whole milliseconds.
    pub fn from_millis(millis: u64) -> (dur: Self)
        ensures
            dur@ == millis * 1_000_000,
    {
        Duration { secs: millis / 1000, nanos: (millis % 1000) as u32 * 1_000_000 }
    }

    /// The whole seconds of the span.
    pub fn as_secs(&self) -> (secs: u64)
        ensures
            secs == self@ / 1_000_000_000,
    {
        proof {
            use_type_invariant(self);
        }
        self.secs
    }

    /// The rest of the span.
    pub fn subsec_nanos(&self) -> (nanos: u32)
        ensures
            nanos == self@ % 1_000_000_000,
            nanos < NANOS_PER_SEC,
    {
        proof {
            use_type_invariant(self);
        }
        self.nanos
    }

    /// The sum of two spans, unless it cannot be represented.
    pub fn checked_add(self, other: Duration) -> (sum: Option<Duration>)
        ensures
            match sum {
                Some(sum) => sum@ == self@ + other@,
                None => self@ + other@ > u64::MAX * 1_000_000_000 + 999_999_999,
            },
    {
        proof {
            use_type_invariant(&self);
            use_type_invariant(&other);
        }
        let secs: u64 = match self.secs.checked_add(other.secs) {
            Some(secs) => secs,
            None => {
                return None;
            },
        };
        let nanos: u32 = self.nanos + other.nanos;
        if nanos < NANOS_PER_SEC {
            Some(Duration { secs, nanos })
        } else {
            match secs.checked_add(1) {
                Some(secs) => Some(Duration { secs, nanos: nanos - NANOS_PER_SEC }),
                None => None,
            }
        }
    }

    /// The difference of two spans, unless it is negative.
    pub fn checked_sub(self, other: Duration) -> (difference: Option<Duration>)
        ensures
            match difference {
                Some(difference) => self@ >= other@ && difference@ == self@ - other@,
                None => self@ < other@,
            },
    {
        proof {
            use_type_invariant(&self);
            use_type_invariant(&other);
        }
        if self.secs < other.secs {
            return None;
        }
        let secs: u64 = self.secs - other.secs;
        if self.nanos >= other.nanos {
            Some(Duration { secs, nanos: self.nanos - other.nanos })
        } else if secs > 0 {
            Some(Duration { secs: secs - 1, nanos: self.nanos + NANOS_PER_SEC - other.nanos })
        } else {
            None
        }
    }
}

impl Instant {
    /// The point at which the clock has run for the given span.
    pub fn new(since: Duration) -> (inst: Self)
        ensures
            inst@ == since@,
    {
        Instant { since }
    }

    /// The later point, unless it cannot be represented.
    pub fn checked_add(self, dur: Duration) -> (inst: Option<Instant>)
        ensures
            match inst {
                Some(inst) => inst@ == self@ + dur@,
                None => self@ + dur@ > u64::MAX * 1_000_000_000 + 999_999_999,
            },
    {
        match self.since.checked_add(dur) {
            Some(since) => Some(Instant { since }),
            None => None,
        }
    }

    /// How much later this point is, unless it is earlier.
    pub fn checked_duration_since(self, earlier: Instant) -> (dur: Option<Duration>)
        ensures
            match dur {
                Some(dur) => self@ >= earlier@ && dur@ == self@ - earlier@,
                None => self@ < earlier@,
            },
    {
        self.since.checked_sub(earlier.since)
    }
}

/// A compatibility wrapper around an optional expiry time.
#[derive(Clone, Copy, Debug, PartialEq, Eq, Structural)]
pub struct Expiry(Option<Instant>);

impl View for Expiry {
    type V = Option<Instant>;

    /// The expiry time.
    closed spec fn view(&self) -> Option<Instant> {
        self.0
    }
}

impl Expiry {
    /// Determine if there is a defined expiry.
    pub fn is_some(self) -> (yes: bool)
        ensures
            yes == (self@ is Some),
    {
        self.0.is_some()
    }

    /// Convert the expiry into a duration from `now`. There is none if there
    /// is no expiry, or if it has passed.
    pub fn checked_duration(self, now: Instant) -> (dur: Option<Duration>)
        ensures
            match dur {
                Some(dur) => self@ matches Some(inst) && inst@ >= now@ && dur@ == inst@ - now@,
                None => self@ matches Some(inst) ==> inst@ < now@,
            },
    {
        match self.0 {
            Some(inst) => inst.checked_duration_since(now),
            None => None,
        }
    }

    /// Unwrap the expiry as an instant.
    pub fn into_opt_instant(self) -> (inst: Option<Instant>)
        ensures
            inst == self@,
    {
        self.0
    }

    /// No expiry.
    pub fn never() -> (expiry: Expiry)
        ensures
            expiry@ is None,
    {
        Expiry(None)
    }

    /// The expiry a duration after `now`.
    pub fn from_duration(dur: Duration, now: Instant) -> (expiry: Expiry)
        requires
            now@ + dur@ <= u64::MAX * 1_000_000_000 + 999_999_999,
        ensures
            expiry@ matches Some(inst) && inst@ == now@ + dur@,
    {
        Expiry(now.checked_add(dur))
    }

    /// The expiry a duration after `now`, if there is a duration.
    pub fn from_opt_duration(dur: Option<Duration>, now: Instant) -> (expiry: Expiry)
        requires
            dur matches Some(dur) ==> now@ + dur@ <= u64::MAX * 1_000_000_000 + 999_999_999,
        ensures
            match dur {
                Some(dur) => expiry@ matches Some(inst) && inst@ == now@ + dur@,
                None => expiry@ is None,
            },
    {
        match dur {
            Some(dur) => Expiry::from_duration(dur, now),
            None => Expiry(None),
        }
    }
}

impl From<Instant> for Expiry {
    fn from(inst: Instant) -> (expiry: Expiry) {
        Expiry(Some(inst))
    }
}

impl vstd::std_specs::convert::FromSpecImpl<Instant> for Expiry {
    open spec fn obeys_from_spec() -> bool {
        true
    }

    closed spec fn from_spec(inst: Instant) -> Expiry {
        Expiry(Some(inst))
    }
}

/// An instant makes an expiry at that instant.
pub proof fn law_expiry_from(inst: Instant)
    ensures
        <Expiry as vstd::std_specs::convert::FromSpec<Instant>>::from_spec(inst)@ == Some(inst),
{
}

/// The result of a thread `park` operation.
#[derive(Copy, Clone, Debug, PartialEq, Eq, Structural)]
pub enum ParkResult {
    /// The park was skipped because a pending notification was consumed.
    Skipped,
    /// The park timed out.
    TimedOut,
    /// The thread was parked and subsequently notified.
    Unparked,
}

impl ParkResult {
    /// Determine if the park operation timed out.
    pub fn timed_out(self) -> (yes: bool)
        ensures
            yes == (self is TimedOut),
    {
        matches!(self, ParkResult::TimedOut)
    }

    /// Determine if the park operation was skipped due to a pending notification.
    pub fn skipped(self) -> (yes: bool)
        ensures
            yes == (self is Skipped),
    {
        matches!(self, ParkResult::Skipped)
    }
}

/// An expiry that a span makes is that span away, gets nearer as time goes by, and
/// is reached, not passed, when the span is over.
pub proof fn law_expiry_from_duration(
    dur: Duration,
    now: Instant,
    later: Instant,
    expiry: Expiry,
    left: Option<Duration>,
)
    requires
        now@ <= later@,
        call_ensures(Expiry::from_duration, (dur, now), expiry),
        call_ensures(Expiry::checked_duration, (expiry, later), left),
    ensures
        left is Some <==> later@ - now@ <= dur@,
        left matches Some(left) ==> left@ + (later@ - now@) == dur@,
{
}

/// Without a span there is no expiry, and nothing is left of it at any time.
pub proof fn law_no_expiry(
    now: Instant,
    later: Instant,
    expiry: Expiry,
    yes: bool,
    left: Option<Duration>,
)
    requires
        call_ensures(Expiry::from_opt_duration, (None::<Duration>, now), expiry),
        call_ensures(Expiry::is_some, (expiry,), yes),
        call_ensures(Expiry::checked_duration, (expiry, later), left),
    ensures
        !yes,
        left is None,
{
}

/// A span that is an optional one makes the expiry that it makes by itself.
pub proof fn law_opt_expiry(dur: Duration, now: Instant, expiry: Expiry, other: Expiry)
    requires
        call_ensures(Expiry::from_opt_duration, (Some(dur), now), expiry),
        call_ensures(Expiry::from_duration, (dur, now), other),
    ensures
        expiry@ is Some,
        other@ is Some,
        expiry@->0@ == other@->0@,
{
}

/// Taking a span away undoes adding it.
pub proof fn law_add_sub(
    span: Duration,
    other: Duration,
    sum: Option<Duration>,
    back: Option<Duration>,
)
    requires
        call_ensures(Duration::checked_add, (span, other), sum),
        sum is Some,
        call_ensures(Duration::checked_sub, (sum->0, other), back),
    ensures
        back matches Some(back) && back@ == span@,
{
}

/// The seconds of a span and the rest of it make up the span.
pub proof fn law_parts(span: Duration, secs: u64, nanos: u32)
    requires
        call_ensures(Duration::as_secs, (&span,), secs),
        call_ensures(Duration::subsec_nanos, (&span,), nanos),
    ensures
        secs * 1_000_000_000 + nanos == span@,
        nanos < 1_000_000_000,
{
}

} // verus!
