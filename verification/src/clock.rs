//! Wall-clock instants and the anchors of the refresh cadence.
//!
//! The views are rebuilt at noon and at midnight, the two quiet points of the day. An instant
//! is held as plain numbers, whole seconds since the Unix epoch and the nanoseconds into the
//! second, so that the arithmetic on it can be verified. The calendar itself stays with
//! `chrono`: it says where noon and midnight of an instant's day lie.

use vstd::prelude::*;

verus! {

/// Seconds in a day.
pub const DAY_SECS: i64 = 86_400;

/// Seconds between two anchors: noon and midnight are twelve hours apart.
pub const ANCHOR_PERIOD_SECS: i64 = 43_200;

/// The hour of the noon anchor.
pub const NOON_HOUR: u32 = 12;

/// The hour of the midnight anchor.
pub const MIDNIGHT_HOUR: u32 = 0;

/// The instants that a `Timestamp` can hold lie at most this many seconds from the epoch
/// (about 253 000 years), well within what `chrono` represents.
pub const MAX_EPOCH_SECS: i64 = 8_000_000_000_000;

/// Nanoseconds in a second.
pub const SECOND_NANOS: u32 = 1_000_000_000;

/// The numbers denote an instant that a `Timestamp` can hold.
pub open spec fn representable(secs: int, nanos: int) -> bool {
    -MAX_EPOCH_SECS <= secs <= MAX_EPOCH_SECS && 0 <= nanos < SECOND_NANOS
}

/// The first second of the day that `secs` lies in.
pub open spec fn day_start(secs: int) -> int {
    (secs / (DAY_SECS as int)) * DAY_SECS
}

/// The first anchor after second `secs`: the next instant that is noon or midnight.
pub open spec fn next_anchor(secs: int) -> int {
    (secs / (ANCHOR_PERIOD_SECS as int) + 1) * ANCHOR_PERIOD_SECS
}

/// The whole seconds from an instant to the first anchor after it. A started second counts as
/// gone, so with nanoseconds on the clock the wait is one second shorter.
pub open spec fn wait_until_anchor(secs: int, nanos: int) -> int {
    if nanos > 0 {
        next_anchor(secs) - secs - 1
    } else {
        next_anchor(secs) - secs
    }
}

/// An instant on the host's wall clock. Which clock that is, UTC or the local time of a
/// place, is for the host to say: noon and midnight are those of the clock it reads.
#[derive(Clone, Copy, Debug, PartialEq, Eq)]
pub struct Timestamp {
    secs: i64,
    nanos: u32,
}

impl Timestamp {
    #[verifier::type_invariant]
    spec fn valid(self) -> bool {
        representable(self.secs as int, self.nanos as int)
    }

    /// Whole seconds since the Unix epoch.
    pub closed spec fn seconds(self) -> int {
        self.secs as int
    }

    /// Nanoseconds into the second.
    pub closed spec fn subsec_nanos(self) -> int {
        self.nanos as int
    }

    /// The instant `nanos` nanoseconds after second `secs` of the Unix epoch, if a `Timestamp`
    /// can hold it.
    pub fn new(secs: i64, nanos: u32) -> (instant: Option<Timestamp>)
        ensures
            instant is Some <==> representable(secs as int, nanos as int),
            instant matches Some(t) ==> t.seconds() == secs && t.subsec_nanos() == nanos,
    {
        if -MAX_EPOCH_SECS <= secs && secs <= MAX_EPOCH_SECS && nanos < SECOND_NANOS {
            Some(Timestamp { secs, nanos })
        } else {
            None
        }
    }

    /// Whole seconds since the Unix epoch.
    pub fn secs(&self) -> (secs: i64)
        ensures
            secs == self.seconds(),
            representable(self.seconds(), self.subsec_nanos()),
    {
        proof {
            use_type_invariant(self);
        }
        self.secs
    }

    /// Nanoseconds into the second.
    pub fn nanos(&self) -> (nanos: u32)
        ensures
            nanos == self.subsec_nanos(),
            representable(self.seconds(), self.subsec_nanos()),
    {
        proof {
            use_type_invariant(self);
        }
        self.nanos
    }
}

/// The second at which the clock shows `hour:min:sec` on the day of the given instant, by
/// `chrono`: `DateTime::from_timestamp` makes the instant, `DateTime::date_naive` takes its
/// date, `NaiveDate::and_hms_opt` sets the time of day, and `NaiveDateTime::and_utc` with
/// `DateTime::timestamp` turn the result back into seconds.
///
/// Not proved, taken from `chrono`: a result is the first second of the instant's day plus the
/// seconds of the time of day, and there is a result whenever the instant is representable and
/// the time of day is one of the 86 400 seconds of a day.
#[verifier::external_body]
fn second_on_day_of(secs: i64, nanos: u32, hour: u32, min: u32, sec: u32) -> (at: Option<i64>)
    ensures
        at matches Some(t) ==> t == day_start(secs as int) + hour * 3600 + min * 60 + sec,
        at is Some ==> hour < 24 && min < 60 && sec < 60,
        representable(secs as int, nanos as int) && hour < 24 && min < 60 && sec < 60
            ==> at is Some,
{
    let instant = chrono::DateTime::from_timestamp(secs, nanos)?;
    let on_day = instant.date_naive().and_hms_opt(hour, min, sec)?;
    Some(on_day.and_utc().timestamp())
}

/// The whole seconds to wait from `now` until the nearer of the next noon and the next
/// midnight. At an anchor itself the wait is the full twelve hours to the next one.
pub fn time_until_next_anchor(now: Timestamp) -> (wait: u64)
    ensures
        wait == wait_until_anchor(now.seconds(), now.subsec_nanos()),
        wait <= ANCHOR_PERIOD_SECS,
{
    let secs = now.secs();
    let nanos = now.nanos();
    proof {
        lemma_anchors_of_day(secs as int);
    }
    let noon = match second_on_day_of(secs, nanos, NOON_HOUR, 0, 0) {
        Some(at) => at,
        None => secs,
    };
    let midnight = match second_on_day_of(secs, nanos, MIDNIGHT_HOUR, 0, 0) {
        Some(at) => at,
        None => secs,
    } + DAY_SECS;
    let anchor = if noon > secs {
        noon
    } else {
        midnight
    };
    let whole = anchor - secs;
    let wait = if nanos > 0 {
        whole - 1
    } else {
        whole
    };
    wait as u64
}

/// The anchors of a day: before noon the next anchor is the day's noon, from noon on it is the
/// midnight that ends the day.
pub proof fn lemma_anchors_of_day(secs: int)
    ensures
        day_start(secs) <= secs < day_start(secs) + DAY_SECS,
        secs < day_start(secs) + ANCHOR_PERIOD_SECS ==> next_anchor(secs) == day_start(secs)
            + ANCHOR_PERIOD_SECS,
        secs >= day_start(secs) + ANCHOR_PERIOD_SECS ==> next_anchor(secs) == day_start(secs)
            + DAY_SECS,
{
}

/// The wait ends at an anchor and passes none: it is at most twelve hours, and the first
/// second after it (the second it ends on, when the clock showed a whole second) is the first
/// noon or midnight after `secs`.
pub proof fn lemma_wait_reaches_next_anchor(secs: int, nanos: int)
    requires
        0 <= nanos < SECOND_NANOS,
    ensures
        0 <= wait_until_anchor(secs, nanos) <= ANCHOR_PERIOD_SECS,
        secs < next_anchor(secs) <= secs + ANCHOR_PERIOD_SECS,
        next_anchor(secs) % (ANCHOR_PERIOD_SECS as int) == 0,
        nanos == 0 ==> secs + wait_until_anchor(secs, nanos) == next_anchor(secs),
        nanos > 0 ==> secs + wait_until_anchor(secs, nanos) + 1 == next_anchor(secs),
{
}

} // verus!
