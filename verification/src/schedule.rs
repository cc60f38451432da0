//! When an approved device next has something to do. Times are nanoseconds of a
//! monotonic clock.

use vstd::prelude::*;

verus! {

pub const NANOS_PER_SECOND: u128 = 1_000_000_000;

/// Later than any time that the clock gives.
pub const TIME_LIMIT: u128 = 0x1_0000_0000_0000_0000_0000_0000;

/// A number of seconds, in nanoseconds.
pub open spec fn in_nanos(seconds: u64) -> u128 {
    (seconds * NANOS_PER_SECOND) as u128
}

/// Turns seconds into nanoseconds.
pub fn nanos(seconds: u64) -> (r: u128)
    ensures
        r == in_nanos(seconds),
        r == seconds * NANOS_PER_SECOND,
{
    seconds as u128 * NANOS_PER_SECOND
}

/// When the heartbeat, the directory and the relay lease are due next.
#[derive(Debug, Clone, Copy, PartialEq, Eq, Structural)]
pub struct ApprovedSchedule {
    pub next_heartbeat: u128,
    pub next_directory: u128,
    pub next_relay_lease: u128,
}

impl ApprovedSchedule {
    /// Everything is due at `now`.
    pub open spec fn all_due(now: u128) -> Self {
        ApprovedSchedule { next_heartbeat: now, next_directory: now, next_relay_lease: now }
    }

    /// A schedule on which everything is due.
    pub fn due_now(now: u128) -> (r: Self)
        ensures
            r == Self::all_due(now),
    {
        ApprovedSchedule { next_heartbeat: now, next_directory: now, next_relay_lease: now }
    }

    /// When the first thing is due.
    pub open spec fn earliest(self) -> u128 {
        let first = if self.next_directory < self.next_heartbeat {
            self.next_directory
        } else {
            self.next_heartbeat
        };
        if self.next_relay_lease < first {
            self.next_relay_lease
        } else {
            first
        }
    }

    /// How long it is until then, and at least one second.
    pub open spec fn wait(self, now: u128) -> u128 {
        if self.earliest() >= now + NANOS_PER_SECOND {
            (self.earliest() - now) as u128
        } else {
            NANOS_PER_SECOND
        }
    }

    /// How long to rest before something is due, in nanoseconds.
    pub fn next_delay(&self, now: u128) -> (r: u128)
        ensures
            r == self.wait(now),
    {
        let mut next: u128 = self.next_heartbeat;
        if self.next_directory < next {
            next = self.next_directory;
        }
        if self.next_relay_lease < next {
            next = self.next_relay_lease;
        }
        let left: u128 = next.saturating_sub(now);
        if left < NANOS_PER_SECOND {
            NANOS_PER_SECOND
        } else {
            left
        }
    }
}

/// A rest is at least one second long, and never longer than until the first thing
/// is due, unless that is less than a second away.
pub proof fn law_rest_is_bounded(schedule: ApprovedSchedule, now: u128)
    ensures
        schedule.wait(now) >= NANOS_PER_SECOND,
        schedule.wait(now) > NANOS_PER_SECOND ==> now + schedule.wait(now)
            <= schedule.next_heartbeat && now + schedule.wait(now) <= schedule.next_directory && now
            + schedule.wait(now) <= schedule.next_relay_lease,
{
}

/// A rest lasts just until the first of the three things is due, and a second where that is
/// nearer or past.
pub proof fn law_rest_ends_when_the_first_thing_is_due(
    schedule: ApprovedSchedule,
    now: u128,
    r: u128,
)
    requires
        call_ensures(ApprovedSchedule::next_delay, (&schedule, now), r),
    ensures
        r >= 1_000_000_000,
        r > 1_000_000_000 ==> {
            &&& now + r <= schedule.next_heartbeat
            &&& now + r <= schedule.next_directory
            &&& now + r <= schedule.next_relay_lease
            &&& now + r == schedule.next_heartbeat || now + r == schedule.next_directory || now + r
                == schedule.next_relay_lease
        },
        schedule.next_heartbeat >= now + 1_000_000_000 && schedule.next_directory >= now
            + 1_000_000_000 && schedule.next_relay_lease >= now + 1_000_000_000 ==> now + r
            == schedule.next_heartbeat || now + r == schedule.next_directory || now + r
            == schedule.next_relay_lease,
{
}

/// On a schedule that begins now everything is due, and seconds are a thousand million
/// nanoseconds each.
pub proof fn law_everything_is_due_at_the_start(
    now: u128,
    schedule: ApprovedSchedule,
    seconds: u64,
    r: u128,
)
    requires
        call_ensures(ApprovedSchedule::due_now, (now,), schedule),
        call_ensures(nanos, (seconds,), r),
    ensures
        schedule.next_heartbeat == now,
        schedule.next_directory == now,
        schedule.next_relay_lease == now,
        schedule == ApprovedSchedule::all_due(now),
        r == seconds * 1_000_000_000,
        r == in_nanos(seconds),
{
}

} // verus!
