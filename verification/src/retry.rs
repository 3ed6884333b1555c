//! The growing delays between attempts that fail.
use vstd::prelude::*;
use backoff::backoff::Backoff;

verus! {

/// The clock of the `backoff` crate, carried as an opaque value.
#[verifier::external_type_specification]
#[verifier::external_body]
pub struct ExSystemClock(backoff::SystemClock);

/// The retry schedule of the `backoff` crate, carried as an opaque value.
#[verifier::external_type_specification]
#[verifier::external_body]
#[verifier::reject_recursive_types(C)]
pub struct ExExponentialBackoff<C>(backoff::exponential::ExponentialBackoff<C>);

/// How a schedule grows, in nanoseconds: from `initial`, `growth` times as much after each attempt,
/// up to `cap`.
pub struct RetrySettings {
    pub initial: nat,
    pub cap: nat,
    pub growth: nat,
}

/// What a schedule was made with: its `initial_interval`, its `max_interval` and its `multiplier`.
///
/// It is `Some` for a schedule whose multiplier is a whole number, that spreads its delays by the
/// crate's default factor (one half) and that never gives up (`max_elapsed_time` is `None`).
pub uninterp spec fn retry_settings(schedule: backoff::ExponentialBackoff) -> Option<RetrySettings>;

/// The interval that a schedule has reached (its `current_interval`), in nanoseconds.
pub uninterp spec fn retry_interval(schedule: backoff::ExponentialBackoff) -> nat;

/// The interval that follows `interval`.
pub open spec fn grown(settings: RetrySettings, interval: nat) -> nat {
    if interval * settings.growth >= settings.cap {
        settings.cap
    } else {
        interval * settings.growth
    }
}

/// A delay that a schedule may choose when it has reached `interval`: from one half to one and a
/// half times as long, and up to one nanosecond more by the way it is drawn.
pub open spec fn may_delay(interval: nat, delay: nat) -> bool {
    interval / 2 <= delay <= interval + interval / 2 + 1
}

/// The settings and the interval are small enough for the schedule to reckon with them exactly.
pub open spec fn exact(settings: RetrySettings, interval: nat) -> bool {
    &&& settings.cap <= 0x2000_0000_0000
    &&& 1 <= settings.growth <= 16
    &&& interval <= settings.cap
}

/// An `ExponentialBackoff` with the given `max_interval`, `multiplier` and `max_elapsed_time`, and
/// otherwise as `ExponentialBackoff::default` makes it: with an interval of half a second to start
/// with, and one half as the factor by which delays are spread.
#[verifier::external_body]
pub(crate) fn new_schedule(
    max_interval_secs: u64,
    multiplier: u8,
    max_elapsed_secs: Option<u64>,
) -> (schedule: backoff::ExponentialBackoff)
    ensures
        max_elapsed_secs is None ==> retry_settings(schedule) == Some(
            RetrySettings {
                initial: 500_000_000,
                cap: max_interval_secs as nat * 1_000_000_000,
                growth: multiplier as nat,
            },
        ),
        max_elapsed_secs is Some ==> retry_settings(schedule) is None,
        retry_interval(schedule) == 500_000_000,
{
    backoff::ExponentialBackoff {
        max_interval: std::time::Duration::from_secs(max_interval_secs),
        multiplier: multiplier.into(),
        max_elapsed_time: max_elapsed_secs.map(std::time::Duration::from_secs),
        ..backoff::ExponentialBackoff::default()
    }
}

/// `Backoff::next_backoff` of a schedule that never gives up: it chooses a delay at random around
/// the interval that the schedule has reached, and the interval then grows. Which of the delays
/// that `may_delay` allows it is, is left to chance.
#[verifier::external_body]
pub(crate) fn next_delay(schedule: &mut backoff::ExponentialBackoff) -> (delay: Option<u128>)
    requires
        retry_settings(*old(schedule)) is Some,
        exact(retry_settings(*old(schedule))->0, retry_interval(*old(schedule))),
    ensures
        delay is Some,
        may_delay(retry_interval(*old(schedule)), delay->0 as nat),
        retry_settings(*final(schedule)) == retry_settings(*old(schedule)),
        retry_interval(*final(schedule)) == grown(
            retry_settings(*old(schedule))->0,
            retry_interval(*old(schedule)),
        ),
{
    schedule.next_backoff().map(|delay| delay.as_nanos())
}

/// `Backoff::reset`: the schedule starts again from its first interval.
#[verifier::external_body]
pub(crate) fn reset(schedule: &mut backoff::ExponentialBackoff)
    ensures
        retry_settings(*final(schedule)) == retry_settings(*old(schedule)),
        retry_settings(*old(schedule)) is Some ==> retry_interval(*final(schedule))
            == retry_settings(*old(schedule))->0.initial,
{
    schedule.reset()
}

} // verus!
