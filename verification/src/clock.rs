//! Points in time: one that a document names, and one that lies a while ahead.

use std::time::{Duration, SystemTime};

use vstd::prelude::*;

verus! {

#[verifier::external_type_specification]
#[verifier::external_body]
pub struct ExSystemTime(SystemTime);

/// Whether a point in time is the Unix epoch.
pub uninterp spec fn unix_epoch(time: SystemTime) -> bool;

/// The duration that `Duration::from_secs` makes of a number of seconds.
pub uninterp spec fn whole_seconds(seconds: u64) -> Duration;

/// The duration that `Duration::try_from_secs_f64` makes of a number of seconds in writing, if a
/// duration can hold it.
pub uninterp spec fn written_seconds(seconds: Seq<char>) -> Option<Duration>;

/// The point in time a wait after another.
pub uninterp spec fn later_by(start: SystemTime, wait: Duration) -> SystemTime;

/// Whether a point in time lies the number of seconds after the Unix epoch.
pub open spec fn unix_time(time: SystemTime, seconds: u64) -> bool {
    exists|epoch: SystemTime|
        unix_epoch(epoch) && time == #[trigger] later_by(epoch, whole_seconds(seconds))
}

/// `SystemTime::UNIX_EPOCH`: the point in time from which the seconds of the calendar are counted.
/// There is one.
#[verifier::external_body]
fn epoch() -> (time: SystemTime)
    ensures
        unix_epoch(time),
        forall|other: SystemTime| unix_epoch(other) ==> other == time,
{
    SystemTime::UNIX_EPOCH
}

/// `Duration::from_secs`: the number of seconds as a duration.
#[verifier::external_body]
fn from_seconds(seconds: u64) -> (duration: Duration)
    ensures
        duration == whole_seconds(seconds),
{
    Duration::from_secs(seconds)
}

/// `Duration::try_from_secs_f64` on the double nearest to a number in writing: no duration comes
/// of a negative number, of one that is too large, or of a text that is no number. The number comes
/// in writing because no double can be held here.
#[verifier::external_body]
pub(crate) fn read_duration(seconds: &str) -> (duration: Option<Duration>)
    ensures
        duration == written_seconds(seconds@),
{
    Duration::try_from_secs_f64(seconds.parse().ok()?).ok()
}

/// `SystemTime::now`. Nothing is said of what the clock shows.
#[verifier::external_body]
fn now() -> SystemTime {
    SystemTime::now()
}

/// `SystemTime::checked_add`: the point in time a wait after another, if this machine's type for
/// points in time can hold it. The start itself is one that it holds, so a wait of no time gives
/// the start back. Which others it can hold is not said: that is the machine's.
#[verifier::external_body]
fn later(start: SystemTime, wait: Duration) -> (time: Option<SystemTime>)
    ensures
        time is Some ==> time == Some(later_by(start, wait)),
        wait == whole_seconds(0) ==> time == Some(start),
{
    start.checked_add(wait)
}

/// Whether a point in time is one that `now` gave.
pub closed spec fn shown(time: SystemTime) -> bool {
    call_ensures(now, (), time)
}

/// Whether an outcome is one that `later` gave for a start and a wait.
pub closed spec fn given(start: SystemTime, wait: Duration, time: Option<SystemTime>) -> bool {
    call_ensures(later, (start, wait), time)
}

/// What `later` gives is the point in time a wait after the start, or nothing, and the start itself
/// for a wait of no time.
pub proof fn given_times_lie_ahead(start: SystemTime, wait: Duration, time: Option<SystemTime>)
    requires
        given(start, wait, time),
    ensures
        time is Some ==> time == Some(later_by(start, wait)),
        wait == whole_seconds(0) ==> time == Some(start),
{
}

/// Reads a clock, so that what it showed can be named.
fn read_clock<F: Fn() -> SystemTime>(clock: F) -> (time: SystemTime)
    requires
        call_requires(clock, ()),
    ensures
        call_ensures(clock, (), time),
{
    clock()
}

/// Adds a wait to a point in time, so that what came of it can be named.
fn add_wait<F: Fn(SystemTime, Duration) -> Option<SystemTime>>(
    adds: F,
    start: SystemTime,
    wait: Duration,
) -> (time: Option<SystemTime>)
    requires
        call_requires(adds, (start, wait)),
    ensures
        call_ensures(adds, (start, wait), time),
{
    adds(start, wait)
}

/// The point in time a number of seconds after the Unix epoch, if this machine can hold it: what
/// `later` gives for the epoch and the seconds. Every machine holds the epoch itself.
pub fn after_epoch(seconds: u64) -> (time: Option<SystemTime>)
    ensures
        exists|start: SystemTime|
            unix_epoch(start) && #[trigger] given(start, whole_seconds(seconds), time),
        time is Some ==> unix_time(time->0, seconds),
        time is Some ==> forall|other: SystemTime| #[trigger]
            unix_time(other, seconds) ==> other == time->0,
        seconds == 0 ==> time is Some && unix_epoch(time->0),
{
    let start = epoch();
    let time = add_wait(later, start, from_seconds(seconds));
    assert(given(start, whole_seconds(seconds), time));
    time
}

/// The point in time a wait from now, if this machine can hold it: what `later` gives for the
/// present and the wait. Every machine holds the present, which is what a wait of no time leads to.
pub fn from_now(wait: Duration) -> (time: Option<SystemTime>)
    ensures
        exists|start: SystemTime| #[trigger]
            shown(start) && given(start, wait, time) && (time is Some ==> time->0 == later_by(
                start,
                wait,
            )),
        wait == whole_seconds(0) ==> time is Some,
{
    let start = read_clock(now);
    assert(shown(start));
    add_wait(later, start, wait)
}

} // verus!
