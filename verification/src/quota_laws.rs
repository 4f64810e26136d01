//! What a rate-limit snapshot says, told by the members of its event.

use vstd::prelude::*;

use std::time::SystemTime;

use crate::clock::{given, shown, unix_epoch, whole_seconds, written_seconds};
use crate::failure::CodexFailureKind;
use crate::failure_laws::{inside, typed, whole, writing};
use crate::json::{Json, JsonValue};
use crate::quota::{
    quota_hint, rate_limit_snapshot, rate_limit_snapshot_with, rate_limit_window,
    rate_limit_window_at, reset_drawn, ProviderQuotaWindow, RateLimitSnapshot,
};

verus! {

/// The bits of the double that a member gives, if it gives a number.
pub open spec fn double(value: Option<Json>) -> Option<u64> {
    match value {
        Some(Json::Number(number)) => number.double_bits,
        _ => None,
    }
}

/// Whether a window gives a percentage and a length.
pub open spec fn measures(window: Option<Json>, used: u64, minutes: u64) -> bool {
    &&& window is Some
    &&& double(window->0.get("used_percent"@)) == Some(used)
    &&& whole(window->0.get("window_minutes"@)) == Some(minutes)
}

/// Whether a window gives both a percentage and a length.
pub open spec fn measured(window: Option<Json>) -> bool {
    &&& window is Some
    &&& double(window->0.get("used_percent"@)) is Some
    &&& whole(window->0.get("window_minutes"@)) is Some
}

/// Whether a flag is what a member says: its truth value, and nothing where it is none.
pub open spec fn flag_is(value: Option<Json>, flag: Option<bool>) -> bool {
    match value {
        Some(Json::Bool(b)) => flag == Some(b),
        _ => flag is None,
    }
}

/// A snapshot tells the credits as its event does, flag by flag, and whether the limit is reached.
pub proof fn credits_are_told(payload: &JsonValue, snapshot: RateLimitSnapshot)
    requires
        call_ensures(rate_limit_snapshot, (payload,), Some(snapshot)),
    ensures
        flag_is(payload@.at("credits"@, "has_credits"@), snapshot.2.has_credits),
        flag_is(payload@.at("credits"@, "unlimited"@), snapshot.2.unlimited),
        snapshot.2.balance_bits == double(payload@.at("credits"@, "balance"@)),
        snapshot.1 <==> payload@.at("rate_limits"@, "limit_reached"@) == Some(Json::Bool(true)),
{
}

/// The same holds for given windows.
pub proof fn credits_are_told_with(
    payload: &JsonValue,
    primary: Option<ProviderQuotaWindow>,
    secondary: Option<ProviderQuotaWindow>,
    snapshot: Option<RateLimitSnapshot>,
)
    requires
        call_ensures(rate_limit_snapshot_with, (payload, primary, secondary), snapshot),
    ensures
        snapshot is Some <==> typed(payload@, "codex.rate_limits"@) && payload@.get(
            "rate_limits"@,
        ) is Some && (primary is Some || secondary is Some),
        snapshot is Some ==> {
            let told = snapshot->0;
            &&& flag_is(payload@.at("credits"@, "has_credits"@), told.2.has_credits)
            &&& flag_is(payload@.at("credits"@, "unlimited"@), told.2.unlimited)
            &&& told.2.balance_bits == double(payload@.at("credits"@, "balance"@))
            &&& told.1 <==> payload@.at("rate_limits"@, "limit_reached"@) == Some(Json::Bool(true))
            &&& primary is Some && secondary is Some ==> told.0@.len() == 2 && told.0@[0]
                == primary->0 && told.0@[1] == secondary->0
            &&& primary is Some && secondary is None ==> told.0@.len() == 1 && told.0@[0]
                == primary->0
            &&& primary is None && secondary is Some ==> told.0@.len() == 1 && told.0@[0]
                == secondary->0
        },
{
}

/// An event is a snapshot exactly when it has the type, carries limits and one of their two windows
/// gives a percentage and a length.
pub proof fn snapshots_are_recognised(payload: &JsonValue, snapshot: Option<RateLimitSnapshot>)
    requires
        call_ensures(rate_limit_snapshot, (payload,), snapshot),
    ensures
        snapshot is Some <==> typed(payload@, "codex.rate_limits"@) && (measured(
            payload@.at("rate_limits"@, "primary"@),
        ) || measured(payload@.at("rate_limits"@, "secondary"@))),
{
}

/// The windows of a snapshot are those of its event that give a percentage and a length, the
/// primary one first, each with its own numbers and its own reset.
pub proof fn windows_are_told(payload: &JsonValue, snapshot: RateLimitSnapshot)
    requires
        call_ensures(rate_limit_snapshot, (payload,), Some(snapshot)),
    ensures
        ({
            let primary = payload@.at("rate_limits"@, "primary"@);
            let secondary = payload@.at("rate_limits"@, "secondary"@);
            let windows = snapshot.0@;
            &&& measured(primary) ==> windows.len() >= 1 && tells(primary->0, windows[0])
            &&& measured(secondary) ==> windows.len() >= 1 && tells(
                secondary->0,
                windows[windows.len() - 1],
            )
            &&& measured(primary) && measured(secondary) ==> windows.len() == 2
            &&& !(measured(primary) && measured(secondary)) ==> windows.len() == 1
        }),
{
    let limits = payload@.get("rate_limits"@)->0;
    let primary = payload@.at("rate_limits"@, "primary"@);
    let secondary = payload@.at("rate_limits"@, "secondary"@);
    let windows = crate::quota::measured_windows(limits);
    if measured(primary) {
        assert(windows[0] == primary->0);
    }
    if measured(secondary) {
        assert(windows[windows.len() - 1] == secondary->0);
    }
}

/// Whether a quota window tells the numbers of a window and a reset that was drawn from it.
pub open spec fn tells(window: Json, read: ProviderQuotaWindow) -> bool {
    &&& measures(Some(window), read.used_percent_bits, read.window_minutes)
    &&& reset_drawn(window, read.resets_at)
}

/// A window is read exactly when it gives a percentage and a length, and then with these.
pub proof fn single_windows_are_told(window: &JsonValue, read: Option<ProviderQuotaWindow>)
    requires
        call_ensures(rate_limit_window, (window,), read),
    ensures
        read is Some <==> measured(Some(window@)),
        read is Some ==> tells(window@, read->0),
{
}

/// Given its two resets, a window has the one on the calendar, and else the one by the clock.
pub proof fn given_resets_are_ordered(
    window: &JsonValue,
    scheduled: Option<SystemTime>,
    relative: Option<SystemTime>,
    read: Option<ProviderQuotaWindow>,
)
    requires
        call_ensures(rate_limit_window_at, (window, scheduled, relative), read),
    ensures
        read is Some <==> measured(Some(window@)),
        read is Some ==> measures(
            Some(window@),
            read->0.used_percent_bits,
            read->0.window_minutes,
        ),
        read is Some && scheduled is Some ==> read->0.resets_at == scheduled,
        read is Some && scheduled is None ==> read->0.resets_at == relative,
{
}

/// Whether a window names a wait that is a duration.
pub open spec fn names_wait(window: Json, wait: std::time::Duration) -> bool {
    match window.get("reset_after_seconds"@) {
        Some(Json::Number(number)) => number.double_bits is Some && written_seconds(number.text)
            == Some(wait),
        _ => false,
    }
}

/// Whether an outcome is what adding the seconds to the epoch gave.
pub open spec fn on_calendar(seconds: u64, time: Option<SystemTime>) -> bool {
    exists|epoch: SystemTime|
        unix_epoch(epoch) && #[trigger] given(epoch, whole_seconds(seconds), time)
}

/// Whether an outcome is what adding the wait to what the clock showed gave.
pub open spec fn by_clock(wait: std::time::Duration, time: Option<SystemTime>) -> bool {
    exists|start: SystemTime| #[trigger] shown(start) && given(start, wait, time)
}

/// A reset is what the calendar gave. Only where the window names no second, or the calendar gave
/// nothing, is it what the clock gave for the wait; and without either it is none.
pub proof fn resets_are_drawn(window: Json, resets_at: Option<SystemTime>)
    requires
        reset_drawn(window, resets_at),
    ensures
        ({
            let seconds = whole(window.get("reset_at"@));
            let unnamed = forall|wait: std::time::Duration| !names_wait(window, wait);
            &&& seconds is None && unnamed ==> resets_at is None
            &&& seconds is Some && unnamed ==> on_calendar(seconds->0, resets_at)
            &&& forall|wait: std::time::Duration|
                seconds is None && #[trigger] names_wait(window, wait) ==> by_clock(wait, resets_at)
            &&& forall|wait: std::time::Duration|
                seconds is Some && #[trigger] names_wait(window, wait) ==> (resets_at is Some
                    && on_calendar(seconds->0, resets_at)) || (on_calendar(seconds->0, None)
                    && by_clock(wait, resets_at))
        }),
{
    let wait = crate::quota::reset_wait(window);
    if wait is Some {
        assert(names_wait(window, wait->0));
    }
}

/// A snapshot hints at a failure exactly when the limit is reached and neither credits nor an
/// unlimited account are told, and then at a rate limit with the wait of the primary window.
pub proof fn hints_are_told(event: Json)
    ensures
        quota_hint(event) is Some <==> {
            &&& typed(event, "codex.rate_limits"@)
            &&& event.at("rate_limits"@, "limit_reached"@) == Some(Json::Bool(true))
            &&& event.at("credits"@, "has_credits"@) != Some(Json::Bool(true))
            &&& event.at("credits"@, "unlimited"@) != Some(Json::Bool(true))
        },
        quota_hint(event) is Some ==> {
            let hint = quota_hint(event)->0;
            &&& hint.kind == CodexFailureKind::RateLimit
            &&& hint.explicit_status == Some(429u16)
            &&& hint.status == 429
            &&& hint.message == "rate limit reached"@
            &&& hint.retry_after == writing(
                inside(event.at("rate_limits"@, "primary"@), "reset_after_seconds"@),
            )
        },
{
}

} // verus!
