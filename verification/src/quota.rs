//! Rate-limit snapshots: what they say of an account's quota, and when they stand for a failure.

use std::time::{Duration, SystemTime};

use vstd::prelude::*;

use crate::clock::{after_epoch, from_now, read_duration, unix_time, written_seconds};
use crate::failure::{
    event_type, failure_view, scalar_string, CodexEventFailure, CodexFailureKind, Failure,
};
use crate::json::{
    as_bool, as_double_bits, as_text, as_unsigned, bool_of, double_of, get_in, member, scalar_of,
    unsigned_of, view_of, Json, JsonValue,
};
use crate::text::text_is;

verus! {

/// One window of an account's quota.
#[derive(Debug, Clone, PartialEq, Eq)]
pub struct ProviderQuotaWindow {
    /// The bits of the double that says how much of the window is used, in percent.
    pub used_percent_bits: u64,
    pub window_minutes: u64,
    /// When the window begins anew.
    pub resets_at: Option<SystemTime>,
}

/// The credits of an account.
#[derive(Debug, Clone, Copy, PartialEq, Eq)]
pub struct ProviderCredits {
    pub has_credits: Option<bool>,
    pub unlimited: Option<bool>,
    /// The bits of the double that says the balance.
    pub balance_bits: Option<u64>,
}

/// What a rate-limit snapshot says: the windows, whether the limit is reached, and the credits.
pub type RateLimitSnapshot = (Vec<ProviderQuotaWindow>, bool, ProviderCredits);

/// The percentage and the length that a window gives; a window without both is none.
pub open spec fn window_measure(window: Json) -> Option<(u64, u64)> {
    let used = double_of(window.get("used_percent"@));
    let minutes = unsigned_of(window.get("window_minutes"@));
    if used is Some && minutes is Some {
        Some((used->0, minutes->0))
    } else {
        None
    }
}

/// The wait until a window begins anew, if the window gives a number of seconds that is one.
pub open spec fn reset_wait(window: Json) -> Option<Duration> {
    match window.get("reset_after_seconds"@) {
        Some(Json::Number(number)) => if number.double_bits is Some {
            written_seconds(number.text)
        } else {
            None
        },
        _ => None,
    }
}

/// The point in time that stands for the reset: the one on the calendar, or else the one that
/// the clock gives.
pub open spec fn first_reset(
    scheduled: Option<SystemTime>,
    relative: Option<SystemTime>,
) -> Option<SystemTime> {
    if scheduled is Some {
        scheduled
    } else {
        relative
    }
}

/// Whether the point on the calendar is what `after_epoch` gave for the seconds that a window
/// names; a window that names none has none.
pub open spec fn scheduled_fits(window: Json, scheduled: Option<SystemTime>) -> bool {
    match unsigned_of(window.get("reset_at"@)) {
        Some(seconds) => call_ensures(after_epoch, (seconds,), scheduled),
        None => scheduled is None,
    }
}

/// Whether the point by the clock is what `from_now` gave for the wait that a window names; a
/// window that names none has none.
pub open spec fn relative_fits(window: Json, relative: Option<SystemTime>) -> bool {
    match reset_wait(window) {
        Some(wait) => call_ensures(from_now, (wait,), relative),
        None => relative is None,
    }
}

/// Whether a reset was drawn from a window in the right order: the calendar decides where it gives
/// a point in time, and only where it gives none is the clock asked.
pub open spec fn reset_drawn(window: Json, resets_at: Option<SystemTime>) -> bool {
    exists|scheduled: Option<SystemTime>| #[trigger]
        scheduled_fits(window, scheduled) && (if scheduled is Some {
            resets_at == scheduled
        } else {
            relative_fits(window, resets_at)
        })
}

/// Whether a quota window is what a window of a snapshot says.
pub open spec fn window_fits(window: Json, read: ProviderQuotaWindow) -> bool {
    &&& window_measure(window) == Some((read.used_percent_bits, read.window_minutes))
    &&& reset_drawn(window, read.resets_at)
}

/// The quota window that a window of a snapshot says, given the reset as a point on the calendar
/// and the reset by the clock.
pub fn rate_limit_window_at(
    window: &JsonValue,
    scheduled: Option<SystemTime>,
    relative: Option<SystemTime>,
) -> (read: Option<ProviderQuotaWindow>)
    ensures
        read == match window_measure(window@) {
            Some((used, minutes)) => Some(
                ProviderQuotaWindow {
                    used_percent_bits: used,
                    window_minutes: minutes,
                    resets_at: first_reset(scheduled, relative),
                },
            ),
            None => None,
        },
{
    match (as_double_bits(window.get("used_percent")), as_unsigned(window.get("window_minutes"))) {
        (Some(used_percent_bits), Some(window_minutes)) => {
            let resets_at = match scheduled {
                Some(time) => Some(time),
                None => relative,
            };
            Some(ProviderQuotaWindow { used_percent_bits, window_minutes, resets_at })
        },
        _ => None,
    }
}

/// The wait until a window begins anew.
fn wait_of(window: &JsonValue) -> (wait: Option<Duration>)
    ensures
        wait == reset_wait(window@),
{
    match window.get("reset_after_seconds") {
        Some(JsonValue::Number(number)) => {
            if number.double_bits.is_some() {
                read_duration(number.text.as_str())
            } else {
                None
            }
        },
        _ => None,
    }
}

/// Looks up a point in time, so that what came of it can be named.
fn look_up<A, F: Fn(A) -> Option<SystemTime>>(gives: F, asked: A) -> (time: Option<SystemTime>)
    requires
        call_requires(gives, (asked,)),
    ensures
        call_ensures(gives, (asked,), time),
{
    gives(asked)
}

/// The quota window that a window of a snapshot says. The clock is asked only where the window
/// names no point in time that the machine can hold.
pub fn rate_limit_window(window: &JsonValue) -> (read: Option<ProviderQuotaWindow>)
    ensures
        read is Some <==> window_measure(window@) is Some,
        read is Some ==> window_fits(window@, read->0),
        read is Some && unsigned_of(window@.get("reset_at"@)) == Some(0u64) ==> {
            &&& read->0.resets_at is Some
            &&& unix_time(read->0.resets_at->0, 0)
        },
{
    let scheduled = match as_unsigned(window.get("reset_at")) {
        Some(seconds) => look_up(after_epoch, seconds),
        None => None,
    };
    let relative = match scheduled {
        Some(_) => None,
        None => match wait_of(window) {
            Some(wait) => look_up(from_now, wait),
            None => None,
        },
    };
    assert(scheduled_fits(window@, scheduled));
    rate_limit_window_at(window, scheduled, relative)
}

/// The limits that a snapshot carries.
pub open spec fn limits_of(event: Json) -> Option<Json> {
    if event_type(event) == Some("codex.rate_limits"@) {
        event.get("rate_limits"@)
    } else {
        None
    }
}

/// Whether the limits say that the limit is reached.
pub open spec fn limit_reached(limits: Json) -> bool {
    bool_of(limits.get("limit_reached"@)) == Some(true)
}

/// The credits that a snapshot carries.
pub open spec fn credits_of(event: Json) -> ProviderCredits {
    let credits = event.get("credits"@);
    ProviderCredits {
        has_credits: bool_of(member(credits, "has_credits"@)),
        unlimited: bool_of(member(credits, "unlimited"@)),
        balance_bits: double_of(member(credits, "balance"@)),
    }
}

/// A row of at most one window.
pub open spec fn one_or_none<T>(window: Option<T>) -> Seq<T> {
    match window {
        Some(window) => seq![window],
        None => Seq::empty(),
    }
}

/// The window of the limits with the name, if it gives a percentage and a length.
pub open spec fn measured_window(limits: Json, name: Seq<char>) -> Option<Json> {
    match limits.get(name) {
        Some(window) => if window_measure(window) is Some {
            Some(window)
        } else {
            None
        },
        None => None,
    }
}

/// The windows of a snapshot that give a percentage and a length, the primary one first.
pub open spec fn measured_windows(limits: Json) -> Seq<Json> {
    one_or_none(measured_window(limits, "primary"@)) + one_or_none(
        measured_window(limits, "secondary"@),
    )
}

/// Whether an event is a snapshot that says something: it carries limits with a window.
pub open spec fn informative(event: Json) -> bool {
    limits_of(event) is Some && measured_windows(limits_of(event)->0).len() > 0
}

/// Whether a snapshot is what an event says.
pub open spec fn snapshot_fits(event: Json, snapshot: RateLimitSnapshot) -> bool {
    let limits = limits_of(event)->0;
    let windows = measured_windows(limits);
    &&& limits_of(event) is Some
    &&& snapshot.0@.len() == windows.len()
    &&& forall|i: int|
        0 <= i < windows.len() ==> window_fits(#[trigger] windows[i], snapshot.0@[i])
    &&& snapshot.1 == limit_reached(limits)
    &&& snapshot.2 == credits_of(event)
}

/// The limits that a snapshot carries.
fn limits_in(payload: &JsonValue) -> (limits: Option<&JsonValue>)
    ensures
        view_of(limits) == limits_of(payload@),
{
    if text_is(as_text(payload.get("type")), "codex.rate_limits") {
        payload.get("rate_limits")
    } else {
        None
    }
}

/// The snapshot that an event says, given its two quota windows.
pub fn rate_limit_snapshot_with(
    payload: &JsonValue,
    primary: Option<ProviderQuotaWindow>,
    secondary: Option<ProviderQuotaWindow>,
) -> (snapshot: Option<RateLimitSnapshot>)
    ensures
        snapshot is Some <==> limits_of(payload@) is Some && (primary is Some || secondary is Some),
        snapshot is Some ==> {
            &&& (snapshot->0).0@ == one_or_none(primary) + one_or_none(secondary)
            &&& (snapshot->0).1 == limit_reached(limits_of(payload@)->0)
            &&& (snapshot->0).2 == credits_of(payload@)
        },
{
    let limits = match limits_in(payload) {
        Some(limits) => limits,
        None => {
            return None;
        },
    };
    if primary.is_none() && secondary.is_none() {
        return None;
    }
    let mut windows: Vec<ProviderQuotaWindow> = Vec::new();
    match primary {
        Some(window) => {
            windows.push(window);
        },
        None => {},
    }
    match secondary {
        Some(window) => {
            windows.push(window);
        },
        None => {},
    }
    assert(windows@ =~= one_or_none(primary) + one_or_none(secondary));
    let reached = match as_bool(limits.get("limit_reached")) {
        Some(reached) => reached,
        None => false,
    };
    let credits = payload.get("credits");
    Some(
        (
            windows,
            reached,
            ProviderCredits {
                has_credits: as_bool(get_in(credits, "has_credits")),
                unlimited: as_bool(get_in(credits, "unlimited")),
                balance_bits: as_double_bits(get_in(credits, "balance")),
            },
        ),
    )
}

/// The quota window with the name, if the limits have it.
fn named_window(limits: &JsonValue, name: &str) -> (read: Option<ProviderQuotaWindow>)
    ensures
        read is Some <==> measured_window(limits@, name@) is Some,
        read is Some ==> window_fits(measured_window(limits@, name@)->0, read->0),
{
    match limits.get(name) {
        Some(window) => rate_limit_window(window),
        None => None,
    }
}

/// The snapshot that an event says, if it is one and has a window.
pub fn rate_limit_snapshot(payload: &JsonValue) -> (snapshot: Option<RateLimitSnapshot>)
    ensures
        snapshot is Some <==> informative(payload@),
        snapshot is Some ==> snapshot_fits(payload@, snapshot->0),
{
    let limits = match limits_in(payload) {
        Some(limits) => limits,
        None => {
            return None;
        },
    };
    let primary = named_window(limits, "primary");
    let secondary = named_window(limits, "secondary");
    rate_limit_snapshot_with(payload, primary, secondary)
}

/// Whether a snapshot says that nothing is left: the limit is reached, and neither credits nor an
/// unlimited account make up for it.
pub open spec fn exhausted(event: Json) -> bool {
    &&& event_type(event) == Some("codex.rate_limits"@)
    &&& bool_of(event.at("rate_limits"@, "limit_reached"@)) == Some(true)
    &&& bool_of(event.at("credits"@, "has_credits"@)) != Some(true)
    &&& bool_of(event.at("credits"@, "unlimited"@)) != Some(true)
}

/// The failure that an exhausted quota hints at.
pub open spec fn quota_hint(event: Json) -> Option<Failure> {
    if exhausted(event) {
        Some(
            Failure {
                kind: CodexFailureKind::RateLimit,
                explicit_status: Some(429),
                status: 429,
                message: "rate limit reached"@,
                retry_after: scalar_of(
                    member(event.at("rate_limits"@, "primary"@), "reset_after_seconds"@),
                ),
            },
        )
    } else {
        None
    }
}

/// Whether there is a truth value and it is true.
fn is_true(flag: Option<bool>) -> (yes: bool)
    ensures
        yes == (flag == Some(true)),
{
    match flag {
        Some(flag) => flag,
        None => false,
    }
}

/// The failure that an exhausted quota hints at. A snapshot does not end its response: the hint
/// counts only where the stream ends without an event that does.
pub fn quota_failure_hint(payload: &JsonValue) -> (hint: Option<CodexEventFailure>)
    ensures
        failure_view(hint) == quota_hint(payload@),
{
    if !text_is(as_text(payload.get("type")), "codex.rate_limits") || !is_true(
        as_bool(payload.at("rate_limits", "limit_reached")),
    ) || is_true(as_bool(payload.at("credits", "has_credits"))) || is_true(
        as_bool(payload.at("credits", "unlimited")),
    ) {
        return None;
    }
    Some(
        CodexEventFailure {
            kind: CodexFailureKind::RateLimit,
            explicit_status: Some(429),
            status: 429,
            message: "rate limit reached".to_owned(),
            retry_after: scalar_string(
                get_in(payload.at("rate_limits", "primary"), "reset_after_seconds"),
            ),
        },
    )
}

} // verus!
