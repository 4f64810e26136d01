//! The outcome of a response whose events have arrived as a whole.

use vstd::prelude::*;

use crate::failure::{
    classify_event_failure, event_type, failure_of, failure_view, CodexEventFailure, Failure,
};
use crate::json::{
    as_text, document, model, models, models_by_index, parse_json, Json, JsonValue,
};
use crate::quota::{
    informative, quota_failure_hint, quota_hint, rate_limit_snapshot, snapshot_fits,
    RateLimitSnapshot,
};
use crate::sse::{data_of, event_data, parse_sse_events, SseEvent};
use crate::stream::{event_is_terminal, terminal};
use crate::text::{same_text, text_is};

verus! {

/// The value that the data of an event say. With `skip_done`, the mark at the end of a stream
/// says none.
pub open spec fn value_said(data: Seq<char>, skip_done: bool) -> Option<Json> {
    if skip_done && data == "[DONE]"@ {
        None
    } else {
        document(data)
    }
}

/// The values that the data of events say, in order.
pub open spec fn values_said(data: Seq<Seq<char>>, skip_done: bool) -> Seq<Json>
    decreases data.len(),
{
    if data.len() == 0 {
        Seq::empty()
    } else {
        let before = values_said(data.drop_last(), skip_done);
        match value_said(data.last(), skip_done) {
            Some(value) => before.push(value),
            None => before,
        }
    }
}

/// The first event that ends its response.
pub open spec fn first_terminal(events: Seq<Json>) -> Option<Json>
    decreases events.len(),
{
    if events.len() == 0 {
        None
    } else {
        let before = first_terminal(events.drop_last());
        if before is Some {
            before
        } else if terminal(events.last()) {
            Some(events.last())
        } else {
            None
        }
    }
}

/// The first failure that an event reports.
pub open spec fn first_failure(events: Seq<Json>) -> Option<Failure>
    decreases events.len(),
{
    if events.len() == 0 {
        None
    } else {
        let before = first_failure(events.drop_last());
        if before is Some {
            before
        } else {
            failure_of(events.last())
        }
    }
}

/// What the last rate-limit snapshot hints at.
pub open spec fn latest_hint(events: Seq<Json>) -> Option<Failure>
    decreases events.len(),
{
    if events.len() == 0 {
        None
    } else if event_type(events.last()) == Some("codex.rate_limits"@) {
        quota_hint(events.last())
    } else {
        latest_hint(events.drop_last())
    }
}

/// The failure worth another attempt: the one that ends the response, or what the last snapshot
/// hints at where no event ends it.
pub open spec fn retryable_outcome(events: Seq<Json>) -> Option<Failure> {
    match first_terminal(events) {
        Some(end) => match failure_of(end) {
            Some(failure) => if failure.retryable() {
                Some(failure)
            } else {
                None
            },
            None => None,
        },
        None => latest_hint(events),
    }
}

/// More events do not change which one ends the response first.
pub proof fn first_terminal_stays(events: Seq<Json>, more: Seq<Json>)
    requires
        first_terminal(events) is Some,
    ensures
        first_terminal(events + more) == first_terminal(events),
    decreases more.len(),
{
    if more.len() == 0 {
        assert(events + more =~= events);
    } else {
        first_terminal_stays(events, more.drop_last());
        assert((events + more).drop_last() =~= events + more.drop_last());
    }
}

/// More events do not change which failure is the first.
pub proof fn first_failure_stays(events: Seq<Json>, more: Seq<Json>)
    requires
        first_failure(events) is Some,
    ensures
        first_failure(events + more) == first_failure(events),
    decreases more.len(),
{
    if more.len() == 0 {
        assert(events + more =~= events);
    } else {
        first_failure_stays(events, more.drop_last());
        assert((events + more).drop_last() =~= events + more.drop_last());
    }
}

/// One value more, one model more.
proof fn models_push(values: Seq<JsonValue>, value: JsonValue)
    ensures
        models(values.push(value)) == models(values).push(model(value)),
{
    models_by_index(values);
    models_by_index(values.push(value));
    assert(models(values.push(value)) =~= models(values).push(model(value)));
}

/// The models of the first values are the first models.
proof fn models_take(values: Seq<JsonValue>, count: int)
    requires
        0 <= count < values.len(),
    ensures
        models(values).take(count + 1) == models(values).take(count).push(model(values[count])),
        models(values) == models(values).take(count + 1) + models(values).skip(count + 1),
{
    models_by_index(values);
    assert(models(values).take(count + 1) =~= models(values).take(count).push(
        model(values[count]),
    ));
    assert(models(values) =~= models(values).take(count + 1) + models(values).skip(count + 1));
}

/// The values that the data of events say, in order.
fn read_values(events: &Vec<SseEvent>, skip_done: bool) -> (values: Vec<JsonValue>)
    ensures
        models(values@) == values_said(data_of(events@), skip_done),
{
    let mut values: Vec<JsonValue> = Vec::new();
    let ghost data = data_of(events@);
    let mut i: usize = 0;
    while i < events.len()
        invariant
            i <= events.len(),
            data == data_of(events@),
            models(values@) == values_said(data.take(i as int), skip_done),
        decreases events.len() - i,
    {
        proof {
            assert(data.take(i + 1).drop_last() =~= data.take(i as int));
            assert(data.take(i + 1).last() == events@[i as int].data@);
        }
        if !skip_done || !same_text(events[i].data.as_str(), "[DONE]") {
            match parse_json(events[i].data.as_str()) {
                Some(value) => {
                    proof {
                        models_push(values@, value);
                    }
                    values.push(value);
                },
                None => {},
            }
        }
        i += 1;
    }
    assert(data.take(data.len() as int) =~= data);
    values
}

/// The failure worth another attempt in a row of events.
pub fn first_retryable_in(payloads: &Vec<JsonValue>) -> (failure: Option<CodexEventFailure>)
    ensures
        failure_view(failure) == retryable_outcome(models(payloads@)),
{
    let ghost all = models(payloads@);
    proof {
        models_by_index(payloads@);
    }
    let mut hint: Option<CodexEventFailure> = None;
    let mut i: usize = 0;
    while i < payloads.len()
        invariant
            i <= payloads.len(),
            all == models(payloads@),
            all.len() == payloads.len(),
            first_terminal(all.take(i as int)) is None,
            failure_view(hint) == latest_hint(all.take(i as int)),
        decreases payloads.len() - i,
    {
        proof {
            models_take(payloads@, i as int);
            assert(all.take(i + 1).drop_last() =~= all.take(i as int));
        }
        if text_is(as_text(payloads[i].get("type")), "codex.rate_limits") {
            hint = quota_failure_hint(&payloads[i]);
        }
        match classify_event_failure(&payloads[i]) {
            Some(failure) => {
                proof {
                    first_terminal_stays(all.take(i + 1), all.skip(i + 1));
                }
                return if failure.retryable() {
                    Some(failure)
                } else {
                    None
                };
            },
            None => {},
        }
        if event_is_terminal(&payloads[i]) {
            proof {
                first_terminal_stays(all.take(i + 1), all.skip(i + 1));
            }
            return None;
        }
        i += 1;
    }
    assert(all.take(all.len() as int) =~= all);
    hint
}

/// The failure worth another attempt in a body of events: the first one that ends the response,
/// or what the last snapshot hints at where no event ends it.
pub fn first_retryable_failure(body: &[u8]) -> (failure: Option<CodexEventFailure>)
    ensures
        failure_view(failure) == retryable_outcome(values_said(event_data(body@), true)),
{
    let events = parse_sse_events(body);
    let payloads = read_values(&events, true);
    first_retryable_in(&payloads)
}

/// The first failure in a row of events.
pub fn first_failure_in(payloads: &Vec<JsonValue>) -> (failure: Option<CodexEventFailure>)
    ensures
        failure_view(failure) == first_failure(models(payloads@)),
{
    let ghost all = models(payloads@);
    proof {
        models_by_index(payloads@);
    }
    let mut i: usize = 0;
    while i < payloads.len()
        invariant
            i <= payloads.len(),
            all == models(payloads@),
            all.len() == payloads.len(),
            first_failure(all.take(i as int)) is None,
        decreases payloads.len() - i,
    {
        proof {
            models_take(payloads@, i as int);
            assert(all.take(i + 1).drop_last() =~= all.take(i as int));
        }
        let failure = classify_event_failure(&payloads[i]);
        if failure.is_some() {
            proof {
                first_failure_stays(all.take(i + 1), all.skip(i + 1));
            }
            return failure;
        }
        i += 1;
    }
    assert(all.take(all.len() as int) =~= all);
    None
}

/// The first failure in a body of events.
pub fn first_event_failure(body: &[u8]) -> (failure: Option<CodexEventFailure>)
    ensures
        failure_view(failure) == first_failure(values_said(event_data(body@), true)),
{
    let events = parse_sse_events(body);
    let payloads = read_values(&events, true);
    first_failure_in(&payloads)
}

/// The events that are snapshots with something to say, in order.
pub open spec fn snapshot_events(events: Seq<Json>) -> Seq<Json> {
    events.filter(|event: Json| informative(event))
}

/// Whether a row of snapshots is what a row of events says, one snapshot for each event that is
/// one.
pub open spec fn snapshots_fit(events: Seq<Json>, snapshots: Seq<RateLimitSnapshot>) -> bool {
    let said = snapshot_events(events);
    &&& snapshots.len() == said.len()
    &&& forall|i: int|
        0 <= i < said.len() ==> snapshot_fits(#[trigger] said[i], snapshots[i])
}

/// The snapshots in a row of events, in order.
pub fn rate_limit_snapshots_in(payloads: &Vec<JsonValue>) -> (snapshots: Vec<RateLimitSnapshot>)
    ensures
        snapshots_fit(models(payloads@), snapshots@),
{
    let ghost all = models(payloads@);
    proof {
        models_by_index(payloads@);
    }
    let mut snapshots: Vec<RateLimitSnapshot> = Vec::new();
    let mut i: usize = 0;
    proof {
        reveal(Seq::filter);
    }
    while i < payloads.len()
        invariant
            i <= payloads.len(),
            all == models(payloads@),
            all.len() == payloads.len(),
            snapshots_fit(all.take(i as int), snapshots@),
        decreases payloads.len() - i,
    {
        proof {
            reveal(Seq::filter);
            models_take(payloads@, i as int);
            assert(all.take(i + 1).drop_last() =~= all.take(i as int));
        }
        match rate_limit_snapshot(&payloads[i]) {
            Some(snapshot) => {
                snapshots.push(snapshot);
            },
            None => {},
        }
        i += 1;
    }
    assert(all.take(all.len() as int) =~= all);
    snapshots
}

/// The snapshots in a body of events, in order.
pub fn rate_limit_snapshots_from_sse(body: &[u8]) -> (snapshots: Vec<RateLimitSnapshot>)
    ensures
        snapshots_fit(values_said(event_data(body@), false), snapshots@),
{
    let events = parse_sse_events(body);
    let payloads = read_values(&events, false);
    rate_limit_snapshots_in(&payloads)
}

} // verus!
