//! What the events of a whole body amount to.

use vstd::prelude::*;
use vstd::string::*;

use crate::failure::{failure_of, failure_view, CodexEventFailure};
use crate::failure_laws::typed;
use crate::json::{document, Json};
use crate::laws::{first_terminal_is_earliest, hints_decide_without_an_end, no_terminal_without_one};
use crate::outcome::{
    first_event_failure, first_failure, first_retryable_failure, latest_hint,
    rate_limit_snapshots_from_sse, retryable_outcome, snapshot_events, values_said,
};
use crate::quota::{informative, quota_hint, snapshot_fits, RateLimitSnapshot};
use crate::sse::event_data;
use crate::stream::{stream_kind, terminal, CodexStreamEventKind};

verus! {

broadcast use vstd::string::group_string_axioms;

/// A failure that may be missing is told part by part.
pub proof fn outcomes_are_told(failure: Option<CodexEventFailure>)
    ensures
        failure is Some <==> failure_view(failure) is Some,
        failure is Some ==> {
            let told = failure_view(failure)->0;
            &&& failure->0.kind == told.kind
            &&& failure->0.explicit_status == told.explicit_status
            &&& failure->0.status == told.status
            &&& failure->0.message@ == told.message
            &&& failure->0.retry_after is Some <==> told.retry_after is Some
            &&& failure->0.retry_after is Some ==> failure->0.retry_after->0@
                == told.retry_after->0
        },
{
}

/// The values of two rows of data are those of the first and those of the second.
pub proof fn values_are_joined(data: Seq<Seq<char>>, more: Seq<Seq<char>>, skip_done: bool)
    ensures
        values_said(data + more, skip_done) == values_said(data, skip_done) + values_said(
            more,
            skip_done,
        ),
    decreases more.len(),
{
    if more.len() == 0 {
        assert(data + more =~= data);
        assert(values_said(data, skip_done) + values_said(more, skip_done) =~= values_said(
            data,
            skip_done,
        ));
    } else {
        let less = more.drop_last();
        values_are_joined(data, less, skip_done);
        assert((data + more).drop_last() =~= data + less);
        assert((data + more).last() == more.last());
        assert(values_said(data + more, skip_done) =~= values_said(data, skip_done) + values_said(
            more,
            skip_done,
        ));
    }
}

/// Data say the document that they are, and nothing where they are none. The mark at the end of a
/// stream is passed over where that is asked for.
pub proof fn single_values_are_said(data: Seq<char>, skip_done: bool)
    ensures
        values_said(Seq::empty(), skip_done).len() == 0,
        values_said(seq!["[DONE]"@], true).len() == 0,
        document(data) is None ==> values_said(seq![data], skip_done).len() == 0,
        document(data) is Some && (data != "[DONE]"@ || !skip_done) ==> values_said(
            seq![data],
            skip_done,
        ) == seq![document(data)->0],
{
    let one = seq![data];
    assert(one.drop_last() =~= Seq::<Seq<char>>::empty());
    assert(one.last() == data);
    let mark = seq!["[DONE]"@];
    assert(mark.drop_last() =~= Seq::<Seq<char>>::empty());
    assert(mark.last() == "[DONE]"@);
    assert(values_said(Seq::empty(), skip_done) =~= Seq::<Json>::empty());
    assert(values_said(Seq::empty(), true) =~= Seq::<Json>::empty());
    if document(data) is Some && (data != "[DONE]"@ || !skip_done) {
        assert(values_said(one, skip_done) =~= seq![document(data)->0]);
    }
}

/// What the data at a place of a row say: the document, unless it is the mark at the end.
pub open spec fn said(data: Seq<Seq<char>>, i: int) -> Option<Json> {
    if data[i] == "[DONE]"@ {
        None
    } else {
        document(data[i])
    }
}

/// Every value of a row is said at some place of it.
proof fn values_are_somewhere(data: Seq<Seq<char>>, k: int) -> (i: int)
    requires
        0 <= k < values_said(data, true).len(),
    ensures
        0 <= i < data.len(),
        said(data, i) == Some(values_said(data, true)[k]),
    decreases data.len(),
{
    let less = data.drop_last();
    if k < values_said(less, true).len() {
        let i = values_are_somewhere(less, k);
        assert(less[i] == data[i]);
        i
    } else {
        data.len() - 1
    }
}

/// A row of data around one place: the values before it, the value there and those behind it.
proof fn values_around(data: Seq<Seq<char>>, i: int)
    requires
        0 <= i < data.len(),
        said(data, i) is Some,
    ensures
        values_said(data, true) == values_said(data.take(i), true) + seq![said(data, i)->0]
            + values_said(data.skip(i + 1), true),
{
    let front = data.take(i);
    let one = seq![data[i]];
    let back = data.skip(i + 1);
    assert(data =~= front + one + back);
    values_are_joined(front + one, back, true);
    values_are_joined(front, one, true);
    single_values_are_said(data[i], true);
}

/// The first failure of a row of events is the one of the first event that reports one.
pub proof fn first_failures_are_earliest(events: Seq<Json>, i: int)
    requires
        0 <= i < events.len(),
        failure_of(events[i]) is Some,
        forall|j: int| 0 <= j < i ==> failure_of(#[trigger] events[j]) is None,
    ensures
        first_failure(events) == failure_of(events[i]),
    decreases events.len(),
{
    if i == events.len() - 1 {
        no_failure_without_one(events.drop_last());
    } else {
        first_failures_are_earliest(events.drop_last(), i);
    }
}

/// Where no event reports a failure, there is no first one.
pub proof fn no_failure_without_one(events: Seq<Json>)
    requires
        forall|j: int| 0 <= j < events.len() ==> failure_of(#[trigger] events[j]) is None,
    ensures
        first_failure(events) is None,
    decreases events.len(),
{
    if events.len() > 0 {
        assert(failure_of(events[events.len() - 1]) is None);
        no_failure_without_one(events.drop_last());
    }
}

/// The first failure of a body is that of its first event that reports one; marks, and data that
/// are no document, are passed over wherever they stand.
pub proof fn bodies_give_their_first_failure(
    body: &[u8],
    failure: Option<CodexEventFailure>,
    i: int,
)
    requires
        call_ensures(first_event_failure, (body,), failure),
        0 <= i < event_data(body@).len(),
        said(event_data(body@), i) is Some,
        failure_of(said(event_data(body@), i)->0) is Some,
        forall|j: int|
            0 <= j < i ==> #[trigger] said(event_data(body@), j) is None || failure_of(
                said(event_data(body@), j)->0,
            ) is None,
    ensures
        failure_view(failure) == failure_of(said(event_data(body@), i)->0),
{
    let data = event_data(body@);
    let values = values_said(data, true);
    let front = values_said(data.take(i), true);
    values_around(data, i);
    assert(values[front.len() as int] == said(data, i)->0);
    assert forall|k: int| 0 <= k < front.len() implies failure_of(#[trigger] values[k]) is None by {
        let j = values_are_somewhere(data.take(i), k);
        assert(data.take(i)[j] == data[j]);
        assert(said(data, j) == said(data.take(i), j));
        assert(values[k] == front[k]);
    }
    first_failures_are_earliest(values, front.len() as int);
}

/// A body none of whose events reports a failure has none.
pub proof fn bodies_without_failure(body: &[u8], failure: Option<CodexEventFailure>)
    requires
        call_ensures(first_event_failure, (body,), failure),
        forall|j: int|
            0 <= j < event_data(body@).len() ==> #[trigger] said(event_data(body@), j) is None
                || failure_of(said(event_data(body@), j)->0) is None,
    ensures
        failure is None,
{
    let data = event_data(body@);
    let values = values_said(data, true);
    assert forall|k: int| 0 <= k < values.len() implies failure_of(#[trigger] values[k]) is None by {
        let j = values_are_somewhere(data, k);
        assert(said(data, j) == Some(values[k]));
    }
    no_failure_without_one(values);
}

/// Whether an event ends its response.
pub open spec fn ends(event: Json) -> bool {
    ||| stream_kind(event) == CodexStreamEventKind::TerminalSuccess
    ||| stream_kind(event) == CodexStreamEventKind::TerminalFailure
}

/// The failure of a body that is worth another attempt is that of the event that ends the response
/// first, if it reports one and is worth it. Nothing before or behind that event counts.
pub proof fn bodies_are_judged_by_their_end(
    body: &[u8],
    failure: Option<CodexEventFailure>,
    i: int,
)
    requires
        call_ensures(first_retryable_failure, (body,), failure),
        0 <= i < event_data(body@).len(),
        said(event_data(body@), i) is Some,
        ends(said(event_data(body@), i)->0),
        forall|j: int|
            0 <= j < i ==> #[trigger] said(event_data(body@), j) is None || !ends(
                said(event_data(body@), j)->0,
            ),
    ensures
        ({
            let end = failure_of(said(event_data(body@), i)->0);
            &&& end is Some && end->0.retryable() ==> failure_view(failure) == end
            &&& end is None || !end->0.retryable() ==> failure is None
        }),
{
    let data = event_data(body@);
    let values = values_said(data, true);
    let front = values_said(data.take(i), true);
    values_around(data, i);
    assert(values[front.len() as int] == said(data, i)->0);
    assert forall|k: int| 0 <= k < front.len() implies !terminal(#[trigger] values[k]) by {
        let j = values_are_somewhere(data.take(i), k);
        assert(data.take(i)[j] == data[j]);
        assert(said(data, j) == said(data.take(i), j));
        assert(values[k] == front[k]);
    }
    first_terminal_is_earliest(values, front.len() as int);
}

/// Where no event of a body ends the response, the last snapshot decides.
pub proof fn unended_bodies_are_judged_by_the_last_snapshot(
    body: &[u8],
    failure: Option<CodexEventFailure>,
    i: int,
)
    requires
        call_ensures(first_retryable_failure, (body,), failure),
        forall|j: int|
            0 <= j < event_data(body@).len() ==> #[trigger] said(event_data(body@), j) is None
                || !ends(said(event_data(body@), j)->0),
        0 <= i < event_data(body@).len(),
        said(event_data(body@), i) is Some,
        typed(said(event_data(body@), i)->0, "codex.rate_limits"@),
        forall|j: int|
            i < j < event_data(body@).len() ==> #[trigger] said(event_data(body@), j) is None
                || !typed(said(event_data(body@), j)->0, "codex.rate_limits"@),
    ensures
        failure_view(failure) == quota_hint(said(event_data(body@), i)->0),
{
    let data = event_data(body@);
    let values = values_said(data, true);
    let front = values_said(data.take(i), true);
    let back = values_said(data.skip(i + 1), true);
    values_around(data, i);
    let at = front.len() as int;
    assert(values[at] == said(data, i)->0);
    assert forall|k: int| 0 <= k < values.len() implies !terminal(#[trigger] values[k]) by {
        let j = values_are_somewhere(data, k);
        assert(said(data, j) == Some(values[k]));
    }
    assert forall|k: int| at < k < values.len() implies crate::failure::event_type(
        #[trigger] values[k],
    ) != Some("codex.rate_limits"@) by {
        let j = values_are_somewhere(data.skip(i + 1), k - at - 1);
        assert(data.skip(i + 1)[j] == data[i + 1 + j]);
        assert(said(data, i + 1 + j) == said(data.skip(i + 1), j));
        assert(values[k] == back[k - at - 1]);
    }
    hints_decide_without_an_end(values, at);
}

/// Without an end and without a snapshot there is no reason for another attempt.
pub proof fn silent_bodies_give_no_reason(body: &[u8], failure: Option<CodexEventFailure>)
    requires
        call_ensures(first_retryable_failure, (body,), failure),
        forall|j: int|
            0 <= j < event_data(body@).len() ==> #[trigger] said(event_data(body@), j) is None || (
            !ends(said(event_data(body@), j)->0) && !typed(
                said(event_data(body@), j)->0,
                "codex.rate_limits"@,
            )),
    ensures
        failure is None,
{
    let data = event_data(body@);
    let values = values_said(data, true);
    assert forall|k: int| 0 <= k < values.len() implies !terminal(#[trigger] values[k])
        && crate::failure::event_type(values[k]) != Some("codex.rate_limits"@) by {
        let j = values_are_somewhere(data, k);
        assert(said(data, j) == Some(values[k]));
    }
    no_terminal_without_one(values);
    no_hint_without_a_snapshot(values);
}

/// Without a snapshot there is no hint.
pub proof fn no_hint_without_a_snapshot(events: Seq<Json>)
    requires
        forall|j: int|
            0 <= j < events.len() ==> crate::failure::event_type(#[trigger] events[j]) != Some(
                "codex.rate_limits"@,
            ),
    ensures
        latest_hint(events) is None,
    decreases events.len(),
{
    if events.len() > 0 {
        assert(crate::failure::event_type(events[events.len() - 1]) != Some(
            "codex.rate_limits"@,
        ));
        no_hint_without_a_snapshot(events.drop_last());
    }
}

/// The snapshots of two rows of events are those of the first and those of the second.
pub proof fn snapshots_are_joined(events: Seq<Json>, more: Seq<Json>)
    ensures
        snapshot_events(events + more) == snapshot_events(events) + snapshot_events(more),
    decreases more.len(),
{
    reveal(Seq::filter);
    if more.len() == 0 {
        assert(events + more =~= events);
        assert(snapshot_events(events) + snapshot_events(more) =~= snapshot_events(events));
    } else {
        snapshots_are_joined(events, more.drop_last());
        assert((events + more).drop_last() =~= events + more.drop_last());
        assert((events + more).last() == more.last());
        assert(snapshot_events(events + more) =~= snapshot_events(events) + snapshot_events(more));
    }
}

/// An event that says something as a snapshot is one, and no other event is.
pub proof fn single_snapshots(event: Json)
    ensures
        informative(event) ==> snapshot_events(seq![event]) == seq![event],
        !informative(event) ==> snapshot_events(seq![event]).len() == 0,
        snapshot_events(Seq::empty()).len() == 0,
{
    reveal(Seq::filter);
    let one = seq![event];
    assert(one.drop_last() =~= Seq::<Json>::empty());
    assert(one.last() == event);
    assert(snapshot_events(Seq::<Json>::empty()) =~= Seq::<Json>::empty());
    if informative(event) {
        assert(snapshot_events(one) =~= seq![event]);
    }
}

/// The snapshots of a body are those of its documents, one for each that is one, in order.
pub proof fn bodies_give_their_snapshots(body: &[u8], snapshots: Vec<RateLimitSnapshot>, i: int)
    requires
        call_ensures(rate_limit_snapshots_from_sse, (body,), snapshots),
    ensures
        snapshots@.len() == snapshot_events(values_said(event_data(body@), false)).len(),
        0 <= i < snapshots@.len() ==> snapshot_fits(
            snapshot_events(values_said(event_data(body@), false))[i],
            snapshots@[i],
        ),
{
}

/// The outcome of a row of events is that of the event that ends it first.
pub proof fn rows_are_judged_by_their_end(events: Seq<Json>, i: int)
    requires
        0 <= i < events.len(),
        ends(events[i]),
        forall|j: int| 0 <= j < i ==> !ends(#[trigger] events[j]),
    ensures
        failure_of(events[i]) is Some && failure_of(events[i])->0.retryable() ==> retryable_outcome(
            events,
        ) == failure_of(events[i]),
        failure_of(events[i]) is None || !failure_of(events[i])->0.retryable()
            ==> retryable_outcome(events) is None,
{
    assert forall|j: int| 0 <= j < i implies !terminal(#[trigger] events[j]) by {
        assert(!ends(events[j]));
    }
    first_terminal_is_earliest(events, i);
}

} // verus!
