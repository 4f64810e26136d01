//! What holds of the rules as a whole.

use std::time::SystemTime;

use vstd::prelude::*;
use vstd::string::*;

use crate::clock::{later_by, shown, unix_time};
use crate::egress::{
    action_after, address_in, looked_up, parse_trace_ip, probe_of, received, report_on,
    said_address, text_line_length_is, text_lines, trace_address, trace_path, without_return,
    Egress, RefreshAction, RefreshEvent, MAX_TRACE_BODY_BYTES,
};
use crate::failure::{
    busy_code, context_window, error_of, error_type_for, event_type, explicit_status, failure_kind,
    failure_message, failure_of, fatal_code, incomplete_failure, incomplete_terminal, refusal_code,
    reports_failure, standard_max_output, CodexFailureKind,
};
use crate::json::{
    decimal, member, present, text_of, unsigned_of, well_formed, Json, NumberModel,
};
use crate::outcome::{
    first_failure, first_terminal, first_terminal_stays, latest_hint, retryable_outcome,
};
use crate::quota::{
    exhausted, informative, limits_of, measured_windows, quota_hint, reset_drawn, reset_wait,
};
use crate::stream::{
    control_type, delta_type, fresh, item_type, output_index, reasoning_item, stream_kind, terminal,
    CodexStreamEventKind, Forwarding,
};
use crate::text::{lower, trimmed};
use crate::web::{origin_text, parsed_url, web_text};

verus! {

broadcast use vstd::string::group_string_axioms;

/// The types of events that end a response differ from each other and from that of a snapshot.
proof fn end_types_differ()
    ensures
        "codex.rate_limits"@ != "response.completed"@,
        "codex.rate_limits"@ != "response.done"@,
        "codex.rate_limits"@ != "response.incomplete"@,
        "response.incomplete"@ != "response.completed"@,
        "response.incomplete"@ != "response.done"@,
{
    reveal_strlit("codex.rate_limits");
    reveal_strlit("response.completed");
    reveal_strlit("response.done");
    reveal_strlit("response.incomplete");
    assert("codex.rate_limits"@.len() == 17);
    assert("response.completed"@.len() == 18);
    assert("response.done"@.len() == 13);
    assert("response.incomplete"@.len() == 19);
}

/// A rate-limit snapshot is telemetry: it reports no failure and ends no response, whatever else
/// it carries.
pub proof fn snapshots_are_telemetry(event: Json)
    requires
        event_type(event) == Some("codex.rate_limits"@),
    ensures
        failure_of(event) is None,
        stream_kind(event) == CodexStreamEventKind::Control,
        !terminal(event),
{
    end_types_differ();
}

/// A quota hint comes from a snapshot, which does not end its response, and is a rate limit that
/// another attempt may get past.
pub proof fn hints_are_rate_limits(event: Json)
    requires
        quota_hint(event) is Some,
    ensures
        !terminal(event),
        quota_hint(event)->0.kind == CodexFailureKind::RateLimit,
        quota_hint(event)->0.retryable(),
        quota_hint(event)->0.status == 429,
        error_type_for(quota_hint(event)->0.status) == "rate_limit_error"@,
{
    snapshots_are_telemetry(event);
}

/// A snapshot that gives its wait as a whole number of seconds hints at a wait of that many
/// seconds.
pub proof fn hints_give_the_wait(event: Json, wait: NumberModel)
    requires
        exhausted(event),
        member(event.at("rate_limits"@, "primary"@), "reset_after_seconds"@) == Some(
            Json::Number(wait),
        ),
        well_formed(Json::Number(wait)),
        wait.unsigned is Some,
    ensures
        quota_hint(event)->0.retry_after == Some(decimal(wait.unsigned->0 as nat)),
{
}

/// An event ends its response with a failure exactly when it reports one.
pub proof fn failures_end_responses(event: Json)
    ensures
        failure_of(event) is Some <==> stream_kind(event) == CodexStreamEventKind::TerminalFailure,
        failure_of(event) is Some ==> terminal(event),
{
}

/// A response that went well ended with no error, no failed status and nothing missing.
pub proof fn success_hides_nothing(event: Json)
    requires
        stream_kind(event) == CodexStreamEventKind::TerminalSuccess,
    ensures
        error_of(event) is None,
        !incomplete_terminal(event),
        text_of(event.at("response"@, "status"@)) != Some("failed"@),
        text_of(event.at("response"@, "status"@)) != Some("incomplete"@),
        !present(event.at("response"@, "incomplete_details"@)),
{
    end_types_differ();
}

/// An end with an error is a failure, even where its type speaks of success.
pub proof fn errors_are_failures(event: Json)
    requires
        error_of(event) is Some,
        event_type(event) is Some,
        event_type(event) != Some("codex.rate_limits"@),
    ensures
        failure_of(event) is Some,
        stream_kind(event) == CodexStreamEventKind::TerminalFailure,
{
}

/// A null at the top of an event does not hide the error in its response.
pub proof fn null_hides_no_error(event: Json)
    requires
        !present(event.get("error"@)),
        present(event.at("response"@, "error"@)),
    ensures
        error_of(event) == event.at("response"@, "error"@),
{
}

/// An incomplete response is a failure that another attempt may get past, whatever else the
/// event says.
pub proof fn incomplete_responses_are_transient(event: Json)
    requires
        incomplete_terminal(event),
    ensures
        failure_of(event) == Some(incomplete_failure(event)),
        failure_of(event)->0.kind == CodexFailureKind::Transient,
        failure_of(event)->0.status == 503,
        failure_of(event)->0.retryable(),
{
    end_types_differ();
}

/// The end at the output limit is an incomplete end without an error.
pub proof fn output_limit_is_incomplete(event: Json)
    requires
        standard_max_output(event),
    ensures
        incomplete_terminal(event),
        failure_of(event) == Some(incomplete_failure(event)),
        error_of(event) is None,
{
    incomplete_responses_are_transient(event);
}

/// The code of the error that an event carries.
pub open spec fn code_in(event: Json) -> Option<Seq<char>> {
    text_of(member(error_of(event), "code"@))
}

/// The message of the failure that an event reports.
pub open spec fn message_in(event: Json) -> Seq<char> {
    failure_message(code_in(event), text_of(member(error_of(event), "message"@)))
}

/// Whether an event reports a failure other than an incomplete response.
pub open spec fn plain_failure(event: Json) -> bool {
    &&& event_type(event) is Some
    &&& event_type(event) != Some("codex.rate_limits"@)
    &&& !incomplete_terminal(event)
    &&& reports_failure(event)
}

/// The codes are different texts.
proof fn codes_differ()
    ensures
        "context_length_exceeded"@ != "insufficient_quota"@,
        "context_length_exceeded"@ != "usage_not_included"@,
        "context_length_exceeded"@ != "server_is_overloaded"@,
        "context_length_exceeded"@ != "slow_down"@,
        "cyber_policy"@ != "insufficient_quota"@,
        "cyber_policy"@ != "usage_not_included"@,
        "cyber_policy"@ != "server_is_overloaded"@,
        "cyber_policy"@ != "slow_down"@,
        "invalid_prompt"@ != "insufficient_quota"@,
        "invalid_prompt"@ != "usage_not_included"@,
        "invalid_prompt"@ != "server_is_overloaded"@,
        "invalid_prompt"@ != "slow_down"@,
        "bio_policy"@ != "insufficient_quota"@,
        "bio_policy"@ != "usage_not_included"@,
        "bio_policy"@ != "server_is_overloaded"@,
        "bio_policy"@ != "slow_down"@,
        "insufficient_quota"@ != "usage_not_included"@,
        "insufficient_quota"@ != "server_is_overloaded"@,
        "insufficient_quota"@ != "slow_down"@,
        "usage_not_included"@ != "server_is_overloaded"@,
        "usage_not_included"@ != "slow_down"@,
{
    reveal_strlit("context_length_exceeded");
    reveal_strlit("cyber_policy");
    reveal_strlit("invalid_prompt");
    reveal_strlit("bio_policy");
    reveal_strlit("insufficient_quota");
    reveal_strlit("usage_not_included");
    reveal_strlit("server_is_overloaded");
    reveal_strlit("slow_down");
    assert("context_length_exceeded"@.len() == 23);
    assert("cyber_policy"@.len() == 12);
    assert("invalid_prompt"@.len() == 14);
    assert("bio_policy"@.len() == 10);
    assert("insufficient_quota"@.len() == 18);
    assert("usage_not_included"@.len() == 18);
    assert("insufficient_quota"@[0] != "usage_not_included"@[0]);
    assert("server_is_overloaded"@.len() == 20);
    assert("slow_down"@.len() == 9);
}

/// A fatal code is never retried, and without a status of its own the failure has the status that
/// belongs to the code.
pub proof fn fatal_codes_are_final(event: Json)
    requires
        plain_failure(event),
        fatal_code(code_in(event)),
    ensures
        failure_of(event) is Some,
        !failure_of(event)->0.retryable(),
        code_in(event) == Some("context_length_exceeded"@) ==> failure_of(event)->0.status == 413,
        explicit_status(event) is None && !context_window(code_in(event), message_in(event)) ==> {
            let status = failure_of(event)->0.status;
            &&& refusal_code(code_in(event)) ==> status == 400
            &&& code_in(event) == Some("insufficient_quota"@) ==> status == 429
            &&& code_in(event) == Some("usage_not_included"@) ==> status == 403
        },
{
    codes_differ();
}

/// A backend that asks for patience is tried again, and without a status of its own the failure
/// is reported as an overload.
pub proof fn busy_codes_are_retried(event: Json)
    requires
        plain_failure(event),
        busy_code(code_in(event)),
        !context_window(code_in(event), message_in(event)),
    ensures
        failure_of(event) is Some,
        failure_of(event)->0.kind == CodexFailureKind::Overloaded,
        failure_of(event)->0.retryable(),
        explicit_status(event) is None ==> failure_of(event)->0.status == 529,
{
    codes_differ();
}

/// An input that is too long is reported as such and not tried again, whatever status the event
/// carries; that status is still told.
pub proof fn long_inputs_are_too_large(event: Json)
    requires
        plain_failure(event),
        context_window(code_in(event), message_in(event)),
    ensures
        failure_of(event) is Some,
        !failure_of(event)->0.retryable(),
        failure_of(event)->0.status == 413,
        error_type_for(failure_of(event)->0.status) == "request_too_large"@,
        failure_of(event)->0.explicit_status == explicit_status(event),
{
}

/// A status of the event's own reaches the client, unless the input was too long.
pub proof fn explicit_statuses_are_kept(event: Json)
    requires
        plain_failure(event),
        explicit_status(event) is Some,
        !context_window(code_in(event), message_in(event)),
    ensures
        failure_of(event) is Some,
        failure_of(event)->0.status == explicit_status(event)->0,
        failure_of(event)->0.explicit_status == explicit_status(event),
{
}

/// The case of a message's letters does not matter to the kind of its failure.
pub proof fn case_does_not_matter(
    named: Option<Seq<char>>,
    explicit: Option<u16>,
    code: Option<Seq<char>>,
    error_type: Option<Seq<char>>,
    message: Seq<char>,
    other: Seq<char>,
)
    requires
        lower(message) == lower(other),
    ensures
        failure_kind(named, explicit, code, error_type, message) == failure_kind(
            named,
            explicit,
            code,
            error_type,
            other,
        ),
{
}

/// The classifier neither invents nor hides the end of a response.
pub proof fn ends_pass_unchanged(state: Forwarding, event: Json, emits_signature: bool)
    ensures
        terminal(event) ==> state.step(event, emits_signature).1 == stream_kind(event),
        state.step(event, emits_signature).1 == CodexStreamEventKind::TerminalSuccess
            || state.step(event, emits_signature).1 == CodexStreamEventKind::TerminalFailure
            ==> terminal(event),
{
}

/// Once a response has ended, or content has been passed on, the classifier starts afresh.
pub proof fn commitment_starts_afresh(state: Forwarding, event: Json, emits_signature: bool)
    requires
        terminal(event) || state.step(event, emits_signature).1 == CodexStreamEventKind::Semantic,
    ensures
        state.step(event, emits_signature).0 == fresh(),
{
    if reasoning_item(event) is Some {
        reasoning_items_are_structure(event);
    }
}

/// What is not an end is passed on as content or not, and as telemetry exactly when it is that.
pub proof fn telemetry_stays_telemetry(state: Forwarding, event: Json, emits_signature: bool)
    ensures
        stream_kind(event) == CodexStreamEventKind::Control <==> state.step(
            event,
            emits_signature,
        ).1 == CodexStreamEventKind::Control,
        stream_kind(event) == CodexStreamEventKind::Control ==> state.step(
            event,
            emits_signature,
        ).0 == state,
{
    item_types_differ();
    if reasoning_item(event) is Some {
        reasoning_items_are_structure(event);
    }
}

/// The types of events about items and text differ from each other and from those of telemetry
/// and ends, and the types of items differ from each other.
proof fn item_types_differ()
    ensures
        !delta_type(Some("response.output_item.added"@)),
        !delta_type(Some("response.output_item.done"@)),
        !control_type(Some("response.output_item.added"@)),
        !control_type(Some("response.output_item.done"@)),
        !control_type(Some("response.output_text.delta"@)),
        "response.output_item.added"@ != "response.output_item.done"@,
        "response.output_item.added"@ != "response.completed"@,
        "response.output_item.done"@ != "response.completed"@,
        "response.output_text.delta"@ != "response.completed"@,
        "response.output_item.added"@ != "response.done"@,
        "response.output_item.done"@ != "response.done"@,
        "response.output_text.delta"@ != "response.done"@,
        "reasoning"@ != "web_search_call"@,
        "reasoning"@ != "function_call"@,
{
    reveal_strlit("response.output_item.added");
    reveal_strlit("response.output_item.done");
    reveal_strlit("response.output_text.delta");
    reveal_strlit("response.reasoning_summary_text.delta");
    reveal_strlit("response.function_call_arguments.delta");
    reveal_strlit("response.completed");
    reveal_strlit("response.done");
    reveal_strlit("keepalive");
    reveal_strlit("response.created");
    reveal_strlit("response.in_progress");
    reveal_strlit("codex.rate_limits");
    reveal_strlit("response.web_search_call.in_progress");
    reveal_strlit("response.web_search_call.searching");
    reveal_strlit("response.web_search_call.completed");
    reveal_strlit("reasoning");
    reveal_strlit("web_search_call");
    reveal_strlit("function_call");
    assert("response.output_item.added"@.len() == 26);
    assert("response.output_item.done"@.len() == 25);
    assert("response.output_text.delta"@.len() == 26);
    assert("response.output_item.added"@[16] == 'i');
    assert("response.output_text.delta"@[16] == 't');
    assert("response.reasoning_summary_text.delta"@.len() == 37);
    assert("response.function_call_arguments.delta"@.len() == 38);
    assert("response.completed"@.len() == 18);
    assert("response.done"@.len() == 13);
    assert("keepalive"@.len() == 9);
    assert("response.created"@.len() == 16);
    assert("response.in_progress"@.len() == 20);
    assert("codex.rate_limits"@.len() == 17);
    assert("response.web_search_call.in_progress"@.len() == 36);
    assert("response.web_search_call.searching"@.len() == 34);
    assert("response.web_search_call.completed"@.len() == 34);
    assert("reasoning"@.len() == 9);
    assert("web_search_call"@.len() == 15);
    assert("function_call"@.len() == 13);
}

/// An event about a reasoning item ends its response with a failure or is a part of the frame:
/// by itself it is neither content nor telemetry.
pub proof fn reasoning_items_are_structure(event: Json)
    requires
        reasoning_item(event) is Some,
    ensures
        terminal(event) || stream_kind(event) == CodexStreamEventKind::Structure,
        item_type(event) != Some("web_search_call"@),
        event_type(event) != Some("response.output_text.delta"@),
{
    item_types_differ();
}

/// A finished hosted search opens a pause: the text after it is held back, until content of
/// another kind is passed on or the response ends.
pub proof fn hosted_search_holds_text_back(
    state: Forwarding,
    search: Json,
    text: Json,
    emits_signature: bool,
    emits_later: bool,
)
    requires
        event_type(search) == Some("response.output_item.done"@),
        item_type(search) == Some("web_search_call"@),
        !terminal(search),
        event_type(text) == Some("response.output_text.delta"@),
        !terminal(text),
    ensures
        state.step(search, emits_signature).1 == CodexStreamEventKind::Structure,
        ({
            let paused = state.step(search, emits_signature).0;
            &&& paused.buffering
            &&& paused.pending == state.pending
            &&& paused.step(text, emits_later) == (paused, CodexStreamEventKind::Structure)
        }),
{
    item_types_differ();
}

/// A pause lasts until content is passed on or the response ends, and as long as it lasts no text
/// of the answer is content.
pub proof fn pauses_last(state: Forwarding, event: Json, emits_signature: bool)
    requires
        state.buffering,
        !terminal(event),
    ensures
        state.step(event, emits_signature).1 != CodexStreamEventKind::Semantic ==> state.step(
            event,
            emits_signature,
        ).0.buffering,
        event_type(event) == Some("response.output_text.delta"@) ==> state.step(
            event,
            emits_signature,
        ) == (state, CodexStreamEventKind::Structure),
{
    item_types_differ();
}

/// A pause begins only with a finished hosted search.
pub proof fn only_searches_pause(state: Forwarding, event: Json, emits_signature: bool)
    requires
        !state.buffering,
        state.step(event, emits_signature).0.buffering,
    ensures
        event_type(event) == Some("response.output_item.done"@),
        item_type(event) == Some("web_search_call"@),
{
}

/// What is known of one reasoning item is not touched by an event about another, unless that
/// event is passed on as content or ends the response.
pub proof fn items_do_not_mix(state: Forwarding, event: Json, emits_signature: bool, other: usize)
    requires
        !terminal(event),
        state.step(event, emits_signature).1 != CodexStreamEventKind::Semantic,
        reasoning_item(event) is Some ==> output_index(event) != other,
    ensures
        ({
            let next = state.step(event, emits_signature).0;
            &&& next.pending.contains_key(other) == state.pending.contains_key(other)
            &&& state.pending.contains_key(other) ==> next.pending[other] == state.pending[other]
        }),
{
}

/// After content has been passed on, text is content again.
pub proof fn text_flows_after_content(
    state: Forwarding,
    content: Json,
    text: Json,
    emits_signature: bool,
    emits_later: bool,
)
    requires
        state.step(content, emits_signature).1 == CodexStreamEventKind::Semantic,
        event_type(text) == Some("response.output_text.delta"@),
        stream_kind(text) == CodexStreamEventKind::Semantic,
    ensures
        state.step(content, emits_signature).0.step(text, emits_later).1
            == CodexStreamEventKind::Semantic,
{
    item_types_differ();
    commitment_starts_afresh(state, content, emits_signature);
}

/// What the events of one reasoning item say is put together: once the event that adds the item
/// has given what is needed to hand it back, the event that finishes it is content, though it
/// need not say it again.
pub proof fn signatures_are_content(state: Forwarding, added: Json, done: Json)
    requires
        event_type(added) == Some("response.output_item.added"@),
        reasoning_item(added) is Some,
        !terminal(added),
        text_of(reasoning_item(added)->0.get("id"@)) is Some,
        text_of(reasoning_item(added)->0.get("encrypted_content"@)) is Some,
        event_type(done) == Some("response.output_item.done"@),
        reasoning_item(done) is Some,
        !terminal(done),
        output_index(added) == output_index(done),
    ensures
        ({
            let waiting = state.step(added, state.signature_ready(added));
            &&& waiting.1 == CodexStreamEventKind::Structure
            &&& waiting.0.step(done, waiting.0.signature_ready(done)) == (
                fresh(),
                CodexStreamEventKind::Semantic,
            )
        }),
{
    item_types_differ();
    reasoning_items_are_structure(added);
    reasoning_items_are_structure(done);
}

/// A reasoning item of which too little is known is a part of the frame when it is finished, and
/// is forgotten.
pub proof fn unsigned_reasoning_is_structure(state: Forwarding, done: Json)
    requires
        event_type(done) == Some("response.output_item.done"@),
        reasoning_item(done) is Some,
        !terminal(done),
        !state.signature_ready(done),
    ensures
        ({
            let next = state.step(done, state.signature_ready(done));
            &&& next.1 == CodexStreamEventKind::Structure
            &&& next.0.buffering == state.buffering
            &&& next.0.pending == state.pending.remove(output_index(done))
        }),
{
    item_types_differ();
    reasoning_items_are_structure(done);
}

/// The event that ends the response first is the first of those that end it.
pub proof fn first_terminal_is_earliest(events: Seq<Json>, i: int)
    requires
        0 <= i < events.len(),
        terminal(events[i]),
        forall|j: int| 0 <= j < i ==> !terminal(#[trigger] events[j]),
    ensures
        first_terminal(events) == Some(events[i]),
    decreases events.len(),
{
    if i == events.len() - 1 {
        no_terminal_without_one(events.drop_last());
    } else {
        first_terminal_is_earliest(events.drop_last(), i);
    }
}

/// Where no event ends the response, none ends it first.
pub proof fn no_terminal_without_one(events: Seq<Json>)
    requires
        forall|j: int| 0 <= j < events.len() ==> !terminal(#[trigger] events[j]),
    ensures
        first_terminal(events) is None,
    decreases events.len(),
{
    if events.len() > 0 {
        assert(!terminal(events[events.len() - 1]));
        no_terminal_without_one(events.drop_last());
    }
}

/// What comes after the end of a response does not count.
pub proof fn nothing_counts_after_the_end(events: Seq<Json>, more: Seq<Json>)
    requires
        exists|i: int| 0 <= i < events.len() && terminal(#[trigger] events[i]),
    ensures
        retryable_outcome(events + more) == retryable_outcome(events),
{
    some_terminal_is_first(events);
    first_terminal_stays(events, more);
}

/// Where an event ends the response, one ends it first, and it is an end.
pub proof fn some_terminal_is_first(events: Seq<Json>)
    ensures
        (exists|i: int| 0 <= i < events.len() && terminal(#[trigger] events[i])) <==>
            first_terminal(events) is Some,
        first_terminal(events) is Some ==> terminal(first_terminal(events)->0),
    decreases events.len(),
{
    if events.len() > 0 {
        let before = events.drop_last();
        some_terminal_is_first(before);
        if exists|i: int| 0 <= i < events.len() && terminal(#[trigger] events[i]) {
            let i = choose|i: int| 0 <= i < events.len() && terminal(#[trigger] events[i]);
            if i < before.len() {
                assert(terminal(before[i]));
            }
        }
        if first_terminal(before) is Some {
            let i = choose|i: int| 0 <= i < before.len() && terminal(#[trigger] before[i]);
            assert(terminal(events[i]));
        } else if terminal(events.last()) {
            assert(terminal(events[events.len() - 1]));
        }
    }
}

/// A quota hint counts only where no event ends the response: a response that went well, or that
/// failed for good, gives no reason for another attempt, whatever the snapshots say.
pub proof fn ends_override_hints(events: Seq<Json>, i: int)
    requires
        0 <= i < events.len(),
        terminal(events[i]),
        forall|j: int| 0 <= j < i ==> !terminal(#[trigger] events[j]),
    ensures
        stream_kind(events[i]) == CodexStreamEventKind::TerminalSuccess ==> retryable_outcome(
            events,
        ) is None,
        failure_of(events[i]) is Some && !failure_of(events[i])->0.retryable()
            ==> retryable_outcome(events) is None,
        failure_of(events[i]) is Some && failure_of(events[i])->0.retryable() ==> retryable_outcome(
            events,
        ) == failure_of(events[i]),
{
    first_terminal_is_earliest(events, i);
}

/// Where no event ends the response, the last snapshot decides.
pub proof fn hints_decide_without_an_end(events: Seq<Json>, i: int)
    requires
        0 <= i < events.len(),
        forall|j: int| 0 <= j < events.len() ==> !terminal(#[trigger] events[j]),
        event_type(events[i]) == Some("codex.rate_limits"@),
        forall|j: int|
            i < j < events.len() ==> event_type(#[trigger] events[j]) != Some(
                "codex.rate_limits"@,
            ),
    ensures
        retryable_outcome(events) == quota_hint(events[i]),
{
    no_terminal_without_one(events);
    last_snapshot_is_latest(events, i);
}

/// The hint comes from the last snapshot.
proof fn last_snapshot_is_latest(events: Seq<Json>, i: int)
    requires
        0 <= i < events.len(),
        event_type(events[i]) == Some("codex.rate_limits"@),
        forall|j: int|
            i < j < events.len() ==> event_type(#[trigger] events[j]) != Some(
                "codex.rate_limits"@,
            ),
    ensures
        latest_hint(events) == quota_hint(events[i]),
    decreases events.len(),
{
    if i < events.len() - 1 {
        assert(event_type(events[events.len() - 1]) != Some("codex.rate_limits"@));
        last_snapshot_is_latest(events.drop_last(), i);
    }
}

/// Only a failure that is worth another attempt is given as one.
pub proof fn outcomes_are_retryable(events: Seq<Json>)
    ensures
        retryable_outcome(events) is Some ==> retryable_outcome(events)->0.retryable(),
{
    if first_terminal(events) is None {
        latest_hint_is_retryable(events);
    }
}

/// A hint is worth another attempt.
proof fn latest_hint_is_retryable(events: Seq<Json>)
    ensures
        latest_hint(events) is Some ==> latest_hint(events)->0.retryable(),
    decreases events.len(),
{
    if events.len() > 0 {
        latest_hint_is_retryable(events.drop_last());
    }
}

/// A failure that ends a response is the first failure of its events.
pub proof fn ending_failure_is_the_first(events: Seq<Json>)
    requires
        first_terminal(events) is Some,
        failure_of(first_terminal(events)->0) is Some,
    ensures
        first_failure(events) == failure_of(first_terminal(events)->0),
    decreases events.len(),
{
    let before = events.drop_last();
    if first_terminal(before) is Some {
        ending_failure_is_the_first(before);
    } else {
        no_failure_without_an_end(before);
    }
}

/// Where no event ends the response, none reports a failure.
proof fn no_failure_without_an_end(events: Seq<Json>)
    requires
        first_terminal(events) is None,
    ensures
        first_failure(events) is None,
    decreases events.len(),
{
    if events.len() > 0 {
        no_failure_without_an_end(events.drop_last());
        failures_end_responses(events.last());
    }
}

/// A snapshot has one window or two, and a snapshot is telemetry.
pub proof fn snapshots_have_windows(event: Json)
    requires
        informative(event),
    ensures
        1 <= measured_windows(limits_of(event)->0).len() <= 2,
        failure_of(event) is None,
        !terminal(event),
{
    snapshots_are_telemetry(event);
}

/// A reset is the point on the calendar that a window names, or lies the wait that the window names
/// after what the clock showed. Where the window names neither, there is none.
pub proof fn resets_are_named(window: Json, resets_at: Option<SystemTime>)
    requires
        reset_drawn(window, resets_at),
    ensures
        resets_at is Some ==> {
            let seconds = unsigned_of(window.get("reset_at"@));
            ||| seconds is Some && unix_time(resets_at->0, seconds->0)
            ||| reset_wait(window) is Some && exists|start: SystemTime| #[trigger]
                shown(start) && resets_at->0 == later_by(start, reset_wait(window)->0)
        },
{
}

/// A window that names the epoch as its reset resets then, whatever wait it names besides.
pub proof fn the_epoch_is_kept(window: Json, resets_at: Option<SystemTime>)
    requires
        reset_drawn(window, resets_at),
        unsigned_of(window.get("reset_at"@)) == Some(0u64),
    ensures
        resets_at is Some,
        unix_time(resets_at->0, 0),
{
}

/// The probe asks the place that the base URL names, and nothing of the base URL follows the path
/// of the probe.
pub proof fn probes_keep_the_origin(base_url: Seq<char>)
    requires
        probe_of(base_url) is Some,
    ensures
        parsed_url(base_url) is Some,
        origin_text(probe_of(base_url)->0) == origin_text(parsed_url(base_url)->0),
        web_text(probe_of(base_url)->0) == origin_text(parsed_url(base_url)->0) + trace_path(),
{
    assert(web_text(probe_of(base_url)->0) =~= origin_text(parsed_url(base_url)->0) + trace_path());
}

/// Whether no chunk of an answer was lost.
pub open spec fn all_arrived(chunks: Seq<Option<Seq<u8>>>) -> bool {
    forall|i: int| 0 <= i < chunks.len() ==> (#[trigger] chunks[i]) is Some
}

/// The bytes of the chunks that arrived, one after the other.
pub open spec fn joined(chunks: Seq<Option<Seq<u8>>>) -> Seq<u8>
    decreases chunks.len(),
{
    if chunks.len() == 0 {
        Seq::empty()
    } else {
        match chunks[0] {
            Some(chunk) => chunk + joined(chunks.drop_first()),
            None => joined(chunks.drop_first()),
        }
    }
}

/// An answer that is taken chunk by chunk is taken as a whole exactly when no chunk is lost and
/// the whole is not too large, and then it is the chunks one after the other.
pub proof fn answers_are_joined(taken: Seq<u8>, chunks: Seq<Option<Seq<u8>>>)
    requires
        taken.len() <= MAX_TRACE_BODY_BYTES,
    ensures
        received(taken, chunks) == if all_arrived(chunks) && taken.len() + joined(chunks).len()
            <= MAX_TRACE_BODY_BYTES {
            Some(taken + joined(chunks))
        } else {
            None
        },
    decreases chunks.len(),
{
    if chunks.len() == 0 {
        assert(taken + joined(chunks) =~= taken);
    } else {
        let rest = chunks.drop_first();
        if chunks[0] is None {
            assert(!all_arrived(chunks));
        } else {
            let chunk = chunks[0]->0;
            assert(all_arrived(chunks) == all_arrived(rest)) by {
                if all_arrived(rest) {
                    assert forall|i: int| 0 <= i < chunks.len() implies (
                    #[trigger] chunks[i]) is Some by {
                        if i > 0 {
                            assert(rest[i - 1] is Some);
                        }
                    }
                }
                if all_arrived(chunks) {
                    assert forall|i: int| 0 <= i < rest.len() implies (
                    #[trigger] rest[i]) is Some by {
                        assert(chunks[i + 1] is Some);
                    }
                }
            }
            if taken.len() + chunk.len() <= MAX_TRACE_BODY_BYTES {
                answers_are_joined(taken + chunk, rest);
                assert((taken + chunk) + joined(rest) =~= taken + joined(chunks));
            }
        }
    }
}

/// A lookup finds what the whole answer says, if an answer with success came, none of its chunks
/// was lost and it is not too large; otherwise it finds nothing, whatever the chunks hold.
pub proof fn lookups_read_whole_answers(success: Option<bool>, chunks: Seq<Option<Seq<u8>>>)
    ensures
        looked_up(success, chunks) == if success == Some(true) && all_arrived(chunks) && joined(
            chunks,
        ).len() <= MAX_TRACE_BODY_BYTES {
            address_in(joined(chunks))
        } else {
            None
        },
{
    answers_are_joined(Seq::empty(), chunks);
    assert(Seq::<u8>::empty() + joined(chunks) =~= joined(chunks));
}

/// How an answer is split into chunks does not matter.
pub proof fn the_split_does_not_matter(
    success: Option<bool>,
    chunks: Seq<Option<Seq<u8>>>,
    others: Seq<Option<Seq<u8>>>,
)
    requires
        all_arrived(chunks),
        all_arrived(others),
        joined(chunks) == joined(others),
    ensures
        looked_up(success, chunks) == looked_up(success, others),
{
    lookups_read_whole_answers(success, chunks);
    lookups_read_whole_answers(success, others);
}

/// Whether a text fits one line.
pub open spec fn single_line(text: Seq<char>) -> bool {
    forall|i: int| 0 <= i < text.len() ==> #[trigger] text[i] != '\n'
}

/// A line that says an address reads back as that address.
pub proof fn addresses_read_back(said: Seq<char>)
    requires
        single_line(said),
        trimmed(said) == said,
    ensures
        trace_address("ip="@ + said) == Some(said),
{
    reveal_strlit("ip=");
    let line = "ip="@ + said;
    assert("ip="@ =~= seq!['i', 'p', '=']);
    assert forall|i: int| 0 <= i < line.len() implies #[trigger] line[i] != '\n' by {
        if i >= 3 {
            assert(line[i] == said[i - 3]);
        }
    }
    text_line_length_is(line, line.len() as int);
    assert(text_lines(line)[0] == line);
    assert(line.subrange(3, line.len() as int) =~= said);
}

/// Whether what a reader of addresses answers is an address in a settled form: it fits a line, has
/// no white space at its ends, and is answered by itself.
pub open spec fn answers_are_settled<F: Fn(&str) -> Option<String>>(read_address: F) -> bool {
    forall|said: &str, answer: Option<String>| #[trigger]
        call_ensures(read_address, (said,), answer) && answer is Some ==> {
            &&& single_line(answer->0@)
            &&& trimmed(answer->0@) == answer->0@
            &&& forall|again: &str, other: Option<String>|
                again@ == answer->0@ && #[trigger] call_ensures(read_address, (again,), other)
                    ==> other is Some && other->0@ == answer->0@
        }
}

/// An address that was read from an answer reads back from a line that says it.
pub proof fn read_addresses_read_back<F: Fn(&str) -> Option<String>>(
    read_address: F,
    body: &str,
    address: Option<String>,
    line: &str,
    again: Option<String>,
)
    requires
        answers_are_settled(read_address),
        call_ensures(parse_trace_ip::<F>, (body, read_address), address),
        address is Some,
        line@ == "ip="@ + address->0@,
        call_ensures(parse_trace_ip::<F>, (line, read_address), again),
    ensures
        again is Some,
        again->0@ == address->0@,
{
    addresses_read_back(address->0@);
}

/// Only the first line that says an address counts: what follows it is never tried.
pub proof fn later_lines_do_not_count(said: Seq<char>, rest: Seq<char>)
    requires
        single_line(said),
    ensures
        trace_address("ip="@ + said + "\n"@ + rest) == trace_address("ip="@ + said + "\n"@),
{
    first_line_is_said(said, rest);
    first_line_is_said(said, Seq::empty());
    assert("ip="@ + said + "\n"@ + Seq::<char>::empty() =~= "ip="@ + said + "\n"@);
}

/// What is said on the first line of a text is what is said, if it says an address.
proof fn first_line_is_said(said: Seq<char>, rest: Seq<char>)
    requires
        single_line(said),
    ensures
        said_address(text_lines("ip="@ + said + "\n"@ + rest)) == said_address(
            seq![without_return("ip="@ + said)],
        ),
{
    reveal_strlit("ip=");
    reveal_strlit("\n");
    let line = "ip="@ + said;
    let whole = line + "\n"@ + rest;
    assert("ip="@ =~= seq!['i', 'p', '=']);
    assert("\n"@ =~= seq!['\n']);
    assert forall|i: int| 0 <= i < line.len() implies #[trigger] whole[i] != '\n' by {
        if i >= 3 {
            assert(whole[i] == said[i - 3]);
        }
    }
    assert(whole[line.len() as int] == '\n');
    text_line_length_is(whole, line.len() as int);
    assert(whole.subrange(0, line.len() as int) =~= line);
    assert(text_lines(whole)[0] == without_return(line));
    assert(without_return(line)[0] == 'i' && without_return(line)[1] == 'p' && without_return(
        line,
    )[2] == '=');
}

/// Keeping the address up to date ends only where the probe cannot be built: a lookup that fails
/// is reported, and another follows after the rest.
pub proof fn lookups_go_on(event: RefreshEvent)
    ensures
        action_after(event) == RefreshAction::Stop <==> event == RefreshEvent::Built(false),
        event is LookedUp ==> report_on(event) is Some && action_after(event)
            == RefreshAction::Rest,
        event == RefreshEvent::LookedUp(None) ==> report_on(event) == Some(Egress::Unavailable),
{
}

} // verus!
