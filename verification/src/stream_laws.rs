//! What a stream makes of its events, told by what the events carry.

use vstd::prelude::*;
use vstd::string::*;

use crate::failure::failure_of;
use crate::failure_laws::{type_lengths, typed, whole};
use crate::json::{Json, JsonValue};
use crate::reasoning::{nothing_pending, Pending, PendingReasoning, ReasoningReplay};
use crate::stream::{
    event_is_success_terminal, event_is_terminal, fresh, output_index, stream_kind, terminal,
    CodexStreamEventKind, CodexStreamForwardingClassifier, Forwarding,
};

verus! {

broadcast use vstd::string::group_string_axioms;

/// Whether an event speaks of an item of the type.
pub open spec fn about(event: Json, name: Seq<char>) -> bool {
    event.at("item"@, "type"@) == Some(Json::Text(name))
}

/// Whether an event finishes an item of the type.
pub open spec fn finishes(event: Json, name: Seq<char>) -> bool {
    typed(event, "response.output_item.done"@) && about(event, name)
}

/// Whether an event adds or finishes a reasoning item.
pub open spec fn reasons(event: Json) -> bool {
    (typed(event, "response.output_item.added"@) || typed(event, "response.output_item.done"@))
        && about(event, "reasoning"@)
}

/// Whether an event has the type and adds a piece of text that is not empty.
pub open spec fn adds(event: Json, name: Seq<char>) -> bool {
    typed(event, name) && match event.get("delta"@) {
        Some(Json::Text(piece)) => piece.len() > 0,
        _ => false,
    }
}

/// Whether an event is an end.
pub open spec fn ends(event: Json) -> bool {
    ||| stream_kind(event) == CodexStreamEventKind::TerminalSuccess
    ||| stream_kind(event) == CodexStreamEventKind::TerminalFailure
}

/// Whether an event brings content of its own: a piece of text of one of three types, or a
/// finished call.
pub open spec fn substantial(event: Json) -> bool {
    ||| adds(event, "response.output_text.delta"@)
    ||| adds(event, "response.reasoning_summary_text.delta"@)
    ||| adds(event, "response.function_call_arguments.delta"@)
    ||| finishes(event, "function_call"@)
    ||| finishes(event, "web_search_call"@)
}

/// Whether an event is telemetry or progress by its type.
pub open spec fn progress(event: Json) -> bool {
    ||| typed(event, "keepalive"@)
    ||| typed(event, "response.created"@)
    ||| typed(event, "response.in_progress"@)
    ||| typed(event, "codex.rate_limits"@)
    ||| typed(event, "response.web_search_call.in_progress"@)
    ||| typed(event, "response.web_search_call.searching"@)
    ||| typed(event, "response.web_search_call.completed"@)
}

/// Whether an event ends a response by its type.
pub open spec fn closes(event: Json) -> bool {
    typed(event, "response.completed"@) || typed(event, "response.done"@)
}

/// An event with a failure ends its response, whatever its type.
pub proof fn failures_are_ends(event: Json)
    ensures
        failure_of(event) is Some <==> stream_kind(event) == CodexStreamEventKind::TerminalFailure,
{
}

/// A response went well exactly when an event closes it without a failure.
pub proof fn successes_are_closed(event: Json)
    ensures
        stream_kind(event) == CodexStreamEventKind::TerminalSuccess <==> failure_of(event) is None
            && closes(event),
{
    type_lengths();
}

/// An event is telemetry exactly when it has no failure and one of the seven types of telemetry and
/// progress.
pub proof fn progress_is_control(event: Json)
    ensures
        stream_kind(event) == CodexStreamEventKind::Control <==> failure_of(event) is None
            && progress(event),
{
    type_lengths();
}

/// An event is content exactly when it has no failure and brings a piece of text or a finished
/// call.
pub proof fn content_is_substantial(event: Json)
    ensures
        stream_kind(event) == CodexStreamEventKind::Semantic <==> failure_of(event) is None
            && substantial(event),
{
    type_lengths();
}

/// What is neither an end nor telemetry nor content is a part of the frame.
pub proof fn the_rest_is_structure(event: Json)
    ensures
        stream_kind(event) == CodexStreamEventKind::Structure <==> failure_of(event) is None
            && !closes(event) && !progress(event) && !substantial(event),
{
    successes_are_closed(event);
    progress_is_control(event);
    content_is_substantial(event);
}

/// An event ends its response exactly when it is an end of one of the two kinds.
pub proof fn ends_are_of_two_kinds(payload: &JsonValue, ended: bool, well: bool)
    requires
        call_ensures(event_is_terminal, (payload,), ended),
        call_ensures(event_is_success_terminal, (payload,), well),
    ensures
        ended == ends(payload@),
        terminal(payload@) == ends(payload@),
        well == (failure_of(payload@) is None && closes(payload@)),
        ended && !well <==> failure_of(payload@) is Some,
{
    successes_are_closed(payload@);
}

/// A classifier goes on from the state in which the events before have left it: an item that the
/// event finishes is signed exactly when both its id and its content are known.
pub proof fn classifiers_go_on(
    classifier: &mut CodexStreamForwardingClassifier,
    payload: &JsonValue,
    kind: CodexStreamEventKind,
)
    requires
        call_ensures(CodexStreamForwardingClassifier::classify, (classifier, payload), kind),
    ensures
        ({
            let before = old(classifier)@;
            let item = payload@.get("item"@)->0;
            let index = output_index(payload@);
            let known = before.pending.contains_key(index);
            let signed = finishes(payload@, "reasoning"@) && ((item.get("id"@) is Some && item.get(
                "id"@,
            )->0 is Text) || (known && before.pending[index].id is Some)) && ((item.get(
                "encrypted_content"@,
            ) is Some && item.get("encrypted_content"@)->0 is Text) || (known
                && before.pending[index].encrypted_content is Some));
            (final(classifier)@, kind) == before.step(payload@, signed)
        }),
{
    signatures_need_both(old(classifier)@, payload@);
}

/// A classifier that is told whether an item is signed goes by that.
pub proof fn told_classifiers_go_on(
    classifier: &mut CodexStreamForwardingClassifier,
    payload: &JsonValue,
    emits_signature: bool,
    kind: CodexStreamEventKind,
)
    requires
        call_ensures(
            CodexStreamForwardingClassifier::classify_with,
            (classifier, payload, emits_signature),
            kind,
        ),
    ensures
        (final(classifier)@, kind) == old(classifier)@.step(payload@, emits_signature),
{
}

/// Reasoning takes over what an item says of itself and keeps the rest.
pub proof fn captures_keep_the_rest(pending: &mut PendingReasoning, item: &JsonValue)
    requires
        call_ensures(PendingReasoning::capture, (pending, item), ()),
    ensures
        match item@.get("id"@) {
            Some(Json::Text(id)) => final(pending)@.id == Some(id),
            _ => final(pending)@.id == old(pending)@.id,
        },
        match item@.get("encrypted_content"@) {
            Some(Json::Text(content)) => final(pending)@.encrypted_content == Some(content),
            _ => final(pending)@.encrypted_content == old(pending)@.encrypted_content,
        },
{
    the_latest_word_counts(old(pending)@, item@);
}

/// A stream begins with nothing held back and nothing known.
pub proof fn streams_begin_empty(index: usize)
    ensures
        !fresh().buffering,
        !fresh().pending.contains_key(index),
{
}

/// An end is passed on as it is, and nothing is left of the stream before it.
pub proof fn ends_leave_nothing(state: Forwarding, event: Json, emits_signature: bool)
    requires
        ends(event),
    ensures
        state.step(event, emits_signature) == (fresh(), stream_kind(event)),
{
}

/// Whatever the events before, an event that is no end, not about reasoning, no finished hosted
/// search and no piece of the answer's text keeps its own meaning. Content leaves nothing of the
/// stream before it, and anything else leaves all of it.
pub proof fn other_events_keep_their_meaning(
    state: Forwarding,
    event: Json,
    emits_signature: bool,
)
    requires
        !ends(event),
        !reasons(event),
        !finishes(event, "web_search_call"@),
        !typed(event, "response.output_text.delta"@),
    ensures
        state.step(event, emits_signature).1 == stream_kind(event),
        stream_kind(event) == CodexStreamEventKind::Semantic ==> state.step(
            event,
            emits_signature,
        ).0 == fresh(),
        stream_kind(event) != CodexStreamEventKind::Semantic ==> state.step(
            event,
            emits_signature,
        ).0 == state,
{
}

/// A call, or a piece of one, is content and is passed on at once, also in a pause after a hosted
/// search; so is a piece of a reasoning summary.
pub proof fn calls_are_never_held_back(state: Forwarding, event: Json, emits_signature: bool)
    requires
        failure_of(event) is None,
        adds(event, "response.function_call_arguments.delta"@) || finishes(
            event,
            "function_call"@,
        ) || adds(event, "response.reasoning_summary_text.delta"@),
    ensures
        state.step(event, emits_signature) == (fresh(), CodexStreamEventKind::Semantic),
{
    type_lengths();
    successes_are_closed(event);
    content_is_substantial(event);
    reveal_strlit("reasoning");
    reveal_strlit("function_call");
    reveal_strlit("web_search_call");
    assert("reasoning"@.len() == 9 && "function_call"@.len() == 13 && "web_search_call"@.len()
        == 15);
}

/// A piece of the answer's text is content unless it comes in a pause. In a pause it is a part of
/// the frame, and the pause goes on.
pub proof fn text_waits_only_in_a_pause(state: Forwarding, event: Json, emits_signature: bool)
    requires
        failure_of(event) is None,
        adds(event, "response.output_text.delta"@),
    ensures
        !state.buffering ==> state.step(event, emits_signature) == (
            fresh(),
            CodexStreamEventKind::Semantic,
        ),
        state.buffering ==> state.step(event, emits_signature) == (
            state,
            CodexStreamEventKind::Structure,
        ),
{
    type_lengths();
    successes_are_closed(event);
    content_is_substantial(event);
}

/// A text event without a piece of text changes nothing.
pub proof fn empty_text_changes_nothing(state: Forwarding, event: Json, emits_signature: bool)
    requires
        failure_of(event) is None,
        typed(event, "response.output_text.delta"@),
        !adds(event, "response.output_text.delta"@),
    ensures
        state.step(event, emits_signature) == (state, CodexStreamEventKind::Structure),
{
    type_lengths();
    the_rest_is_structure(event);
    successes_are_closed(event);
}

/// A finished hosted search is a part of the frame and begins a pause; what is known of reasoning
/// items stays.
pub proof fn searches_begin_a_pause(state: Forwarding, event: Json, emits_signature: bool)
    requires
        failure_of(event) is None,
        finishes(event, "web_search_call"@),
    ensures
        state.step(event, emits_signature).1 == CodexStreamEventKind::Structure,
        state.step(event, emits_signature).0.buffering,
        state.step(event, emits_signature).0.pending == state.pending,
{
    type_lengths();
    successes_are_closed(event);
    reveal_strlit("reasoning");
    reveal_strlit("web_search_call");
    assert("reasoning"@.len() == 9 && "web_search_call"@.len() == 15);
}

/// The output index is the whole number that the event gives, and 0 where it gives none.
pub proof fn indexes_are_told(event: Json)
    ensures
        whole(event.get("output_index"@)) is None ==> output_index(event) == 0,
        whole(event.get("output_index"@)) is Some && whole(event.get("output_index"@))->0
            <= usize::MAX ==> output_index(event) == whole(event.get("output_index"@))->0,
{
}

/// What an item says of itself counts, and what was known before counts where the item says
/// nothing.
pub proof fn the_latest_word_counts(before: Pending, item: Json)
    ensures
        match item.get("id"@) {
            Some(Json::Text(id)) => before.captured(item).id == Some(id),
            _ => before.captured(item).id == before.id,
        },
        match item.get("encrypted_content"@) {
            Some(Json::Text(content)) => before.captured(item).encrypted_content == Some(content),
            _ => before.captured(item).encrypted_content == before.encrypted_content,
        },
        nothing_pending().id is None,
        nothing_pending().encrypted_content is None,
{
}

/// An item can be handed back once both its id and its content are known, and then as they are.
pub proof fn replays_need_both(pending: &PendingReasoning, replay: Option<ReasoningReplay>)
    requires
        call_ensures(PendingReasoning::replay, (pending,), replay),
    ensures
        replay is Some <==> pending.id is Some && pending.encrypted_content is Some,
        replay is Some ==> replay->0.id@ == pending.id->0@ && replay->0.encrypted_content@
            == pending.encrypted_content->0@,
{
}

/// The event that adds a reasoning item is a part of the frame. What is known of the item
/// afterwards is what the event says and, where it says nothing, what was known before; nothing
/// else changes.
pub proof fn added_items_are_remembered(
    state: Forwarding,
    event: Json,
    emits_signature: bool,
    other: usize,
)
    requires
        failure_of(event) is None,
        typed(event, "response.output_item.added"@),
        about(event, "reasoning"@),
    ensures
        ({
            let next = state.step(event, emits_signature);
            let index = output_index(event);
            let before = if state.pending.contains_key(index) {
                state.pending[index]
            } else {
                Pending { id: None, encrypted_content: None }
            };
            &&& next.1 == CodexStreamEventKind::Structure
            &&& next.0.buffering == state.buffering
            &&& next.0.pending.contains_key(index)
            &&& next.0.pending[index] == before.captured(event.get("item"@)->0)
            &&& other != index ==> next.0.pending.contains_key(other)
                == state.pending.contains_key(other)
            &&& other != index && state.pending.contains_key(other) ==> next.0.pending[other]
                == state.pending[other]
        }),
{
    type_lengths();
    successes_are_closed(event);
    the_rest_is_structure(event);
    reveal_strlit("reasoning");
    reveal_strlit("function_call");
    reveal_strlit("web_search_call");
    assert("reasoning"@.len() == 9 && "function_call"@.len() == 13 && "web_search_call"@.len()
        == 15);
}

/// The event that finishes a reasoning item is content exactly when the item is signed, and then
/// nothing is left of the stream before it. Otherwise it is a part of the frame, and only the item
/// is forgotten.
pub proof fn finished_items_are_content_if_signed(
    state: Forwarding,
    event: Json,
    emits_signature: bool,
    other: usize,
)
    requires
        failure_of(event) is None,
        finishes(event, "reasoning"@),
    ensures
        emits_signature ==> state.step(event, emits_signature) == (
            fresh(),
            CodexStreamEventKind::Semantic,
        ),
        !emits_signature ==> {
            let next = state.step(event, emits_signature);
            &&& next.1 == CodexStreamEventKind::Structure
            &&& next.0.buffering == state.buffering
            &&& !next.0.pending.contains_key(output_index(event))
            &&& other != output_index(event) ==> next.0.pending.contains_key(other)
                == state.pending.contains_key(other)
            &&& other != output_index(event) && state.pending.contains_key(other)
                ==> next.0.pending[other] == state.pending[other]
        },
{
    type_lengths();
    successes_are_closed(event);
    the_rest_is_structure(event);
    reveal_strlit("reasoning");
    reveal_strlit("function_call");
    reveal_strlit("web_search_call");
    assert("reasoning"@.len() == 9 && "function_call"@.len() == 13 && "web_search_call"@.len()
        == 15);
}

/// An item is signed when an event finishes it and both its id and its content are known, from
/// that event or from those before.
pub proof fn signatures_need_both(state: Forwarding, event: Json)
    ensures
        state.signature_ready(event) <==> {
            let item = event.get("item"@)->0;
            let index = output_index(event);
            let known = state.pending.contains_key(index);
            &&& finishes(event, "reasoning"@)
            &&& (item.get("id"@) is Some && item.get("id"@)->0 is Text) || (known
                && state.pending[index].id is Some)
            &&& (item.get("encrypted_content"@) is Some && item.get("encrypted_content"@)->0 is Text)
                || (known && state.pending[index].encrypted_content is Some)
        },
{
}

} // verus!
