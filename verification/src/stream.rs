//! The events of a response as a stream: what each event means for the answer that is passed on,
//! and when the stream has ended.

use std::collections::HashMap;

use vstd::prelude::*;

use crate::failure::{classify_event_failure, event_type, failure_of};
use crate::json::{as_text, as_unsigned, text_of, unsigned_of, view_of, Json, JsonValue};
use crate::reasoning::{nothing_pending, Pending, PendingReasoning};
use crate::text::text_is;

verus! {

broadcast use vstd::std_specs::hash::group_hash_axioms;

/// What an event means for the answer that is passed on.
#[derive(Debug, Clone, Copy, PartialEq, Eq, Structural)]
pub enum CodexStreamEventKind {
    /// Telemetry and progress.
    Control,
    /// A part of the answer's frame, without content.
    Structure,
    /// Content of the answer.
    Semantic,
    /// The end of a response that went well.
    TerminalSuccess,
    /// The end of a response that failed.
    TerminalFailure,
}

/// The types of telemetry and progress.
pub open spec fn control_type(named: Option<Seq<char>>) -> bool {
    ||| named == Some("keepalive"@)
    ||| named == Some("response.created"@)
    ||| named == Some("response.in_progress"@)
    ||| named == Some("codex.rate_limits"@)
    ||| named == Some("response.web_search_call.in_progress"@)
    ||| named == Some("response.web_search_call.searching"@)
    ||| named == Some("response.web_search_call.completed"@)
}

/// The types of an event that adds a piece to a text.
pub open spec fn delta_type(named: Option<Seq<char>>) -> bool {
    ||| named == Some("response.reasoning_summary_text.delta"@)
    ||| named == Some("response.output_text.delta"@)
    ||| named == Some("response.function_call_arguments.delta"@)
}

/// The type of the output item that an event speaks of.
pub open spec fn item_type(event: Json) -> Option<Seq<char>> {
    text_of(event.at("item"@, "type"@))
}

/// Whether an event brings content: a piece of text that is not empty, or a finished call.
pub open spec fn brings_content(event: Json) -> bool {
    let delta = text_of(event.get("delta"@));
    ||| delta_type(event_type(event)) && delta is Some && delta->0.len() > 0
    ||| {
        &&& event_type(event) == Some("response.output_item.done"@)
        &&& item_type(event) == Some("function_call"@) || item_type(event) == Some(
            "web_search_call"@,
        )
    }
}

/// What an event means on its own. The first rule that applies decides.
pub open spec fn stream_kind(event: Json) -> CodexStreamEventKind {
    if failure_of(event) is Some {
        CodexStreamEventKind::TerminalFailure
    } else if event_type(event) == Some("response.completed"@) || event_type(event) == Some(
        "response.done"@,
    ) {
        CodexStreamEventKind::TerminalSuccess
    } else if control_type(event_type(event)) {
        CodexStreamEventKind::Control
    } else if brings_content(event) {
        CodexStreamEventKind::Semantic
    } else {
        CodexStreamEventKind::Structure
    }
}

/// Whether an event ends its response.
pub open spec fn terminal(event: Json) -> bool {
    ||| stream_kind(event) == CodexStreamEventKind::TerminalSuccess
    ||| stream_kind(event) == CodexStreamEventKind::TerminalFailure
}

/// What an event means on its own.
pub fn classify_stream_event(payload: &JsonValue) -> (kind: CodexStreamEventKind)
    ensures
        kind == stream_kind(payload@),
{
    if classify_event_failure(payload).is_some() {
        return CodexStreamEventKind::TerminalFailure;
    }
    let event_type = as_text(payload.get("type"));
    if text_is(event_type, "response.completed") || text_is(event_type, "response.done") {
        return CodexStreamEventKind::TerminalSuccess;
    }
    if text_is(event_type, "keepalive") || text_is(event_type, "response.created") || text_is(
        event_type,
        "response.in_progress",
    ) || text_is(event_type, "codex.rate_limits") || text_is(
        event_type,
        "response.web_search_call.in_progress",
    ) || text_is(event_type, "response.web_search_call.searching") || text_is(
        event_type,
        "response.web_search_call.completed",
    ) {
        return CodexStreamEventKind::Control;
    }
    if text_is(event_type, "response.reasoning_summary_text.delta") || text_is(
        event_type,
        "response.output_text.delta",
    ) || text_is(event_type, "response.function_call_arguments.delta") {
        match as_text(payload.get("delta")) {
            Some(delta) => {
                if !delta.is_empty() {
                    return CodexStreamEventKind::Semantic;
                }
            },
            None => {},
        }
    }
    if text_is(event_type, "response.output_item.done") {
        let item_type = as_text(payload.at("item", "type"));
        if text_is(item_type, "function_call") || text_is(item_type, "web_search_call") {
            return CodexStreamEventKind::Semantic;
        }
    }
    CodexStreamEventKind::Structure
}

/// Whether an event ends its response.
pub fn event_is_terminal(payload: &JsonValue) -> (ends: bool)
    ensures
        ends == terminal(payload@),
{
    match classify_stream_event(payload) {
        CodexStreamEventKind::TerminalSuccess | CodexStreamEventKind::TerminalFailure => true,
        _ => false,
    }
}

/// Whether an event ends a response that went well.
pub fn event_is_success_terminal(payload: &JsonValue) -> (ends: bool)
    ensures
        ends == (stream_kind(payload@) == CodexStreamEventKind::TerminalSuccess),
{
    classify_stream_event(payload) == CodexStreamEventKind::TerminalSuccess
}

/// The state of a `CodexStreamForwardingClassifier`: whether the text after a finished hosted
/// search is held back, and what is known of the reasoning items that are not finished, by their
/// output index.
#[verifier::ext_equal]
pub struct Forwarding {
    pub buffering: bool,
    pub pending: Map<usize, Pending>,
}

/// The state in which a stream begins.
pub open spec fn fresh() -> Forwarding {
    Forwarding { buffering: false, pending: Map::empty() }
}

/// The reasoning item that an event adds or finishes.
pub open spec fn reasoning_item(event: Json) -> Option<Json> {
    let named = event_type(event);
    if (named == Some("response.output_item.added"@) || named == Some("response.output_item.done"@))
        && item_type(event) == Some("reasoning"@) {
        event.get("item"@)
    } else {
        None
    }
}

/// The output index of the item that an event speaks of; 0 where it has none.
pub open spec fn output_index(event: Json) -> usize {
    match unsigned_of(event.get("output_index"@)) {
        Some(index) => index as usize,
        None => 0,
    }
}

impl Forwarding {
    /// What is known of the item that an event speaks of, the event included.
    pub open spec fn known(self, event: Json, item: Json) -> Pending {
        let index = output_index(event);
        let before = if self.pending.contains_key(index) {
            self.pending[index]
        } else {
            nothing_pending()
        };
        before.captured(item)
    }

    /// Whether an event finishes a reasoning item of which enough is known to hand it back.
    pub open spec fn signature_ready(self, event: Json) -> bool {
        &&& event_type(event) == Some("response.output_item.done"@)
        &&& reasoning_item(event) is Some
        &&& self.known(event, reasoning_item(event)->0).replayable()
    }

    /// The next state, and what an event means after the events before it. `emits_signature`
    /// says whether the signature of a reasoning item that the event finishes is passed on.
    pub open spec fn step(self, event: Json, emits_signature: bool) -> (
        Forwarding,
        CodexStreamEventKind,
    ) {
        let kind = stream_kind(event);
        let index = output_index(event);
        let finished = event_type(event) == Some("response.output_item.done"@);
        if terminal(event) {
            (fresh(), kind)
        } else if reasoning_item(event) is Some {
            if !finished {
                let known = self.known(event, reasoning_item(event)->0);
                (Forwarding { pending: self.pending.insert(index, known), ..self }, kind)
            } else if emits_signature {
                (fresh(), CodexStreamEventKind::Semantic)
            } else {
                (Forwarding { pending: self.pending.remove(index), ..self }, kind)
            }
        } else if finished && item_type(event) == Some("web_search_call"@) {
            (Forwarding { buffering: true, ..self }, CodexStreamEventKind::Structure)
        } else if self.buffering && event_type(event) == Some("response.output_text.delta"@) {
            (self, CodexStreamEventKind::Structure)
        } else if kind == CodexStreamEventKind::Semantic {
            (fresh(), kind)
        } else {
            (self, kind)
        }
    }
}

/// Tells what each event of a stream means for the answer that is passed on, given the events
/// before it.
#[derive(Debug)]
pub struct CodexStreamForwardingClassifier {
    buffering_hosted_search_output: bool,
    reasoning_by_output_index: HashMap<usize, PendingReasoning>,
}

/// What each pending item stands for.
pub open spec fn pending_models(pending: Map<usize, PendingReasoning>) -> Map<usize, Pending> {
    pending.map_values(|item: PendingReasoning| item@)
}

impl View for CodexStreamForwardingClassifier {
    type V = Forwarding;

    closed spec fn view(&self) -> Forwarding {
        Forwarding {
            buffering: self.buffering_hosted_search_output,
            pending: pending_models(self.reasoning_by_output_index@),
        }
    }
}

impl Default for CodexStreamForwardingClassifier {
    /// The classifier of a stream that begins.
    fn default() -> (classifier: Self)
        ensures
            classifier@ == fresh(),
    {
        let classifier = CodexStreamForwardingClassifier {
            buffering_hosted_search_output: false,
            reasoning_by_output_index: HashMap::new(),
        };
        assert(classifier@ =~= fresh());
        classifier
    }
}

/// The output index of the item that an event speaks of.
fn index_in(payload: &JsonValue) -> (index: usize)
    ensures
        index == output_index(payload@),
{
    match as_unsigned(payload.get("output_index")) {
        Some(index) => index as usize,
        None => 0,
    }
}

/// The reasoning item that an event adds or finishes.
fn reasoning_in(payload: &JsonValue) -> (item: Option<&JsonValue>)
    ensures
        view_of(item) == reasoning_item(payload@),
{
    let event_type = as_text(payload.get("type"));
    if (text_is(event_type, "response.output_item.added") || text_is(
        event_type,
        "response.output_item.done",
    )) && text_is(as_text(payload.at("item", "type")), "reasoning") {
        payload.get("item")
    } else {
        None
    }
}

impl CodexStreamForwardingClassifier {
    /// Forgets everything that the events before have left.
    fn reset(&mut self)
        ensures
            final(self)@ == fresh(),
    {
        self.buffering_hosted_search_output = false;
        self.reasoning_by_output_index.clear();
        assert(self@ =~= fresh());
    }

    /// Whether an event finishes a reasoning item of which enough is known to hand it back.
    pub fn signature_ready(&self, payload: &JsonValue) -> (ready: bool)
        ensures
            ready == self@.signature_ready(payload@),
    {
        if !text_is(as_text(payload.get("type")), "response.output_item.done") {
            return false;
        }
        match reasoning_in(payload) {
            Some(item) => {
                let id = as_text(item.get("id")).is_some();
                let content = as_text(item.get("encrypted_content")).is_some();
                match self.reasoning_by_output_index.get(&index_in(payload)) {
                    Some(before) => (id || before.id.is_some()) && (content
                        || before.encrypted_content.is_some()),
                    None => id && content,
                }
            },
            None => false,
        }
    }

    /// What an event means after the events before it. `emits_signature` says whether the
    /// signature of a reasoning item that the event finishes is passed on.
    pub fn classify_with(&mut self, payload: &JsonValue, emits_signature: bool) -> (kind:
        CodexStreamEventKind)
        ensures
            (final(self)@, kind) == old(self)@.step(payload@, emits_signature),
    {
        let kind = classify_stream_event(payload);
        if kind == CodexStreamEventKind::TerminalSuccess || kind
            == CodexStreamEventKind::TerminalFailure {
            self.reset();
            return kind;
        }
        let event_type = as_text(payload.get("type"));
        let finished = text_is(event_type, "response.output_item.done");
        match reasoning_in(payload) {
            Some(item) => {
                let index = index_in(payload);
                let ghost before = self.reasoning_by_output_index@;
                let mut pending = match self.reasoning_by_output_index.remove(&index) {
                    Some(pending) => pending,
                    None => PendingReasoning::new(),
                };
                pending.capture(item);
                if !finished {
                    let ghost known = pending@;
                    self.reasoning_by_output_index.insert(index, pending);
                    assert(pending_models(self.reasoning_by_output_index@) =~= pending_models(
                        before,
                    ).insert(index, known));
                    return kind;
                }
                if emits_signature {
                    self.reset();
                    return CodexStreamEventKind::Semantic;
                }
                assert(pending_models(self.reasoning_by_output_index@) =~= pending_models(
                    before,
                ).remove(index));
                return kind;
            },
            None => {},
        }
        if finished && text_is(as_text(payload.at("item", "type")), "web_search_call") {
            self.buffering_hosted_search_output = true;
            return CodexStreamEventKind::Structure;
        }
        if self.buffering_hosted_search_output && text_is(
            event_type,
            "response.output_text.delta",
        ) {
            return CodexStreamEventKind::Structure;
        }
        if kind == CodexStreamEventKind::Semantic {
            self.reset();
        }
        kind
    }

    /// What an event means after the events before it.
    pub fn classify(&mut self, payload: &JsonValue) -> (kind: CodexStreamEventKind)
        ensures
            (final(self)@, kind) == old(self)@.step(
                payload@,
                old(self)@.signature_ready(payload@),
            ),
    {
        let emits_signature = self.signature_ready(payload);
        self.classify_with(payload, emits_signature)
    }
}

} // verus!
