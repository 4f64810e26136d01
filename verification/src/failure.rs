//! Failures that the events of a response report: what kind they are, which status a client
//! sees, and whether another attempt is worth it.

use vstd::prelude::*;
use vstd::string::*;

use crate::json::{
    as_text, as_unsigned, chars_of, get_in, is_present, member, present, scalar_of, text_of,
    unsigned_of, view_of, Json, JsonValue,
};
use crate::text::{
    blank, characters, chars_contain, contains, is_blank, lower, lowered, text_is,
};

verus! {

broadcast use vstd::string::group_string_axioms;

/// What a failure means for another attempt.
#[derive(Debug, Clone, Copy, PartialEq, Eq, Structural)]
pub enum CodexFailureKind {
    RateLimit,
    Overloaded,
    Transient,
    Permanent,
}

/// A failure that an event reports.
#[derive(Debug, Clone, PartialEq, Eq)]
pub struct CodexEventFailure {
    pub kind: CodexFailureKind,
    /// The status that the event itself carries.
    pub explicit_status: Option<u16>,
    /// The status for the client.
    pub status: u16,
    pub message: String,
    /// How long to wait before another attempt, as the event says it.
    pub retry_after: Option<String>,
}

/// What a `CodexEventFailure` stands for.
pub struct Failure {
    pub kind: CodexFailureKind,
    pub explicit_status: Option<u16>,
    pub status: u16,
    pub message: Seq<char>,
    pub retry_after: Option<Seq<char>>,
}

/// What an owned text that may be missing stands for.
pub open spec fn owned_chars(text: Option<String>) -> Option<Seq<char>> {
    match text {
        Some(text) => Some(text@),
        None => None,
    }
}

impl View for CodexEventFailure {
    type V = Failure;

    open spec fn view(&self) -> Failure {
        Failure {
            kind: self.kind,
            explicit_status: self.explicit_status,
            status: self.status,
            message: self.message@,
            retry_after: owned_chars(self.retry_after),
        }
    }
}

/// What a failure that may be missing stands for.
pub open spec fn failure_view(failure: Option<CodexEventFailure>) -> Option<Failure> {
    match failure {
        Some(failure) => Some(failure@),
        None => None,
    }
}

impl Failure {
    /// Whether another attempt may succeed.
    pub open spec fn retryable(self) -> bool {
        self.kind != CodexFailureKind::Permanent
    }
}

/// The error type that a client sees for a status.
pub open spec fn error_type_for(status: u16) -> Seq<char> {
    if status == 400 || status == 422 {
        "invalid_request_error"@
    } else if status == 401 {
        "authentication_error"@
    } else if status == 403 {
        "permission_error"@
    } else if status == 413 {
        "request_too_large"@
    } else if status == 429 {
        "rate_limit_error"@
    } else if status == 529 {
        "overloaded_error"@
    } else {
        "api_error"@
    }
}

impl CodexEventFailure {
    /// Whether another attempt may succeed.
    pub fn retryable(&self) -> (again: bool)
        ensures
            again == self@.retryable(),
    {
        self.kind != CodexFailureKind::Permanent
    }

    /// The status for the client.
    pub fn client_status(&self) -> (status: u16)
        ensures
            status == self@.status,
    {
        self.status
    }

    /// The error type for the client.
    pub fn client_error_type(&self) -> (name: &'static str)
        ensures
            name@ == error_type_for(self@.status),
    {
        match self.client_status() {
            400 | 422 => "invalid_request_error",
            401 => "authentication_error",
            403 => "permission_error",
            413 => "request_too_large",
            429 => "rate_limit_error",
            529 => "overloaded_error",
            _ => "api_error",
        }
    }
}

/// The type of an event.
pub open spec fn event_type(event: Json) -> Option<Seq<char>> {
    text_of(event.get("type"@))
}

/// The error that an event carries, at its top or in its response. A null is no error.
pub open spec fn error_of(event: Json) -> Option<Json> {
    if present(event.get("error"@)) {
        event.get("error"@)
    } else if present(event.at("response"@, "error"@)) {
        event.at("response"@, "error"@)
    } else {
        None
    }
}

/// The status number at the top of an event.
pub open spec fn status_number(event: Json) -> Option<u64> {
    match unsigned_of(event.get("status"@)) {
        Some(status) => Some(status),
        None => unsigned_of(event.get("status_code"@)),
    }
}

/// Whether an event ends a response that is not complete.
pub open spec fn incomplete_terminal(event: Json) -> bool {
    let named = event_type(event);
    ||| named == Some("response.incomplete"@)
    ||| {
        &&& named == Some("response.completed"@) || named == Some("response.done"@)
        &&& text_of(event.at("response"@, "status"@)) == Some("incomplete"@) || present(
            event.at("response"@, "incomplete_details"@),
        )
    }
}

/// The reason that an event gives for an incomplete response.
pub open spec fn incomplete_reason(event: Json) -> Option<Seq<char>> {
    text_of(member(event.at("response"@, "incomplete_details"@), "reason"@))
}

/// Whether an event says, without contradicting itself, that the output limit ended the response.
pub open spec fn standard_max_output(event: Json) -> bool {
    let status = event.at("response"@, "status"@);
    &&& event_type(event) == Some("response.incomplete"@)
    &&& status is None || text_of(status) == Some("incomplete"@)
    &&& incomplete_reason(event) == Some("max_output_tokens"@)
    &&& error_of(event) is None
}

/// The error that an event carries.
pub fn event_error(payload: &JsonValue) -> (error: Option<&JsonValue>)
    ensures
        view_of(error) == error_of(payload@),
{
    let top = payload.get("error");
    if is_present(top) {
        return top;
    }
    let nested = payload.at("response", "error");
    if is_present(nested) {
        return nested;
    }
    None
}

/// The status number at the top of an event.
pub fn numeric_status(payload: &JsonValue) -> (status: Option<u64>)
    ensures
        status == status_number(payload@),
{
    match as_unsigned(payload.get("status")) {
        Some(status) => Some(status),
        None => as_unsigned(payload.get("status_code")),
    }
}

/// Whether an event ends a response that is not complete.
pub fn response_is_incomplete_terminal(payload: &JsonValue) -> (incomplete: bool)
    ensures
        incomplete == incomplete_terminal(payload@),
{
    let event_type = as_text(payload.get("type"));
    if text_is(event_type, "response.incomplete") {
        return true;
    }
    if !text_is(event_type, "response.completed") && !text_is(event_type, "response.done") {
        return false;
    }
    text_is(as_text(payload.at("response", "status")), "incomplete") || is_present(
        payload.at("response", "incomplete_details"),
    )
}

/// Whether an event says, without contradicting itself, that the output limit ended the response.
pub fn is_standard_max_output_tokens_incomplete(payload: &JsonValue) -> (standard: bool)
    ensures
        standard == standard_max_output(payload@),
{
    let status = payload.at("response", "status");
    let reason = as_text(get_in(payload.at("response", "incomplete_details"), "reason"));
    text_is(as_text(payload.get("type")), "response.incomplete") && (status.is_none() || text_is(
        as_text(status),
        "incomplete",
    )) && text_is(reason, "max_output_tokens") && event_error(payload).is_none()
}

/// A text as it is, or a number as it is written.
pub fn scalar_string_value(value: &JsonValue) -> (text: Option<String>)
    ensures
        owned_chars(text) == scalar_of(Some(value@)),
{
    match value {
        JsonValue::Text(text) => Some(text.clone()),
        JsonValue::Number(number) => Some(number.text.clone()),
        _ => None,
    }
}

/// A text as it is, or a number as it is written, if the value is there.
pub fn scalar_string(value: Option<&JsonValue>) -> (text: Option<String>)
    ensures
        owned_chars(text) == scalar_of(view_of(value)),
{
    match value {
        Some(value) => scalar_string_value(value),
        None => None,
    }
}

/// The phrases of a message that speak of a passing trouble.
pub open spec fn retry_phrases() -> Seq<Seq<char>> {
    seq![
        "server error"@,
        "internal server error"@,
        "service unavailable"@,
        "bad gateway"@,
        "gateway timeout"@,
        "temporarily unavailable"@,
        "you can retry your request"@,
        "socket connection was closed unexpectedly"@,
        "connection closed unexpectedly"@,
        "operation timed out"@,
        "connection reset"@,
        "connection closed"@,
        "timed out"@,
        "timeout"@,
        "econnreset"@,
        "epipe"@,
        "etimedout"@,
        "und_err_socket"@,
        "fetch failed"@,
        "unexpected eof"@,
    ]
}

/// Whether a message speaks of a passing trouble.
pub open spec fn speaks_of_retry(message: Seq<char>) -> bool {
    exists|i: int|
        0 <= i < retry_phrases().len() && contains(message, #[trigger] retry_phrases()[i])
}

/// Whether the characters of a message in lower case speak of a passing trouble.
fn retry_in(message: &Vec<char>) -> (again: bool)
    ensures
        again == speaks_of_retry(message@),
{
    let phrases: [&str; 20] = [
        "server error",
        "internal server error",
        "service unavailable",
        "bad gateway",
        "gateway timeout",
        "temporarily unavailable",
        "you can retry your request",
        "socket connection was closed unexpectedly",
        "connection closed unexpectedly",
        "operation timed out",
        "connection reset",
        "connection closed",
        "timed out",
        "timeout",
        "econnreset",
        "epipe",
        "etimedout",
        "und_err_socket",
        "fetch failed",
        "unexpected eof",
    ];
    assert(forall|k: int| 0 <= k < 20 ==> (#[trigger] phrases@[k])@ == retry_phrases()[k]);
    let mut i: usize = 0;
    while i < 20
        invariant
            i <= 20,
            phrases@.len() == 20,
            retry_phrases().len() == 20,
            forall|k: int| 0 <= k < 20 ==> (#[trigger] phrases@[k])@ == retry_phrases()[k],
            forall|k: int| 0 <= k < i ==> !contains(message@, #[trigger] retry_phrases()[k]),
        decreases 20 - i,
    {
        if chars_contain(message, phrases[i]) {
            assert(contains(message@, retry_phrases()[i as int]));
            return true;
        }
        i += 1;
    }
    false
}

/// Whether a message in lower case speaks of a passing trouble.
pub fn retryable_message(message: &str) -> (again: bool)
    ensures
        again == speaks_of_retry(message@),
{
    retry_in(&characters(message))
}

/// The status that an event itself carries: the number at its top, or else the number in its
/// error, if it fits a status.
pub open spec fn explicit_status(event: Json) -> Option<u16> {
    let number = match status_number(event) {
        Some(number) => Some(number),
        None => unsigned_of(member(error_of(event), "status"@)),
    };
    if number is Some && number->0 <= u16::MAX {
        Some(number->0 as u16)
    } else {
        None
    }
}

/// Whether an event reports a failure, by its type, by the status of its response or by an error.
pub open spec fn reports_failure(event: Json) -> bool {
    let named = event_type(event);
    ||| named == Some("response.failed"@)
    ||| named == Some("response.error"@)
    ||| named == Some("error"@)
    ||| text_of(event.at("response"@, "status"@)) == Some("failed"@)
    ||| error_of(event) is Some
}

/// The message of a failure, from the code and the message of its error.
pub open spec fn failure_message(code: Option<Seq<char>>, said: Option<Seq<char>>) -> Seq<char> {
    if code == Some("cyber_policy"@) && (said is None || blank(said->0)) {
        "This request has been flagged for possible cybersecurity risk."@
    } else if said is Some {
        said->0
    } else if code == Some("invalid_prompt"@) || code == Some("bio_policy"@) {
        "Invalid request."@
    } else {
        "Upstream error"@
    }
}

/// Whether the input was too long for the model.
pub open spec fn context_window(code: Option<Seq<char>>, message: Seq<char>) -> bool {
    ||| code == Some("context_length_exceeded"@)
    ||| contains(lower(message), "context window"@)
    ||| contains(lower(message), "context length exceeded"@)
}

/// The codes of a request that was refused for good because of what it asked.
pub open spec fn refusal_code(code: Option<Seq<char>>) -> bool {
    ||| code == Some("cyber_policy"@)
    ||| code == Some("invalid_prompt"@)
    ||| code == Some("bio_policy"@)
}

/// The codes that no further attempt can change.
pub open spec fn fatal_code(code: Option<Seq<char>>) -> bool {
    ||| refusal_code(code)
    ||| code == Some("context_length_exceeded"@)
    ||| code == Some("insufficient_quota"@)
    ||| code == Some("usage_not_included"@)
}

/// The codes of a backend that asks for patience.
pub open spec fn busy_code(code: Option<Seq<char>>) -> bool {
    code == Some("server_is_overloaded"@) || code == Some("slow_down"@)
}

/// The names of a fault on the server's side.
pub open spec fn server_fault(name: Option<Seq<char>>) -> bool {
    ||| name == Some("server_error"@)
    ||| name == Some("internal_server_error"@)
    ||| name == Some("internal_error"@)
}

/// The statuses of a passing fault.
pub open spec fn passing_status(status: Option<u16>) -> bool {
    status is Some && (status->0 == 500 || status->0 == 502 || status->0 == 503 || status->0 == 504)
}

/// The kind of a reported failure. The first rule that applies decides.
pub open spec fn failure_kind(
    named: Option<Seq<char>>,
    explicit: Option<u16>,
    code: Option<Seq<char>>,
    error_type: Option<Seq<char>>,
    message: Seq<char>,
) -> CodexFailureKind {
    let lowered = lower(message);
    if context_window(code, message) || fatal_code(code) {
        CodexFailureKind::Permanent
    } else if busy_code(code) {
        CodexFailureKind::Overloaded
    } else if explicit == Some(429u16) || contains(lowered, "rate limit"@) {
        CodexFailureKind::RateLimit
    } else if explicit == Some(529u16) || code == Some("overloaded_error"@) || error_type == Some(
        "overloaded_error"@,
    ) || contains(lowered, "overloaded"@) {
        CodexFailureKind::Overloaded
    } else if passing_status(explicit) || server_fault(code) || server_fault(error_type)
        || speaks_of_retry(lowered) {
        CodexFailureKind::Transient
    } else if explicit is Some || named == Some("response.error"@) || named == Some("error"@) {
        CodexFailureKind::Permanent
    } else {
        CodexFailureKind::Transient
    }
}

/// The status for the client of a reported failure without a status of its own.
pub open spec fn implied_status(code: Option<Seq<char>>, kind: CodexFailureKind) -> u16 {
    if refusal_code(code) {
        400
    } else if code == Some("insufficient_quota"@) {
        429
    } else if code == Some("usage_not_included"@) {
        403
    } else {
        match kind {
            CodexFailureKind::RateLimit => 429,
            CodexFailureKind::Overloaded => 529,
            CodexFailureKind::Transient => 503,
            CodexFailureKind::Permanent => 500,
        }
    }
}

/// How long to wait, as the first of five places says it.
pub open spec fn retry_after(event: Json) -> Option<Seq<char>> {
    let in_error = scalar_of(member(error_of(event), "retry_after"@));
    let seconds_in_error = scalar_of(member(error_of(event), "retry_after_seconds"@));
    let seconds = scalar_of(event.get("retry_after_seconds"@));
    let header = scalar_of(event.at("headers"@, "retry-after"@));
    if in_error is Some {
        in_error
    } else if seconds_in_error is Some {
        seconds_in_error
    } else if seconds is Some {
        seconds
    } else if header is Some {
        header
    } else {
        scalar_of(event.at("headers"@, "Retry-After"@))
    }
}

/// The failure that an incomplete response amounts to.
pub open spec fn incomplete_failure(event: Json) -> Failure {
    let reason = match incomplete_reason(event) {
        Some(reason) => reason,
        None => "unknown"@,
    };
    Failure {
        kind: CodexFailureKind::Transient,
        explicit_status: None,
        status: 503,
        message: "Incomplete response returned, reason: "@ + reason,
        retry_after: None,
    }
}

/// The failure that an event with a failing type, a failed response or an error reports.
pub open spec fn reported_failure(event: Json) -> Failure {
    let error = error_of(event);
    let code = text_of(member(error, "code"@));
    let error_type = text_of(member(error, "type"@));
    let message = failure_message(code, text_of(member(error, "message"@)));
    let explicit = explicit_status(event);
    let kind = failure_kind(event_type(event), explicit, code, error_type, message);
    Failure {
        kind,
        explicit_status: explicit,
        status: if context_window(code, message) {
            413
        } else if explicit is Some {
            explicit->0
        } else {
            implied_status(code, kind)
        },
        message,
        retry_after: retry_after(event),
    }
}

/// The failure that an event reports, if it does. A rate-limit snapshot never does, nor does an
/// event without a type.
pub open spec fn failure_of(event: Json) -> Option<Failure> {
    if event_type(event) is None || event_type(event) == Some("codex.rate_limits"@) {
        None
    } else if incomplete_terminal(event) {
        Some(incomplete_failure(event))
    } else if reports_failure(event) {
        Some(reported_failure(event))
    } else {
        None
    }
}

/// The status that an event itself carries.
fn status_in(payload: &JsonValue, error: Option<&JsonValue>) -> (status: Option<u16>)
    requires
        view_of(error) == error_of(payload@),
    ensures
        status == explicit_status(payload@),
{
    let number = match numeric_status(payload) {
        Some(number) => Some(number),
        None => as_unsigned(get_in(error, "status")),
    };
    match number {
        Some(number) => {
            if number <= 65535 {
                Some(number as u16)
            } else {
                None
            }
        },
        None => None,
    }
}

/// The message of a failure, from the code and the message of its error.
fn message_for(code: Option<&str>, said: Option<&str>) -> (message: String)
    ensures
        message@ == failure_message(chars_of(code), chars_of(said)),
{
    match said {
        Some(said) => {
            if text_is(code, "cyber_policy") && is_blank(said) {
                "This request has been flagged for possible cybersecurity risk.".to_owned()
            } else {
                said.to_owned()
            }
        },
        None => {
            if text_is(code, "cyber_policy") {
                "This request has been flagged for possible cybersecurity risk.".to_owned()
            } else if text_is(code, "invalid_prompt") || text_is(code, "bio_policy") {
                "Invalid request.".to_owned()
            } else {
                "Upstream error".to_owned()
            }
        },
    }
}

/// Whether the code says that the request was refused because of what it asked.
fn is_refusal_code(code: Option<&str>) -> (refusal: bool)
    ensures
        refusal == refusal_code(chars_of(code)),
{
    text_is(code, "cyber_policy") || text_is(code, "invalid_prompt") || text_is(code, "bio_policy")
}

/// Whether the code is one that no further attempt can change.
fn is_fatal_code(code: Option<&str>) -> (fatal: bool)
    ensures
        fatal == fatal_code(chars_of(code)),
{
    is_refusal_code(code) || text_is(code, "context_length_exceeded") || text_is(
        code,
        "insufficient_quota",
    ) || text_is(code, "usage_not_included")
}

/// Whether the name is one of a fault on the server's side.
fn is_server_fault(name: Option<&str>) -> (fault: bool)
    ensures
        fault == server_fault(chars_of(name)),
{
    text_is(name, "server_error") || text_is(name, "internal_server_error") || text_is(
        name,
        "internal_error",
    )
}

/// Whether there is a status and it is `expected`.
fn status_is(status: Option<u16>, expected: u16) -> (same: bool)
    ensures
        same == (status == Some(expected)),
{
    match status {
        Some(status) => status == expected,
        None => false,
    }
}

/// Whether the input was too long for the model.
fn exceeds_context(code: Option<&str>, message: &str, lowered: &Vec<char>) -> (exceeds: bool)
    requires
        lowered@ == lower(message@),
    ensures
        exceeds == context_window(chars_of(code), message@),
{
    text_is(code, "context_length_exceeded") || chars_contain(lowered, "context window")
        || chars_contain(lowered, "context length exceeded")
}

/// The kind of a reported failure, whose message is given as it is and in lower case.
fn kind_for(
    event_type: &str,
    explicit: Option<u16>,
    code: Option<&str>,
    error_type: Option<&str>,
    message: &str,
    lowered: &Vec<char>,
) -> (kind: CodexFailureKind)
    requires
        lowered@ == lower(message@),
    ensures
        kind == failure_kind(
            Some(event_type@),
            explicit,
            chars_of(code),
            chars_of(error_type),
            message@,
        ),
{
    if exceeds_context(code, message, lowered) || is_fatal_code(code) {
        CodexFailureKind::Permanent
    } else if text_is(code, "server_is_overloaded") || text_is(code, "slow_down") {
        CodexFailureKind::Overloaded
    } else if status_is(explicit, 429) || chars_contain(lowered, "rate limit") {
        CodexFailureKind::RateLimit
    } else if status_is(explicit, 529) || text_is(code, "overloaded_error") || text_is(
        error_type,
        "overloaded_error",
    ) || chars_contain(lowered, "overloaded") {
        CodexFailureKind::Overloaded
    } else if status_is(explicit, 500) || status_is(explicit, 502) || status_is(explicit, 503)
        || status_is(explicit, 504) || is_server_fault(code) || is_server_fault(error_type)
        || retry_in(lowered) {
        CodexFailureKind::Transient
    } else if explicit.is_some() || text_is(Some(event_type), "response.error") || text_is(
        Some(event_type),
        "error",
    ) {
        CodexFailureKind::Permanent
    } else {
        // A failed response that nothing explains is worth another attempt: it must not pass
        // for a turn that went well.
        CodexFailureKind::Transient
    }
}

/// The status for the client of a failure without a status of its own.
fn status_for(code: Option<&str>, kind: CodexFailureKind) -> (status: u16)
    ensures
        status == implied_status(chars_of(code), kind),
{
    if is_refusal_code(code) {
        400
    } else if text_is(code, "insufficient_quota") {
        429
    } else if text_is(code, "usage_not_included") {
        403
    } else {
        match kind {
            CodexFailureKind::RateLimit => 429,
            CodexFailureKind::Overloaded => 529,
            CodexFailureKind::Transient => 503,
            CodexFailureKind::Permanent => 500,
        }
    }
}

/// How long to wait, as the first of five places says it.
fn wait_in(payload: &JsonValue, error: Option<&JsonValue>) -> (wait: Option<String>)
    requires
        view_of(error) == error_of(payload@),
    ensures
        owned_chars(wait) == retry_after(payload@),
{
    let in_error = scalar_string(get_in(error, "retry_after"));
    if in_error.is_some() {
        return in_error;
    }
    let seconds_in_error = scalar_string(get_in(error, "retry_after_seconds"));
    if seconds_in_error.is_some() {
        return seconds_in_error;
    }
    let seconds = scalar_string(payload.get("retry_after_seconds"));
    if seconds.is_some() {
        return seconds;
    }
    let header = scalar_string(payload.at("headers", "retry-after"));
    if header.is_some() {
        return header;
    }
    scalar_string(payload.at("headers", "Retry-After"))
}

/// The failure that an event reports, if it does.
pub fn classify_event_failure(payload: &JsonValue) -> (failure: Option<CodexEventFailure>)
    ensures
        failure_view(failure) == failure_of(payload@),
{
    let event_type = match as_text(payload.get("type")) {
        Some(event_type) => event_type,
        None => {
            return None;
        },
    };
    if text_is(Some(event_type), "codex.rate_limits") {
        return None;
    }
    if response_is_incomplete_terminal(payload) {
        let reason = match as_text(
            get_in(payload.at("response", "incomplete_details"), "reason"),
        ) {
            Some(reason) => reason,
            None => "unknown",
        };
        return Some(
            CodexEventFailure {
                kind: CodexFailureKind::Transient,
                explicit_status: None,
                status: 503,
                message: "Incomplete response returned, reason: ".to_owned().concat(reason),
                retry_after: None,
            },
        );
    }
    let error = event_error(payload);
    if !text_is(Some(event_type), "response.failed") && !text_is(
        Some(event_type),
        "response.error",
    ) && !text_is(Some(event_type), "error") && !text_is(
        as_text(payload.at("response", "status")),
        "failed",
    ) && error.is_none() {
        return None;
    }
    let explicit_status = status_in(payload, error);
    let code = as_text(get_in(error, "code"));
    let error_type = as_text(get_in(error, "type"));
    let message = message_for(code, as_text(get_in(error, "message")));
    let lower_case = lowered(message.as_str());
    let kind = kind_for(
        event_type,
        explicit_status,
        code,
        error_type,
        message.as_str(),
        &lower_case,
    );
    let status = if exceeds_context(code, message.as_str(), &lower_case) {
        413
    } else {
        match explicit_status {
            Some(status) => status,
            None => status_for(code, kind),
        }
    };
    Some(
        CodexEventFailure {
            kind,
            explicit_status,
            status,
            message,
            retry_after: wait_in(payload, error),
        },
    )
}

} // verus!
