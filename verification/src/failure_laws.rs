//! What a failure says of an event, told by what the event carries.

use vstd::prelude::*;
use vstd::string::*;

use crate::failure::{
    classify_event_failure, error_of, error_type_for, failure_of, incomplete_terminal,
    retryable_message, scalar_string_value, speaks_of_retry, standard_max_output, status_number,
    CodexEventFailure, CodexFailureKind, Failure,
};
use crate::json::{Json, JsonValue};
use crate::text::{blank, contains, lower};

verus! {

broadcast use vstd::string::group_string_axioms;

/// Whether an event has the type.
pub open spec fn typed(event: Json, name: Seq<char>) -> bool {
    event.get("type"@) == Some(Json::Text(name))
}

/// Whether a member is missing or null.
pub open spec fn void(value: Option<Json>) -> bool {
    value is None || value == Some(Json::Null)
}

/// Whether `error` is what an event carries as its error: the one at its top or, where that is
/// missing or null, the one in its response.
pub open spec fn carries(event: Json, error: Option<Json>) -> bool {
    let top = event.get("error"@);
    let nested = event.at("response"@, "error"@);
    match error {
        Some(error) => error != Json::Null && (top == Some(error) || void(top) && nested == Some(
            error,
        )),
        None => void(top) && void(nested),
    }
}

/// The text of a member of an error, if it is one.
pub open spec fn word(error: Option<Json>, name: Seq<char>) -> Option<Seq<char>> {
    match error {
        Some(error) => match error.get(name) {
            Some(Json::Text(text)) => Some(text),
            _ => None,
        },
        None => None,
    }
}

/// The whole number that a member gives, if it gives one.
pub open spec fn whole(value: Option<Json>) -> Option<u64> {
    match value {
        Some(Json::Number(number)) => number.unsigned,
        _ => None,
    }
}

/// The writing of a member that is a text or a number.
pub open spec fn writing(value: Option<Json>) -> Option<Seq<char>> {
    match value {
        Some(Json::Text(text)) => Some(text),
        Some(Json::Number(number)) => Some(number.text),
        _ => None,
    }
}

/// The member of an error that may be missing.
pub open spec fn inside(error: Option<Json>, name: Seq<char>) -> Option<Json> {
    match error {
        Some(error) => error.get(name),
        None => None,
    }
}

/// The number that stands for the status of an event: the first of three places that gives one.
pub open spec fn own_number(event: Json, error: Option<Json>) -> Option<u64> {
    if whole(event.get("status"@)) is Some {
        whole(event.get("status"@))
    } else if whole(event.get("status_code"@)) is Some {
        whole(event.get("status_code"@))
    } else {
        whole(inside(error, "status"@))
    }
}

/// Whether an event ends a response of which something is missing.
pub open spec fn unfinished(event: Json) -> bool {
    ||| typed(event, "response.incomplete"@)
    ||| {
        &&& typed(event, "response.completed"@) || typed(event, "response.done"@)
        &&& event.at("response"@, "status"@) == Some(Json::Text("incomplete"@)) || !void(
            event.at("response"@, "incomplete_details"@),
        )
    }
}

/// Whether an event is about something else than rate limits and has a type at all.
pub open spec fn speaks(event: Json) -> bool {
    &&& exists|name: Seq<char>| #[trigger] typed(event, name)
    &&& !typed(event, "codex.rate_limits"@)
}

/// Whether an event with the error reports a failure other than a response of which something is
/// missing.
pub open spec fn failing(event: Json, error: Option<Json>) -> bool {
    &&& carries(event, error)
    &&& speaks(event)
    &&& !unfinished(event)
    &&& typed(event, "response.failed"@) || typed(event, "response.error"@) || typed(
        event,
        "error"@,
    ) || event.at("response"@, "status"@) == Some(Json::Text("failed"@)) || error is Some
}

/// Whether a message speaks of an input that is too long, in capital letters or small ones.
pub open spec fn too_long(message: Seq<char>) -> bool {
    contains(lower(message), "context window"@) || contains(
        lower(message),
        "context length exceeded"@,
    )
}

/// Whether the code is one after which no attempt can succeed.
pub open spec fn hopeless(code: Option<Seq<char>>) -> bool {
    ||| code == Some("context_length_exceeded"@)
    ||| code == Some("insufficient_quota"@)
    ||| code == Some("usage_not_included"@)
    ||| code == Some("cyber_policy"@)
    ||| code == Some("invalid_prompt"@)
    ||| code == Some("bio_policy"@)
}

/// Whether the code is one of a backend that has too much to do.
pub open spec fn swamped(code: Option<Seq<char>>) -> bool {
    code == Some("server_is_overloaded"@) || code == Some("slow_down"@)
}

/// Whether a text holds one of the phrases of a passing trouble.
pub open spec fn troubled(text: Seq<char>) -> bool {
    ||| contains(text, "server error"@)
    ||| contains(text, "internal server error"@)
    ||| contains(text, "service unavailable"@)
    ||| contains(text, "bad gateway"@)
    ||| contains(text, "gateway timeout"@)
    ||| contains(text, "temporarily unavailable"@)
    ||| contains(text, "you can retry your request"@)
    ||| contains(text, "socket connection was closed unexpectedly"@)
    ||| contains(text, "connection closed unexpectedly"@)
    ||| contains(text, "operation timed out"@)
    ||| contains(text, "connection reset"@)
    ||| contains(text, "connection closed"@)
    ||| contains(text, "timed out"@)
    ||| contains(text, "timeout"@)
    ||| contains(text, "econnreset"@)
    ||| contains(text, "epipe"@)
    ||| contains(text, "etimedout"@)
    ||| contains(text, "und_err_socket"@)
    ||| contains(text, "fetch failed"@)
    ||| contains(text, "unexpected eof"@)
}

/// The lengths of the types that events have.
pub(crate) proof fn type_lengths()
    ensures
        "error"@.len() == 5,
        "keepalive"@.len() == 9,
        "response.done"@.len() == 13,
        "response.error"@.len() == 14,
        "response.failed"@.len() == 15,
        "response.created"@.len() == 16,
        "codex.rate_limits"@.len() == 17,
        "response.completed"@.len() == 18,
        "response.incomplete"@.len() == 19,
        "response.in_progress"@.len() == 20,
        "response.output_item.done"@.len() == 25,
        "response.output_item.added"@.len() == 26,
        "response.output_text.delta"@.len() == 26,
        "response.output_item.added"@ != "response.output_text.delta"@,
        "response.web_search_call.searching"@.len() == 34,
        "response.web_search_call.completed"@.len() == 34,
        "response.web_search_call.in_progress"@.len() == 36,
        "response.reasoning_summary_text.delta"@.len() == 37,
        "response.function_call_arguments.delta"@.len() == 38,
{
    reveal_strlit("error");
    reveal_strlit("keepalive");
    reveal_strlit("response.done");
    reveal_strlit("response.error");
    reveal_strlit("response.failed");
    reveal_strlit("response.created");
    reveal_strlit("codex.rate_limits");
    reveal_strlit("response.completed");
    reveal_strlit("response.incomplete");
    reveal_strlit("response.in_progress");
    reveal_strlit("response.output_item.done");
    reveal_strlit("response.output_item.added");
    reveal_strlit("response.output_text.delta");
    reveal_strlit("response.web_search_call.searching");
    reveal_strlit("response.web_search_call.completed");
    reveal_strlit("response.web_search_call.in_progress");
    reveal_strlit("response.reasoning_summary_text.delta");
    reveal_strlit("response.function_call_arguments.delta");
    assert("response.output_item.added"@[16] == 'i');
    assert("response.output_text.delta"@[16] == 't');
}

/// The error of an event is the one at its top or, where that is missing or null, the one in its
/// response.
pub proof fn errors_are_what_is_carried(event: Json, error: Option<Json>)
    ensures
        carries(event, error) <==> error_of(event) == error,
{
}

/// A response ends with something missing exactly when its event says so, by its type, by the
/// status of the response or by details.
pub proof fn missing_parts_are_told(event: Json)
    ensures
        incomplete_terminal(event) <==> unfinished(event),
{
}

/// The output limit is the reason of an end exactly when the event says that and nothing against it.
pub proof fn output_limits_are_told(event: Json)
    ensures
        standard_max_output(event) <==> {
            let details = event.at("response"@, "incomplete_details"@);
            let status = event.at("response"@, "status"@);
            &&& typed(event, "response.incomplete"@)
            &&& status is None || status == Some(Json::Text("incomplete"@))
            &&& details is Some && details->0.get("reason"@) == Some(
                Json::Text("max_output_tokens"@),
            )
            &&& carries(event, None)
        },
{
}

/// The status number at the top of an event is its `status` or else its `status_code`, where they
/// are whole numbers.
pub proof fn status_numbers_are_told(event: Json)
    ensures
        whole(event.get("status"@)) is Some ==> status_number(event) == whole(
            event.get("status"@),
        ),
        whole(event.get("status"@)) is None ==> status_number(event) == whole(
            event.get("status_code"@),
        ),
{
}

/// Only texts and numbers have a writing of their own, and it is given as it stands.
pub proof fn scalars_are_written(value: &JsonValue, text: Option<String>)
    requires
        call_ensures(scalar_string_value, (value,), text),
    ensures
        value matches JsonValue::Text(said) ==> text is Some && text->0@ == said@,
        value matches JsonValue::Number(number) ==> text is Some && text->0@ == number.text@,
        !(value is Text) && !(value is Number) ==> text is None,
{
}

/// A message speaks of a passing trouble exactly when it holds one of the phrases, wherever it
/// stands.
pub proof fn passing_troubles_are_named(message: &str, again: bool)
    requires
        call_ensures(retryable_message, (message,), again),
    ensures
        again == troubled(message@),
{
    troubles_are_phrases(message@);
}

/// The phrases of a passing trouble, one by one.
proof fn troubles_are_phrases(text: Seq<char>)
    ensures
        speaks_of_retry(text) == troubled(text),
{
    let all = crate::failure::retry_phrases();
    assert(all.len() == 20);
    assert(forall|i: int| 0 <= i < 20 && contains(text, #[trigger] all[i]) ==> troubled(text)) by {
        assert forall|i: int| 0 <= i < 20 && contains(text, #[trigger] all[i]) implies troubled(
            text,
        ) by {
            assert(i == 0 || i == 1 || i == 2 || i == 3 || i == 4 || i == 5 || i == 6 || i == 7 || i
                == 8 || i == 9 || i == 10 || i == 11 || i == 12 || i == 13 || i == 14 || i == 15
                || i == 16 || i == 17 || i == 18 || i == 19);
        }
    }
    assert(all[0] == "server error"@ && all[1] == "internal server error"@ && all[2]
        == "service unavailable"@ && all[3] == "bad gateway"@ && all[4] == "gateway timeout"@
        && all[5] == "temporarily unavailable"@ && all[6] == "you can retry your request"@);
    assert(all[7] == "socket connection was closed unexpectedly"@ && all[8]
        == "connection closed unexpectedly"@ && all[9] == "operation timed out"@ && all[10]
        == "connection reset"@ && all[11] == "connection closed"@ && all[12] == "timed out"@
        && all[13] == "timeout"@);
    assert(all[14] == "econnreset"@ && all[15] == "epipe"@ && all[16] == "etimedout"@ && all[17]
        == "und_err_socket"@ && all[18] == "fetch failed"@ && all[19] == "unexpected eof"@);
}

/// An event reports a failure exactly when something is missing at its end, or its type, the
/// status of its response or its error says so. An event without a type never does, nor does one
/// about rate limits.
pub proof fn failures_come_from_what_is_said(event: Json, error: Option<Json>)
    requires
        carries(event, error),
    ensures
        failure_of(event) is Some <==> speaks(event) && (unfinished(event) || failing(
            event,
            error,
        )),
{
    type_lengths();
    if crate::failure::event_type(event) is Some {
        assert(typed(event, crate::failure::event_type(event)->0));
    }
}

/// A response of which something is missing is a failure that passes, with the reason that the
/// event gives.
pub proof fn missing_parts_pass(event: Json)
    requires
        unfinished(event),
    ensures
        failure_of(event) is Some,
        ({
            let failure = failure_of(event)->0;
            let details = event.at("response"@, "incomplete_details"@);
            &&& failure.kind == CodexFailureKind::Transient
            &&& failure.explicit_status is None
            &&& failure.status == 503
            &&& failure.retry_after is None
            &&& word(details, "reason"@) is Some ==> failure.message
                == "Incomplete response returned, reason: "@ + word(details, "reason"@)->0
            &&& word(details, "reason"@) is None ==> failure.message
                == "Incomplete response returned, reason: "@ + "unknown"@
        }),
{
    type_lengths();
}

/// The status of its own that a failure has is the number that the event gives, where it fits
/// sixteen bits.
pub proof fn own_statuses_are_told(event: Json, error: Option<Json>)
    requires
        failing(event, error),
    ensures
        failure_of(event) is Some,
        match own_number(event, error) {
            Some(number) => if number <= 65535 {
                failure_of(event)->0.explicit_status == Some(number as u16)
            } else {
                failure_of(event)->0.explicit_status is None
            },
            None => failure_of(event)->0.explicit_status is None,
        },
{
    errors_are_what_is_carried(event, error);
    failures_come_from_what_is_said(event, error);
}

/// The message of a failure is the one that its error gives. Where it gives none, or none but white
/// space for a risk, the code has a message of its own.
pub proof fn messages_are_told(event: Json, error: Option<Json>)
    requires
        failing(event, error),
    ensures
        failure_of(event) is Some,
        ({
            let message = failure_of(event)->0.message;
            let code = word(error, "code"@);
            let said = word(error, "message"@);
            &&& said is Some && !(code == Some("cyber_policy"@) && blank(said->0)) ==> message
                == said->0
            &&& code == Some("cyber_policy"@) && (said is None || blank(said->0)) ==> message
                == "This request has been flagged for possible cybersecurity risk."@
            &&& said is None && (code == Some("invalid_prompt"@) || code == Some("bio_policy"@))
                ==> message == "Invalid request."@
            &&& said is None && code != Some("cyber_policy"@) && code != Some("invalid_prompt"@)
                && code != Some("bio_policy"@) ==> message == "Upstream error"@
        }),
{
    errors_are_what_is_carried(event, error);
    failures_come_from_what_is_said(event, error);
    reveal_strlit("cyber_policy");
    reveal_strlit("invalid_prompt");
    reveal_strlit("bio_policy");
    assert("cyber_policy"@.len() == 12 && "invalid_prompt"@.len() == 14 && "bio_policy"@.len()
        == 10);
}

/// No attempt follows on an input that is too long or on a code that is final, whatever else the
/// event says.
pub proof fn hopeless_requests_are_final(event: Json, error: Option<Json>)
    requires
        failing(event, error),
        too_long(failure_of(event)->0.message) || hopeless(word(error, "code"@)),
    ensures
        failure_of(event) is Some,
        failure_of(event)->0.kind == CodexFailureKind::Permanent,
        !failure_of(event)->0.retryable(),
{
    errors_are_what_is_carried(event, error);
    failures_come_from_what_is_said(event, error);
}

/// A backend that has too much to do is asked again, whatever status the event carries.
pub proof fn swamped_backends_are_asked_again(event: Json, error: Option<Json>)
    requires
        failing(event, error),
        !too_long(failure_of(event)->0.message),
        swamped(word(error, "code"@)),
    ensures
        failure_of(event) is Some,
        failure_of(event)->0.kind == CodexFailureKind::Overloaded,
        failure_of(event)->0.retryable(),
{
    errors_are_what_is_carried(event, error);
    failures_come_from_what_is_said(event, error);
    reveal_strlit("server_is_overloaded");
    reveal_strlit("slow_down");
    reveal_strlit("context_length_exceeded");
    reveal_strlit("insufficient_quota");
    reveal_strlit("usage_not_included");
    reveal_strlit("cyber_policy");
    reveal_strlit("invalid_prompt");
    reveal_strlit("bio_policy");
    assert("server_is_overloaded"@.len() == 20 && "slow_down"@.len() == 9
        && "context_length_exceeded"@.len() == 23 && "insufficient_quota"@.len() == 18
        && "usage_not_included"@.len() == 18 && "cyber_policy"@.len() == 12
        && "invalid_prompt"@.len() == 14 && "bio_policy"@.len() == 10);
}

/// Whether neither the length of the input nor the code of the error decides what a failure is.
pub open spec fn undecided(failure: Failure, error: Option<Json>) -> bool {
    &&& !too_long(failure.message)
    &&& !hopeless(word(error, "code"@))
    &&& !swamped(word(error, "code"@))
}

/// Where nothing stronger decides, status 429 and talk of a rate limit are a rate limit.
pub proof fn rate_limits_are_recognised(event: Json, error: Option<Json>)
    requires
        failing(event, error),
        undecided(failure_of(event)->0, error),
        failure_of(event)->0.explicit_status == Some(429u16) || contains(
            lower(failure_of(event)->0.message),
            "rate limit"@,
        ),
    ensures
        failure_of(event) is Some,
        failure_of(event)->0.kind == CodexFailureKind::RateLimit,
        failure_of(event)->0.retryable(),
{
    errors_are_what_is_carried(event, error);
    failures_come_from_what_is_said(event, error);
}

/// Whether a failure is a rate limit by its status or its message.
pub open spec fn limited(failure: Failure) -> bool {
    failure.explicit_status == Some(429u16) || contains(lower(failure.message), "rate limit"@)
}

/// Where nothing stronger decides, status 529, an error that is named so and talk of it are an
/// overload.
pub proof fn overloads_are_recognised(event: Json, error: Option<Json>)
    requires
        failing(event, error),
        undecided(failure_of(event)->0, error),
        !limited(failure_of(event)->0),
        failure_of(event)->0.explicit_status == Some(529u16) || word(error, "code"@) == Some(
            "overloaded_error"@,
        ) || word(error, "type"@) == Some("overloaded_error"@) || contains(
            lower(failure_of(event)->0.message),
            "overloaded"@,
        ),
    ensures
        failure_of(event) is Some,
        failure_of(event)->0.kind == CodexFailureKind::Overloaded,
        failure_of(event)->0.retryable(),
{
    errors_are_what_is_carried(event, error);
    failures_come_from_what_is_said(event, error);
}

/// Whether a failure is an overload by its status, its error or its message.
pub open spec fn loaded(failure: Failure, error: Option<Json>) -> bool {
    ||| failure.explicit_status == Some(529u16)
    ||| word(error, "code"@) == Some("overloaded_error"@)
    ||| word(error, "type"@) == Some("overloaded_error"@)
    ||| contains(lower(failure.message), "overloaded"@)
}

/// Where nothing stronger decides, the statuses 500, 502, 503 and 504 pass and are tried again.
pub proof fn server_statuses_pass(event: Json, error: Option<Json>)
    requires
        failing(event, error),
        undecided(failure_of(event)->0, error),
        !limited(failure_of(event)->0),
        !loaded(failure_of(event)->0, error),
        own_number(event, error) == Some(500u64) || own_number(event, error) == Some(502u64)
            || own_number(event, error) == Some(503u64) || own_number(event, error) == Some(504u64),
    ensures
        failure_of(event) is Some,
        failure_of(event)->0.kind == CodexFailureKind::Transient,
        failure_of(event)->0.retryable(),
        failure_of(event)->0.status == own_number(event, error)->0,
{
    errors_are_what_is_carried(event, error);
    failures_come_from_what_is_said(event, error);
    own_statuses_are_told(event, error);
}

/// Where nothing stronger decides, a fault that the server admits by code or type passes and is
/// tried again, whatever status the event carries.
pub proof fn server_faults_pass(event: Json, error: Option<Json>, name: Seq<char>)
    requires
        failing(event, error),
        undecided(failure_of(event)->0, error),
        !limited(failure_of(event)->0),
        !loaded(failure_of(event)->0, error),
        name == "server_error"@ || name == "internal_server_error"@ || name == "internal_error"@,
        word(error, "code"@) == Some(name) || word(error, "type"@) == Some(name),
    ensures
        failure_of(event) is Some,
        failure_of(event)->0.kind == CodexFailureKind::Transient,
        failure_of(event)->0.retryable(),
{
    errors_are_what_is_carried(event, error);
    failures_come_from_what_is_said(event, error);
}

/// Where nothing stronger decides, a message about a passing trouble passes and is tried again, in
/// capital letters or small ones and whatever status the event carries.
pub proof fn passing_troubles_pass(event: Json, error: Option<Json>)
    requires
        failing(event, error),
        undecided(failure_of(event)->0, error),
        !limited(failure_of(event)->0),
        !loaded(failure_of(event)->0, error),
        troubled(lower(failure_of(event)->0.message)),
    ensures
        failure_of(event) is Some,
        failure_of(event)->0.kind == CodexFailureKind::Transient,
        failure_of(event)->0.retryable(),
{
    errors_are_what_is_carried(event, error);
    failures_come_from_what_is_said(event, error);
    troubles_are_phrases(lower(failure_of(event)->0.message));
}

/// Whether nothing in a failure speaks for another attempt: no limit, no overload, no fault of the
/// server and no passing trouble.
pub open spec fn unexplained(failure: Failure, error: Option<Json>) -> bool {
    let status = failure.explicit_status;
    let code = word(error, "code"@);
    let named = word(error, "type"@);
    &&& undecided(failure, error)
    &&& !limited(failure)
    &&& !loaded(failure, error)
    &&& status != Some(500u16) && status != Some(502u16) && status != Some(503u16) && status
        != Some(504u16)
    &&& code != Some("server_error"@) && code != Some("internal_server_error"@) && code != Some(
        "internal_error"@,
    )
    &&& named != Some("server_error"@) && named != Some("internal_server_error"@) && named != Some(
        "internal_error"@,
    )
    &&& !troubled(lower(failure.message))
}

/// What nothing speaks for is final where the event has a status of its own or is an error by its
/// type, and worth another attempt otherwise.
pub proof fn unexplained_failures(event: Json, error: Option<Json>)
    requires
        failing(event, error),
        unexplained(failure_of(event)->0, error),
    ensures
        failure_of(event) is Some,
        failure_of(event)->0.explicit_status is Some || typed(event, "response.error"@) || typed(
            event,
            "error"@,
        ) ==> failure_of(event)->0.kind == CodexFailureKind::Permanent
            && !failure_of(event)->0.retryable(),
        failure_of(event)->0.explicit_status is None && !typed(event, "response.error"@) && !typed(
            event,
            "error"@,
        ) ==> failure_of(event)->0.kind == CodexFailureKind::Transient
            && failure_of(event)->0.retryable(),
{
    errors_are_what_is_carried(event, error);
    failures_come_from_what_is_said(event, error);
    troubles_are_phrases(lower(failure_of(event)->0.message));
}

/// The client sees 413 for an input that is too long, else the status of the event's own, else the
/// status that belongs to the code, and else the one that belongs to the kind.
pub proof fn statuses_for_the_client(event: Json, error: Option<Json>)
    requires
        failing(event, error),
    ensures
        failure_of(event) is Some,
        ({
            let failure = failure_of(event)->0;
            let code = word(error, "code"@);
            let long = too_long(failure.message) || code == Some("context_length_exceeded"@);
            let open = !long && failure.explicit_status is None;
            let refused = code == Some("cyber_policy"@) || code == Some("invalid_prompt"@) || code
                == Some("bio_policy"@);
            let plain = open && !refused && code != Some("insufficient_quota"@) && code != Some(
                "usage_not_included"@,
            );
            &&& long ==> failure.status == 413
            &&& !long && failure.explicit_status is Some ==> failure.status
                == failure.explicit_status->0
            &&& open && refused ==> failure.status == 400
            &&& open && code == Some("insufficient_quota"@) ==> failure.status == 429
            &&& open && code == Some("usage_not_included"@) ==> failure.status == 403
            &&& plain && failure.kind == CodexFailureKind::RateLimit ==> failure.status == 429
            &&& plain && failure.kind == CodexFailureKind::Overloaded ==> failure.status == 529
            &&& plain && failure.kind == CodexFailureKind::Transient ==> failure.status == 503
            &&& plain && failure.kind == CodexFailureKind::Permanent ==> failure.status == 500
        }),
{
    errors_are_what_is_carried(event, error);
    failures_come_from_what_is_said(event, error);
    reveal_strlit("insufficient_quota");
    reveal_strlit("usage_not_included");
    reveal_strlit("cyber_policy");
    reveal_strlit("invalid_prompt");
    reveal_strlit("bio_policy");
    assert("insufficient_quota"@.len() == 18 && "usage_not_included"@.len() == 18
        && "cyber_policy"@.len() == 12 && "invalid_prompt"@.len() == 14 && "bio_policy"@.len()
        == 10);
    assert("insufficient_quota"@[0] != "usage_not_included"@[0]);
}

/// The wait is what the first of five places says: two in the error, one at the top of the event
/// and two spellings of a header.
pub proof fn waits_are_told(event: Json, error: Option<Json>)
    requires
        failing(event, error),
    ensures
        failure_of(event) is Some,
        ({
            let wait = failure_of(event)->0.retry_after;
            let first = writing(inside(error, "retry_after"@));
            let second = writing(inside(error, "retry_after_seconds"@));
            let third = writing(event.get("retry_after_seconds"@));
            let fourth = writing(event.at("headers"@, "retry-after"@));
            let fifth = writing(event.at("headers"@, "Retry-After"@));
            &&& first is Some ==> wait == first
            &&& first is None && second is Some ==> wait == second
            &&& first is None && second is None && third is Some ==> wait == third
            &&& first is None && second is None && third is None && fourth is Some ==> wait
                == fourth
            &&& first is None && second is None && third is None && fourth is None ==> wait == fifth
        }),
{
    errors_are_what_is_carried(event, error);
    failures_come_from_what_is_said(event, error);
}

/// What is returned for an event tells the failure that the event reports, part by part.
pub proof fn failures_are_returned(payload: &JsonValue, failure: Option<CodexEventFailure>)
    requires
        call_ensures(classify_event_failure, (payload,), failure),
    ensures
        failure is Some <==> failure_of(payload@) is Some,
        failure is Some ==> {
            let told = failure_of(payload@)->0;
            &&& failure->0.kind == told.kind
            &&& failure->0.explicit_status == told.explicit_status
            &&& failure->0.status == told.status
            &&& failure->0.message@ == told.message
            &&& failure->0.retry_after is Some <==> told.retry_after is Some
            &&& failure->0.retry_after is Some ==> failure->0.retry_after->0@
                == told.retry_after->0
        },
{
}

/// Every kind but the final one is worth another attempt.
pub proof fn attempts_follow_the_kind(failure: &CodexEventFailure, again: bool)
    requires
        call_ensures(CodexEventFailure::retryable, (failure,), again),
    ensures
        failure.kind == CodexFailureKind::RateLimit ==> again,
        failure.kind == CodexFailureKind::Overloaded ==> again,
        failure.kind == CodexFailureKind::Transient ==> again,
        failure.kind == CodexFailureKind::Permanent ==> !again,
{
}

/// The error type for the client follows the status for the client.
pub proof fn error_types_follow_the_status(
    failure: &CodexEventFailure,
    status: u16,
    name: &'static str,
)
    requires
        call_ensures(CodexEventFailure::client_status, (failure,), status),
        call_ensures(CodexEventFailure::client_error_type, (failure,), name),
    ensures
        status == failure.status,
        name@ == error_type_for(status),
        status == 400 || status == 422 ==> name@ == "invalid_request_error"@,
        status == 401 ==> name@ == "authentication_error"@,
        status == 403 ==> name@ == "permission_error"@,
        status == 413 ==> name@ == "request_too_large"@,
        status == 429 ==> name@ == "rate_limit_error"@,
        status == 529 ==> name@ == "overloaded_error"@,
        status != 400 && status != 422 && status != 401 && status != 403 && status != 413 && status
            != 429 && status != 529 ==> name@ == "api_error"@,
{
}

} // verus!
