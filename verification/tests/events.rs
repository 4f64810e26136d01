use std::time::{Duration, SystemTime};

use codex_events::clock::{after_epoch, from_now};
use codex_events::failure::{
    classify_event_failure, event_error, is_standard_max_output_tokens_incomplete,
    numeric_status, response_is_incomplete_terminal, retryable_message, scalar_string,
    scalar_string_value, CodexEventFailure, CodexFailureKind,
};
use codex_events::json::{from_serde, parse_json, JsonValue};
use codex_events::outcome::{
    first_event_failure, first_failure_in, first_retryable_failure, first_retryable_in,
    rate_limit_snapshots_from_sse, rate_limit_snapshots_in,
};
use codex_events::quota::{
    quota_failure_hint, rate_limit_snapshot, rate_limit_snapshot_with, rate_limit_window,
    rate_limit_window_at, ProviderQuotaWindow,
};
use codex_events::reasoning::PendingReasoning;
use codex_events::stream::{
    classify_stream_event, event_is_success_terminal, event_is_terminal, CodexStreamEventKind,
    CodexStreamForwardingClassifier,
};

fn json(text: &str) -> JsonValue {
    parse_json(text).unwrap()
}

fn failure(text: &str) -> CodexEventFailure {
    classify_event_failure(&json(text)).unwrap()
}

#[test]
fn parses_account_quota_windows_and_credits() {
    let reset_at = 4_102_444_800_u64;
    let payload = format!(
        r#"{{
            "type": "codex.rate_limits",
            "rate_limits": {{
                "limit_reached": false,
                "primary": {{
                    "used_percent": 28.5,
                    "window_minutes": 300,
                    "reset_at": {reset_at}
                }},
                "secondary": {{
                    "used_percent": 59,
                    "window_minutes": 10080,
                    "reset_after_seconds": 3600
                }}
            }},
            "credits": {{
                "has_credits": true,
                "unlimited": false,
                "balance": 12.5
            }}
        }}"#
    );
    let before = SystemTime::now();
    let (windows, limit_reached, credits) = rate_limit_snapshot(&json(&payload)).unwrap();

    assert!(!limit_reached);
    assert_eq!(windows.len(), 2);
    assert_eq!(f64::from_bits(windows[0].used_percent_bits), 28.5);
    assert_eq!(windows[0].window_minutes, 300);
    assert_eq!(
        windows[0].resets_at,
        Some(SystemTime::UNIX_EPOCH + Duration::from_secs(reset_at))
    );
    assert_eq!(f64::from_bits(windows[1].used_percent_bits), 59.0);
    assert_eq!(windows[1].window_minutes, 10_080);
    assert!(windows[1].resets_at.is_some());
    assert!(windows[1].resets_at.unwrap() >= before + Duration::from_secs(3600));
    assert_eq!(credits.has_credits, Some(true));
    assert_eq!(credits.unlimited, Some(false));
    assert_eq!(credits.balance_bits.map(f64::from_bits), Some(12.5));
}

#[test]
fn ignores_non_quota_and_incomplete_windows() {
    assert!(rate_limit_snapshot(&json(r#"{"type": "keepalive"}"#)).is_none());
    assert!(rate_limit_snapshot(&json(
        r#"{
            "type": "codex.rate_limits",
            "rate_limits": {
                "primary": {"used_percent": 25},
                "secondary": {"window_minutes": 10080}
            }
        }"#
    ))
    .is_none());
}

#[test]
fn ignores_invalid_reset_durations_without_panicking() {
    let window = rate_limit_window(&json(
        r#"{
            "used_percent": 25,
            "window_minutes": 300,
            "reset_after_seconds": 1e300
        }"#,
    ))
    .unwrap();

    assert_eq!(window.resets_at, None);
}

#[test]
fn classifies_retryable_failure_kinds() {
    let overload = failure(
        r#"{
            "type": "response.failed",
            "response": {"error": {"type": "overloaded_error", "message": "busy"}}
        }"#,
    );
    assert_eq!(overload.status, 529);
    assert!(overload.retryable());
}

#[test]
fn rate_limit_snapshots_are_telemetry_with_terminal_fallback_hints() {
    let exhausted = json(
        r#"{
            "type": "codex.rate_limits",
            "rate_limits": {
                "limit_reached": true,
                "primary": {"reset_after_seconds": 518773}
            },
            "credits": {"has_credits": false, "unlimited": false}
        }"#,
    );
    assert!(classify_event_failure(&exhausted).is_none());
    let hint = quota_failure_hint(&exhausted).unwrap();
    assert_eq!(hint.status, 429);
    assert_eq!(hint.retry_after.as_deref(), Some("518773"));

    let legacy_exhausted = json(
        r#"{
            "type": "codex.rate_limits",
            "rate_limits": {"limit_reached": true}
        }"#,
    );
    assert!(quota_failure_hint(&legacy_exhausted).is_some());

    for usable in [
        r#"{
            "type": "codex.rate_limits",
            "rate_limits": {"limit_reached": true},
            "credits": {"has_credits": true, "unlimited": false}
        }"#,
        r#"{
            "type": "codex.rate_limits",
            "rate_limits": {"limit_reached": true},
            "credits": {"has_credits": false, "unlimited": true}
        }"#,
        r#"{
            "type": "codex.rate_limits",
            "rate_limits": {"limit_reached": false}
        }"#,
    ] {
        let usable = json(usable);
        assert!(classify_event_failure(&usable).is_none());
        assert!(quota_failure_hint(&usable).is_none());
    }
}

#[test]
fn buffered_quota_hint_applies_only_without_terminal_event() {
    let snapshot = "data: {\"type\":\"codex.rate_limits\",\"rate_limits\":{\"limit_reached\":true,\"primary\":{\"reset_after_seconds\":31}},\"credits\":{\"has_credits\":false,\"unlimited\":false}}\n\n";
    let hint = first_retryable_failure(snapshot.as_bytes()).unwrap();
    assert_eq!(hint.status, 429);
    assert_eq!(hint.retry_after.as_deref(), Some("31"));

    let completed = format!(
        "{snapshot}data: {{\"type\":\"response.completed\",\"response\":{{\"status\":\"completed\"}}}}\n\n"
    );
    assert!(first_retryable_failure(completed.as_bytes()).is_none());
}

#[test]
fn ignores_informational_and_permanent_events() {
    assert!(classify_event_failure(&json(
        r#"{
            "type": "codex.rate_limits",
            "rate_limits": {"limit_reached": false}
        }"#
    ))
    .is_none());
    let failure = failure(
        r#"{
            "type": "error",
            "error": {"status": 400, "message": "bad request"}
        }"#,
    );
    assert!(!failure.retryable());
}

#[test]
fn forwarding_classifier_commits_signature_only_reasoning() {
    let mut classifier = CodexStreamForwardingClassifier::default();
    assert_eq!(
        classifier.classify(&json(
            r#"{
                "type": "response.output_item.added",
                "output_index": 0,
                "item": {
                    "type": "reasoning",
                    "id": "rs_1",
                    "encrypted_content": "opaque"
                }
            }"#
        )),
        CodexStreamEventKind::Structure
    );
    assert_eq!(
        classifier.classify(&json(
            r#"{
                "type": "response.output_item.done",
                "output_index": 0,
                "item": {"type": "reasoning", "id": "rs_1"}
            }"#
        )),
        CodexStreamEventKind::Semantic
    );
}

#[test]
fn forwarding_classifier_keeps_unencodable_reasoning_structural() {
    let mut classifier = CodexStreamForwardingClassifier::default();
    assert_eq!(
        classifier.classify(&json(
            r#"{
                "type": "response.output_item.added",
                "output_index": 0,
                "item": {"type": "reasoning", "id": "rs_1"}
            }"#
        )),
        CodexStreamEventKind::Structure
    );
    assert_eq!(
        classifier.classify(&json(
            r#"{
                "type": "response.output_item.done",
                "output_index": 0,
                "item": {"type": "reasoning", "id": "rs_1"}
            }"#
        )),
        CodexStreamEventKind::Structure
    );
}

#[test]
fn forwarding_classifier_buffers_hosted_search_until_terminal() {
    let mut classifier = CodexStreamForwardingClassifier::default();
    assert_eq!(
        classifier.classify(&json(
            r#"{
                "type": "response.output_item.done",
                "item": {"type": "web_search_call", "id": "ws_1"}
            }"#
        )),
        CodexStreamEventKind::Structure
    );
    assert_eq!(
        classifier.classify(&json(
            r#"{
                "type": "response.output_text.delta",
                "delta": "deferred answer"
            }"#
        )),
        CodexStreamEventKind::Structure
    );
    assert_eq!(
        classifier.classify(&json(
            r#"{
                "type": "response.completed",
                "response": {"status": "completed"}
            }"#
        )),
        CodexStreamEventKind::TerminalSuccess
    );
}

#[test]
fn forwarding_classifier_commits_after_a_recovery_anchor_opens() {
    let mut classifier = CodexStreamForwardingClassifier::default();
    assert_eq!(
        classifier.classify(&json(
            r#"{
                "type": "response.output_item.done",
                "item": {"type": "web_search_call", "id": "ws_1"}
            }"#
        )),
        CodexStreamEventKind::Structure
    );
    assert_eq!(
        classifier.classify(&json(
            r#"{
                "type": "response.reasoning_summary_text.delta",
                "delta": "plan"
            }"#
        )),
        CodexStreamEventKind::Semantic
    );
    assert_eq!(
        classifier.classify(&json(
            r#"{
                "type": "response.output_text.delta",
                "delta": "deferred answer"
            }"#
        )),
        CodexStreamEventKind::Semantic
    );
}

#[test]
fn classifies_progress_and_terminal_semantics() {
    assert_eq!(
        classify_stream_event(&json(r#"{"type":"response.created"}"#)),
        CodexStreamEventKind::Control
    );
    assert_eq!(
        classify_stream_event(&json(
            r#"{
                "type":"response.output_item.added",
                "item":{"type":"function_call"}
            }"#
        )),
        CodexStreamEventKind::Structure
    );
    assert_eq!(
        classify_stream_event(&json(
            r#"{
                "type":"response.function_call_arguments.delta",
                "delta":"{}"
            }"#
        )),
        CodexStreamEventKind::Semantic
    );
    assert_eq!(
        classify_stream_event(&json(r#"{"type":"response.incomplete"}"#)),
        CodexStreamEventKind::TerminalFailure
    );
    assert_eq!(
        classify_stream_event(&json(
            r#"{
                "type":"response.completed",
                "error": null,
                "response": {
                    "status":"failed",
                    "error":{"status":400,"code":"invalid_prompt","message":"rejected"}
                }
            }"#
        )),
        CodexStreamEventKind::TerminalFailure
    );
}

#[test]
fn nested_response_error_survives_null_top_level_error() {
    let failure = failure(
        r#"{
            "type":"response.completed",
            "error": null,
            "response": {
                "status":"failed",
                "error":{"status":400,"code":"invalid_prompt","message":"nested rejection"}
            }
        }"#,
    );
    assert_eq!(failure.client_status(), 400);
    assert_eq!(failure.client_error_type(), "invalid_request_error");
    assert_eq!(failure.message, "nested rejection");
    assert!(!failure.retryable());
}

#[test]
fn completed_event_with_nested_error_is_not_success() {
    let payload = json(
        r#"{
            "type":"response.completed",
            "error": null,
            "response": {
                "status":"completed",
                "error":{"status":502,"code":"server_error","message":"late failure"}
            }
        }"#,
    );
    let failure = classify_event_failure(&payload).unwrap();
    assert_eq!(failure.client_status(), 502);
    assert!(failure.retryable());
    assert_eq!(
        classify_stream_event(&payload),
        CodexStreamEventKind::TerminalFailure
    );
}

#[test]
fn completed_event_with_nested_null_error_is_success() {
    let payload = json(
        r#"{
            "type":"response.completed",
            "error": null,
            "response": {"status":"completed", "error":null}
        }"#,
    );
    assert!(classify_event_failure(&payload).is_none());
    assert_eq!(
        classify_stream_event(&payload),
        CodexStreamEventKind::TerminalSuccess
    );
}

#[test]
fn native_fatal_codes_are_not_retried_without_numeric_status() {
    for (code, status, error_type) in [
        ("context_length_exceeded", 413, "request_too_large"),
        ("cyber_policy", 400, "invalid_request_error"),
        ("invalid_prompt", 400, "invalid_request_error"),
        ("bio_policy", 400, "invalid_request_error"),
        ("insufficient_quota", 429, "rate_limit_error"),
        ("usage_not_included", 403, "permission_error"),
    ] {
        let failure = failure(&format!(
            r#"{{
                "type":"response.failed",
                "response":{{"status":"failed","error":{{"code":"{code}","message":"rejected"}}}}
            }}"#
        ));
        assert!(!failure.retryable(), "{code}");
        assert_eq!(failure.client_status(), status, "{code}");
        assert_eq!(failure.client_error_type(), error_type, "{code}");
    }
}

#[test]
fn native_overload_codes_remain_retryable_without_numeric_status() {
    for code in ["server_is_overloaded", "slow_down"] {
        let failure = failure(&format!(
            r#"{{
                "type":"response.failed",
                "response":{{"status":"failed","error":{{"code":"{code}","message":"busy"}}}}
            }}"#
        ));
        assert!(failure.retryable(), "{code}");
        assert_eq!(failure.client_status(), 529, "{code}");
        assert_eq!(failure.client_error_type(), "overloaded_error", "{code}");
    }
}

#[test]
fn context_window_message_overrides_generic_upstream_400() {
    let failure = failure(
        r#"{
            "type":"error",
            "status":400,
            "error":{"type":"invalid_request_error","message":"input exceeds context window"}
        }"#,
    );
    assert!(!failure.retryable());
    assert_eq!(failure.explicit_status, Some(400));
    assert_eq!(failure.client_status(), 413);
    assert_eq!(failure.client_error_type(), "request_too_large");
}

#[test]
fn incomplete_policy_only_accepts_consistent_max_output_terminal() {
    let allowed = json(
        r#"{
            "type":"response.incomplete",
            "response": {
                "status":"incomplete",
                "error":null,
                "incomplete_details":{"reason":"max_output_tokens"}
            }
        }"#,
    );
    assert!(response_is_incomplete_terminal(&allowed));
    assert!(is_standard_max_output_tokens_incomplete(&allowed));
    let allowed_without_status = json(
        r#"{
            "type":"response.incomplete",
            "response": {
                "incomplete_details":{"reason":"max_output_tokens"}
            }
        }"#,
    );
    assert!(is_standard_max_output_tokens_incomplete(
        &allowed_without_status
    ));

    for rejected in [
        r#"{
            "type":"response.incomplete",
            "response":{"status":"incomplete","incomplete_details":{"reason":"content_filter"}}
        }"#,
        r#"{
            "type":"response.incomplete",
            "response":{"status":"incomplete","incomplete_details":{}}
        }"#,
        r#"{
            "type":"response.completed",
            "response":{"status":"completed","incomplete_details":{"reason":"max_output_tokens"}}
        }"#,
        r#"{
            "type":"response.incomplete",
            "response":{"status":null,"incomplete_details":{"reason":"max_output_tokens"}}
        }"#,
        r#"{
            "type":"response.incomplete",
            "response":{"status":123,"incomplete_details":{"reason":"max_output_tokens"}}
        }"#,
        r#"{
            "type":"response.incomplete",
            "response":{"status":"completed","incomplete_details":{"reason":"max_output_tokens"}}
        }"#,
        r#"{
            "type":"response.completed",
            "response":{"status":"completed","incomplete_details":{}}
        }"#,
    ] {
        let rejected = json(rejected);
        assert!(response_is_incomplete_terminal(&rejected));
        assert!(!is_standard_max_output_tokens_incomplete(&rejected));
        assert!(classify_event_failure(&rejected).is_some());
    }
}

#[test]
fn incomplete_responses_name_their_reason() {
    let named = failure(
        r#"{"type":"response.done","response":{"incomplete_details":{"reason":"content_filter"}}}"#,
    );
    assert_eq!(
        named.message,
        "Incomplete response returned, reason: content_filter"
    );
    assert_eq!(named.kind, CodexFailureKind::Transient);
    assert_eq!(named.explicit_status, None);
    assert_eq!(named.status, 503);
    assert_eq!(named.retry_after, None);
    let unnamed = failure(r#"{"type":"response.incomplete"}"#);
    assert_eq!(
        unnamed.message,
        "Incomplete response returned, reason: unknown"
    );
}

#[test]
fn messages_follow_code_and_text() {
    let flagged = "This request has been flagged for possible cybersecurity risk.";
    for (error, expected) in [
        (r#"{"code":"cyber_policy"}"#, flagged),
        (r#"{"code":"cyber_policy","message":""}"#, flagged),
        (r#"{"code":"cyber_policy","message":" \t \n"}"#, flagged),
        (r#"{"code":"cyber_policy","message":" no "}"#, " no "),
        (r#"{"code":"invalid_prompt"}"#, "Invalid request."),
        (r#"{"code":"bio_policy"}"#, "Invalid request."),
        (r#"{"code":"bio_policy","message":""}"#, ""),
        (r#"{}"#, "Upstream error"),
        (r#"{"message":17}"#, "Upstream error"),
    ] {
        let failure = failure(&format!(r#"{{"type":"error","error":{error}}}"#));
        assert_eq!(failure.message, expected, "{error}");
    }
}

#[test]
fn kinds_follow_the_first_rule_that_applies() {
    let rate_limit = CodexFailureKind::RateLimit;
    let overloaded = CodexFailureKind::Overloaded;
    let transient = CodexFailureKind::Transient;
    let permanent = CodexFailureKind::Permanent;
    for (payload, kind, status) in [
        (r#"{"type":"error","status":429,"error":{"message":"x"}}"#, rate_limit.clone(), 429),
        (r#"{"type":"error","error":{"message":"Rate Limit hit"}}"#, rate_limit.clone(), 429),
        (r#"{"type":"error","status_code":529,"error":{"message":"x"}}"#, overloaded.clone(), 529),
        (r#"{"type":"error","error":{"code":"overloaded_error"}}"#, overloaded.clone(), 529),
        (r#"{"type":"error","error":{"message":"OVERLOADED now"}}"#, overloaded.clone(), 529),
        (r#"{"type":"error","error":{"status":504}}"#, transient.clone(), 504),
        (r#"{"type":"error","error":{"code":"internal_error"}}"#, transient.clone(), 503),
        (r#"{"type":"error","error":{"type":"server_error"}}"#, transient.clone(), 503),
        (r#"{"type":"error","error":{"message":"Connection RESET by peer"}}"#, transient.clone(), 503),
        (r#"{"type":"error","error":{"status":418}}"#, permanent.clone(), 418),
        (r#"{"type":"response.error"}"#, permanent.clone(), 500),
        (r#"{"type":"response.failed"}"#, transient.clone(), 503),
        (r#"{"type":"other","response":{"status":"failed"}}"#, transient.clone(), 503),
        (r#"{"type":"error","status":70000,"error":{"status":429}}"#, permanent.clone(), 500),
        (
            r#"{"type":"error","status":500,"error":{"message":"Context Length Exceeded"}}"#,
            permanent.clone(),
            413,
        ),
    ] {
        let failure = failure(payload);
        assert_eq!(failure.kind, kind, "{payload}");
        assert_eq!(failure.status, status, "{payload}");
    }
}

#[test]
fn waits_come_from_the_first_place_that_has_one() {
    for (payload, expected) in [
        (
            r#"{"type":"error","retry_after_seconds":3,"error":{"retry_after":"1","retry_after_seconds":2}}"#,
            Some("1"),
        ),
        (
            r#"{"type":"error","retry_after_seconds":3,"error":{"retry_after":null,"retry_after_seconds":2.5}}"#,
            Some("2.5"),
        ),
        (
            r#"{"type":"error","retry_after_seconds":3,"headers":{"retry-after":"4"}}"#,
            Some("3"),
        ),
        (
            r#"{"type":"error","headers":{"retry-after":"4","Retry-After":"5"}}"#,
            Some("4"),
        ),
        (r#"{"type":"error","headers":{"Retry-After":"5"}}"#, Some("5")),
        (r#"{"type":"error","headers":{"Retry-After":[5]}}"#, None),
    ] {
        assert_eq!(failure(payload).retry_after.as_deref(), expected, "{payload}");
    }
}

#[test]
fn events_without_a_failure_report_none() {
    for payload in [
        r#"{"error":{"message":"no type"}}"#,
        r#"{"type":7,"error":{"message":"type is no text"}}"#,
        r#"{"type":"response.completed"}"#,
        r#"{"type":"response.created","error":null}"#,
        r#"[]"#,
        r#"null"#,
        r#""error""#,
    ] {
        assert!(classify_event_failure(&json(payload)).is_none(), "{payload}");
    }
}

#[test]
fn client_error_types_follow_the_status() {
    for (status, expected) in [
        (400, "invalid_request_error"),
        (422, "invalid_request_error"),
        (401, "authentication_error"),
        (403, "permission_error"),
        (413, "request_too_large"),
        (429, "rate_limit_error"),
        (529, "overloaded_error"),
        (500, "api_error"),
        (200, "api_error"),
    ] {
        let failure = CodexEventFailure {
            kind: CodexFailureKind::Permanent,
            explicit_status: None,
            status,
            message: String::new(),
            retry_after: None,
        };
        assert_eq!(failure.client_error_type(), expected);
        assert_eq!(failure.client_status(), status);
    }
}

#[test]
fn errors_statuses_and_scalars_are_found() {
    let event = json(r#"{"error":null,"response":{"error":{"code":"x"}},"status":"no","status_code":9}"#);
    assert_eq!(event_error(&event), Some(&json(r#"{"code":"x"}"#)));
    assert_eq!(numeric_status(&event), Some(9));
    assert_eq!(numeric_status(&json(r#"{"status":-1}"#)), None);
    assert_eq!(event_error(&json(r#"{"response":{"error":null}}"#)), None);
    assert_eq!(scalar_string(None), None);
    assert_eq!(scalar_string(Some(&json("true"))), None);
    assert_eq!(scalar_string_value(&json("-12")).as_deref(), Some("-12"));
    assert_eq!(scalar_string_value(&json(r#""12 s""#)).as_deref(), Some("12 s"));
}

#[test]
fn passing_troubles_are_recognised_in_lower_case() {
    assert!(retryable_message("the socket connection was closed unexpectedly."));
    assert!(retryable_message("timeout"));
    assert!(retryable_message("unexpected eof"));
    assert!(!retryable_message("Timeout"));
    assert!(!retryable_message("time out"));
    assert!(!retryable_message(""));
}

#[test]
fn stream_kinds_of_single_events() {
    for (payload, kind) in [
        (r#"{"type":"keepalive"}"#, CodexStreamEventKind::Control),
        (r#"{"type":"codex.rate_limits"}"#, CodexStreamEventKind::Control),
        (
            r#"{"type":"response.web_search_call.searching"}"#,
            CodexStreamEventKind::Control,
        ),
        (
            r#"{"type":"response.output_text.delta","delta":""}"#,
            CodexStreamEventKind::Structure,
        ),
        (
            r#"{"type":"response.output_text.delta"}"#,
            CodexStreamEventKind::Structure,
        ),
        (
            r#"{"type":"response.output_item.done","item":{"type":"function_call"}}"#,
            CodexStreamEventKind::Semantic,
        ),
        (
            r#"{"type":"response.output_item.done","item":{"type":"message"}}"#,
            CodexStreamEventKind::Structure,
        ),
        (r#"{"type":"response.done"}"#, CodexStreamEventKind::TerminalSuccess),
        (r#"{}"#, CodexStreamEventKind::Structure),
    ] {
        let event = json(payload);
        assert_eq!(classify_stream_event(&event), kind, "{payload}");
        assert_eq!(
            event_is_success_terminal(&event),
            kind == CodexStreamEventKind::TerminalSuccess
        );
        assert_eq!(event_is_terminal(&event), event_is_success_terminal(&event));
    }
    assert!(event_is_terminal(&json(r#"{"type":"response.failed"}"#)));
    assert!(!event_is_success_terminal(&json(r#"{"type":"response.failed"}"#)));
}

#[test]
fn forwarding_classifier_starts_afresh_after_an_end() {
    let search =
        json(r#"{"type":"response.output_item.done","item":{"type":"web_search_call"}}"#);
    let text = json(r#"{"type":"response.output_text.delta","delta":"x"}"#);
    let added = json(
        r#"{"type":"response.output_item.added","item":{"type":"reasoning","id":"a","encrypted_content":"b"}}"#,
    );
    let done = json(r#"{"type":"response.output_item.done","item":{"type":"reasoning"}}"#);
    let failed = json(r#"{"type":"response.failed"}"#);
    let mut classifier = CodexStreamForwardingClassifier::default();
    assert_eq!(classifier.classify(&search), CodexStreamEventKind::Structure);
    assert_eq!(classifier.classify(&added), CodexStreamEventKind::Structure);
    assert!(classifier.signature_ready(&done));
    assert_eq!(classifier.classify(&failed), CodexStreamEventKind::TerminalFailure);
    assert!(!classifier.signature_ready(&done));
    assert_eq!(classifier.classify(&text), CodexStreamEventKind::Semantic);
    assert_eq!(classifier.classify(&done), CodexStreamEventKind::Structure);
}

#[test]
fn forwarding_classifier_keeps_items_apart_and_takes_the_answer_of_the_encoder() {
    let added = json(
        r#"{"type":"response.output_item.added","output_index":2,"item":{"type":"reasoning","id":"a","encrypted_content":"b"}}"#,
    );
    let other = json(
        r#"{"type":"response.output_item.done","output_index":3,"item":{"type":"reasoning","id":"a"}}"#,
    );
    let done = json(
        r#"{"type":"response.output_item.done","output_index":2,"item":{"type":"reasoning"}}"#,
    );
    let mut classifier = CodexStreamForwardingClassifier::default();
    classifier.classify(&added);
    assert_eq!(classifier.classify(&other), CodexStreamEventKind::Structure);
    assert!(classifier.signature_ready(&done));
    assert_eq!(
        classifier.classify_with(&done, false),
        CodexStreamEventKind::Structure
    );
    assert!(!classifier.signature_ready(&done));
    assert_eq!(
        classifier.classify_with(&done, true),
        CodexStreamEventKind::Semantic
    );
}

#[test]
fn reasoning_is_put_together_over_events() {
    let mut pending = PendingReasoning::new();
    assert!(pending.replay().is_none());
    pending.capture(&json(r#"{"encrypted_content":"old"}"#));
    assert!(pending.replay().is_none());
    pending.capture(&json(r#"{"id":"rs","encrypted_content":"new"}"#));
    pending.capture(&json(r#"{"id":null}"#));
    let replay = pending.replay().unwrap();
    assert_eq!(replay.id, "rs");
    assert_eq!(replay.encrypted_content, "new");
}

#[test]
fn outcomes_follow_the_first_end() {
    let snapshot = |reached: bool| {
        format!(r#"{{"type":"codex.rate_limits","rate_limits":{{"limit_reached":{reached}}}}}"#)
    };
    let parse = |texts: &[&str]| texts.iter().map(|text| json(text)).collect::<Vec<_>>();
    let exhausted = snapshot(true);
    let usable = snapshot(false);
    let busy = r#"{"type":"response.failed","error":{"code":"slow_down"}}"#;
    let refused = r#"{"type":"response.failed","error":{"code":"bio_policy"}}"#;
    let success = r#"{"type":"response.completed"}"#;

    assert!(first_retryable_in(&Vec::new()).is_none());
    assert_eq!(
        first_retryable_in(&parse(&[&usable, &exhausted])).unwrap().message,
        "rate limit reached"
    );
    assert!(first_retryable_in(&parse(&[&exhausted, &usable])).is_none());
    assert_eq!(
        first_retryable_in(&parse(&[&exhausted, busy, success])).unwrap().status,
        529
    );
    assert!(first_retryable_in(&parse(&[refused, busy])).is_none());
    assert!(first_retryable_in(&parse(&[success, busy])).is_none());
    assert_eq!(
        first_failure_in(&parse(&[success, refused, busy])).unwrap().status,
        400
    );
    assert!(first_failure_in(&parse(&[&exhausted, success])).is_none());
}

#[test]
fn bodies_are_read_past_what_is_no_document() {
    let body = b"data: [DONE]\n\n: note\ndata: not json\n\nevent: x\r\ndata: {\"type\":\r\ndata:\"response.failed\"}\r\n\r\n";
    let failure = first_event_failure(body).unwrap();
    assert_eq!(failure.kind, CodexFailureKind::Transient);
    assert_eq!(first_retryable_failure(body), Some(failure));
    assert!(first_event_failure(b"data: {\"type\":\"response.failed\"}\n").is_none());
    assert!(first_event_failure(b"").is_none());
}

#[test]
fn snapshots_of_a_body_come_in_order() {
    let window = |minutes: u64| {
        format!(
            "data: {{\"type\":\"codex.rate_limits\",\"rate_limits\":{{\"secondary\":{{\"used_percent\":1,\"window_minutes\":{minutes}}}}}}}\n\n"
        )
    };
    let body = format!(
        "{}data: {{\"type\":\"keepalive\"}}\n\n{}data: [DONE]\n\n",
        window(5),
        window(7)
    );
    let snapshots = rate_limit_snapshots_from_sse(body.as_bytes());
    assert_eq!(snapshots.len(), 2);
    assert_eq!(snapshots[0].0[0].window_minutes, 5);
    assert_eq!(snapshots[1].0[0].window_minutes, 7);
    assert_eq!(snapshots[1].0[0].resets_at, None);
    assert_eq!(snapshots[1].2.has_credits, None);
    assert!(rate_limit_snapshots_in(&vec![json("{}")]).is_empty());
}

#[test]
fn resets_prefer_the_calendar() {
    let at = SystemTime::UNIX_EPOCH + Duration::from_secs(10);
    let later = SystemTime::UNIX_EPOCH + Duration::from_secs(20);
    let window = json(r#"{"used_percent":0.5,"window_minutes":1}"#);
    let read = |scheduled, relative| rate_limit_window_at(&window, scheduled, relative).unwrap();
    assert_eq!(read(Some(at), Some(later)).resets_at, Some(at));
    assert_eq!(read(None, Some(later)).resets_at, Some(later));
    assert_eq!(read(None, None).resets_at, None);
    assert!(rate_limit_window_at(&json(r#"{"used_percent":"1","window_minutes":1}"#), None, None).is_none());
    assert!(rate_limit_window(&json(r#"{"used_percent":1,"window_minutes":1.5}"#)).is_none());
    assert_eq!(
        rate_limit_window(&json(r#"{"used_percent":1,"window_minutes":1,"reset_after_seconds":-1}"#))
            .unwrap()
            .resets_at,
        None
    );
    assert_eq!(
        rate_limit_window(&json(r#"{"used_percent":1,"window_minutes":1,"reset_after_seconds":"60"}"#))
            .unwrap()
            .resets_at,
        None
    );
}

#[test]
fn a_wait_of_a_quarter_second_is_one() {
    let before = SystemTime::now();
    let window = rate_limit_window(&json(
        r#"{"used_percent":1,"window_minutes":1,"reset_after_seconds":0.25}"#,
    ))
    .unwrap();
    let after = SystemTime::now();
    let resets_at = window.resets_at.unwrap();
    assert!(resets_at >= before + Duration::from_millis(250));
    assert!(resets_at <= after + Duration::from_millis(250));
}

#[test]
fn snapshots_hold_the_windows_that_are_there() {
    let event = json(
        r#"{"type":"codex.rate_limits","rate_limits":{"limit_reached":true},"credits":{"balance":0.25}}"#,
    );
    let window = ProviderQuotaWindow {
        used_percent_bits: 1,
        window_minutes: 2,
        resets_at: None,
    };
    let (windows, reached, credits) =
        rate_limit_snapshot_with(&event, None, Some(window.clone())).unwrap();
    assert_eq!(windows, vec![window.clone()]);
    assert!(reached);
    assert_eq!(credits.balance_bits.map(f64::from_bits), Some(0.25));
    assert!(rate_limit_snapshot_with(&event, None, None).is_none());
    assert!(rate_limit_snapshot_with(&json("{}"), Some(window), None).is_none());
}

#[test]
fn documents_become_trees() {
    let text = r#"{"b":[1,-2,2.5,1e3,18446744073709551616],"a":{"x":"y","n":null,"t":true},"a2":false}"#;
    let tree = json(text);
    assert_eq!(
        from_serde(serde_json::from_str::<serde_json::Value>(text).unwrap()),
        tree
    );
    assert_eq!(tree.at("a", "x"), Some(&JsonValue::Text("y".to_string())));
    assert!(tree.at("a", "n").unwrap().is_null());
    assert_eq!(tree.at("a", "missing"), None);
    assert_eq!(tree.at("b", "x"), None);
    assert_eq!(tree.get("a2"), Some(&JsonValue::Bool(false)));
    let numbers = match tree.get("b") {
        Some(JsonValue::Array(values)) => values,
        _ => panic!("an array was expected"),
    };
    let read = |i: usize| match &numbers[i] {
        JsonValue::Number(number) => (
            number.text.as_str(),
            number.unsigned,
            number.double_bits.map(f64::from_bits),
        ),
        _ => panic!("a number was expected"),
    };
    assert_eq!(read(0), ("1", Some(1), Some(1.0)));
    assert_eq!(read(1), ("-2", None, Some(-2.0)));
    assert_eq!(read(2), ("2.5", None, Some(2.5)));
    assert_eq!(read(3), ("1000.0", None, Some(1000.0)));
    assert_eq!(read(4).1, None);
    assert_eq!(parse_json(r#"{"a":1,"a":2}"#), parse_json(r#"{"a":2}"#));
    assert_eq!(parse_json("{"), None);
    assert_eq!(parse_json("1 2"), None);
}

#[test]
fn a_pause_lasts_over_events_without_content() {
    let mut classifier = CodexStreamForwardingClassifier::default();
    let text = json(r#"{"type":"response.output_text.delta","delta":"x"}"#);
    let search =
        json(r#"{"type":"response.output_item.done","item":{"type":"web_search_call"}}"#);
    let added = json(
        r#"{"type":"response.output_item.added","item":{"type":"reasoning","encrypted_content":"b"}}"#,
    );
    let done = json(r#"{"type":"response.output_item.done","item":{"type":"reasoning","id":"a"}}"#);
    assert_eq!(classifier.classify(&text), CodexStreamEventKind::Semantic);
    assert_eq!(classifier.classify(&search), CodexStreamEventKind::Structure);
    assert_eq!(
        classifier.classify(&json(r#"{"type":"keepalive"}"#)),
        CodexStreamEventKind::Control
    );
    assert_eq!(classifier.classify(&added), CodexStreamEventKind::Structure);
    assert_eq!(classifier.classify(&text), CodexStreamEventKind::Structure);
    assert_eq!(classifier.classify(&done), CodexStreamEventKind::Semantic);
    assert_eq!(classifier.classify(&text), CodexStreamEventKind::Semantic);
}

#[test]
fn every_machine_holds_the_epoch_and_the_present() {
    assert_eq!(after_epoch(0), Some(SystemTime::UNIX_EPOCH));
    assert_eq!(
        after_epoch(90),
        Some(SystemTime::UNIX_EPOCH + Duration::from_secs(90))
    );
    let before = SystemTime::now();
    let present = from_now(Duration::from_secs(0)).unwrap();
    assert!(before <= present && present <= SystemTime::now());
    let ahead = from_now(Duration::from_secs(90)).unwrap();
    assert!(ahead >= present + Duration::from_secs(90));
    assert_eq!(from_now(Duration::MAX), None);
}

#[test]
fn the_calendar_comes_before_the_clock() {
    let read = |text: &str| rate_limit_window(&json(text)).unwrap().resets_at;
    assert_eq!(
        read(r#"{"used_percent":1,"window_minutes":1,"reset_at":0,"reset_after_seconds":60}"#),
        Some(SystemTime::UNIX_EPOCH)
    );
    assert_eq!(
        read(r#"{"used_percent":1,"window_minutes":1,"reset_at":90,"reset_after_seconds":60}"#),
        Some(SystemTime::UNIX_EPOCH + Duration::from_secs(90))
    );
    let before = SystemTime::now();
    let by_clock = read(
        r#"{"used_percent":1,"window_minutes":1,"reset_at":18446744073709551615,"reset_after_seconds":60}"#,
    )
    .unwrap();
    assert!(by_clock >= before + Duration::from_secs(60));
    assert!(by_clock <= SystemTime::now() + Duration::from_secs(60));
    assert_eq!(read(r#"{"used_percent":1,"window_minutes":1}"#), None);
}
