use orosu::api::envelopes::{
    FileChunkRequestEnvelope, RequestEnvelope, ResponseEnvelope, TaskEventResponseEnvelope,
};
use orosu::api::file_chunk::FileChunk;
use orosu::api::{
    FileAttachment, ServerErrorResponse, ServerTaskNotification, StartTaskRequest,
    TaskLaunchStatus,
};
use orosu::json::to_json;
use orosu::tasks::{TaskOutput, Timestamp, Timestamped};
use serde_json::Value;

fn json(text: &str) -> Value {
    serde_json::from_str(text).unwrap()
}

fn value_of(bytes: &[u8]) -> Value {
    serde_json::from_slice(bytes).unwrap()
}

#[test]
fn request_envelope_wraps_body_and_round_trips_through_bytes() {
    let envelope = RequestEnvelope {
        body: "hello".to_string(),
    };
    let bytes = envelope.into_bytes();
    assert_eq!(value_of(&bytes), json(r#"{"body": "hello"}"#));
    assert_eq!(value_of(&bytes)["body"], "hello");
}

#[test]
fn response_envelope_success_round_trips_through_bytes() {
    let envelope: ResponseEnvelope<i32, String> = ResponseEnvelope::Success { body: 42 };
    let bytes = envelope.into_bytes();
    assert_eq!(value_of(&bytes), json(r#"{"success": {"body": 42}}"#));
    assert_eq!(value_of(&bytes)["success"]["body"], 42);
}

#[test]
fn response_envelope_failure_round_trips_through_bytes() {
    let envelope: ResponseEnvelope<i32, String> = ResponseEnvelope::Failure {
        error: "oops".to_string(),
    };
    let bytes = envelope.into_bytes();
    assert_eq!(value_of(&bytes), json(r#"{"failure": {"error": "oops"}}"#));
}

#[test]
fn file_chunk_request_envelope_type_alias_round_trips() {
    let chunk = FileChunk {
        offset: 16,
        data: vec![1, 2, 3],
    };
    let envelope = FileChunkRequestEnvelope { body: chunk };
    let bytes = envelope.into_bytes();
    assert_eq!(
        value_of(&bytes),
        json(r#"{"body": {"offset": 16, "data": [1, 2, 3]}}"#)
    );
}

#[test]
fn start_task_request_serializes_with_renamed_fields() {
    let request = StartTaskRequest {
        script_name: "deploy".to_string(),
        arguments: vec!["a".to_string(), "b".to_string()],
        file: None,
    };
    assert_eq!(
        json(&to_json(&request)),
        json(r#"{"script": "deploy", "args": ["a", "b"], "file": null}"#)
    );
}

#[test]
fn start_task_request_with_file_attachment_serializes_hash_as_int_array_not_base64() {
    let request = StartTaskRequest {
        script_name: "deploy".to_string(),
        arguments: vec![],
        file: Some(FileAttachment {
            hash: vec![1, 2, 3],
            size: 42,
        }),
    };
    assert_eq!(
        json(&to_json(&request)),
        json(r#"{"script": "deploy", "args": [], "file": {"hash": [1, 2, 3], "size": 42}}"#)
    );
}

#[test]
fn task_launch_status_awaiting_files_is_externally_tagged() {
    let status = TaskLaunchStatus::AwaitingFiles { offset: 128 };
    assert_eq!(
        json(&to_json(&status)),
        json(r#"{"awaiting_files": {"offset": 128}}"#)
    );
}

#[test]
fn task_launch_status_launched_is_externally_tagged() {
    let started_on = Timestamp::from_parts(1_767_225_600, 0).unwrap();
    let status = TaskLaunchStatus::Launched { started_on };
    assert_eq!(
        json(&to_json(&status)),
        json(r#"{"launched": {"started_on": "2026-01-01T00:00:00Z"}}"#)
    );
}

#[test]
fn server_error_response_serializes_as_bare_strings_not_objects() {
    assert_eq!(
        json(&to_json(&ServerErrorResponse::CannotLaunchScript)),
        json(r#""cannot_launch_script""#)
    );
    assert_eq!(
        json(&to_json(&ServerErrorResponse::ScriptNotFound)),
        json(r#""script_not_found""#)
    );
    assert_eq!(
        json(&to_json(&ServerErrorResponse::Unknown)),
        json(r#""unknown""#)
    );
}

#[test]
fn server_task_notification_output_wraps_the_inner_value_directly_not_nested() {
    let notification: ServerTaskNotification<String, i32> =
        ServerTaskNotification::Output("hi".to_string());
    assert_eq!(json(&to_json(&notification)), json(r#"{"output": "hi"}"#));
}

#[test]
fn server_task_notification_exit_code_wraps_the_bare_integer() {
    let notification: ServerTaskNotification<String, i32> = ServerTaskNotification::ExitCode(7);
    assert_eq!(json(&to_json(&notification)), json(r#"{"exit_code": 7}"#));
}

#[test]
fn task_output_stdout_serializes_as_a_tagged_object() {
    let output = TaskOutput::Stdout("hello".to_string());
    assert_eq!(json(&to_json(&output)), json(r#"{"stdout": "hello"}"#));
}

#[test]
fn task_output_stderr_serializes_as_a_tagged_object() {
    let output = TaskOutput::Stderr("oops".to_string());
    assert_eq!(json(&to_json(&output)), json(r#"{"stderr": "oops"}"#));
}

#[test]
fn now_captures_the_value_and_a_timestamp_bounded_by_the_call() {
    let before = chrono::Utc::now();
    let timestamped = Timestamped::now(42);
    let after = chrono::Utc::now();

    let timestamp = chrono::DateTime::from_timestamp(
        timestamped.timestamp.unix_seconds(),
        timestamped.timestamp.subsec_nanoseconds(),
    )
    .unwrap();
    assert_eq!(timestamped.value, 42);
    assert!(timestamp >= before);
    assert!(timestamp <= after);
}

#[test]
fn serializes_with_timestamp_and_value_fields() {
    let timestamped = Timestamped::now("hi".to_string());
    let value = json(&to_json(&timestamped));
    assert!(value.get("timestamp").is_some());
    assert_eq!(value.get("value").unwrap(), "hi");
}

#[test]
fn the_text_of_an_envelope_is_exactly_what_goes_over_the_wire() {
    let envelope = TaskEventResponseEnvelope::Success {
        body: ServerTaskNotification::Output(Timestamped {
            timestamp: Timestamp::from_parts(1_767_225_600, 120_000_000).unwrap(),
            value: TaskOutput::Stdout("say \"hi\"\n\u{1}\u{e9}".to_string()),
        }),
    };
    assert_eq!(
        String::from_utf8(envelope.into_bytes()).unwrap(),
        "{\"success\":{\"body\":{\"output\":{\"timestamp\":\"2026-01-01T00:00:00.120Z\",\
         \"value\":{\"stdout\":\"say \\\"hi\\\"\\n\\u0001\u{e9}\"}}}}}"
    );
    let envelope = TaskEventResponseEnvelope::Success {
        body: ServerTaskNotification::ExitCode(-1),
    };
    assert_eq!(
        String::from_utf8(envelope.into_bytes()).unwrap(),
        "{\"success\":{\"body\":{\"exit_code\":-1}}}"
    );
    let envelope = TaskEventResponseEnvelope::Success {
        body: ServerTaskNotification::ExitCode(i32::MIN),
    };
    assert_eq!(
        String::from_utf8(envelope.into_bytes()).unwrap(),
        "{\"success\":{\"body\":{\"exit_code\":-2147483648}}}"
    );
}

#[test]
fn moments_are_those_that_chrono_can_hold() {
    for (seconds, nanoseconds) in [
        (0i64, 0u32),
        (-1, 999_999_999),
        (59, 1_999_999_999),
        (58, 1_000_000_000),
        (-1, 1_500_000_000),
        (-2, 1_500_000_000),
        (59, 2_000_000_000),
        (8_210_266_876_799, 0),
        (8_210_266_876_800, 0),
        (-8_334_601_228_800, 0),
        (-8_334_601_228_801, 0),
        (i64::MAX, 0),
        (i64::MIN, 0),
    ] {
        let moment = Timestamp::from_parts(seconds, nanoseconds);
        assert_eq!(
            moment.is_some(),
            chrono::DateTime::from_timestamp(seconds, nanoseconds).is_some(),
            "{seconds} {nanoseconds}"
        );
        if let Some(moment) = moment {
            let expected = chrono::DateTime::from_timestamp(seconds, nanoseconds).unwrap();
            assert_eq!(to_json(&moment), serde_json::to_string(&expected).unwrap());
        }
    }
}

#[test]
fn texts_are_quoted_as_serde_json_quotes_them() {
    for code in 0..0x3000u32 {
        if let Some(c) = char::from_u32(code) {
            let text = format!("a{c}b");
            assert_eq!(to_json(&text), serde_json::to_string(&text).unwrap());
        }
    }
    assert_eq!(to_json(&"\u{8}\u{c}\u{1f}\u{7f}/".to_string()), "\"\\b\\f\\u001f\u{7f}/\"");
}
