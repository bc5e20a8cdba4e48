use orosu::api::client::{
    split, ApiClient, ClientEvent, ClientFailure, ClientNext, ClientPhase, ClientReception,
    ClientStep,
};
use orosu::api::envelopes::{TaskEventResponseEnvelope, TaskLaunchStatusResponseEnvelope};
use orosu::api::{FileAttachment, ServerErrorResponse, ServerTaskNotification, TaskLaunchStatus};
use orosu::tasks::{TaskOutput, Timestamp, Timestamped};
use serde_json::Value;

fn json(text: &str) -> Value {
    serde_json::from_str(text).unwrap()
}

fn launch(file: Option<&[u8]>, chunk_size: usize) -> (ApiClient, Value) {
    let (client, message) = ApiClient::start_task(
        vec!["a".to_string()],
        "deploy".to_string(),
        file.map(|file| file.to_vec()),
        chunk_size,
    );
    (client, serde_json::from_slice(&message).unwrap())
}

fn awaiting(offset: usize) -> ClientEvent {
    ClientEvent::StatusDecoded(TaskLaunchStatusResponseEnvelope::Success {
        body: TaskLaunchStatus::AwaitingFiles { offset },
    })
}

fn launched() -> ClientEvent {
    ClientEvent::StatusDecoded(TaskLaunchStatusResponseEnvelope::Success {
        body: TaskLaunchStatus::Launched {
            started_on: Timestamp::from_parts(0, 0).unwrap(),
        },
    })
}

fn is_quiet(step: &ClientStep) -> bool {
    step.frame.is_none() && !step.close && step.print.is_none()
}

#[test]
fn a_launch_without_files_is_followed_to_its_exit_code() {
    let (client, message) = launch(None, 65536);
    assert_eq!(
        message,
        json(r#"{"body": {"script": "deploy", "args": ["a"], "file": null}}"#)
    );
    let received = ClientEvent::Received(ClientReception::Binary(b"status".to_vec()));
    let (client, step) = client.step(received);
    assert!(is_quiet(&step));
    assert!(matches!(step.next, ClientNext::DecodeStatus(bytes) if bytes == b"status"));
    let (client, step) = client.step(launched());
    assert!(is_quiet(&step) && matches!(step.next, ClientNext::Receive));
    assert!(matches!(client.phase, ClientPhase::Streaming));
    let received = ClientEvent::Received(ClientReception::Binary(b"event".to_vec()));
    let (client, step) = client.step(received);
    assert!(matches!(step.next, ClientNext::DecodeEvent(bytes) if bytes == b"event"));
    let output = TaskEventResponseEnvelope::Success {
        body: ServerTaskNotification::Output(Timestamped::now(TaskOutput::Stderr("x".to_string()))),
    };
    let (client, step) = client.step(ClientEvent::EventDecoded(output));
    assert_eq!(step.print, Some(TaskOutput::Stderr("x".to_string())));
    assert!(!step.close && matches!(step.next, ClientNext::Receive));
    let exit = TaskEventResponseEnvelope::Success {
        body: ServerTaskNotification::ExitCode(7),
    };
    let (client, step) = client.step(ClientEvent::EventDecoded(exit));
    assert!(step.close && matches!(step.next, ClientNext::Exit(7)));
    assert!(matches!(client.phase, ClientPhase::Done));
}

#[test]
fn an_upload_is_announced_and_sent_as_it_is_asked_for() {
    let file = b"hello attachment";
    let (client, message) = launch(Some(file), 6);
    let announced = &message["body"]["file"];
    assert_eq!(announced["size"], 16);
    let hash: Vec<u8> = announced["hash"]
        .as_array()
        .unwrap()
        .iter()
        .map(|byte| byte.as_u64().unwrap() as u8)
        .collect();
    assert_eq!(hash, md5::compute(file).0.to_vec());
    let (client, step) = client.step(awaiting(6));
    assert_eq!(
        serde_json::from_slice::<Value>(&step.frame.unwrap()).unwrap(),
        json(r#"{"body": {"offset": 6, "data": [97, 116, 116, 97, 99, 104]}}"#)
    );
    assert!(matches!(step.next, ClientNext::Receive));
    let (client, step) = client.step(awaiting(12));
    assert_eq!(
        step.frame.unwrap(),
        b"{\"body\":{\"offset\":12,\"data\":[109,101,110,116]}}"
    );
    let (client, step) = client.step(awaiting(5));
    assert!(step.frame.is_none() && step.close);
    assert!(matches!(step.next, ClientNext::Fail(ClientFailure::ChunkNotFound(5))));
    assert!(matches!(client.phase, ClientPhase::Done));
    let (client, _) = launch(None, 6);
    let (_, step) = client.step(awaiting(0));
    assert!(step.close);
    assert!(matches!(step.next, ClientNext::Fail(ClientFailure::NoFilesAttached)));
}

#[test]
fn the_server_refusing_is_passed_on() {
    for (error, message) in [
        (ServerErrorResponse::CannotLaunchScript, "Cannot launch script"),
        (ServerErrorResponse::ScriptNotFound, "Script not found"),
        (ServerErrorResponse::Unknown, "Unknown error"),
    ] {
        assert_eq!(error.message(), message);
        let failure = TaskLaunchStatusResponseEnvelope::Failure { error };
        let (_, step) = launch(None, 1).0.step(ClientEvent::StatusDecoded(failure));
        assert!(is_quiet(&step) && matches!(step.next, ClientNext::Panic(e) if e == error));
        let (client, _) = launch(None, 1).0.step(launched());
        let failure = TaskEventResponseEnvelope::Failure { error };
        let (_, step) = client.step(ClientEvent::EventDecoded(failure));
        assert!(step.close && matches!(step.next, ClientNext::Panic(e) if e == error));
    }
}

#[test]
fn connections_that_end_early_are_failures_before_the_launch_and_ends_after_it() {
    let before = |reception| launch(None, 1).0.step(ClientEvent::Received(reception)).1.next;
    let other = |close| ClientReception::Other {
        close,
        display: "hello".to_string(),
        debug: "Text(\"hello\")".to_string(),
    };
    let failed = || ClientReception::Failed("Connection reset".to_string());
    assert!(matches!(
        before(ClientReception::Disconnected),
        ClientNext::Fail(ClientFailure::NoResponse)
    ));
    assert!(matches!(
        before(failed()),
        ClientNext::Fail(reason) if reason.message() == "Connection reset"
    ));
    for close in [true, false] {
        assert!(matches!(
            before(other(close)),
            ClientNext::Fail(reason)
                if reason == ClientFailure::NotBinary("hello".to_string())
                    && reason.message()
                        == "Server did not respond with a valid response, got hello"
        ));
    }
    let after = |reception| {
        let (client, _) = launch(None, 1).0.step(launched());
        client.step(ClientEvent::Received(reception)).1.next
    };
    assert!(matches!(after(ClientReception::Disconnected), ClientNext::Finish));
    assert!(matches!(after(other(true)), ClientNext::Finish));
    assert!(matches!(
        after(failed()),
        ClientNext::Fail(ClientFailure::Transport(error)) if error == "Connection reset"
    ));
    assert!(matches!(
        after(other(false)),
        ClientNext::PanicUnexpected(text) if text == "Unexpected message: Text(\"hello\")"
    ));
    assert_eq!(ClientFailure::NoResponse.message(), "Server did not respond");
    assert_eq!(
        ClientFailure::NoFilesAttached.message(),
        "No files were attached to the task"
    );
    assert_eq!(
        ClientFailure::ChunkNotFound(42).message(),
        "Chunk not found for offset 42"
    );
}

#[test]
fn files_are_split_into_pieces_of_a_size() {
    let pieces = |file: &[u8], size: usize| -> Vec<(usize, Vec<u8>)> {
        split(&file.to_vec(), size)
            .into_iter()
            .map(|chunk| (chunk.offset, chunk.data))
            .collect()
    };
    assert_eq!(pieces(b"", 4), vec![]);
    assert_eq!(pieces(b"abc", 4), vec![(0, b"abc".to_vec())]);
    assert_eq!(pieces(b"abcd", 4), vec![(0, b"abcd".to_vec())]);
    assert_eq!(
        pieces(b"abcde", 4),
        vec![(0, b"abcd".to_vec()), (4, b"e".to_vec())]
    );
    assert_eq!(pieces(b"ab", usize::MAX), vec![(0, b"ab".to_vec())]);
    let attachment = FileAttachment::of_file(&b"abc".to_vec());
    assert_eq!(attachment.size, 3);
    assert_eq!(
        attachment.hash,
        vec![
            0x90, 0x01, 0x50, 0x98, 0x3c, 0xd2, 0x4f, 0xb0, 0xd6, 0x96, 0x3f, 0x7d, 0x28, 0xe1,
            0x7f, 0x72
        ]
    );
}
