use orosu::api::file_chunk::FileChunk;
use orosu::api::handshake::{
    verify_confirmation_frame, ConnectionSecurity, HandshakeError, SessionKeys,
};
use orosu::api::{FileAttachment, StartTaskRequest};
use orosu::client::Client;
use orosu::cryptography::{PublicKey, ServerKeygen, ServerStaticKey, StaticSecret};
use orosu::ip::{IpAddress, IpNetwork};
use orosu::script::Script;
use orosu::server::handler::extraction::{
    ArchiveEntry, Extraction, ExtractionEvent, MAX_ARCHIVE_ENTRIES, MAX_EXTRACTED_BYTES,
};
use orosu::server::handler::tasks::{seal_or_blank, Next, SessionEvent, Step, TaskSession};
use orosu::server::handler::TasksHandler;
use orosu::server::handshake::{confirmation_sent, establish_security, expects_hello};
use orosu::server::{AuthContext, Reception, Sending, StatusCode, WorkerAuthContext};
use orosu::tasks::{TaskOutput, Timestamp, Timestamped};
use serde_json::Value;

fn client() -> Client {
    let script = |name: &str| Script {
        name: name.to_string(),
        run_as: None,
        command: vec!["echo".to_string(), "hi".to_string()],
    };
    Client {
        name: "test-client".to_string(),
        secret_file: "public.key".to_string(),
        whitelisted_ips: None,
        blacklisted_ips: None,
        scripts: vec![script("hello"), script("cat-file")],
    }
}

fn request(script: &str, file: Option<FileAttachment>) -> SessionEvent {
    SessionEvent::LaunchDecoded(Some(StartTaskRequest {
        script_name: script.to_string(),
        arguments: vec!["x".to_string()],
        file,
    }))
}

fn attachment(file: &[u8]) -> Option<FileAttachment> {
    Some(FileAttachment {
        hash: md5::compute(file).0.to_vec(),
        size: file.len(),
    })
}

fn chunk(offset: usize, data: &[u8]) -> SessionEvent {
    SessionEvent::ChunkDecoded(Some(FileChunk {
        offset,
        data: data.to_vec(),
    }))
}

fn binary(bytes: &[u8]) -> SessionEvent {
    SessionEvent::Received(Reception::Binary(bytes.to_vec()))
}

fn line(text: &str) -> Timestamped<TaskOutput> {
    Timestamped {
        timestamp: Timestamp::from_parts(1_767_225_600, 0).unwrap(),
        value: TaskOutput::Stdout(text.to_string()),
    }
}

fn said(step: &Step) -> Value {
    serde_json::from_slice(step.frame.as_ref().expect("a frame")).unwrap()
}

fn json(text: &str) -> Value {
    serde_json::from_str(text).unwrap()
}

fn cannot_launch() -> Value {
    json(r#"{"failure": {"error": "cannot_launch_script"}}"#)
}

/// A session without encryption that has opened the frame of a launch request.
fn decoding() -> TaskSession<'static> {
    let (session, step) = TaskSession::open(client(), 1, None);
    assert!(matches!(
        step.next,
        Next::Receive { seconds: 10, fresh: true }
    ));
    let (session, step) = session.step(binary(b"message"));
    assert!(matches!(step.next, Next::DecodeLaunch(bytes) if bytes == b"message"));
    session
}

/// A session that runs a script.
fn running() -> TaskSession<'static> {
    let (session, _) = decoding().step(request("hello", None));
    let started = Timestamp::from_parts(1_767_225_600, 0).unwrap();
    let (session, step) = session.step(SessionEvent::Launched(started));
    assert!(matches!(step.next, Next::Stream));
    session
}

fn assert_closed(step: &Step) {
    assert!(step.frame.is_none());
    assert!(step.close);
    assert!(matches!(step.next, Next::Stop));
}

#[test]
fn happy_path_launches_streams_output_and_exit_code() {
    let (session, step) = decoding().step(request("hello", None));
    match step.next {
        Next::Launch { script, arguments, attachments } => {
            assert_eq!(script, 0);
            assert_eq!(arguments, vec!["x".to_string()]);
            assert!(!attachments);
        }
        _ => panic!("expected a launch"),
    }
    assert_eq!(session.client().scripts[0].name, "hello");
    let started = Timestamp::from_parts(1_767_225_600, 0).unwrap();
    let (session, step) = session.step(SessionEvent::Launched(started));
    assert_eq!(
        said(&step),
        json(r#"{"success": {"body": {"launched": {"started_on": "2026-01-01T00:00:00Z"}}}}"#)
    );
    assert!(!step.report_failure);
    let (session, step) = session.step(SessionEvent::Output(line("hello from integration test")));
    assert_eq!(
        said(&step)["success"]["body"]["output"]["value"],
        json(r#"{"stdout": "hello from integration test"}"#)
    );
    assert!(step.report_failure && matches!(step.next, Next::Stream));
    let (session, step) = session.step(SessionEvent::Finished(0));
    assert!(step.frame.is_none() && matches!(step.next, Next::Drain));
    let (session, step) = session.step(SessionEvent::Output(line("last words")));
    assert_eq!(
        said(&step)["success"]["body"]["output"]["value"]["stdout"],
        "last words"
    );
    assert!(step.report_failure && matches!(step.next, Next::Drain));
    let (session, step) = session.step(SessionEvent::NoMoreOutput);
    assert_eq!(said(&step), json(r#"{"success": {"body": {"exit_code": 0}}}"#));
    assert!(step.close && !step.report_failure);
    assert!(matches!(step.next, Next::Receive { seconds: 3, fresh: true }));
    let (session, step) = session.step(SessionEvent::Received(Reception::Text));
    assert!(!step.close && matches!(step.next, Next::Receive { seconds: 3, fresh: false }));
    let (session, step) = session.step(SessionEvent::Received(Reception::Close));
    assert!(step.frame.is_none() && !step.close && matches!(step.next, Next::Stop));
    let (_, step) = session.step(SessionEvent::Output(line("too late")));
    assert!(step.frame.is_none());
}

#[test]
fn script_not_found_returns_a_failure_envelope_not_a_hang() {
    let (_, step) = decoding().step(request("does-not-exist", None));
    assert_eq!(said(&step), json(r#"{"failure": {"error": "script_not_found"}}"#));
    assert!(step.close && matches!(step.next, Next::Stop));
}

#[test]
fn file_upload_happy_path_extracts_and_exposes_the_attachment() {
    let file = b"hello attachment";
    let (session, step) = decoding().step(request("cat-file", attachment(file)));
    assert_eq!(said(&step), json(r#"{"success": {"body": {"awaiting_files": {"offset": 0}}}}"#));
    assert!(matches!(step.next, Next::Receive { seconds: 30, fresh: true }));
    let (session, step) = session.step(binary(b"first"));
    assert!(matches!(step.next, Next::DecodeChunk(bytes) if bytes == b"first"));
    let (session, step) = session.step(chunk(0, b"hello "));
    assert_eq!(step.store.as_deref(), Some(b"hello ".as_slice()));
    assert_eq!(said(&step), json(r#"{"success": {"body": {"awaiting_files": {"offset": 6}}}}"#));
    let (session, _) = session.step(binary(b"second"));
    let (session, step) = session.step(chunk(6, b"attachment"));
    assert_eq!(step.store.as_deref(), Some(b"attachment".as_slice()));
    assert!(step.frame.is_none() && matches!(step.next, Next::Extract));
    let (_, step) = session.step(SessionEvent::Extracted(true));
    assert!(matches!(step.next, Next::Launch { script: 1, attachments: true, .. }));
}

#[test]
fn file_hash_mismatch_is_reported_as_a_failure() {
    let wrong = Some(FileAttachment { hash: vec![0u8; 16], size: 16 });
    let (session, _) = decoding().step(request("cat-file", wrong));
    let (session, _) = session.step(binary(b"frame"));
    let (_, step) = session.step(chunk(0, b"hello attachment"));
    assert_eq!(said(&step), cannot_launch());
    assert!(step.close && matches!(step.next, Next::Stop));
}

#[test]
fn an_upload_that_cannot_be_extracted_is_reported_as_a_failure() {
    let (session, _) = decoding().step(request("cat-file", attachment(b"x")));
    let (session, _) = session.step(binary(b"frame"));
    let (session, step) = session.step(chunk(0, b"x"));
    assert!(matches!(step.next, Next::Extract));
    let (_, step) = session.step(SessionEvent::Extracted(false));
    assert_eq!(said(&step), cannot_launch());
    assert!(step.close && matches!(step.next, Next::Stop));
}

#[test]
fn a_script_that_does_not_start_is_reported_as_a_failure() {
    let (session, _) = decoding().step(request("hello", None));
    let (_, step) = session.step(SessionEvent::LaunchFailed);
    assert_eq!(said(&step), cannot_launch());
    assert!(step.close && matches!(step.next, Next::Stop));
}

#[test]
fn an_empty_upload_is_extracted_at_once() {
    let (_, step) = decoding().step(request("cat-file", attachment(b"")));
    assert!(step.frame.is_none() && matches!(step.next, Next::Extract));
    let wrong = Some(FileAttachment { hash: vec![], size: 0 });
    let (_, step) = decoding().step(request("cat-file", wrong));
    assert_eq!(said(&step), cannot_launch());
}

#[test]
fn a_file_chunk_at_the_wrong_offset_disconnects_rather_than_hanging() {
    let (session, _) = decoding().step(request("cat-file", attachment(b"hello attachment")));
    let (session, _) = session.step(binary(b"frame"));
    let (_, step) = session.step(chunk(999, b"hello attachment"));
    assert!(step.store.is_none() && step.frame.is_none() && !step.close);
    assert!(matches!(step.next, Next::Stop));
}

#[test]
fn a_client_that_never_sends_a_launch_message_is_disconnected_after_the_timeout() {
    let (session, _) = TaskSession::open(client(), 0, None);
    let (_, step) = session.step(SessionEvent::Received(Reception::TimedOut));
    assert_closed(&step);
}

#[test]
fn a_client_that_stalls_mid_upload_is_disconnected_after_the_timeout() {
    let (session, _) = decoding().step(request("cat-file", attachment(b"file")));
    let (_, step) = session.step(SessionEvent::Received(Reception::TimedOut));
    assert_closed(&step);
}

#[test]
fn keepalives_are_tolerated_without_winning_time() {
    let (session, _) = TaskSession::open(client(), 1, None);
    let (session, step) = session.step(SessionEvent::Received(Reception::Ping));
    assert!(!step.close && matches!(step.next, Next::Receive { seconds: 10, fresh: false }));
    let (session, step) = session.step(binary(b"message"));
    assert!(matches!(step.next, Next::DecodeLaunch(_)));
    let (session, _) = session.step(request("cat-file", attachment(b"file")));
    let (session, step) = session.step(SessionEvent::Received(Reception::Pong));
    assert!(!step.close && matches!(step.next, Next::Receive { seconds: 30, fresh: false }));
    let (_, step) = session.step(binary(b"chunk"));
    assert!(matches!(step.next, Next::DecodeChunk(_)));
}

#[test]
fn anything_but_a_launch_request_closes_the_connection() {
    for reception in [
        Reception::Text,
        Reception::Close,
        Reception::Failed("reset".to_string()),
        Reception::Disconnected,
        Reception::TimedOut,
    ] {
        let (session, _) = TaskSession::open(client(), 1, None);
        assert_closed(&session.step(SessionEvent::Received(reception)).1);
    }
    assert_closed(&decoding().step(SessionEvent::LaunchDecoded(None)).1);
    let (session, _) = decoding().step(request("cat-file", attachment(b"file")));
    let (session, _) = session.step(binary(b"chunk"));
    assert_closed(&session.step(SessionEvent::ChunkDecoded(None)).1);
    assert_closed(&decoding().step(SessionEvent::NoMoreOutput).1);
}

#[test]
fn a_client_that_is_gone_is_not_waited_for() {
    let (_, step) = running().step(SessionEvent::SendFailed);
    assert!(step.frame.is_none() && !step.close && matches!(step.next, Next::Stop));
    let (session, _) = running().step(SessionEvent::Finished(3));
    let (_, step) = session.step(SessionEvent::SendFailed);
    assert!(step.frame.is_none() && !step.close && matches!(step.next, Next::Stop));
}

fn static_key(keygen: &ServerKeygen) -> ServerStaticKey {
    ServerStaticKey::from_base64(&keygen.private_key_base64())
        .unwrap_or_else(|error| panic!("{error:?}"))
}

fn client_keys(secret: &StaticSecret, server: &PublicKey) -> SessionKeys {
    SessionKeys::derive_for_client(&secret.diffie_hellman(server))
        .unwrap_or_else(|error| panic!("{error:?}"))
}

#[test]
fn encrypted_happy_path_launches_streams_output_and_exit_code() {
    let key = static_key(&ServerKeygen::new());
    let secret = StaticSecret::random();
    let (session, step) = TaskSession::open(client(), 2, Some(&key));
    assert!(matches!(step.next, Next::Receive { seconds: 10, fresh: true }));
    let (session, step) = session.step(binary(&secret.public_key().bytes));
    assert!(matches!(step.next, Next::Confirm { seconds: 10 }));
    let mut keys = client_keys(&secret, &key.as_static_secret().public_key());
    verify_confirmation_frame(&mut keys, step.frame.as_ref().unwrap()).unwrap();
    let mut security = ConnectionSecurity::Encrypted(keys);

    let (session, step) = session.step(SessionEvent::ConfirmSent(Sending::Sent));
    assert!(matches!(step.next, Next::Receive { seconds: 10, fresh: true }));
    let sealed = security.seal(b"the request").unwrap();
    let (session, step) = session.step(binary(&sealed));
    assert!(matches!(step.next, Next::DecodeLaunch(bytes) if bytes == b"the request"));
    let (session, _) = session.step(request("hello", None));
    let started = Timestamp::from_parts(1_767_225_600, 0).unwrap();
    let (session, step) = session.step(SessionEvent::Launched(started));
    let frame = step.frame.unwrap();
    assert!(serde_json::from_slice::<Value>(&frame).is_err());
    let opened = security.open(&frame).unwrap();
    assert_eq!(
        serde_json::from_slice::<Value>(&opened).unwrap(),
        json(r#"{"success": {"body": {"launched": {"started_on": "2026-01-01T00:00:00Z"}}}}"#)
    );
    let (session, step) = session.step(SessionEvent::Output(line("hi")));
    let opened = security.open(&step.frame.unwrap()).unwrap();
    let value: Value = serde_json::from_slice(&opened).unwrap();
    assert_eq!(value["success"]["body"]["output"]["value"]["stdout"], "hi");
    let (session, _) = session.step(SessionEvent::Finished(0));
    let (_, step) = session.step(SessionEvent::NoMoreOutput);
    let opened = security.open(&step.frame.unwrap()).unwrap();
    assert_eq!(opened, b"{\"success\":{\"body\":{\"exit_code\":0}}}");
}

#[test]
fn encrypted_handshake_with_wrong_pinned_server_key_fails_confirmation() {
    let key = static_key(&ServerKeygen::new());
    let other = static_key(&ServerKeygen::new());
    let secret = StaticSecret::random();
    let (session, _) = TaskSession::open(client(), 2, Some(&key));
    let (_, step) = session.step(binary(&secret.public_key().bytes));
    let mut keys = client_keys(&secret, &other.as_static_secret().public_key());
    assert!(verify_confirmation_frame(&mut keys, &step.frame.unwrap()).is_err());
}

#[test]
fn handshakes_that_go_wrong_close_the_connection() {
    let key = static_key(&ServerKeygen::new());
    for hello in [
        Reception::Text,
        Reception::Ping,
        Reception::Close,
        Reception::Failed("reset".to_string()),
        Reception::Disconnected,
        Reception::TimedOut,
        Reception::Binary(vec![1; 31]),
        Reception::Binary(vec![0; 32]),
    ] {
        let (session, _) = TaskSession::open(client(), 2, Some(&key));
        assert_closed(&session.step(SessionEvent::Received(hello)).1);
    }
    let (session, _) = TaskSession::open(client(), 2, Some(&key));
    let (session, _) = session.step(binary(&StaticSecret::random().public_key().bytes));
    assert_closed(&session.step(SessionEvent::ConfirmSent(Sending::TimedOut)).1);
    // A frame that is not sealed with the keys of the handshake.
    let (session, _) = TaskSession::open(client(), 2, Some(&key));
    let (session, _) = session.step(binary(&StaticSecret::random().public_key().bytes));
    let (session, _) = session.step(SessionEvent::ConfirmSent(Sending::Sent));
    assert_closed(&session.step(binary(b"in the clear")).1);
}

#[test]
fn each_bad_hello_has_its_own_error() {
    let key = static_key(&ServerKeygen::new());
    let error = |hello: Reception| match establish_security(2, Some(&key), &hello) {
        Ok(_) => panic!("accepted"),
        Err(error) => error,
    };
    assert_eq!(error(Reception::TimedOut), HandshakeError::HelloTimedOut);
    assert_eq!(error(Reception::Disconnected), HandshakeError::HelloDisconnected);
    let failed = error(Reception::Failed("reset".to_string()));
    assert_eq!(failed, HandshakeError::HelloNotReceived("reset".to_string()));
    assert_eq!(failed.message(), "failed to receive ClientHello: reset");
    assert_eq!(confirmation_sent(Sending::Sent), Ok(()));
    let failed = confirmation_sent(Sending::Failed("reset".to_string())).unwrap_err();
    assert_eq!(failed.message(), "failed to send ServerConfirm: reset");
    let failed = confirmation_sent(Sending::TimedOut).unwrap_err();
    assert_eq!(failed.message(), "timed out sending ServerConfirm");
    assert_eq!(error(Reception::Text), HandshakeError::HelloNotBinary);
    assert_eq!(error(Reception::Binary(vec![])), HandshakeError::HelloLength(0));
    assert_eq!(
        error(Reception::Binary(vec![0; 32])),
        HandshakeError::NonContributory
    );
    assert_eq!(
        HandshakeError::HelloLength(31).message(),
        "ClientHello has unexpected length 31"
    );
    assert_eq!(
        HandshakeError::NonceExhausted.message(),
        "nonce counter exhausted; connection must be re-established"
    );
}

#[test]
fn only_the_encrypted_version_has_a_handshake() {
    assert!(expects_hello(2));
    for version in [0, 1] {
        assert!(!expects_hello(version));
        match establish_security(version, None, &Reception::TimedOut) {
            Ok(established) => {
                assert!(matches!(established.security, ConnectionSecurity::Plaintext));
                assert!(established.confirmation.is_none());
            }
            Err(error) => panic!("unexpected {error:?}"),
        }
    }
}

#[test]
fn what_cannot_be_sealed_is_sent_as_an_empty_frame() {
    let secret = StaticSecret { bytes: [3; 32] };
    let mut keys = client_keys(&secret, &StaticSecret { bytes: [4; 32] }.public_key());
    keys.send.counter = u64::MAX;
    let mut security = ConnectionSecurity::Encrypted(keys);
    assert_eq!(seal_or_blank(&mut security, b"secret"), Vec::<u8>::new());
    let mut plaintext = ConnectionSecurity::Plaintext;
    assert_eq!(seal_or_blank(&mut plaintext, b"not secret"), b"not secret");
}

fn worker(whitelist: Option<Vec<IpNetwork>>, blacklist: Option<Vec<IpNetwork>>) -> AuthContext {
    let mut client = client();
    client.whitelisted_ips = whitelist;
    client.blacklisted_ips = blacklist;
    AuthContext::Worker(WorkerAuthContext {
        client,
        protocol_version: 1,
    })
}

fn networks(octets: [u8; 4], prefix: u8) -> Option<Vec<IpNetwork>> {
    Some(vec![IpNetwork::new(IpAddress::V4(octets), prefix).unwrap()])
}

const LOCAL: Option<IpAddress> = Some(IpAddress::V4([127, 0, 0, 1]));

#[test]
fn per_client_whitelist_rejects_a_non_matching_ip() {
    let result = TasksHandler::attach(worker(networks([10, 0, 0, 0], 8), None), None, LOCAL);
    assert!(matches!(result, Err(StatusCode::Forbidden)));
}

#[test]
fn per_client_whitelist_allows_a_matching_ip() {
    let result = TasksHandler::attach(worker(networks([127, 0, 0, 1], 32), None), None, LOCAL);
    assert!(matches!(result, Ok((client, 1)) if client.name == "test-client"));
}

#[test]
fn per_client_blacklist_rejects_a_matching_ip() {
    let result = TasksHandler::attach(worker(None, networks([127, 0, 0, 1], 32)), None, LOCAL);
    assert!(matches!(result, Err(StatusCode::Forbidden)));
}

#[test]
fn a_client_without_an_address_is_not_held_against_its_lists() {
    let result = TasksHandler::attach(worker(networks([10, 0, 0, 0], 8), None), None, None);
    assert!(result.is_ok());
}

fn entry(name: &str, enclosed: Option<&str>, is_directory: bool) -> ExtractionEvent {
    ExtractionEvent::Inspected(Some(ArchiveEntry {
        name: name.to_string(),
        enclosed_name: enclosed.map(String::from),
        is_directory,
    }))
}

#[test]
fn an_archive_is_extracted_entry_by_entry() {
    let extraction = Extraction::begin().step(ExtractionEvent::Opened(Some(2)));
    assert!(matches!(extraction, Extraction::Inspecting { at: 0, entries: 2, .. }));
    let extraction = extraction.step(entry("dir/", Some("dir"), true));
    assert!(matches!(&extraction, Extraction::CreatingDirectory { path, .. } if path == "dir"));
    let extraction = extraction.step(ExtractionEvent::DirectoryCreated);
    assert!(matches!(extraction, Extraction::Inspecting { at: 1, entries: 2, .. }));
    let extraction = extraction.step(entry("dir/test.txt", Some("dir/test.txt"), false));
    assert!(matches!(
        &extraction,
        Extraction::WritingFile { path, budget: MAX_EXTRACTED_BYTES, .. } if path == "dir/test.txt"
    ));
    let extraction = extraction.step(ExtractionEvent::FileWritten(Some(16)));
    assert!(matches!(extraction, Extraction::Extracted));
    let empty = Extraction::begin().step(ExtractionEvent::Opened(Some(0)));
    assert!(matches!(empty, Extraction::Extracted));
}

#[test]
fn zip_slip_attempt_is_rejected_as_a_clean_failure() {
    let extraction = Extraction::begin().step(ExtractionEvent::Opened(Some(1)));
    assert!(matches!(extraction.step(entry("../evil.txt", None, false)), Extraction::Rejected));
}

#[test]
fn zip_entry_with_an_absolute_path_is_rejected_as_a_clean_failure() {
    let begun = || Extraction::begin().step(ExtractionEvent::Opened(Some(1)));
    let absolute = entry("/etc/evil.txt", Some("etc/evil.txt"), false);
    assert!(matches!(begun().step(absolute), Extraction::Rejected));
    let absolute = entry("/", Some(""), true);
    assert!(matches!(begun().step(absolute), Extraction::Rejected));
    let (session, _) = decoding().step(request("cat-file", attachment(b"x")));
    let (session, _) = session.step(binary(b"frame"));
    let (session, _) = session.step(chunk(0, b"x"));
    let (_, step) = session.step(SessionEvent::Extracted(false));
    assert_eq!(said(&step), cannot_launch());
}

#[test]
fn what_is_not_an_archive_is_rejected() {
    let rejected = Extraction::begin().step(ExtractionEvent::Opened(None));
    assert!(matches!(rejected, Extraction::Rejected));
    let corrupt = Extraction::begin()
        .step(ExtractionEvent::Opened(Some(1)))
        .step(ExtractionEvent::Inspected(None));
    assert!(matches!(corrupt, Extraction::Rejected));
    let corrupt = Extraction::begin()
        .step(ExtractionEvent::Opened(Some(1)))
        .step(entry("file", Some("file"), false))
        .step(ExtractionEvent::FileWritten(None));
    assert!(matches!(corrupt, Extraction::Rejected));
}

#[test]
fn an_archive_with_too_much_in_it_is_rejected() {
    let crowded = ExtractionEvent::Opened(Some(MAX_ARCHIVE_ENTRIES + 1));
    assert!(matches!(Extraction::begin().step(crowded), Extraction::Rejected));
    let full = ExtractionEvent::Opened(Some(MAX_ARCHIVE_ENTRIES));
    assert!(matches!(Extraction::begin().step(full), Extraction::Inspecting { .. }));
    let half = MAX_EXTRACTED_BYTES / 2;
    let extraction = Extraction::begin()
        .step(ExtractionEvent::Opened(Some(3)))
        .step(entry("one", Some("one"), false))
        .step(ExtractionEvent::FileWritten(Some(half)))
        .step(entry("two", Some("two"), false))
        .step(ExtractionEvent::FileWritten(Some(half)))
        .step(entry("three", Some("three"), false));
    assert!(matches!(&extraction, Extraction::WritingFile { budget: 0, .. }));
    let extraction = extraction.step(ExtractionEvent::FileWritten(Some(1)));
    assert!(matches!(extraction, Extraction::Rejected));
}
