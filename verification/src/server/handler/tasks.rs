//! A connection on which a client launches a script: the handshake, the launch
//! request, the upload, the run and its end.
//!
//! `TaskSession` decides; the application does. Each step says what to store,
//! what to send and what to do next, and the application hands back what came
//! of it.

use crate::api::envelopes::{TaskEventResponseEnvelope, TaskLaunchStatusResponseEnvelope};
use crate::api::file_chunk::FileChunk;
use crate::api::handshake::{ConnectionSecurity, HandshakeError, SecurityState};
use crate::api::protocol_version::PROTOCOL_VERSION_ENCRYPTED_V2;
use crate::api::{ServerErrorResponse, ServerTaskNotification, StartTaskRequest, TaskLaunchStatus};
use crate::client::Client;
use crate::cryptography::ServerStaticKey;
use crate::json::ToJson;
use crate::outside;
use crate::script::{find_script, Script};
use crate::server::handshake::{confirmation_sent, establish_security, HANDSHAKE_TIMEOUT};
use crate::server::{Reception, Sending};
use crate::tasks::{TaskOutput, Timestamp, Timestamped};
use crate::text::same_bytes;
use vstd::prelude::*;
use vstd::slice::slice_to_vec;
use vstd::string::*;

verus! {

/// How long, in seconds, a connection may stay idle before the launch request
/// comes.
pub const LAUNCH_MESSAGE_TIMEOUT: u64 = 10;

/// How long, in seconds, a client may take for the next piece of an upload.
pub const FILE_CHUNK_TIMEOUT: u64 = 30;

/// How long, in seconds, the server waits for the client to close once it has
/// closed its own side.
pub const CLOSE_TIMEOUT: u64 = 3;

/// What a message looks like on the transport: sealed; or, where it cannot be
/// sealed, an empty frame, which no client can open, but never the message
/// itself.
pub open spec fn frame_for(security: SecurityState, message: Seq<u8>) -> Seq<u8> {
    match crate::api::handshake::sealed_by(security, message) {
        Ok(frame) => frame,
        Err(_) => Seq::empty(),
    }
}

/// Whether `frame` carries `message` so that the other end can open it.
pub open spec fn carries(security: SecurityState, message: Seq<u8>, frame: Seq<u8>) -> bool {
    &&& frame == frame_for(security, message)
    &&& security matches SecurityState::Encrypted(keys) ==> (crate::api::handshake::sealed_by(
        security,
        message,
    ) is Ok ==> crate::api::handshake::frame_of(keys.send, message, Seq::empty(), frame))
}

/// Seals a message for the transport. Where it cannot be sealed, which takes
/// an exhausted nonce counter or a message that one nonce does not cover, the
/// frame is empty: the message never leaves unsealed.
pub fn seal_or_blank(security: &mut ConnectionSecurity, message: &[u8]) -> (frame: Vec<u8>)
    ensures
        carries(old(security)@, message@, frame@),
        final(security)@ == crate::api::handshake::after_sealing(old(security)@, message@),
{
    match security.seal(message) {
        Ok(frame) => frame,
        Err(_) => Vec::new(),
    }
}

/// What a client asked for: a script of its own, by its place in the list, and
/// arguments.
pub struct Job {
    pub script: usize,
    pub arguments: Vec<String>,
}

/// An upload under way.
pub struct Upload {
    size: usize,
    hash: Vec<u8>,
    received: usize,
    hasher: md5::Context,
}

/// An upload under way: how much is due, what its MD5 digest is to be, and
/// what has come.
pub struct UploadModel {
    pub size: int,
    pub hash: Seq<u8>,
    pub received: Seq<u8>,
}

impl View for Upload {
    type V = UploadModel;

    closed spec fn view(&self) -> UploadModel {
        UploadModel {
            size: self.size as int,
            hash: self.hash@,
            received: outside::md5_absorbed(self.hasher),
        }
    }
}

/// What a session waits for.
pub enum Phase {
    /// The client's hello.
    AwaitingHello,
    /// Word that the confirmation was sent.
    Confirming,
    /// The launch request.
    AwaitingLaunch,
    /// The launch request, decoded.
    DecodingLaunch,
    /// The next piece of the upload.
    AwaitingChunk(Job, Upload),
    /// The next piece of the upload, decoded.
    DecodingChunk(Job, Upload),
    /// Word that the upload was extracted.
    Extracting(Job),
    /// Word that the script was started.
    Launching,
    /// What the script writes, or its end.
    Running,
    /// What the script wrote before its end, with this exit code.
    Draining(i32),
    /// The client's close.
    Closing,
    /// Nothing.
    Done,
}

/// What a session waits for.
pub enum PhaseModel {
    AwaitingHello,
    Confirming,
    AwaitingLaunch,
    DecodingLaunch,
    AwaitingChunk(Job, UploadModel),
    DecodingChunk(Job, UploadModel),
    Extracting(Job),
    Launching,
    Running,
    Draining(i32),
    Closing,
    Done,
}

impl View for Phase {
    type V = PhaseModel;

    open spec fn view(&self) -> PhaseModel {
        match *self {
            Phase::AwaitingHello => PhaseModel::AwaitingHello,
            Phase::Confirming => PhaseModel::Confirming,
            Phase::AwaitingLaunch => PhaseModel::AwaitingLaunch,
            Phase::DecodingLaunch => PhaseModel::DecodingLaunch,
            Phase::AwaitingChunk(job, upload) => PhaseModel::AwaitingChunk(job, upload@),
            Phase::DecodingChunk(job, upload) => PhaseModel::DecodingChunk(job, upload@),
            Phase::Extracting(job) => PhaseModel::Extracting(job),
            Phase::Launching => PhaseModel::Launching,
            Phase::Running => PhaseModel::Running,
            Phase::Draining(code) => PhaseModel::Draining(code),
            Phase::Closing => PhaseModel::Closing,
            Phase::Done => PhaseModel::Done,
        }
    }
}

/// What came of a step.
pub enum SessionEvent {
    /// What came of waiting for a frame.
    Received(Reception),
    /// What came of sending the confirmation.
    ConfirmSent(Sending),
    /// The launch request, where the message was one.
    LaunchDecoded(Option<StartTaskRequest>),
    /// The piece of the upload, where the message was one.
    ChunkDecoded(Option<FileChunk>),
    /// Whether the upload was extracted.
    Extracted(bool),
    /// The script was started; its task was made at this moment.
    Launched(Timestamp),
    /// The script was not started.
    LaunchFailed,
    /// A line that the script wrote.
    Output(Timestamped<TaskOutput>),
    /// A frame whose failure was to be reported was not sent.
    SendFailed,
    /// The script ended with this exit code.
    Finished(i32),
    /// There is no more output of the script.
    NoMoreOutput,
}

/// What to do next.
pub enum Next {
    /// Wait for a frame, this many seconds at most: counted from now if
    /// `fresh`, and else from when the wait under way began.
    Receive { seconds: u64, fresh: bool },
    /// Report whether the frame was sent, within this many seconds.
    Confirm { seconds: u64 },
    /// Decode a launch request.
    DecodeLaunch(Vec<u8>),
    /// Decode a piece of an upload.
    DecodeChunk(Vec<u8>),
    /// Extract the upload.
    Extract,
    /// Start the script at this place in the client's list, with these
    /// arguments and, if `attachments`, with the extracted upload.
    Launch { script: usize, arguments: Vec<String>, attachments: bool },
    /// Wait for a line of output or for the script's end.
    Stream,
    /// Take the next line of output that is already there.
    Drain,
    /// End the connection.
    Stop,
}

/// What to do next.
pub enum NextModel {
    Receive { seconds: u64, fresh: bool },
    Confirm { seconds: u64 },
    DecodeLaunch(Seq<u8>),
    DecodeChunk(Seq<u8>),
    Extract,
    Launch { script: usize, arguments: Vec<String>, attachments: bool },
    Stream,
    Drain,
    Stop,
}

impl View for Next {
    type V = NextModel;

    open spec fn view(&self) -> NextModel {
        match *self {
            Next::Receive { seconds, fresh } => NextModel::Receive { seconds, fresh },
            Next::Confirm { seconds } => NextModel::Confirm { seconds },
            Next::DecodeLaunch(bytes) => NextModel::DecodeLaunch(bytes@),
            Next::DecodeChunk(bytes) => NextModel::DecodeChunk(bytes@),
            Next::Extract => NextModel::Extract,
            Next::Launch { script, arguments, attachments } => NextModel::Launch {
                script,
                arguments,
                attachments,
            },
            Next::Stream => NextModel::Stream,
            Next::Drain => NextModel::Drain,
            Next::Stop => NextModel::Stop,
        }
    }
}

/// What the application is to do, in this order: append to the upload, send a
/// binary frame, send a close frame, and go on.
pub struct Step {
    pub store: Option<Vec<u8>>,
    pub frame: Option<Vec<u8>>,
    /// Whether to report that the frame was not sent. Otherwise that does not
    /// matter.
    pub report_failure: bool,
    pub close: bool,
    pub next: Next,
}

/// What a step says to the client.
pub enum Saying {
    /// Nothing.
    Nothing,
    /// A message, sealed as the connection seals.
    Message(Seq<u8>),
    /// The confirmation of a handshake with this shared secret.
    Confirmation(Seq<u8>),
}

/// What the application is to do.
pub struct StepModel {
    pub store: Option<Seq<u8>>,
    pub say: Saying,
    pub report_failure: bool,
    pub close: bool,
    pub next: NextModel,
}

/// An optional byte string's contents.
pub open spec fn optional_bytes(bytes: Option<Vec<u8>>) -> Option<Seq<u8>> {
    match bytes {
        Some(bytes) => Some(bytes@),
        None => None,
    }
}

/// Whether `step` is what `plan` says, on a connection that is secured like
/// this when the step is made.
pub open spec fn carried_out(security: SecurityState, plan: StepModel, step: Step) -> bool {
    &&& optional_bytes(step.store) == plan.store
    &&& match plan.say {
        Saying::Nothing => step.frame is None,
        Saying::Message(message) => step.frame matches Some(frame) && carries(
            security,
            message,
            frame@,
        ),
        Saying::Confirmation(shared) => step.frame matches Some(frame)
            && crate::server::handshake::confirms(shared, frame@),
    }
    &&& step.report_failure == plan.report_failure
    &&& step.close == plan.close
    &&& step.next@ == plan.next
}

/// The state of a session.
pub struct SessionModel {
    pub protocol_version: u32,
    pub server_key: Option<Seq<u8>>,
    pub client: Client,
    pub security: SecurityState,
    pub phase: PhaseModel,
}

/// The message that says how a launch is getting on.
pub open spec fn status_message(status: TaskLaunchStatus) -> Seq<u8> {
    let envelope: TaskLaunchStatusResponseEnvelope = TaskLaunchStatusResponseEnvelope::Success {
        body: status,
    };
    vstd::utf8::encode_utf8(envelope.json())
}

/// The message that refuses a launch.
pub open spec fn refusal_message(error: ServerErrorResponse) -> Seq<u8> {
    let envelope: TaskLaunchStatusResponseEnvelope = TaskLaunchStatusResponseEnvelope::Failure {
        error,
    };
    vstd::utf8::encode_utf8(envelope.json())
}

/// The message that passes on what a script wrote, or how it ended.
pub open spec fn event_message(
    event: ServerTaskNotification<Timestamped<TaskOutput>, i32>,
) -> Seq<u8> {
    let envelope: TaskEventResponseEnvelope = TaskEventResponseEnvelope::Success { body: event };
    vstd::utf8::encode_utf8(envelope.json())
}

/// A session that goes on in another phase, with nothing to send.
pub open spec fn silently(
    session: SessionModel,
    phase: PhaseModel,
    next: NextModel,
) -> (SessionModel, StepModel) {
    (
        SessionModel { phase, ..session },
        StepModel { store: None, say: Saying::Nothing, report_failure: false, close: false, next },
    )
}

/// A session that ends with a close frame.
pub open spec fn closing(session: SessionModel) -> (SessionModel, StepModel) {
    (
        SessionModel { phase: PhaseModel::Done, ..session },
        StepModel {
            store: None,
            say: Saying::Nothing,
            report_failure: false,
            close: true,
            next: NextModel::Stop,
        },
    )
}

/// A session that says something and goes on in another phase.
pub open spec fn saying(
    session: SessionModel,
    message: Seq<u8>,
    phase: PhaseModel,
    next: NextModel,
) -> (SessionModel, StepModel) {
    (
        SessionModel {
            security: crate::api::handshake::after_sealing(session.security, message),
            phase,
            ..session
        },
        StepModel {
            store: None,
            say: Saying::Message(message),
            report_failure: false,
            close: false,
            next,
        },
    )
}

/// A session that refuses a launch, and ends with a close frame.
pub open spec fn refusing(session: SessionModel, error: ServerErrorResponse) -> (
    SessionModel,
    StepModel,
) {
    let (session, step) = saying(
        session,
        refusal_message(error),
        PhaseModel::Done,
        NextModel::Stop,
    );
    (session, StepModel { close: true, ..step })
}

/// A session that goes on with an upload: it asks for the next piece until as
/// much has come as was announced, and then has the upload extracted if its
/// digest is the announced one.
pub open spec fn uploading(session: SessionModel, job: Job, upload: UploadModel) -> (
    SessionModel,
    StepModel,
) {
    if upload.received.len() < upload.size {
        saying(
            session,
            status_message(
                TaskLaunchStatus::AwaitingFiles { offset: upload.received.len() as usize },
            ),
            PhaseModel::AwaitingChunk(job, upload),
            NextModel::Receive { seconds: FILE_CHUNK_TIMEOUT, fresh: true },
        )
    } else if outside::md5_digest(upload.received) == upload.hash {
        silently(session, PhaseModel::Extracting(job), NextModel::Extract)
    } else {
        refusing(session, ServerErrorResponse::CannotLaunchScript)
    }
}

/// The place of the first script with this name, where there is one.
pub open spec fn script_named(scripts: Seq<Script>, name: Seq<char>) -> Option<usize> {
    if exists|at: usize| crate::script::first_named(scripts, name, at as int) {
        Some(choose|at: usize| crate::script::first_named(scripts, name, at as int))
    } else {
        None
    }
}

/// What a launch request leads to.
pub open spec fn launching(session: SessionModel, request: StartTaskRequest) -> (
    SessionModel,
    StepModel,
) {
    match script_named(session.client.scripts@, request.script_name@) {
        None => refusing(session, ServerErrorResponse::ScriptNotFound),
        Some(script) => match request.file {
            None => silently(
                session,
                PhaseModel::Launching,
                NextModel::Launch { script, arguments: request.arguments, attachments: false },
            ),
            Some(file) => uploading(
                session,
                Job { script, arguments: request.arguments },
                UploadModel { size: file.size as int, hash: file.hash@, received: Seq::empty() },
            ),
        },
    }
}

/// What a piece of an upload leads to. One that does not start where the
/// upload stands ends the connection without a word.
pub open spec fn taking(
    session: SessionModel,
    job: Job,
    upload: UploadModel,
    chunk: FileChunk,
) -> (SessionModel, StepModel) {
    if chunk.offset != upload.received.len() {
        silently(session, PhaseModel::Done, NextModel::Stop)
    } else {
        let (session, step) = uploading(
            session,
            job,
            UploadModel { received: upload.received + chunk.data@, ..upload },
        );
        (session, StepModel { store: Some(chunk.data@), ..step })
    }
}

/// What a frame leads to while a message is awaited: keepalives do not count,
/// and do not win time either; anything but a binary frame that opens ends the
/// connection.
pub open spec fn receiving(
    session: SessionModel,
    reception: Reception,
    seconds: u64,
    decoding: PhaseModel,
    decode: spec_fn(Seq<u8>) -> NextModel,
) -> (SessionModel, StepModel) {
    match reception {
        Reception::Ping | Reception::Pong => silently(
            session,
            session.phase,
            NextModel::Receive { seconds, fresh: false },
        ),
        Reception::Binary(frame) => {
            let opened = SessionModel {
                security: crate::api::handshake::after_opening(session.security, frame@),
                ..session
            };
            match crate::api::handshake::opened_by(session.security, frame@) {
                Ok(message) => silently(opened, decoding, decode(message)),
                Err(_) => closing(opened),
            }
        },
        _ => closing(session),
    }
}

/// What the client's hello leads to.
pub open spec fn greeting(session: SessionModel, hello: Reception) -> (SessionModel, StepModel) {
    let key = session.server_key->0;
    if crate::server::handshake::hello_refused(key, hello) is Some {
        closing(session)
    } else {
        let shared = crate::server::handshake::handshake_secret(key, hello->Binary_0@);
        (
            SessionModel {
                security: SecurityState::Encrypted(
                    crate::server::handshake::confirmed_session(shared),
                ),
                phase: PhaseModel::Confirming,
                ..session
            },
            StepModel {
                store: None,
                say: Saying::Confirmation(shared),
                report_failure: false,
                close: false,
                next: NextModel::Confirm { seconds: HANDSHAKE_TIMEOUT },
            },
        )
    }
}

/// What an event leads to: the state of the session after it, and what the
/// application is to do. An event that the session does not wait for ends the
/// connection.
pub open spec fn transition(session: SessionModel, event: SessionEvent) -> (
    SessionModel,
    StepModel,
) {
    match (session.phase, event) {
        (PhaseModel::AwaitingHello, SessionEvent::Received(hello)) => greeting(session, hello),
        (PhaseModel::Confirming, SessionEvent::ConfirmSent(sending)) => if sending is Sent {
            silently(
                session,
                PhaseModel::AwaitingLaunch,
                NextModel::Receive { seconds: LAUNCH_MESSAGE_TIMEOUT, fresh: true },
            )
        } else {
            closing(session)
        },
        (PhaseModel::AwaitingLaunch, SessionEvent::Received(reception)) => receiving(
            session,
            reception,
            LAUNCH_MESSAGE_TIMEOUT,
            PhaseModel::DecodingLaunch,
            |message: Seq<u8>| NextModel::DecodeLaunch(message),
        ),
        (PhaseModel::DecodingLaunch, SessionEvent::LaunchDecoded(request)) => match request {
            Some(request) => launching(session, request),
            None => closing(session),
        },
        (PhaseModel::AwaitingChunk(job, upload), SessionEvent::Received(reception)) => receiving(
            session,
            reception,
            FILE_CHUNK_TIMEOUT,
            PhaseModel::DecodingChunk(job, upload),
            |message: Seq<u8>| NextModel::DecodeChunk(message),
        ),
        (PhaseModel::DecodingChunk(job, upload), SessionEvent::ChunkDecoded(chunk)) => match chunk {
            Some(chunk) => taking(session, job, upload, chunk),
            None => closing(session),
        },
        (PhaseModel::Extracting(job), SessionEvent::Extracted(extracted)) => if extracted {
            silently(
                session,
                PhaseModel::Launching,
                NextModel::Launch {
                    script: job.script,
                    arguments: job.arguments,
                    attachments: true,
                },
            )
        } else {
            refusing(session, ServerErrorResponse::CannotLaunchScript)
        },
        (PhaseModel::Launching, SessionEvent::Launched(started_on)) => saying(
            session,
            status_message(TaskLaunchStatus::Launched { started_on }),
            PhaseModel::Running,
            NextModel::Stream,
        ),
        (PhaseModel::Launching, SessionEvent::LaunchFailed) => refusing(
            session,
            ServerErrorResponse::CannotLaunchScript,
        ),
        (PhaseModel::Running, SessionEvent::Output(output)) => {
            let (session, step) = saying(
                session,
                event_message(ServerTaskNotification::Output(output)),
                PhaseModel::Running,
                NextModel::Stream,
            );
            (session, StepModel { report_failure: true, ..step })
        },
        (PhaseModel::Running, SessionEvent::Finished(code)) => silently(
            session,
            PhaseModel::Draining(code),
            NextModel::Drain,
        ),
        (PhaseModel::Draining(code), SessionEvent::Output(output)) => {
            let (session, step) = saying(
                session,
                event_message(ServerTaskNotification::Output(output)),
                PhaseModel::Draining(code),
                NextModel::Drain,
            );
            (session, StepModel { report_failure: true, ..step })
        },
        (PhaseModel::Draining(code), SessionEvent::NoMoreOutput) => {
            let (session, step) = saying(
                session,
                event_message(ServerTaskNotification::ExitCode(code)),
                PhaseModel::Closing,
                NextModel::Receive { seconds: CLOSE_TIMEOUT, fresh: true },
            );
            (session, StepModel { close: true, ..step })
        },
        (PhaseModel::Running, SessionEvent::SendFailed) => silently(
            session,
            PhaseModel::Done,
            NextModel::Stop,
        ),
        (PhaseModel::Draining(_), SessionEvent::SendFailed) => silently(
            session,
            PhaseModel::Done,
            NextModel::Stop,
        ),
        (PhaseModel::Closing, SessionEvent::Received(reception)) => match reception {
            Reception::Close
            | Reception::Failed(_)
            | Reception::Disconnected
            | Reception::TimedOut => silently(session, PhaseModel::Done, NextModel::Stop),
            _ => silently(
                session,
                PhaseModel::Closing,
                NextModel::Receive { seconds: CLOSE_TIMEOUT, fresh: false },
            ),
        },
        _ => closing(session),
    }
}

/// The connection of a session: who is at the other end, and how its bytes are
/// secured.
struct Connection<'a> {
    client: Client,
    protocol_version: u32,
    server_key: Option<&'a ServerStaticKey>,
    security: ConnectionSecurity,
}

impl<'a> Connection<'a> {
    spec fn model(&self, phase: Phase) -> SessionModel {
        SessionModel {
            protocol_version: self.protocol_version,
            server_key: match self.server_key {
                Some(key) => Some(key.bytes()),
                None => None,
            },
            client: self.client,
            security: self.security@,
            phase: phase@,
        }
    }
}

/// Whether an upload under way is less than what is due.
pub open spec fn is_due(upload: UploadModel) -> bool {
    upload.received.len() < upload.size <= usize::MAX
}

/// What holds of every session: with the encrypted protocol version there is
/// a server key, and everything after the hello is encrypted; with the others
/// nothing is; a script that is asked for is one of the client's; and an
/// upload is awaited only while some of it is due.
pub open spec fn well_formed(session: SessionModel) -> bool {
    let encrypted = session.protocol_version == PROTOCOL_VERSION_ENCRYPTED_V2;
    &&& encrypted ==> session.server_key is Some
    &&& session.security is Encrypted ==> encrypted
    &&& match session.phase {
        PhaseModel::AwaitingHello => encrypted && session.security is Plaintext,
        PhaseModel::Done => true,
        PhaseModel::Confirming => session.security is Encrypted,
        PhaseModel::AwaitingChunk(job, upload) | PhaseModel::DecodingChunk(job, upload) => {
            &&& encrypted ==> session.security is Encrypted
            &&& job.script < session.client.scripts@.len()
            &&& is_due(upload)
        },
        PhaseModel::Extracting(job) => {
            &&& encrypted ==> session.security is Encrypted
            &&& job.script < session.client.scripts@.len()
        },
        _ => encrypted ==> session.security is Encrypted,
    }
}

/// A connection on which a client launches a script.
pub struct TaskSession<'a> {
    connection: Connection<'a>,
    phase: Phase,
}

spec fn counted(phase: Phase) -> bool {
    match phase {
        Phase::AwaitingChunk(_, upload) | Phase::DecodingChunk(_, upload) => upload.received
            == outside::md5_absorbed(upload.hasher).len(),
        _ => true,
    }
}

impl<'a> View for TaskSession<'a> {
    type V = SessionModel;

    closed spec fn view(&self) -> SessionModel {
        self.connection.model(self.phase)
    }
}

/// The state in which a session begins.
pub open spec fn opening(
    protocol_version: u32,
    server_key: Option<Seq<u8>>,
    client: Client,
) -> SessionModel {
    SessionModel {
        protocol_version,
        server_key,
        client,
        security: SecurityState::Plaintext,
        phase: if protocol_version == PROTOCOL_VERSION_ENCRYPTED_V2 {
            PhaseModel::AwaitingHello
        } else {
            PhaseModel::AwaitingLaunch
        },
    }
}

impl<'a> TaskSession<'a> {
    #[verifier::type_invariant]
    spec fn is_well_formed(self) -> bool {
        &&& well_formed(self@)
        &&& counted(self.phase)
    }
}

/// A session with the step that leads to it.
type Outcome<'a> = (TaskSession<'a>, Step);

impl<'a> Connection<'a> {
    /// The state of the session, but for what it waits for.
    spec fn idle(&self) -> SessionModel {
        self.model(Phase::Done)
    }

    fn silently(self, phase: Phase, next: Next) -> (r: Outcome<'a>)
        requires
            well_formed(self.model(phase)),
            counted(phase),
        ensures
            r.0@ == silently(self.idle(), phase@, next@).0,
            carried_out(self.security@, silently(self.idle(), phase@, next@).1, r.1),
    {
        let step = Step { store: None, frame: None, report_failure: false, close: false, next };
        (TaskSession { connection: self, phase }, step)
    }

    fn closing(self) -> (r: Outcome<'a>)
        requires
            well_formed(self.idle()),
        ensures
            r.0@ == closing(self.idle()).0,
            carried_out(self.security@, closing(self.idle()).1, r.1),
    {
        let step = Step {
            store: None,
            frame: None,
            report_failure: false,
            close: true,
            next: Next::Stop,
        };
        (TaskSession { connection: self, phase: Phase::Done }, step)
    }

    fn saying(self, message: Vec<u8>, phase: Phase, next: Next) -> (r: Outcome<'a>)
        requires
            well_formed(self.model(phase)),
            counted(phase),
        ensures
            r.0@ == saying(self.idle(), message@, phase@, next@).0,
            carried_out(
                self.security@,
                saying(self.idle(), message@, phase@, next@).1,
                r.1,
            ),
    {
        let mut connection = self;
        let frame = seal_or_blank(&mut connection.security, message.as_slice());
        let step = Step {
            store: None,
            frame: Some(frame),
            report_failure: false,
            close: false,
            next,
        };
        (TaskSession { connection, phase }, step)
    }

    fn refusing(self, error: ServerErrorResponse) -> (r: Outcome<'a>)
        requires
            well_formed(self.idle()),
        ensures
            r.0@ == refusing(self.idle(), error).0,
            carried_out(self.security@, refusing(self.idle(), error).1, r.1),
    {
        let envelope: TaskLaunchStatusResponseEnvelope = TaskLaunchStatusResponseEnvelope::Failure {
            error,
        };
        let (session, step) = self.saying(envelope.into_bytes(), Phase::Done, Next::Stop);
        (session, Step { close: true, ..step })
    }

    fn uploading(self, job: Job, upload: Upload) -> (r: Outcome<'a>)
        requires
            well_formed(self.idle()),
            self.idle().protocol_version == PROTOCOL_VERSION_ENCRYPTED_V2
                ==> self.idle().security is Encrypted,
            job.script < self.client.scripts@.len(),
            upload.received < upload.size ==> upload.received == upload@.received.len(),
            upload.received >= upload.size ==> upload@.received.len() >= upload.size,
        ensures
            r.0@ == uploading(self.idle(), job, upload@).0,
            carried_out(self.security@, uploading(self.idle(), job, upload@).1, r.1),
    {
        if upload.received < upload.size {
            let envelope: TaskLaunchStatusResponseEnvelope =
                TaskLaunchStatusResponseEnvelope::Success {
                body: TaskLaunchStatus::AwaitingFiles { offset: upload.received },
            };
            self.saying(
                envelope.into_bytes(),
                Phase::AwaitingChunk(job, upload),
                Next::Receive { seconds: FILE_CHUNK_TIMEOUT, fresh: true },
            )
        } else {
            let digest = outside::md5_finalize(upload.hasher);
            if same_bytes(digest.as_slice(), upload.hash.as_slice()) {
                self.silently(Phase::Extracting(job), Next::Extract)
            } else {
                self.refusing(ServerErrorResponse::CannotLaunchScript)
            }
        }
    }

    fn launching(self, request: StartTaskRequest) -> (r: Outcome<'a>)
        requires
            well_formed(self.idle()),
            self.idle().protocol_version == PROTOCOL_VERSION_ENCRYPTED_V2
                ==> self.idle().security is Encrypted,
        ensures
            r.0@ == launching(self.idle(), request).0,
            carried_out(self.security@, launching(self.idle(), request).1, r.1),
    {
        let found = find_script(&self.client.scripts, &request.script_name);
        let script: usize = match found {
            Some(script) => {
                proof {
                    let scripts = self.client.scripts@;
                    let name = request.script_name@;
                    assert(crate::script::first_named(scripts, name, script as int));
                    let chosen = script_named(scripts, name)->0;
                    assert(crate::script::first_named(scripts, name, chosen as int));
                    assert(chosen == script);
                }
                script
            },
            None => {
                return self.refusing(ServerErrorResponse::ScriptNotFound);
            },
        };
        match request.file {
            None => self.silently(
                Phase::Launching,
                Next::Launch { script, arguments: request.arguments, attachments: false },
            ),
            Some(file) => self.uploading(
                Job { script, arguments: request.arguments },
                Upload {
                    size: file.size,
                    hash: file.hash,
                    received: 0,
                    hasher: outside::md5_new(),
                },
            ),
        }
    }

    fn taking(self, job: Job, upload: Upload, chunk: FileChunk) -> (r: Outcome<'a>)
        requires
            well_formed(self.model(Phase::DecodingChunk(job, upload))),
            counted(Phase::DecodingChunk(job, upload)),
        ensures
            r.0@ == taking(self.idle(), job, upload@, chunk).0,
            carried_out(self.security@, taking(self.idle(), job, upload@, chunk).1, r.1),
    {
        if chunk.offset != upload.received {
            return self.silently(Phase::Done, Next::Stop);
        }
        let mut upload = upload;
        let length: usize = chunk.data.len();
        outside::md5_consume(&mut upload.hasher, chunk.data.as_slice());
        upload.received = if length > usize::MAX - upload.received {
            usize::MAX
        } else {
            upload.received + length
        };
        let (session, step) = self.uploading(job, upload);
        (session, Step { store: Some(chunk.data), ..step })
    }
}

impl<'a> TaskSession<'a> {
    /// Begins a session with an authenticated client that speaks this protocol
    /// version. A server that accepted the encrypted version has a key.
    pub fn open(
        client: Client,
        protocol_version: u32,
        server_key: Option<&'a ServerStaticKey>,
    ) -> (r: (TaskSession<'a>, Step))
        requires
            protocol_version == PROTOCOL_VERSION_ENCRYPTED_V2 ==> server_key is Some,
        ensures
            r.0@ == opening(
                protocol_version,
                match server_key {
                    Some(key) => Some(key.bytes()),
                    None => None,
                },
                client,
            ),
            r.1 == (Step {
                store: None,
                frame: None,
                report_failure: false,
                close: false,
                next: Next::Receive {
                    seconds: if protocol_version == PROTOCOL_VERSION_ENCRYPTED_V2 {
                        HANDSHAKE_TIMEOUT
                    } else {
                        LAUNCH_MESSAGE_TIMEOUT
                    },
                    fresh: true,
                },
            }),
    {
        let connection = Connection {
            client,
            protocol_version,
            server_key,
            security: ConnectionSecurity::Plaintext,
        };
        if protocol_version == PROTOCOL_VERSION_ENCRYPTED_V2 {
            connection.silently(
                Phase::AwaitingHello,
                Next::Receive { seconds: HANDSHAKE_TIMEOUT, fresh: true },
            )
        } else {
            connection.silently(
                Phase::AwaitingLaunch,
                Next::Receive { seconds: LAUNCH_MESSAGE_TIMEOUT, fresh: true },
            )
        }
    }

    /// The client at the other end.
    pub fn client(&self) -> (client: &Client)
        ensures
            *client == self@.client,
    {
        &self.connection.client
    }

    /// Takes what came of the last step, and says what to do next.
    pub fn step(self, event: SessionEvent) -> (r: (TaskSession<'a>, Step))
        ensures
            r.0@ == transition(self@, event).0,
            carried_out(self@.security, transition(self@, event).1, r.1),
    {
        proof {
            use_type_invariant(&self);
        }
        let TaskSession { connection, phase } = self;
        match (phase, event) {
            (Phase::AwaitingHello, SessionEvent::Received(hello)) => connection.greeting(hello),
            (Phase::Confirming, SessionEvent::ConfirmSent(sending)) => match confirmation_sent(
                sending,
            ) {
                Ok(()) => connection.silently(
                    Phase::AwaitingLaunch,
                    Next::Receive { seconds: LAUNCH_MESSAGE_TIMEOUT, fresh: true },
                ),
                Err(_) => connection.closing(),
            },
            (Phase::AwaitingLaunch, SessionEvent::Received(reception)) => match reception {
                Reception::Ping | Reception::Pong => connection.silently(
                    Phase::AwaitingLaunch,
                    Next::Receive { seconds: LAUNCH_MESSAGE_TIMEOUT, fresh: false },
                ),
                Reception::Binary(frame) => {
                    let mut connection = connection;
                    match connection.security.open(frame.as_slice()) {
                        Ok(message) => connection.silently(
                            Phase::DecodingLaunch,
                            Next::DecodeLaunch(message),
                        ),
                        Err(_) => connection.closing(),
                    }
                },
                _ => connection.closing(),
            },
            (Phase::DecodingLaunch, SessionEvent::LaunchDecoded(request)) => match request {
                Some(request) => connection.launching(request),
                None => connection.closing(),
            },
            (Phase::AwaitingChunk(job, upload), SessionEvent::Received(reception)) =>
            match reception {
                Reception::Ping | Reception::Pong => connection.silently(
                    Phase::AwaitingChunk(job, upload),
                    Next::Receive { seconds: FILE_CHUNK_TIMEOUT, fresh: false },
                ),
                Reception::Binary(frame) => {
                    let mut connection = connection;
                    match connection.security.open(frame.as_slice()) {
                        Ok(message) => connection.silently(
                            Phase::DecodingChunk(job, upload),
                            Next::DecodeChunk(message),
                        ),
                        Err(_) => connection.closing(),
                    }
                },
                _ => connection.closing(),
            },
            (Phase::DecodingChunk(job, upload), SessionEvent::ChunkDecoded(chunk)) => match chunk {
                Some(chunk) => connection.taking(job, upload, chunk),
                None => connection.closing(),
            },
            (Phase::Extracting(job), SessionEvent::Extracted(extracted)) => {
                if extracted {
                    connection.silently(
                        Phase::Launching,
                        Next::Launch {
                            script: job.script,
                            arguments: job.arguments,
                            attachments: true,
                        },
                    )
                } else {
                    connection.refusing(ServerErrorResponse::CannotLaunchScript)
                }
            },
            (Phase::Launching, SessionEvent::Launched(started_on)) => {
                let envelope: TaskLaunchStatusResponseEnvelope =
                    TaskLaunchStatusResponseEnvelope::Success {
                    body: TaskLaunchStatus::Launched { started_on },
                };
                connection.saying(envelope.into_bytes(), Phase::Running, Next::Stream)
            },
            (Phase::Launching, SessionEvent::LaunchFailed) => connection.refusing(
                ServerErrorResponse::CannotLaunchScript,
            ),
            (Phase::Running, SessionEvent::Output(output)) => {
                let (session, step) = connection.reporting(
                    ServerTaskNotification::Output(output),
                    Phase::Running,
                    Next::Stream,
                );
                (session, Step { report_failure: true, ..step })
            },
            (Phase::Running, SessionEvent::Finished(code)) => connection.silently(
                Phase::Draining(code),
                Next::Drain,
            ),
            (Phase::Draining(code), SessionEvent::Output(output)) => {
                let (session, step) = connection.reporting(
                    ServerTaskNotification::Output(output),
                    Phase::Draining(code),
                    Next::Drain,
                );
                (session, Step { report_failure: true, ..step })
            },
            (Phase::Draining(code), SessionEvent::NoMoreOutput) => {
                let (session, step) = connection.reporting(
                    ServerTaskNotification::ExitCode(code),
                    Phase::Closing,
                    Next::Receive { seconds: CLOSE_TIMEOUT, fresh: true },
                );
                (session, Step { close: true, ..step })
            },
            (Phase::Running, SessionEvent::SendFailed) => connection.silently(
                Phase::Done,
                Next::Stop,
            ),
            (Phase::Draining(_), SessionEvent::SendFailed) => connection.silently(
                Phase::Done,
                Next::Stop,
            ),
            (Phase::Closing, SessionEvent::Received(reception)) => match reception {
                Reception::Close
                | Reception::Failed(_)
                | Reception::Disconnected
                | Reception::TimedOut => connection.silently(Phase::Done, Next::Stop),
                _ => connection.silently(
                    Phase::Closing,
                    Next::Receive { seconds: CLOSE_TIMEOUT, fresh: false },
                ),
            },
            _ => connection.closing(),
        }
    }
}

impl<'a> Connection<'a> {
    fn reporting(
        self,
        event: ServerTaskNotification<Timestamped<TaskOutput>, i32>,
        phase: Phase,
        next: Next,
    ) -> (r: Outcome<'a>)
        requires
            well_formed(self.model(phase)),
            counted(phase),
        ensures
            r.0@ == saying(self.idle(), event_message(event), phase@, next@).0,
            carried_out(
                self.security@,
                saying(self.idle(), event_message(event), phase@, next@).1,
                r.1,
            ),
    {
        let envelope: TaskEventResponseEnvelope = TaskEventResponseEnvelope::Success {
            body: event,
        };
        self.saying(envelope.into_bytes(), phase, next)
    }

    fn greeting(self, hello: Reception) -> (r: Outcome<'a>)
        requires
            well_formed(self.model(Phase::AwaitingHello)),
        ensures
            r.0@ == greeting(self.idle(), hello).0,
            carried_out(self.security@, greeting(self.idle(), hello).1, r.1),
    {
        let mut connection = self;
        match establish_security(connection.protocol_version, connection.server_key, &hello) {
            Ok(established) => {
                connection.security = established.security;
                let step = Step {
                    store: None,
                    frame: match established.confirmation {
                        Some(frame) => Some(slice_to_vec(frame.as_slice())),
                        None => None,
                    },
                    report_failure: false,
                    close: false,
                    next: Next::Confirm { seconds: HANDSHAKE_TIMEOUT },
                };
                (TaskSession { connection, phase: Phase::Confirming }, step)
            },
            Err(_) => connection.closing(),
        }
    }
}

/// A well-formed session stays so whatever happens.
pub proof fn law_sessions_stay_well_formed(session: SessionModel, event: SessionEvent)
    requires
        well_formed(session),
    ensures
        well_formed(transition(session, event).0),
{
    if let (PhaseModel::DecodingLaunch, SessionEvent::LaunchDecoded(Some(request))) = (
        session.phase,
        event,
    ) {
        if script_named(session.client.scripts@, request.script_name@) is Some {
            let chosen = script_named(session.client.scripts@, request.script_name@)->0;
            assert(crate::script::first_named(
                session.client.scripts@,
                request.script_name@,
                chosen as int,
            ));
        }
    }
}

/// A session begins well-formed.
pub proof fn law_sessions_begin_well_formed(
    protocol_version: u32,
    server_key: Option<Seq<u8>>,
    client: Client,
)
    requires
        protocol_version == PROTOCOL_VERSION_ENCRYPTED_V2 ==> server_key is Some,
    ensures
        well_formed(opening(protocol_version, server_key, client)),
{
}

/// On a connection of the encrypted protocol version every message is sealed:
/// what is sent for it is its sealed form or, where it cannot be sealed, an
/// empty frame.
pub proof fn law_nothing_leaves_unsealed(
    session: SessionModel,
    event: SessionEvent,
    step: Step,
    message: Seq<u8>,
)
    requires
        well_formed(session),
        session.protocol_version == PROTOCOL_VERSION_ENCRYPTED_V2,
        carried_out(session.security, transition(session, event).1, step),
        transition(session, event).1.say == Saying::Message(message),
    ensures
        session.security matches SecurityState::Encrypted(keys) && step.frame matches Some(frame)
            && (match crate::api::handshake::seal_outcome(keys.send, message, Seq::empty()) {
            Ok(sealed) => frame@ == sealed,
            Err(_) => frame@ == Seq::<u8>::empty(),
        }),
{
}

/// What an encrypted session says, a client in step with it reads; and they
/// are in step afterwards.
pub proof fn law_client_reads_what_the_session_says(
    session: SessionModel,
    event: SessionEvent,
    step: Step,
    message: Seq<u8>,
    client: crate::api::handshake::SessionState,
)
    requires
        session.security matches SecurityState::Encrypted(keys)
            && crate::api::handshake::in_step(keys, client),
        carried_out(session.security, transition(session, event).1, step),
        transition(session, event).1.say == Saying::Message(message),
        crate::api::handshake::sealed_by(session.security, message) is Ok,
    ensures
        step.frame matches Some(frame) && {
            &&& crate::api::handshake::opened_by(SecurityState::Encrypted(client), frame@) == Ok::<
                Seq<u8>,
                HandshakeError,
            >(message)
            &&& transition(session, event).0.security matches SecurityState::Encrypted(after)
            &&& crate::api::handshake::after_opening(
                SecurityState::Encrypted(client),
                frame@,
            ) matches SecurityState::Encrypted(client_after)
            &&& crate::api::handshake::in_step(after, client_after)
        },
{
    let keys = session.security->Encrypted_0;
    crate::api::handshake::law_encrypted_message_arrives(keys, client, message, step.frame->0@);
}

/// What a client in step with an encrypted session sends, the session takes
/// as the message to decode, be it a launch request or a piece of an upload;
/// and they are in step afterwards.
pub proof fn law_session_reads_what_the_client_says(
    session: SessionModel,
    client: crate::api::handshake::SessionState,
    message: Seq<u8>,
    frame: Vec<u8>,
)
    requires
        session.phase is AwaitingLaunch || session.phase is AwaitingChunk,
        session.security matches SecurityState::Encrypted(keys)
            && crate::api::handshake::in_step(keys, client),
        crate::api::handshake::sealed_by(SecurityState::Encrypted(client), message) == Ok::<
            Seq<u8>,
            HandshakeError,
        >(frame@),
        crate::api::handshake::frame_of(client.send, message, Seq::empty(), frame@),
    ensures
        ({
            let (after, step) = transition(
                session,
                SessionEvent::Received(Reception::Binary(frame)),
            );
            &&& session.phase is AwaitingLaunch ==> step.next == NextModel::DecodeLaunch(message)
            &&& session.phase is AwaitingChunk ==> step.next == NextModel::DecodeChunk(message)
            &&& after.security matches SecurityState::Encrypted(keys_after)
            &&& crate::api::handshake::after_sealing(
                SecurityState::Encrypted(client),
                message,
            ) matches SecurityState::Encrypted(client_after)
            &&& crate::api::handshake::in_step(keys_after, client_after)
        }),
{
    let keys = session.security->Encrypted_0;
    crate::api::handshake::law_encrypted_message_arrives(client, keys, message, frame@);
}

/// A request for a script that the client does not have is answered so, and
/// the connection is closed.
pub proof fn law_unknown_script_is_refused(session: SessionModel, request: StartTaskRequest)
    requires
        session.phase is DecodingLaunch,
        forall|i: int|
            0 <= i < session.client.scripts@.len() ==> (#[trigger] session.client.scripts@[i]).name@
                != request.script_name@,
    ensures
        ({
            let (after, step) = transition(session, SessionEvent::LaunchDecoded(Some(request)));
            &&& step.say == Saying::Message(refusal_message(ServerErrorResponse::ScriptNotFound))
            &&& step.close
            &&& step.next is Stop
            &&& after.phase is Done
        }),
{
}

/// A script is started only if it is one of the client's; the one that was
/// asked for by name, or the one of a job whose upload was extracted.
pub proof fn law_only_the_clients_scripts_are_launched(
    session: SessionModel,
    event: SessionEvent,
    script: usize,
    arguments: Vec<String>,
    attachments: bool,
)
    requires
        well_formed(session),
        transition(session, event).1.next == (NextModel::Launch { script, arguments, attachments }),
    ensures
        script < session.client.scripts@.len(),
        attachments ==> session.phase == PhaseModel::Extracting(Job { script, arguments }) && event
            == SessionEvent::Extracted(true),
        !attachments ==> (event matches SessionEvent::LaunchDecoded(Some(request))
            && crate::script::first_named(session.client.scripts@, request.script_name@, script as int)
            && request.file is None && request.arguments == arguments),
{
    if let (PhaseModel::DecodingLaunch, SessionEvent::LaunchDecoded(Some(request))) = (
        session.phase,
        event,
    ) {
        if script_named(session.client.scripts@, request.script_name@) is Some {
            let chosen = script_named(session.client.scripts@, request.script_name@)->0;
            assert(crate::script::first_named(
                session.client.scripts@,
                request.script_name@,
                chosen as int,
            ));
        }
    }
}

/// An upload is extracted only if all of it came and its digest is the
/// announced one.
pub proof fn law_only_verified_uploads_are_extracted(session: SessionModel, event: SessionEvent)
    requires
        transition(session, event).1.next is Extract,
    ensures
        match event {
            SessionEvent::LaunchDecoded(Some(request)) => request.file matches Some(file)
                && file.size == 0 && outside::md5_digest(Seq::empty()) == file.hash@,
            SessionEvent::ChunkDecoded(Some(chunk)) => session.phase
                matches PhaseModel::DecodingChunk(_, upload) && upload.size
                <= upload.received.len() + chunk.data@.len() && outside::md5_digest(
                upload.received + chunk.data@,
            ) == upload.hash,
            _ => false,
        },
{
}

/// A launch that fails, be it that the upload is not what was announced, that
/// it cannot be extracted or that the script cannot be started, is answered
/// so, and the connection is closed.
pub proof fn law_failed_launch_is_refused(session: SessionModel, event: SessionEvent)
    requires
        ({
            ||| session.phase is Extracting && event == SessionEvent::Extracted(false)
            ||| session.phase is Launching && event is LaunchFailed
            ||| session.phase matches PhaseModel::DecodingChunk(_, upload) && event
                matches SessionEvent::ChunkDecoded(Some(chunk)) && chunk.offset
                == upload.received.len() && upload.size <= upload.received.len() + chunk.data@.len()
                && outside::md5_digest(upload.received + chunk.data@) != upload.hash
        }),
    ensures
        ({
            let (after, step) = transition(session, event);
            &&& step.say == Saying::Message(
                refusal_message(ServerErrorResponse::CannotLaunchScript),
            )
            &&& step.close
            &&& step.next is Stop
            &&& after.phase is Done
        }),
{
}

/// A keepalive while a message is awaited changes nothing, and the wait goes
/// on with the time that is left.
pub proof fn law_keepalives_win_no_time(session: SessionModel, keepalive: Reception)
    requires
        session.phase is AwaitingLaunch || session.phase is AwaitingChunk,
        keepalive is Ping || keepalive is Pong,
    ensures
        ({
            let (after, step) = transition(session, SessionEvent::Received(keepalive));
            &&& after == session
            &&& step.say is Nothing
            &&& !step.close
            &&& step.next matches NextModel::Receive { fresh: false, .. }
        }),
{
}

/// A client that lets the time for its hello, its launch request or a piece of
/// its upload pass is closed.
pub proof fn law_idle_clients_are_closed(session: SessionModel)
    requires
        session.phase is AwaitingHello || session.phase is AwaitingLaunch || session.phase
            is AwaitingChunk,
    ensures
        ({
            let (after, step) = transition(session, SessionEvent::Received(Reception::TimedOut));
            &&& step.say is Nothing
            &&& step.close
            &&& step.next is Stop
            &&& after.phase is Done
        }),
{
}

/// A piece that does not start where the upload stands ends the connection,
/// without an answer.
pub proof fn law_misplaced_chunk_ends_the_connection(
    session: SessionModel,
    job: Job,
    upload: UploadModel,
    chunk: FileChunk,
)
    requires
        session.phase == PhaseModel::DecodingChunk(job, upload),
        chunk.offset != upload.received.len(),
    ensures
        ({
            let (after, step) = transition(session, SessionEvent::ChunkDecoded(Some(chunk)));
            &&& step.store is None
            &&& step.say is Nothing
            &&& !step.close
            &&& step.next is Stop
            &&& after.phase is Done
        }),
{
}

/// The exit code is told once all output has been passed on, and with it the
/// connection is closed.
pub proof fn law_exit_code_comes_last(session: SessionModel, event: SessionEvent)
    requires
        transition(session, event).0.phase is Closing,
        session.phase !is Closing,
    ensures
        session.phase matches PhaseModel::Draining(code) && event is NoMoreOutput && transition(
            session,
            event,
        ).1.say == Saying::Message(event_message(ServerTaskNotification::ExitCode(code)))
            && transition(session, event).1.close,
{
}

/// Once the connection is closing or done, nothing is said any more, and it
/// stays so.
pub proof fn law_nothing_is_said_after_the_end(session: SessionModel, event: SessionEvent)
    requires
        session.phase is Closing || session.phase is Done,
    ensures
        transition(session, event).1.say is Nothing,
        transition(session, event).0.phase is Closing || transition(session, event).0.phase is Done,
{
}

/// While a script runs, and after its end, every line that it wrote is passed
/// on as it came.
pub proof fn law_output_is_passed_on(session: SessionModel, output: Timestamped<TaskOutput>)
    requires
        session.phase is Running || session.phase is Draining,
    ensures
        ({
            let (after, step) = transition(session, SessionEvent::Output(output));
            &&& step.say == Saying::Message(event_message(ServerTaskNotification::Output(output)))
            &&& !step.close
            &&& after.phase == session.phase
        }),
{
}

/// A launch request that announces a file leads to its upload: the server asks
/// for the file from its start or, where it is empty, goes on to extract it.
pub proof fn law_announced_file_is_asked_for(
    session: SessionModel,
    request: StartTaskRequest,
    script: usize,
    file: Seq<u8>,
)
    requires
        session.phase is DecodingLaunch,
        crate::script::first_named(
            session.client.scripts@,
            request.script_name@,
            script as int,
        ),
        request.file matches Some(announced) && announced.size == file.len() && announced.hash@
            == outside::md5_digest(file),
    ensures
        ({
            let (after, step) = transition(session, SessionEvent::LaunchDecoded(Some(request)));
            let job = Job { script, arguments: request.arguments };
            &&& file.len() > 0 ==> {
                &&& after.phase == PhaseModel::AwaitingChunk(
                    job,
                    UploadModel {
                        size: file.len() as int,
                        hash: outside::md5_digest(file),
                        received: Seq::empty(),
                    },
                )
                &&& step.say == Saying::Message(
                    status_message(TaskLaunchStatus::AwaitingFiles { offset: 0 }),
                )
            }
            &&& file.len() == 0 ==> {
                &&& after.phase == PhaseModel::Extracting(job)
                &&& step.next is Extract
            }
        }),
{
    let chosen = script_named(session.client.scripts@, request.script_name@)->0;
    assert(crate::script::first_named(
        session.client.scripts@,
        request.script_name@,
        chosen as int,
    ));
    assert(chosen == script);
    if file.len() == 0 {
        assert(file =~= Seq::<u8>::empty());
    }
}

/// A piece of a file, sent where the upload stands, brings the upload on: the
/// server asks for what follows it, or, with the last piece, has the file
/// extracted.
pub proof fn law_chunk_brings_the_upload_on(
    session: SessionModel,
    job: Job,
    upload: UploadModel,
    file: Seq<u8>,
    chunk: FileChunk,
)
    requires
        session.phase == PhaseModel::DecodingChunk(job, upload),
        upload.size == file.len(),
        upload.hash == outside::md5_digest(file),
        upload.received == file.subrange(0, upload.received.len() as int),
        upload.received.len() + chunk.data@.len() <= file.len(),
        chunk.offset == upload.received.len(),
        chunk.data@ == file.subrange(
            chunk.offset as int,
            chunk.offset + chunk.data@.len(),
        ),
    ensures
        ({
            let (after, step) = transition(session, SessionEvent::ChunkDecoded(Some(chunk)));
            let end = chunk.offset + chunk.data@.len();
            &&& step.store == Some(chunk.data@)
            &&& end < file.len() ==> {
                &&& after.phase == PhaseModel::AwaitingChunk(
                    job,
                    UploadModel { received: file.subrange(0, end), ..upload },
                )
                &&& step.say == Saying::Message(
                    status_message(TaskLaunchStatus::AwaitingFiles { offset: end as usize }),
                )
            }
            &&& end == file.len() ==> {
                &&& after.phase == PhaseModel::Extracting(job)
                &&& step.next is Extract
            }
        }),
{
    let end = chunk.offset + chunk.data@.len();
    assert(upload.received + chunk.data@ =~= file.subrange(0, end));
    assert(file.subrange(0, file.len() as int) =~= file);
}

/// On a connection of any other protocol version than the encrypted one a
/// message is sent as it is.
pub proof fn law_other_versions_speak_plainly(
    session: SessionModel,
    event: SessionEvent,
    step: Step,
    message: Seq<u8>,
)
    requires
        well_formed(session),
        session.protocol_version != PROTOCOL_VERSION_ENCRYPTED_V2,
        carried_out(session.security, transition(session, event).1, step),
        transition(session, event).1.say == Saying::Message(message),
    ensures
        step.frame matches Some(frame) && frame@ == message,
        transition(session, event).0.security is Plaintext,
{
}

/// Whether the server has an encryption key makes no difference to a client
/// that speaks any other protocol version than the encrypted one.
pub proof fn law_encryption_is_opt_in(
    session: SessionModel,
    event: SessionEvent,
    server_key: Option<Seq<u8>>,
)
    requires
        well_formed(session),
        session.protocol_version != PROTOCOL_VERSION_ENCRYPTED_V2,
    ensures
        ({
            let other = SessionModel { server_key, ..session };
            &&& transition(other, event).1 == transition(session, event).1
            &&& transition(other, event).0 == SessionModel {
                server_key,
                ..transition(session, event).0
            }
        }),
{
}

} // verus!
