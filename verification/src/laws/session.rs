//! A session, as the client at the other end and the application see it: what is
//! sent, what is stored, and what is to be done next.

use crate::api::handshake::{CipherState, SecurityState, SessionState};
use crate::api::{ServerErrorResponse, ServerTaskNotification, StartTaskRequest, TaskLaunchStatus};
use crate::api::file_chunk::FileChunk;
use crate::laws::transport::LONGEST_MESSAGE;
use crate::outside;
use crate::server::handler::tasks::{
    Job, Next, PhaseModel, SessionEvent, SessionModel, Step, UploadModel,
};
use crate::server::{Reception, Sending};
use crate::tasks::{TaskOutput, Timestamp, Timestamped};
use vstd::prelude::*;
use vstd::string::*;

verus! {

/// Whether a session takes an event by this step, and is then in this state.
pub open spec fn moves(
    session: SessionModel,
    event: SessionEvent,
    after: SessionModel,
    step: Step,
) -> bool {
    let (state, plan) = crate::server::handler::tasks::transition(session, event);
    &&& after == state
    &&& crate::server::handler::tasks::carried_out(session.security, plan, step)
}

/// Whether a step leaves the connection alone: nothing is stored or sent.
pub open spec fn is_quiet(step: Step) -> bool {
    &&& step.store is None
    &&& step.frame is None
    &&& !step.close
    &&& !step.report_failure
}

/// Whether a step ends the connection with a close frame, without another word.
pub open spec fn hangs_up(step: Step) -> bool {
    &&& step.store is None
    &&& step.frame is None
    &&& step.close
    &&& step.next is Stop
}

/// Whether a step sends a message: as it is on a plain connection; sealed as the
/// next frame on an encrypted one that can still seal it; and an empty frame in its
/// place on one that cannot.
pub open spec fn tells(security: SecurityState, message: Seq<u8>, step: Step) -> bool {
    &&& step.frame matches Some(frame)
    &&& match security {
        SecurityState::Plaintext => frame@ == message,
        SecurityState::Encrypted(keys) => frame@ == (if crate::laws::transport::is_usable(keys.send)
            && message.len() <= LONGEST_MESSAGE {
            crate::laws::transport::frame_number(
                keys.send.key,
                keys.send.counter,
                message,
                Seq::empty(),
            )
        } else {
            Seq::empty()
        }),
    }
}

/// The security of a connection that sent so many more frames, and received so
/// many more.
pub open spec fn counted_on(security: SecurityState, sent: int, received: int) -> SecurityState {
    match security {
        SecurityState::Plaintext => SecurityState::Plaintext,
        SecurityState::Encrypted(keys) => SecurityState::Encrypted(
            SessionState {
                send: CipherState { key: keys.send.key, counter: keys.send.counter + sent },
                recv: CipherState { key: keys.recv.key, counter: keys.recv.counter + received },
            },
        ),
    }
}

/// Whether a connection can still seal a message.
pub open spec fn can_tell(security: SecurityState, message: Seq<u8>) -> bool {
    security matches SecurityState::Encrypted(keys) ==> crate::laws::transport::is_usable(keys.send)
        && message.len() <= LONGEST_MESSAGE
}

/// Whatever happens, a session goes on serving the same client, with the same
/// protocol version and the same server key.
pub proof fn law_sessions_keep_whom_they_serve(
    session: SessionModel,
    event: SessionEvent,
    after: SessionModel,
    step: Step,
)
    requires
        moves(session, event, after, step),
    ensures
        after.client == session.client,
        after.protocol_version == session.protocol_version,
        after.server_key == session.server_key,
{
}

/// A session begins without encryption: with the encrypted protocol version it
/// waits for the hello, and with any other for the launch request.
pub proof fn law_sessions_begin_in_the_clear(
    protocol_version: u32,
    server_key: Option<Seq<u8>>,
    client: crate::client::Client,
)
    ensures
        ({
            let session = crate::server::handler::tasks::opening(
                protocol_version,
                server_key,
                client,
            );
            &&& session.client == client
            &&& session.protocol_version == protocol_version
            &&& session.server_key == server_key
            &&& session.security is Plaintext
            &&& protocol_version == 2 ==> session.phase is AwaitingHello
            &&& protocol_version != 2 ==> session.phase is AwaitingLaunch
        }),
{
}

/// A good hello is answered with the confirmation, which is given ten seconds;
/// from then on both directions are encrypted with the keys of the handshake,
/// and the confirmation was the first frame. Any other is hung up on.
pub proof fn law_hello_is_answered(
    session: SessionModel,
    server_key: Seq<u8>,
    hello: Reception,
    after: SessionModel,
    step: Step,
)
    requires
        session.phase is AwaitingHello,
        session.server_key == Some(server_key),
        moves(session, SessionEvent::Received(hello), after, step),
    ensures
        ({
            let good = hello matches Reception::Binary(public) && public@.len() == 32 && (exists|i: int|
                0 <= i < 32 && (#[trigger] outside::x25519_shared(server_key, public@)[i]) != 0);
            &&& !good ==> hangs_up(step) && after.phase is Done
            &&& good ==> {
                let shared = outside::x25519_shared(server_key, hello->Binary_0@);
                let salt = "orosu-e2e-v2-salt".spec_bytes();
                let to_server = outside::hkdf_expanded(
                    salt,
                    shared,
                    "orosu-e2e-v2 client-to-server".spec_bytes(),
                );
                let to_client = outside::hkdf_expanded(
                    salt,
                    shared,
                    "orosu-e2e-v2 server-to-client".spec_bytes(),
                );
                &&& step.frame matches Some(frame)
                &&& frame@ == crate::laws::transport::frame_number(
                    to_client,
                    0,
                    Seq::empty(),
                    "orosu-e2e-v2-server-confirm".spec_bytes(),
                )
                &&& step.store is None && !step.close
                &&& step.next matches Next::Confirm { seconds: 10 }
                &&& after.phase is Confirming
                &&& after.security == SecurityState::Encrypted(
                    SessionState {
                        send: CipherState { key: to_client, counter: 1 },
                        recv: CipherState { key: to_server, counter: 0 },
                    },
                )
            }
        }),
{
    crate::laws::transport::law_good_hellos_are_confirmed(
        server_key,
        hello,
        step.frame->0@,
    );
}

/// Once the confirmation was sent the launch request is awaited for ten seconds;
/// where it was not, the session hangs up.
pub proof fn law_confirmation_is_waited_for(
    session: SessionModel,
    sending: Sending,
    after: SessionModel,
    step: Step,
)
    requires
        session.phase is Confirming,
        moves(session, SessionEvent::ConfirmSent(sending), after, step),
    ensures
        after.security == session.security,
        sending is Sent ==> {
            &&& is_quiet(step)
            &&& step.next == (Next::Receive { seconds: 10, fresh: true })
            &&& after.phase is AwaitingLaunch
        },
        !(sending is Sent) ==> hangs_up(step) && after.phase is Done,
{
}

/// A frame that comes while a message is awaited is handed on to be decoded: as
/// it is on a plain connection; and as the message that the cipher takes out of
/// it on an encrypted one, if it does, and else the session hangs up. Keepalives
/// change nothing and win no time; any other frame, and none at all, ends the
/// session.
pub proof fn law_frames_are_handed_on(
    session: SessionModel,
    reception: Reception,
    after: SessionModel,
    step: Step,
)
    requires
        session.phase is AwaitingLaunch || session.phase is AwaitingChunk,
        moves(session, SessionEvent::Received(reception), after, step),
    ensures
        match reception {
            Reception::Binary(frame) => {
                let message = match session.security {
                    SecurityState::Plaintext => Some(frame@),
                    SecurityState::Encrypted(keys) => if crate::laws::transport::is_usable(
                        keys.recv,
                    ) && frame@.len() <= LONGEST_MESSAGE + 16 {
                        outside::aead_opened(
                            keys.recv.key,
                            crate::api::handshake::nonce_bytes(keys.recv.counter),
                            frame@,
                            Seq::empty(),
                        )
                    } else {
                        None
                    },
                };
                match message {
                    Some(message) => {
                        &&& is_quiet(step)
                        &&& session.phase is AwaitingLaunch ==> {
                            &&& step.next matches Next::DecodeLaunch(bytes)
                            &&& bytes@ == message
                            &&& after.phase is DecodingLaunch
                        }
                        &&& session.phase matches PhaseModel::AwaitingChunk(job, upload) ==> {
                            &&& step.next matches Next::DecodeChunk(bytes)
                            &&& bytes@ == message
                            &&& after.phase == PhaseModel::DecodingChunk(job, upload)
                        }
                        &&& after.security == counted_on(session.security, 0, 1)
                    },
                    None => {
                        &&& hangs_up(step)
                        &&& after.phase is Done
                        &&& after.security == session.security
                    },
                }
            },
            Reception::Ping | Reception::Pong => {
                &&& is_quiet(step)
                &&& after == session
                &&& step.next == (Next::Receive {
                    seconds: if session.phase is AwaitingLaunch {
                        10
                    } else {
                        30
                    },
                    fresh: false,
                })
            },
            _ => hangs_up(step) && after.phase is Done,
        },
{
}

/// Whether a session waits for an event like this.
pub open spec fn is_awaited(phase: PhaseModel, event: SessionEvent) -> bool {
    match event {
        SessionEvent::Received(_) => phase is AwaitingHello || phase is AwaitingLaunch || phase
            is AwaitingChunk || phase is Closing,
        SessionEvent::ConfirmSent(_) => phase is Confirming,
        SessionEvent::LaunchDecoded(_) => phase is DecodingLaunch,
        SessionEvent::ChunkDecoded(_) => phase is DecodingChunk,
        SessionEvent::Extracted(_) => phase is Extracting,
        SessionEvent::Launched(_) | SessionEvent::LaunchFailed => phase is Launching,
        SessionEvent::Output(_) | SessionEvent::SendFailed => phase is Running || phase is Draining,
        SessionEvent::Finished(_) => phase is Running,
        SessionEvent::NoMoreOutput => phase is Draining,
    }
}

/// An event that a session does not wait for ends it.
pub proof fn law_unawaited_events_end_the_session(
    session: SessionModel,
    event: SessionEvent,
    after: SessionModel,
    step: Step,
)
    requires
        moves(session, event, after, step),
        !is_awaited(session.phase, event),
    ensures
        hangs_up(step),
        after.phase is Done,
        after.security == session.security,
{
}

/// Nothing is stored but pieces of an upload, and of no frame but a script's line
/// is it to be reported that it could not be sent.
pub proof fn law_only_pieces_are_stored(
    session: SessionModel,
    event: SessionEvent,
    after: SessionModel,
    step: Step,
)
    requires
        moves(session, event, after, step),
    ensures
        step.store is Some ==> session.phase is DecodingChunk && event is ChunkDecoded,
        step.report_failure <==> event is Output && (session.phase is Running || session.phase
            is Draining),
{
}

/// A message that is not what was awaited ends the session.
pub proof fn law_unreadable_messages_end_the_session(
    session: SessionModel,
    event: SessionEvent,
    after: SessionModel,
    step: Step,
)
    requires
        moves(session, event, after, step),
        ({
            ||| session.phase is DecodingLaunch && event == SessionEvent::LaunchDecoded(None)
            ||| session.phase is DecodingChunk && event == SessionEvent::ChunkDecoded(None)
        }),
    ensures
        hangs_up(step),
        after.phase is Done,
{
}

/// Whether a step refuses a launch with this error, and hangs up.
pub open spec fn refuses(session: SessionModel, error: ServerErrorResponse, step: Step) -> bool {
    &&& tells(session.security, crate::server::handler::tasks::refusal_message(error), step)
    &&& step.close
    &&& step.next is Stop
}

/// Whether a step has the script at this place started, with these arguments.
pub open spec fn starts(
    step: Step,
    script: int,
    arguments: Vec<String>,
    attachments: bool,
) -> bool {
    &&& is_quiet(step)
    &&& step.next matches Next::Launch { script: s, arguments: a, attachments: w }
    &&& s == script
    &&& a == arguments
    &&& w == attachments
}

/// The script that a launch request names, the first one of the client's with
/// that name, is started with the arguments of the request, as they are; and a
/// request for a script that the client does not have is refused so.
pub proof fn law_requested_script_is_started(
    session: SessionModel,
    request: StartTaskRequest,
    at: int,
    after: SessionModel,
    step: Step,
)
    requires
        session.phase is DecodingLaunch,
        moves(session, SessionEvent::LaunchDecoded(Some(request)), after, step),
        0 <= at <= session.client.scripts@.len() <= usize::MAX,
        forall|i: int|
            0 <= i < at ==> (#[trigger] session.client.scripts@[i]).name@ != request.script_name@,
        at < session.client.scripts@.len() ==> session.client.scripts@[at].name@
            == request.script_name@,
    ensures
        at == session.client.scripts@.len() ==> refuses(
            session,
            ServerErrorResponse::ScriptNotFound,
            step,
        ) && step.store is None && after.phase is Done,
        at < session.client.scripts@.len() && request.file is None ==> {
            &&& starts(step, at, request.arguments, false)
            &&& after.phase is Launching
            &&& after.security == session.security
        },
{
    let scripts = session.client.scripts@;
    let name = request.script_name@;
    if at < scripts.len() {
        assert(crate::script::first_named(scripts, name, (at as usize) as int));
        let chosen = crate::server::handler::tasks::script_named(scripts, name)->0;
        assert(crate::script::first_named(scripts, name, chosen as int));
    }
}

/// What has come of an upload, and what is due.
pub open spec fn goes_on(
    session: SessionModel,
    job: Job,
    upload: UploadModel,
    after: SessionModel,
    step: Step,
) -> bool {
    let so_far = upload.received.len();
    if so_far < upload.size {
        &&& tells(
            session.security,
            crate::server::handler::tasks::status_message(
                TaskLaunchStatus::AwaitingFiles { offset: so_far as usize },
            ),
            step,
        )
        &&& !step.close
        &&& step.next == (Next::Receive { seconds: 30, fresh: true })
        &&& after.phase == PhaseModel::AwaitingChunk(job, upload)
    } else if outside::md5_digest(upload.received) == upload.hash {
        &&& step.frame is None
        &&& !step.close
        &&& step.next is Extract
        &&& after.phase == PhaseModel::Extracting(job)
    } else {
        &&& refuses(session, ServerErrorResponse::CannotLaunchScript, step)
        &&& after.phase is Done
    }
}

/// An announced upload is asked for from its start, piece by piece, until as much
/// has come as was announced; it is then extracted if its digest is the announced
/// one, and else refused. Every piece that starts where the upload stands is
/// stored as it came; one that does not ends the session and is not stored.
pub proof fn law_uploads_are_taken_piece_by_piece(
    session: SessionModel,
    request: StartTaskRequest,
    script: usize,
    job: Job,
    upload: UploadModel,
    chunk: FileChunk,
    after: SessionModel,
    step: Step,
)
    ensures
        session.phase is DecodingLaunch && moves(
            session,
            SessionEvent::LaunchDecoded(Some(request)),
            after,
            step,
        ) && crate::script::first_named(
            session.client.scripts@,
            request.script_name@,
            script as int,
        ) ==> (request.file matches Some(file) ==> {
            &&& step.store is None
            &&& goes_on(
                session,
                Job { script, arguments: request.arguments },
                UploadModel { size: file.size as int, hash: file.hash@, received: Seq::empty() },
                after,
                step,
            )
        }),
        session.phase == PhaseModel::DecodingChunk(job, upload) && moves(
            session,
            SessionEvent::ChunkDecoded(Some(chunk)),
            after,
            step,
        ) ==> {
            &&& chunk.offset == upload.received.len() ==> {
                &&& step.store matches Some(stored)
                &&& stored@ == chunk.data@
                &&& goes_on(
                    session,
                    job,
                    UploadModel {
                        size: upload.size,
                        hash: upload.hash,
                        received: upload.received + chunk.data@,
                    },
                    after,
                    step,
                )
            }
            &&& chunk.offset != upload.received.len() ==> {
                &&& is_quiet(step)
                &&& step.next is Stop
                &&& after.phase is Done
            }
        },
{
    let scripts = session.client.scripts@;
    let name = request.script_name@;
    if crate::script::first_named(scripts, name, script as int) {
        let chosen = crate::server::handler::tasks::script_named(scripts, name)->0;
        assert(crate::script::first_named(scripts, name, chosen as int));
        assert(chosen == script);
    }
}

/// Once the upload was extracted, the script of the job is started with the
/// arguments of the job and with the upload; where it was not, the launch is
/// refused.
pub proof fn law_extracted_uploads_are_launched(
    session: SessionModel,
    job: Job,
    extracted: bool,
    after: SessionModel,
    step: Step,
)
    requires
        session.phase == PhaseModel::Extracting(job),
        moves(session, SessionEvent::Extracted(extracted), after, step),
    ensures
        extracted ==> {
            &&& starts(step, job.script as int, job.arguments, true)
            &&& after.phase is Launching
            &&& after.security == session.security
        },
        !extracted ==> refuses(session, ServerErrorResponse::CannotLaunchScript, step)
            && after.phase is Done,
{
}

/// A script that was started is reported so, with the moment of its task, and
/// its output is awaited; one that was not is refused.
pub proof fn law_launches_are_reported(
    session: SessionModel,
    started_on: Timestamp,
    after: SessionModel,
    step: Step,
)
    requires
        session.phase is Launching,
    ensures
        moves(session, SessionEvent::Launched(started_on), after, step) ==> {
            &&& tells(
                session.security,
                crate::server::handler::tasks::status_message(
                    TaskLaunchStatus::Launched { started_on },
                ),
                step,
            )
            &&& step.store is None && !step.close
            &&& step.next is Stream
            &&& after.phase is Running
        },
        moves(session, SessionEvent::LaunchFailed, after, step) ==> refuses(
            session,
            ServerErrorResponse::CannotLaunchScript,
            step,
        ) && after.phase is Done,
{
}

/// Every line of a running script, and every line that is still there once it
/// ended, is told to the client as it came; where that fails, the session ends.
pub proof fn law_every_line_is_told(
    session: SessionModel,
    output: Timestamped<TaskOutput>,
    after: SessionModel,
    step: Step,
)
    requires
        session.phase is Running || session.phase is Draining,
    ensures
        moves(session, SessionEvent::Output(output), after, step) ==> {
            &&& tells(
                session.security,
                crate::server::handler::tasks::event_message(
                    ServerTaskNotification::Output(output),
                ),
                step,
            )
            &&& step.store is None && !step.close && step.report_failure
            &&& session.phase is Running ==> step.next is Stream
            &&& session.phase is Draining ==> step.next is Drain
            &&& after.phase == session.phase
        },
        moves(session, SessionEvent::SendFailed, after, step) ==> {
            &&& is_quiet(step)
            &&& step.next is Stop
            &&& after.phase is Done
        },
{
}

/// Where a message that can be sealed was told, the connection has sent one more
/// frame and received as many as before.
pub proof fn law_telling_takes_one_frame(
    session: SessionModel,
    event: SessionEvent,
    after: SessionModel,
    step: Step,
    message: Seq<u8>,
)
    requires
        moves(session, event, after, step),
        crate::server::handler::tasks::transition(session, event).1.say
            == crate::server::handler::tasks::Saying::Message(message),
        can_tell(session.security, message),
    ensures
        tells(session.security, message, step),
        after.security == counted_on(session.security, 1, 0),
{
}

/// A run that ended is reported to the client with the script's own exit code:
/// after the code came, and all the lines that were still there were told, that
/// very code is told, and the connection is closed. The client then has three
/// seconds to close its side.
pub proof fn law_exit_code_is_the_scripts_own(
    running: SessionModel,
    code: i32,
    finished: Step,
    outputs: Seq<Timestamped<TaskOutput>>,
    sessions: Seq<SessionModel>,
    steps: Seq<Step>,
    after: SessionModel,
    last: Step,
)
    requires
        running.phase is Running,
        sessions.len() == outputs.len() + 1,
        steps.len() == outputs.len(),
        moves(running, SessionEvent::Finished(code), sessions[0], finished),
        forall|i: int|
            0 <= i < outputs.len() ==> #[trigger] drains(sessions, steps, outputs, i),
        moves(sessions.last(), SessionEvent::NoMoreOutput, after, last),
    ensures
        is_quiet(finished),
        finished.next is Drain,
        forall|i: int|
            0 <= i < outputs.len() ==> tells(
                sessions[i].security,
                crate::server::handler::tasks::event_message(
                    ServerTaskNotification::Output(outputs[i]),
                ),
                #[trigger] steps[i],
            ) && steps[i].next is Drain,
        tells(
            sessions.last().security,
            crate::server::handler::tasks::event_message(ServerTaskNotification::ExitCode(code)),
            last,
        ),
        last.close,
        last.store is None,
        last.next == (Next::Receive { seconds: 3, fresh: true }),
        after.phase is Closing,
{
    lemma_draining_keeps_the_code(code, outputs, sessions, steps, outputs.len() as int);
    assert forall|i: int| 0 <= i < outputs.len() implies tells(
        sessions[i].security,
        crate::server::handler::tasks::event_message(ServerTaskNotification::Output(outputs[i])),
        #[trigger] steps[i],
    ) && steps[i].next is Drain by {
        lemma_draining_keeps_the_code(code, outputs, sessions, steps, i);
        assert(drains(sessions, steps, outputs, i));
        law_every_line_is_told(sessions[i], outputs[i], sessions[i + 1], steps[i]);
    }
}

/// Whether the line at this place was taken by the step at this place.
pub open spec fn drains(
    sessions: Seq<SessionModel>,
    steps: Seq<Step>,
    outputs: Seq<Timestamped<TaskOutput>>,
    i: int,
) -> bool {
    moves(sessions[i], SessionEvent::Output(outputs[i]), sessions[i + 1], steps[i])
}

proof fn lemma_draining_keeps_the_code(
    code: i32,
    outputs: Seq<Timestamped<TaskOutput>>,
    sessions: Seq<SessionModel>,
    steps: Seq<Step>,
    n: int,
)
    requires
        sessions.len() == outputs.len() + 1,
        steps.len() == outputs.len(),
        sessions[0].phase == PhaseModel::Draining(code),
        forall|i: int|
            0 <= i < outputs.len() ==> #[trigger] drains(sessions, steps, outputs, i),
        0 <= n <= outputs.len(),
    ensures
        sessions[n].phase == PhaseModel::Draining(code),
    decreases n,
{
    if n > 0 {
        lemma_draining_keeps_the_code(code, outputs, sessions, steps, n - 1);
        assert(drains(sessions, steps, outputs, n - 1));
        law_every_line_is_told(sessions[n - 1], outputs[n - 1], sessions[n], steps[n - 1]);
    }
}

/// Once the exit code was told, the session waits for the client's close, and for
/// the end of the connection, in the time that is left; whatever else comes does
/// not matter.
pub proof fn law_the_clients_close_is_awaited(
    session: SessionModel,
    reception: Reception,
    after: SessionModel,
    step: Step,
)
    requires
        session.phase is Closing,
        moves(session, SessionEvent::Received(reception), after, step),
    ensures
        is_quiet(step),
        after.security == session.security,
        match reception {
            Reception::Close
            | Reception::Failed(_)
            | Reception::Disconnected
            | Reception::TimedOut => step.next is Stop && after.phase is Done,
            _ => step.next == (Next::Receive { seconds: 3, fresh: false }) && after.phase
                is Closing,
        },
{
}

} // verus!
