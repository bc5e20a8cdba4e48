//! The client's side of a connection: logging in, and launching a script.

use crate::api::envelopes::{
    FileChunkRequestEnvelope, TaskEventResponseEnvelope, TaskLaunchRequestEnvelope,
    TaskLaunchStatusResponseEnvelope,
};
use crate::api::file_chunk::FileChunk;
use crate::api::header_value::HeaderValue;
use crate::api::{
    FileAttachment, ProtocolVersionHeader, ServerErrorResponse, ServerTaskNotification,
    StartTaskRequest, TaskLaunchStatus, UserAgentHeader,
};
use crate::cryptography::{to_key_bytes, Claims, ClientKey, KeyError};
use crate::json::{to_json, ToJson};
use crate::outside;
use crate::tasks::TaskOutput;
use crate::text::append_decimal;
use vstd::prelude::*;
use vstd::slice::slice_to_vec;
use vstd::string::*;

verus! {

/// How long, in seconds, a client's token is good for.
pub const TOKEN_LIFETIME: usize = 10;

/// The headers that a client connects with.
pub struct RequestHeaders {
    pub authorization: HeaderValue,
    pub user_agent: HeaderValue,
    pub protocol_version: HeaderValue,
}

/// The text of the `Authorization` header with a token.
pub open spec fn authorization_text(token: Seq<char>) -> Seq<char> {
    "Token "@ + token
}

/// Whether these are the headers that go with a token: the token, this
/// product's name and version, and the current protocol version.
pub open spec fn presents(headers: RequestHeaders, token: Seq<char>) -> bool {
    &&& headers.authorization@ == vstd::utf8::encode_utf8(authorization_text(token))
    &&& headers.user_agent@ == vstd::utf8::encode_utf8(
        crate::api::user_agent_header::user_agent_text(
            crate::api::user_agent_header::CRATE_VERSION@,
        ),
    )
    &&& headers.protocol_version@ == vstd::utf8::encode_utf8(
        crate::text::decimal(crate::api::protocol_version::PROTOCOL_VERSION as nat),
    )
}

impl RequestHeaders {
    /// The headers that go with a token, where the token can stand in one.
    pub fn with_token(token: &str) -> (headers: Option<RequestHeaders>)
        ensures
            headers is Some <==> crate::api::header_value::valid_header_bytes(
                vstd::utf8::encode_utf8(authorization_text(token@)),
            ),
            headers matches Some(h) ==> presents(h, token@),
    {
        let mut text = "Token ".to_owned();
        text.append(token);
        let user_agent = UserAgentHeader::default();
        proof {
            lemma_crate_version_fits();
        }
        match HeaderValue::from_bytes(text.as_str().as_bytes()) {
            Some(authorization) => Some(
                RequestHeaders {
                    authorization,
                    user_agent: user_agent.to_header_value(),
                    protocol_version: HeaderValue::from(ProtocolVersionHeader::default()),
                },
            ),
            None => None,
        }
    }
}

/// The token that the client with this name and seed logs in with at this
/// time, or why there is none.
pub open spec fn login_token(name: Seq<char>, seed: Seq<u8>, now: int) -> Result<
    Seq<char>,
    KeyError,
> {
    if seed.len() != 32 {
        Err(KeyError::WrongLength)
    } else {
        match outside::ed25519_document(seed) {
            None => Err(KeyError::NotEncodable),
            Some(document) => match outside::token_for(
                crate::cryptography::claims_json(name, (now + TOKEN_LIFETIME) as nat),
                document,
            ) {
                None => Err(KeyError::NotSignable),
                Some(token) => Ok(token),
            },
        }
    }
}

/// Whether a token can stand in a header, and has a signature that is good for
/// the public key of this seed.
pub open spec fn is_signed_by(token: Seq<char>, seed: Seq<u8>) -> bool {
    &&& forall|i: int|
        0 <= i < token.len() ==> crate::api::header_value::is_header_text_char(#[trigger] token[i])
    &&& outside::token_signed(token, outside::ed25519_public(seed))
}

proof fn lemma_token_fits(token: Seq<char>)
    requires
        forall|i: int|
            0 <= i < token.len() ==> crate::api::header_value::is_header_text_char(
                #[trigger] token[i],
            ),
    ensures
        crate::api::header_value::valid_header_bytes(
            vstd::utf8::encode_utf8(authorization_text(token)),
        ),
        crate::api::header_value::header_text(vstd::utf8::encode_utf8(authorization_text(token)))
            == Some(authorization_text(token)),
{
    reveal_strlit("Token ");
    let text = authorization_text(token);
    assert forall|i: int| 0 <= i < text.len() implies crate::api::header_value::is_header_text_char(
        #[trigger] text[i],
    ) by {
        if i < 6 {
            assert(text[i] == "Token "@[i]);
        } else {
            assert(text[i] == token[i - 6]);
        }
    }
    crate::api::header_value::lemma_ascii_header_text(text);
}

proof fn lemma_crate_version_fits()
    ensures
        !crate::api::user_agent_header::CRATE_VERSION@.contains('/'),
        crate::api::header_value::valid_header_bytes(
            vstd::utf8::encode_utf8(
                crate::api::user_agent_header::user_agent_text(
                    crate::api::user_agent_header::CRATE_VERSION@,
                ),
            ),
        ),
        crate::server::auth_scope::is_our_user_agent(
            vstd::utf8::encode_utf8(
                crate::api::user_agent_header::user_agent_text(
                    crate::api::user_agent_header::CRATE_VERSION@,
                ),
            ),
        ),
{
    reveal_strlit("0.7.0");
    let version = crate::api::user_agent_header::CRATE_VERSION@;
    let text = crate::api::user_agent_header::user_agent_text(version);
    crate::api::user_agent_header::law_user_agent_round_trips(version);
    assert(crate::api::user_agent_header::names_version(text, version));
    let bytes = vstd::utf8::encode_utf8(text);
    assert(crate::api::header_value::header_text(bytes) == Some(text));
    let read = crate::api::header_value::header_text(bytes)->0;
    assert(crate::api::user_agent_header::names_version(read, version));
}

/// What a client logs in with, the server takes: it finds the token and the
/// current protocol version, and with the client's public key on file, as it
/// was written for the client, the token is signed for it.
pub proof fn law_server_takes_what_the_client_presents(
    headers: RequestHeaders,
    token: Seq<char>,
    seed: Seq<u8>,
    key_file: Seq<char>,
    encryption_configured: bool,
)
    requires
        presents(headers, token),
        is_signed_by(token, seed),
        outside::ed25519_public(seed).len() == 32,
        outside::ed25519_valid(outside::ed25519_public(seed)),
        crate::cryptography::base64_of(outside::ed25519_public(seed), key_file),
    ensures
        crate::server::auth_scope::presented(
            crate::server::auth_scope::RequestHead {
                scope: Some(crate::server::AuthScope::Worker),
                user_agent: Some(headers.user_agent),
                protocol_version: Some(headers.protocol_version),
                authorization: Some(headers.authorization),
            },
            encryption_configured,
        ) == Ok::<(Seq<char>, u32), crate::server::StatusCode>(
            (token, crate::api::protocol_version::PROTOCOL_VERSION),
        ),
        crate::server::auth_scope::is_signed_for(token, key_file),
{
    reveal_strlit("Token ");
    lemma_crate_version_fits();
    lemma_token_fits(token);
    crate::api::protocol_version::law_protocol_version_round_trips(
        crate::api::protocol_version::PROTOCOL_VERSION,
    );
    let text = authorization_text(token);
    assert(text.subrange(0, 6) =~= "Token "@);
    assert(text.subrange(6, text.len() as int) =~= token);
    let versions = crate::api::protocol_version::supported_versions(encryption_configured);
    assert(versions[1] == crate::api::protocol_version::PROTOCOL_VERSION);
    crate::cryptography::law_client_public_key_reads_back(
        outside::ed25519_public(seed),
        key_file,
    );
}

/// Whether pieces make up a file, in order and without gaps.
pub open spec fn pieces_of(file: Seq<u8>, chunks: Seq<FileChunk>) -> bool {
    &&& chunks.len() == 0 <==> file.len() == 0
    &&& chunks.len() > 0 ==> chunks[0].offset == 0
    &&& forall|i: int| 0 <= i < chunks.len() ==> #[trigger] piece_fits(file, chunks, i)
}

/// Whether a piece holds what the file holds from where the piece starts to
/// where the next one does.
pub open spec fn piece_fits(file: Seq<u8>, chunks: Seq<FileChunk>, i: int) -> bool {
    &&& piece_end(file, chunks, i) == chunks[i].offset + chunks[i].data@.len()
    &&& piece_end(file, chunks, i) <= file.len()
    &&& chunks[i].data@ == file.subrange(chunks[i].offset as int, piece_end(file, chunks, i))
}

/// Where a piece ends: where the next one starts, or at the end of the file.
pub open spec fn piece_end(file: Seq<u8>, chunks: Seq<FileChunk>, i: int) -> int {
    if i + 1 < chunks.len() {
        chunks[i + 1].offset as int
    } else {
        file.len() as int
    }
}

/// Whether pieces are of the size that they should be: all of them but the
/// last, which has at least a byte and no more than that.
pub open spec fn pieces_sized(chunks: Seq<FileChunk>, chunk_size: int) -> bool {
    forall|i: int| #![trigger chunks[i]]
        0 <= i < chunks.len() ==> {
            &&& 0 < chunks[i].data@.len() <= chunk_size
            &&& i + 1 < chunks.len() ==> chunks[i].data@.len() == chunk_size
        }
}

/// Splits a file into pieces of a size. The size is not zero.
pub fn split(file: &Vec<u8>, chunk_size: usize) -> (chunks: Vec<FileChunk>)
    requires
        chunk_size > 0,
    ensures
        pieces_of(file@, chunks@),
        pieces_sized(chunks@, chunk_size as int),
{
    let mut chunks: Vec<FileChunk> = Vec::new();
    let mut offset: usize = 0;
    let length: usize = file.len();
    while offset < length
        invariant
            chunk_size > 0,
            length == file@.len(),
            offset <= length,
            pieces_of(file@.subrange(0, offset as int), chunks@),
            pieces_sized(chunks@, chunk_size as int),
            offset < length ==> (chunks@.len() > 0 ==> chunks@.last().data@.len() == chunk_size),
        decreases length - offset,
    {
        let end: usize = if chunk_size < length - offset {
            offset + chunk_size
        } else {
            length
        };
        let data = slice_to_vec(vstd::slice::slice_subrange(file.as_slice(), offset, end));
        let ghost before = chunks@;
        chunks.push(FileChunk { offset, data });
        proof {
            let old_part = file@.subrange(0, offset as int);
            let part = file@.subrange(0, end as int);
            assert(data@ =~= part.subrange(offset as int, end as int));
            assert forall|i: int| 0 <= i < chunks@.len() implies #[trigger] piece_fits(
                part,
                chunks@,
                i,
            ) by {
                if i < before.len() {
                    assert(piece_fits(old_part, before, i));
                    assert(chunks@[i] == before[i]);
                    assert(piece_end(old_part, before, i) == piece_end(part, chunks@, i));
                    assert(old_part.subrange(
                        before[i].offset as int,
                        piece_end(old_part, before, i),
                    ) =~= part.subrange(before[i].offset as int, piece_end(part, chunks@, i)));
                }
            }
            assert forall|i: int| 0 <= i < chunks@.len() implies {
                &&& 0 < (#[trigger] chunks@[i]).data@.len() <= chunk_size
                &&& i + 1 < chunks@.len() ==> chunks@[i].data@.len() == chunk_size
            } by {
                if i < before.len() {
                    assert(chunks@[i] == before[i]);
                }
            }
        }
        offset = end;
    }
    assert(file@.subrange(0, offset as int) =~= file@);
    chunks
}

proof fn lemma_offsets_increase(file: Seq<u8>, chunks: Seq<FileChunk>, size: int, i: int, j: int)
    requires
        pieces_of(file, chunks),
        pieces_sized(chunks, size),
        0 <= i < j < chunks.len(),
    ensures
        chunks[i].offset < chunks[j].offset,
    decreases j - i,
{
    assert(piece_fits(file, chunks, i));
    assert(chunks[i].data@.len() > 0);
    if i + 1 < j {
        lemma_offsets_increase(file, chunks, size, i + 1, j);
    }
}

/// Where the first piece with this offset is, where there is one.
pub open spec fn chunk_at(chunks: Seq<FileChunk>, offset: usize) -> Option<int> {
    if exists|i: int| is_first_at(chunks, offset, i) {
        Some(choose|i: int| is_first_at(chunks, offset, i))
    } else {
        None
    }
}

/// Whether the piece at `i` is the first one with this offset.
pub open spec fn is_first_at(chunks: Seq<FileChunk>, offset: usize, i: int) -> bool {
    &&& 0 <= i < chunks.len()
    &&& chunks[i].offset == offset
    &&& forall|j: int| 0 <= j < i ==> (#[trigger] chunks[j]).offset != offset
}

/// Of the pieces of a file, each is the one that its offset leads to.
pub proof fn law_every_piece_can_be_found(
    file: Seq<u8>,
    chunks: Seq<FileChunk>,
    chunk_size: int,
    i: int,
)
    requires
        pieces_of(file, chunks),
        pieces_sized(chunks, chunk_size),
        0 <= i < chunks.len(),
    ensures
        chunk_at(chunks, chunks[i].offset) == Some(i),
{
    let offset = chunks[i].offset;
    assert forall|j: int| 0 <= j < i implies (#[trigger] chunks[j]).offset != offset by {
        lemma_offsets_increase(file, chunks, chunk_size, j, i);
    }
    assert(is_first_at(chunks, offset, i));
    let chosen = chunk_at(chunks, offset)->0;
    assert(is_first_at(chunks, offset, chosen));
    if chosen < i {
        lemma_offsets_increase(file, chunks, chunk_size, chosen, i);
    }
    if i < chosen {
        lemma_offsets_increase(file, chunks, chunk_size, i, chosen);
    }
}

impl FileAttachment {
    /// What is announced of a file that is to be uploaded.
    pub fn of_file(file: &Vec<u8>) -> (attachment: FileAttachment)
        ensures
            attachment.hash@ == outside::md5_digest(file@),
            attachment.size == file@.len(),
    {
        let mut context = outside::md5_new();
        outside::md5_consume(&mut context, file.as_slice());
        let digest = outside::md5_finalize(context);
        assert(Seq::<u8>::empty() + file@ =~= file@);
        FileAttachment { hash: slice_to_vec(digest.as_slice()), size: file.len() }
    }
}

impl ServerErrorResponse {
    /// What the error is called.
    pub open spec fn text(&self) -> Seq<char> {
        match self {
            ServerErrorResponse::CannotLaunchScript => "Cannot launch script"@,
            ServerErrorResponse::ScriptNotFound => "Script not found"@,
            ServerErrorResponse::Unknown => "Unknown error"@,
        }
    }

    /// What the error is called.
    pub fn message(&self) -> (text: &'static str)
        ensures
            text@ == self.text(),
    {
        match self {
            ServerErrorResponse::CannotLaunchScript => "Cannot launch script",
            ServerErrorResponse::ScriptNotFound => "Script not found",
            ServerErrorResponse::Unknown => "Unknown error",
        }
    }
}

/// Why a launch did not come to its end.
#[derive(Debug, Clone, PartialEq, Eq)]
pub enum ClientFailure {
    /// The server did not respond.
    NoResponse,
    /// The transport failed, with this error.
    Transport(String),
    /// The server responded with something else than a binary frame, which
    /// reads like this.
    NotBinary(String),
    /// The server asked for files, and none were attached.
    NoFilesAttached,
    /// The server asked for a piece that does not exist.
    ChunkNotFound(usize),
}

impl ClientFailure {
    /// What went wrong, in words.
    pub open spec fn text(&self) -> Seq<char> {
        match self {
            ClientFailure::NoResponse => "Server did not respond"@,
            ClientFailure::Transport(error) => error@,
            ClientFailure::NotBinary(frame) =>
            "Server did not respond with a valid response, got "@ + frame@,
            ClientFailure::NoFilesAttached => "No files were attached to the task"@,
            ClientFailure::ChunkNotFound(offset) => "Chunk not found for offset "@
                + crate::text::decimal(*offset as nat),
        }
    }

    /// What went wrong, in words.
    pub fn message(&self) -> (text: String)
        ensures
            text@ == self.text(),
    {
        match self {
            ClientFailure::NoResponse => "Server did not respond".to_owned(),
            ClientFailure::Transport(error) => error.clone(),
            ClientFailure::NotBinary(frame) => {
                let mut text = "Server did not respond with a valid response, got ".to_owned();
                text.append(frame.as_str());
                text
            },
            ClientFailure::NoFilesAttached => "No files were attached to the task".to_owned(),
            ClientFailure::ChunkNotFound(offset) => {
                let mut text = "Chunk not found for offset ".to_owned();
                append_decimal(&mut text, *offset as u64);
                text
            },
        }
    }
}

/// What a client waits for.
pub enum ClientPhase {
    /// How the launch gets on.
    Launching,
    /// What the script writes, and how it ends.
    Streaming,
    /// Nothing.
    Done,
}

/// What came of a client's waiting for the next frame.
pub enum ClientReception {
    /// A binary frame.
    Binary(Vec<u8>),
    /// Another frame: whether it is a close frame, how it reads, and how it
    /// reads with all its details.
    Other { close: bool, display: String, debug: String },
    /// The transport failed, with this error.
    Failed(String),
    /// The server is gone.
    Disconnected,
}

/// What came of a step of the client.
pub enum ClientEvent {
    /// What came of waiting for a frame.
    Received(ClientReception),
    /// How the launch gets on, decoded.
    StatusDecoded(TaskLaunchStatusResponseEnvelope),
    /// What the script wrote, or how it ended, decoded.
    EventDecoded(TaskEventResponseEnvelope),
}

/// What the client is to do next.
pub enum ClientNext {
    /// Wait for a frame.
    Receive,
    /// Decode how the launch gets on.
    DecodeStatus(Vec<u8>),
    /// Decode what the script wrote, or how it ended.
    DecodeEvent(Vec<u8>),
    /// End the process with this exit code.
    Exit(i32),
    /// End with a failure.
    Fail(ClientFailure),
    /// Panic with the server's error.
    Panic(ServerErrorResponse),
    /// Panic over a frame that should not have come, in these words.
    PanicUnexpected(String),
    /// End.
    Finish,
}

/// What the client is to do, in this order: send a binary frame, send a close
/// frame, print a line, and go on.
pub struct ClientStep {
    pub frame: Option<Vec<u8>>,
    pub close: bool,
    pub print: Option<TaskOutput>,
    pub next: ClientNext,
}

/// A client that launches a script and follows its run.
pub struct ApiClient {
    pub chunks: Option<Vec<FileChunk>>,
    pub phase: ClientPhase,
}

/// Whether `step` sends the frame with this message and nothing else, and goes
/// on to wait.
pub open spec fn sends(step: ClientStep, message: Seq<u8>) -> bool {
    &&& step.frame matches Some(frame) && frame@ == message
    &&& !step.close
    &&& step.print is None
    &&& step.next is Receive
}

/// Whether `step` sends nothing but a close frame, if `close`, prints nothing,
/// and goes on like this.
pub open spec fn only(step: ClientStep, close: bool, next: ClientNext) -> bool {
    step == ClientStep { frame: None, close, print: None, next }
}

/// The message with a piece of an upload.
pub open spec fn chunk_message(offset: usize, data: Seq<u8>) -> Seq<u8> {
    vstd::utf8::encode_utf8(
        "{\"body\":"@ + ("{\"offset\":"@ + offset.json() + ",\"data\":"@ + ("["@
            + crate::json::comma_separated(data) + "]"@) + "}"@) + "}"@,
    )
}

/// The phase after an event.
pub open spec fn client_phase_after(
    phase: ClientPhase,
    chunks: Option<Vec<FileChunk>>,
    event: ClientEvent,
) -> ClientPhase {
    match (phase, event) {
        (ClientPhase::Launching, ClientEvent::Received(ClientReception::Binary(_))) => phase,
        (ClientPhase::Streaming, ClientEvent::Received(ClientReception::Binary(_))) => phase,
        (
            ClientPhase::Launching,
            ClientEvent::StatusDecoded(TaskLaunchStatusResponseEnvelope::Success { body }),
        ) => match body {
            TaskLaunchStatus::Launched { .. } => ClientPhase::Streaming,
            TaskLaunchStatus::AwaitingFiles { offset } => if chunks matches Some(chunks)
                && chunk_at(chunks@, offset) is Some {
                phase
            } else {
                ClientPhase::Done
            },
        },
        (
            ClientPhase::Streaming,
            ClientEvent::EventDecoded(
                TaskEventResponseEnvelope::Success { body: ServerTaskNotification::Output(_) },
            ),
        ) => phase,
        _ => ClientPhase::Done,
    }
}

/// Whether `step` is what an event leads to. An event that the client does not
/// wait for ends it.
pub open spec fn client_answers(
    phase: ClientPhase,
    chunks: Option<Vec<FileChunk>>,
    event: ClientEvent,
    step: ClientStep,
) -> bool {
    match (phase, event) {
        (ClientPhase::Launching, ClientEvent::Received(reception)) => match reception {
            ClientReception::Binary(frame) => only(step, false, ClientNext::DecodeStatus(frame)),
            ClientReception::Disconnected => only(
                step,
                false,
                ClientNext::Fail(ClientFailure::NoResponse),
            ),
            ClientReception::Failed(error) => only(
                step,
                false,
                ClientNext::Fail(ClientFailure::Transport(error)),
            ),
            ClientReception::Other { display, .. } => only(
                step,
                false,
                ClientNext::Fail(ClientFailure::NotBinary(display)),
            ),
        },
        (ClientPhase::Launching, ClientEvent::StatusDecoded(status)) => match status {
            TaskLaunchStatusResponseEnvelope::Success { body } => match body {
                TaskLaunchStatus::AwaitingFiles { offset } => match chunks {
                    None => only(step, true, ClientNext::Fail(ClientFailure::NoFilesAttached)),
                    Some(chunks) => match chunk_at(chunks@, offset) {
                        Some(i) => sends(step, chunk_message(offset, chunks@[i].data@)),
                        None => only(
                            step,
                            true,
                            ClientNext::Fail(ClientFailure::ChunkNotFound(offset)),
                        ),
                    },
                },
                TaskLaunchStatus::Launched { .. } => only(step, false, ClientNext::Receive),
            },
            TaskLaunchStatusResponseEnvelope::Failure { error } => only(
                step,
                false,
                ClientNext::Panic(error),
            ),
        },
        (ClientPhase::Streaming, ClientEvent::Received(reception)) => match reception {
            ClientReception::Binary(frame) => only(step, false, ClientNext::DecodeEvent(frame)),
            ClientReception::Disconnected => only(step, false, ClientNext::Finish),
            ClientReception::Failed(error) => only(
                step,
                false,
                ClientNext::Fail(ClientFailure::Transport(error)),
            ),
            ClientReception::Other { close, debug, .. } => if close {
                only(step, false, ClientNext::Finish)
            } else {
                step.next matches ClientNext::PanicUnexpected(text) && text@
                    == "Unexpected message: "@ + debug@ && only(step, false, step.next)
            },
        },
        (ClientPhase::Streaming, ClientEvent::EventDecoded(event)) => match event {
            TaskEventResponseEnvelope::Success { body } => match body {
                ServerTaskNotification::Output(output) => step == (ClientStep {
                    frame: None,
                    close: false,
                    print: Some(output.value),
                    next: ClientNext::Receive,
                }),
                ServerTaskNotification::ExitCode(code) => only(step, true, ClientNext::Exit(code)),
            },
            TaskEventResponseEnvelope::Failure { error } => only(
                step,
                true,
                ClientNext::Panic(error),
            ),
        },
        _ => only(step, false, ClientNext::Finish),
    }
}

fn find_chunk(chunks: &Vec<FileChunk>, offset: usize) -> (found: Option<usize>)
    ensures
        match found {
            Some(i) => chunk_at(chunks@, offset) == Some(i as int) && i < chunks@.len(),
            None => chunk_at(chunks@, offset) is None,
        },
{
    let mut i: usize = 0;
    while i < chunks.len()
        invariant
            i <= chunks.len(),
            forall|j: int| 0 <= j < i ==> (#[trigger] chunks@[j]).offset != offset,
        decreases chunks.len() - i,
    {
        if chunks[i].offset == offset {
            proof {
                assert(is_first_at(chunks@, offset, i as int));
                let chosen = chunk_at(chunks@, offset)->0;
                assert(is_first_at(chunks@, offset, chosen));
            }
            return Some(i);
        }
        i = i + 1;
    }
    None
}

impl ApiClient {
    /// What to log in with at this time, in seconds since the Unix epoch: the
    /// headers with a token for the key's client, good for a short while and
    /// signed with the key, which must be an Ed25519 seed.
    pub fn connect(key: ClientKey, now: usize) -> (result: Result<RequestHeaders, KeyError>)
        requires
            now + TOKEN_LIFETIME <= usize::MAX,
        ensures
            match (result, login_token(key.client_name@, key.key@, now as int)) {
                (Ok(headers), Ok(token)) => presents(headers, token) && is_signed_by(
                    token,
                    key.key@,
                ),
                (Err(error), Err(reason)) => error == reason,
                _ => false,
            },
    {
        let seed = match to_key_bytes(&key.key) {
            Some(seed) => seed,
            None => {
                return Err(KeyError::WrongLength);
            },
        };
        let document = match outside::ed25519_pkcs8(&seed) {
            Some(document) => document,
            None => {
                return Err(KeyError::NotEncodable);
            },
        };
        let claims = Claims { sub: key.client_name, exp: now + TOKEN_LIFETIME };
        match outside::token_sign(to_json(&claims), document.as_slice()) {
            Some(token) => {
                proof {
                    lemma_token_fits(token@);
                }
                Ok(RequestHeaders::with_token(token.as_str()).unwrap())
            },
            None => Err(KeyError::NotSignable),
        }
    }

    /// Begins a launch: the message to send for it. A file that is to be
    /// uploaded is announced, and split into pieces of this size, which is not
    /// zero.
    pub fn start_task(
        arguments: Vec<String>,
        script_name: String,
        file: Option<Vec<u8>>,
        chunk_size: usize,
    ) -> (r: (ApiClient, Vec<u8>))
        requires
            chunk_size > 0,
        ensures
            r.0.phase is Launching,
            match file {
                Some(file) => r.0.chunks matches Some(chunks) && pieces_of(file@, chunks@)
                    && pieces_sized(chunks@, chunk_size as int),
                None => r.0.chunks is None,
            },
            exists|request: StartTaskRequest|
                {
                    &&& #[trigger] launch_message(request) == r.1@
                    &&& request.script_name == script_name
                    &&& request.arguments == arguments
                    &&& match file {
                        Some(file) => request.file matches Some(attachment) && attachment.hash@
                            == outside::md5_digest(file@) && attachment.size == file@.len(),
                        None => request.file is None,
                    }
                },
    {
        let (chunks, attachment) = match file {
            Some(file) => (Some(split(&file, chunk_size)), Some(FileAttachment::of_file(&file))),
            None => (None, None),
        };
        let request = StartTaskRequest { script_name, arguments, file: attachment };
        let ghost sent = request;
        let envelope = TaskLaunchRequestEnvelope { body: request };
        let message = envelope.into_bytes();
        assert(launch_message(sent) == message@);
        (ApiClient { chunks, phase: ClientPhase::Launching }, message)
    }

    /// Takes what came of the last step, and says what to do next.
    pub fn step(self, event: ClientEvent) -> (r: (ApiClient, ClientStep))
        ensures
            r.0.chunks == self.chunks,
            r.0.phase == client_phase_after(self.phase, self.chunks, event),
            client_answers(self.phase, self.chunks, event, r.1),
    {
        let ApiClient { chunks, phase } = self;
        match (phase, event) {
            (ClientPhase::Launching, ClientEvent::Received(reception)) => match reception {
                ClientReception::Binary(frame) => ApiClient::on(
                    chunks,
                    ClientPhase::Launching,
                    false,
                    ClientNext::DecodeStatus(frame),
                ),
                ClientReception::Disconnected => ApiClient::on(
                    chunks,
                    ClientPhase::Done,
                    false,
                    ClientNext::Fail(ClientFailure::NoResponse),
                ),
                ClientReception::Failed(error) => ApiClient::on(
                    chunks,
                    ClientPhase::Done,
                    false,
                    ClientNext::Fail(ClientFailure::Transport(error)),
                ),
                ClientReception::Other { display, .. } => ApiClient::on(
                    chunks,
                    ClientPhase::Done,
                    false,
                    ClientNext::Fail(ClientFailure::NotBinary(display)),
                ),
            },
            (ClientPhase::Launching, ClientEvent::StatusDecoded(status)) => match status {
                TaskLaunchStatusResponseEnvelope::Success { body } => match body {
                    TaskLaunchStatus::AwaitingFiles { offset } => ApiClient::send_chunk(
                        chunks,
                        offset,
                    ),
                    TaskLaunchStatus::Launched { .. } => ApiClient::on(
                        chunks,
                        ClientPhase::Streaming,
                        false,
                        ClientNext::Receive,
                    ),
                },
                TaskLaunchStatusResponseEnvelope::Failure { error } => ApiClient::on(
                    chunks,
                    ClientPhase::Done,
                    false,
                    ClientNext::Panic(error),
                ),
            },
            (ClientPhase::Streaming, ClientEvent::Received(reception)) => match reception {
                ClientReception::Binary(frame) => ApiClient::on(
                    chunks,
                    ClientPhase::Streaming,
                    false,
                    ClientNext::DecodeEvent(frame),
                ),
                ClientReception::Disconnected => ApiClient::on(
                    chunks,
                    ClientPhase::Done,
                    false,
                    ClientNext::Finish,
                ),
                ClientReception::Failed(error) => ApiClient::on(
                    chunks,
                    ClientPhase::Done,
                    false,
                    ClientNext::Fail(ClientFailure::Transport(error)),
                ),
                ClientReception::Other { close, debug, .. } => {
                    let next = if close {
                        ClientNext::Finish
                    } else {
                        let mut text = "Unexpected message: ".to_owned();
                        text.append(debug.as_str());
                        ClientNext::PanicUnexpected(text)
                    };
                    ApiClient::on(chunks, ClientPhase::Done, false, next)
                },
            },
            (ClientPhase::Streaming, ClientEvent::EventDecoded(event)) => match event {
                TaskEventResponseEnvelope::Success { body } => match body {
                    ServerTaskNotification::Output(output) => {
                        let step = ClientStep {
                            frame: None,
                            close: false,
                            print: Some(output.value),
                            next: ClientNext::Receive,
                        };
                        (ApiClient { chunks, phase: ClientPhase::Streaming }, step)
                    },
                    ServerTaskNotification::ExitCode(code) => ApiClient::on(
                        chunks,
                        ClientPhase::Done,
                        true,
                        ClientNext::Exit(code),
                    ),
                },
                TaskEventResponseEnvelope::Failure { error } => ApiClient::on(
                    chunks,
                    ClientPhase::Done,
                    true,
                    ClientNext::Panic(error),
                ),
            },
            _ => ApiClient::on(chunks, ClientPhase::Done, false, ClientNext::Finish),
        }
    }

    fn on(
        chunks: Option<Vec<FileChunk>>,
        phase: ClientPhase,
        close: bool,
        next: ClientNext,
    ) -> (r: (ApiClient, ClientStep))
        ensures
            r.0 == (ApiClient { chunks, phase }),
            only(r.1, close, next),
    {
        (ApiClient { chunks, phase }, ClientStep { frame: None, close, print: None, next })
    }

    fn send_chunk(chunks: Option<Vec<FileChunk>>, offset: usize) -> (r: (ApiClient, ClientStep))
        ensures
            r.0.chunks == chunks,
            ({
                let status = TaskLaunchStatusResponseEnvelope::Success {
                    body: TaskLaunchStatus::AwaitingFiles { offset },
                };
                let event = ClientEvent::StatusDecoded(status);
                &&& r.0.phase == client_phase_after(ClientPhase::Launching, chunks, event)
                &&& client_answers(ClientPhase::Launching, chunks, event, r.1)
            }),
    {
        match chunks {
            None => ApiClient::on(
                None,
                ClientPhase::Done,
                true,
                ClientNext::Fail(ClientFailure::NoFilesAttached),
            ),
            Some(chunks) => match find_chunk(&chunks, offset) {
                Some(i) => {
                    let data = slice_to_vec(chunks[i].data.as_slice());
                    let envelope = FileChunkRequestEnvelope { body: FileChunk { offset, data } };
                    let frame = envelope.into_bytes();
                    let step = ClientStep {
                        frame: Some(frame),
                        close: false,
                        print: None,
                        next: ClientNext::Receive,
                    };
                    (ApiClient { chunks: Some(chunks), phase: ClientPhase::Launching }, step)
                },
                None => ApiClient::on(
                    Some(chunks),
                    ClientPhase::Done,
                    true,
                    ClientNext::Fail(ClientFailure::ChunkNotFound(offset)),
                ),
            },
        }
    }
}

/// The message that asks for a launch.
pub open spec fn launch_message(request: StartTaskRequest) -> Seq<u8> {
    let envelope = TaskLaunchRequestEnvelope { body: request };
    vstd::utf8::encode_utf8(envelope.json())
}

} // verus!
