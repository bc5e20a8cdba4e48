//! What a client does from logging in to the script's exit code.

use crate::api::client::{
    ClientEvent, ClientFailure, ClientNext, ClientPhase, ClientReception, ClientStep,
    RequestHeaders,
};
use crate::api::envelopes::{TaskEventResponseEnvelope, TaskLaunchStatusResponseEnvelope};
use crate::api::file_chunk::FileChunk;
use crate::api::{ServerErrorResponse, ServerTaskNotification, TaskLaunchStatus};
use crate::cryptography::KeyError;
use crate::outside;
use crate::tasks::{TaskOutput, Timestamp, Timestamped};
use vstd::prelude::*;
use vstd::string::*;

verus! {

/// Whether a client in one phase that hears of an event may take `step` and be in
/// the other phase.
pub open spec fn turns(
    before: ClientPhase,
    chunks: Option<Vec<FileChunk>>,
    event: ClientEvent,
    step: ClientStep,
    after: ClientPhase,
) -> bool {
    &&& crate::api::client::client_answers(before, chunks, event, step)
    &&& after == crate::api::client::client_phase_after(before, chunks, event)
}

/// Whether a step sends nothing and prints nothing, and leaves the connection open.
pub open spec fn keeps_still(step: ClientStep) -> bool {
    step.frame is None && !step.close && step.print is None
}

/// Whether a step closes the connection, and sends and prints nothing.
pub open spec fn closes(step: ClientStep) -> bool {
    step.frame is None && step.close && step.print is None
}

/// A client prints each line that the script writes, on the output that the script
/// wrote it on, and waits for the next.
pub proof fn law_every_line_is_printed(
    chunks: Option<Vec<FileChunk>>,
    output: Timestamped<TaskOutput>,
    step: ClientStep,
    after: ClientPhase,
)
    requires
        turns(
            ClientPhase::Streaming,
            chunks,
            ClientEvent::EventDecoded(
                TaskEventResponseEnvelope::Success { body: ServerTaskNotification::Output(output) },
            ),
            step,
            after,
        ),
    ensures
        step.print == Some(output.value),
        step.frame is None,
        !step.close,
        step.next is Receive,
        after is Streaming,
{
}

/// A client ends with the exit code that it is told, and closes the connection
/// first.
pub proof fn law_exit_code_is_passed_on(
    chunks: Option<Vec<FileChunk>>,
    code: i32,
    step: ClientStep,
    after: ClientPhase,
)
    requires
        turns(
            ClientPhase::Streaming,
            chunks,
            ClientEvent::EventDecoded(
                TaskEventResponseEnvelope::Success { body: ServerTaskNotification::ExitCode(code) },
            ),
            step,
            after,
        ),
    ensures
        closes(step),
        step.next == ClientNext::Exit(code),
        after is Done,
{
}

/// The phase of a client that is told of the first `n` of these lines.
pub open spec fn after_lines(
    chunks: Option<Vec<FileChunk>>,
    lines: Seq<Timestamped<TaskOutput>>,
    n: int,
) -> ClientPhase
    decreases n,
{
    if n <= 0 {
        ClientPhase::Streaming
    } else {
        crate::api::client::client_phase_after(
            after_lines(chunks, lines, n - 1),
            chunks,
            ClientEvent::EventDecoded(
                TaskEventResponseEnvelope::Success {
                    body: ServerTaskNotification::Output(lines[n - 1]),
                },
            ),
        )
    }
}

/// However many lines a script writes, the last one is printed like the first, and
/// the exit code that follows is the one that the client ends with.
pub proof fn law_runs_are_followed_to_the_end(
    chunks: Option<Vec<FileChunk>>,
    lines: Seq<Timestamped<TaskOutput>>,
    n: int,
    line: ClientStep,
    code: i32,
    last: ClientStep,
)
    requires
        0 <= n < lines.len(),
        crate::api::client::client_answers(
            after_lines(chunks, lines, n),
            chunks,
            ClientEvent::EventDecoded(
                TaskEventResponseEnvelope::Success {
                    body: ServerTaskNotification::Output(lines[n]),
                },
            ),
            line,
        ),
        crate::api::client::client_answers(
            after_lines(chunks, lines, lines.len() as int),
            chunks,
            ClientEvent::EventDecoded(
                TaskEventResponseEnvelope::Success { body: ServerTaskNotification::ExitCode(code) },
            ),
            last,
        ),
    ensures
        line.print == Some(lines[n].value),
        line.next is Receive,
        last.next == ClientNext::Exit(code),
{
    lemma_lines_keep_streaming(chunks, lines, n);
    lemma_lines_keep_streaming(chunks, lines, lines.len() as int);
}

proof fn lemma_lines_keep_streaming(
    chunks: Option<Vec<FileChunk>>,
    lines: Seq<Timestamped<TaskOutput>>,
    n: int,
)
    ensures
        after_lines(chunks, lines, n) is Streaming,
    decreases n,
{
    if n > 0 {
        lemma_lines_keep_streaming(chunks, lines, n - 1);
    }
}

/// A client hands on what it receives in binary frames, as it came, to be decoded
/// as what it waits for: how the launch gets on, and then what the script does.
pub proof fn law_binary_frames_are_decoded(
    phase: ClientPhase,
    chunks: Option<Vec<FileChunk>>,
    frame: Vec<u8>,
    step: ClientStep,
    after: ClientPhase,
)
    requires
        phase !is Done,
        turns(phase, chunks, ClientEvent::Received(ClientReception::Binary(frame)), step, after),
    ensures
        keeps_still(step),
        phase is Launching ==> step.next == ClientNext::DecodeStatus(frame),
        phase is Streaming ==> step.next == ClientNext::DecodeEvent(frame),
        after == phase,
{
}

/// A client whose script was launched goes on to follow it; and one that is told of
/// a failure ends with the failure that it is told of, and closes the connection if
/// the script had been launched.
pub proof fn law_launches_are_followed(
    phase: ClientPhase,
    chunks: Option<Vec<FileChunk>>,
    started_on: Timestamp,
    error: ServerErrorResponse,
    launched: ClientStep,
    following: ClientPhase,
    refused: ClientStep,
    after_refusal: ClientPhase,
    failed: ClientStep,
    after_failure: ClientPhase,
)
    requires
        turns(
            ClientPhase::Launching,
            chunks,
            ClientEvent::StatusDecoded(
                TaskLaunchStatusResponseEnvelope::Success {
                    body: TaskLaunchStatus::Launched { started_on },
                },
            ),
            launched,
            following,
        ),
        turns(
            ClientPhase::Launching,
            chunks,
            ClientEvent::StatusDecoded(TaskLaunchStatusResponseEnvelope::Failure { error }),
            refused,
            after_refusal,
        ),
        turns(
            ClientPhase::Streaming,
            chunks,
            ClientEvent::EventDecoded(TaskEventResponseEnvelope::Failure { error }),
            failed,
            after_failure,
        ),
    ensures
        keeps_still(launched) && launched.next is Receive && following is Streaming,
        keeps_still(refused) && refused.next == ClientNext::Panic(error) && after_refusal is Done,
        closes(failed) && failed.next == ClientNext::Panic(error) && after_failure is Done,
{
}

/// A client that is asked for the piece at an offset sends the first of its pieces
/// that has that offset, and waits; if none has, or it has no pieces at all, it says
/// so and closes the connection.
pub proof fn law_asked_piece_is_sent(
    chunks: Option<Vec<FileChunk>>,
    offset: usize,
    step: ClientStep,
    after: ClientPhase,
)
    requires
        turns(
            ClientPhase::Launching,
            chunks,
            ClientEvent::StatusDecoded(
                TaskLaunchStatusResponseEnvelope::Success {
                    body: TaskLaunchStatus::AwaitingFiles { offset },
                },
            ),
            step,
            after,
        ),
    ensures
        chunks is None ==> closes(step) && step.next == ClientNext::Fail(
            ClientFailure::NoFilesAttached,
        ) && after is Done,
        chunks matches Some(pieces) ==> {
            &&& (forall|i: int| 0 <= i < pieces@.len() ==> (#[trigger] pieces@[i]).offset != offset)
                ==> closes(step) && step.next == ClientNext::Fail(
                ClientFailure::ChunkNotFound(offset),
            ) && after is Done
            &&& forall|i: int|
                {
                    &&& 0 <= i < pieces@.len()
                    &&& (#[trigger] pieces@[i]).offset == offset
                    &&& forall|j: int| 0 <= j < i ==> (#[trigger] pieces@[j]).offset != offset
                } ==> {
                    &&& step.frame matches Some(frame)
                    &&& frame@ == vstd::utf8::encode_utf8(
                        "{\"body\":{\"offset\":"@ + crate::text::decimal(offset as nat)
                            + ",\"data\":["@ + crate::json::comma_separated(pieces@[i].data@)
                            + "]}}"@,
                    )
                    &&& !step.close
                    &&& step.print is None
                    &&& step.next is Receive
                    &&& after is Launching
                }
        },
{
    if let Some(pieces) = chunks {
        assert forall|i: int|
            {
                &&& 0 <= i < pieces@.len()
                &&& (#[trigger] pieces@[i]).offset == offset
                &&& forall|j: int| 0 <= j < i ==> (#[trigger] pieces@[j]).offset != offset
            } implies {
            &&& step.frame matches Some(frame)
            &&& frame@ == vstd::utf8::encode_utf8(
                "{\"body\":{\"offset\":"@ + crate::text::decimal(offset as nat) + ",\"data\":["@
                    + crate::json::comma_separated(pieces@[i].data@) + "]}}"@,
            )
            &&& !step.close
            &&& step.print is None
            &&& step.next is Receive
            &&& after is Launching
        } by {
            assert(crate::api::client::is_first_at(pieces@, offset, i));
            let chosen = crate::api::client::chunk_at(pieces@, offset)->0;
            assert(crate::api::client::is_first_at(pieces@, offset, chosen));
            assert(chosen == i);
            lemma_piece_text(offset, pieces@[i].data@);
        }
    }
}

proof fn lemma_piece_text(offset: usize, data: Seq<u8>)
    ensures
        crate::api::client::chunk_message(offset, data) == vstd::utf8::encode_utf8(
            "{\"body\":{\"offset\":"@ + crate::text::decimal(offset as nat) + ",\"data\":["@
                + crate::json::comma_separated(data) + "]}}"@,
        ),
{
    reveal_strlit("{\"body\":");
    reveal_strlit("{\"offset\":");
    reveal_strlit("{\"body\":{\"offset\":");
    reveal_strlit(",\"data\":");
    reveal_strlit(",\"data\":[");
    reveal_strlit("[");
    reveal_strlit("]");
    reveal_strlit("}");
    reveal_strlit("]}}");
    let number = crate::text::decimal(offset as nat);
    let list = crate::json::comma_separated(data);
    assert("{\"body\":"@ + ("{\"offset\":"@ + number + ",\"data\":"@ + ("["@ + list + "]"@) + "}"@)
        + "}"@ =~= "{\"body\":{\"offset\":"@ + number + ",\"data\":["@ + list + "]}}"@);
}

/// A client that loses the server, or hears from it in anything but binary frames,
/// ends: with a failure that says so while it waits for the launch, and afterwards
/// quietly if the server closed the connection or went away.
pub proof fn law_lost_servers_are_noticed(
    phase: ClientPhase,
    chunks: Option<Vec<FileChunk>>,
    reception: ClientReception,
    step: ClientStep,
    after: ClientPhase,
)
    requires
        phase !is Done,
        reception !is Binary,
        turns(phase, chunks, ClientEvent::Received(reception), step, after),
    ensures
        keeps_still(step),
        after is Done,
        reception matches ClientReception::Failed(error) ==> step.next == ClientNext::Fail(
            ClientFailure::Transport(error),
        ),
        phase is Launching ==> {
            &&& reception is Disconnected ==> step.next == ClientNext::Fail(
                ClientFailure::NoResponse,
            )
            &&& reception matches ClientReception::Other { display, .. } ==> step.next
                == ClientNext::Fail(ClientFailure::NotBinary(display))
        },
        phase is Streaming ==> {
            &&& reception is Disconnected ==> step.next is Finish
            &&& reception matches ClientReception::Other { close, debug, .. } ==> if close {
                step.next is Finish
            } else {
                step.next matches ClientNext::PanicUnexpected(text) && text@
                    == "Unexpected message: "@ + debug@
            }
        },
{
}

/// A client that is done does nothing more.
pub proof fn law_done_is_done(
    chunks: Option<Vec<FileChunk>>,
    event: ClientEvent,
    step: ClientStep,
    after: ClientPhase,
)
    requires
        turns(ClientPhase::Done, chunks, event, step, after),
    ensures
        keeps_still(step),
        step.next is Finish,
        after is Done,
{
}

/// Each failure, and each of the server's errors, has words of its own.
pub proof fn law_failures_are_told(text: String, offset: usize)
    ensures
        ClientFailure::NoResponse.text() == "Server did not respond"@,
        ClientFailure::Transport(text).text() == text@,
        ClientFailure::NotBinary(text).text()
            == "Server did not respond with a valid response, got "@ + text@,
        ClientFailure::NoFilesAttached.text() == "No files were attached to the task"@,
        ClientFailure::ChunkNotFound(offset).text() == "Chunk not found for offset "@
            + crate::text::decimal(offset as nat),
        ServerErrorResponse::CannotLaunchScript.text() == "Cannot launch script"@,
        ServerErrorResponse::ScriptNotFound.text() == "Script not found"@,
        ServerErrorResponse::Unknown.text() == "Unknown error"@,
{
}

/// What the first `n` pieces hold together.
pub open spec fn joined(chunks: Seq<FileChunk>, n: int) -> Seq<u8>
    decreases n,
{
    if n <= 0 {
        Seq::empty()
    } else {
        joined(chunks, n - 1) + chunks[n - 1].data@
    }
}

/// The pieces of a file make it up when they are put together; each starts where
/// those before it end, which is a multiple of their size, and none but the last is
/// smaller.
pub proof fn law_pieces_make_up_the_file(
    file: Seq<u8>,
    chunks: Seq<FileChunk>,
    chunk_size: int,
    i: int,
)
    requires
        chunk_size > 0,
        crate::api::client::pieces_of(file, chunks),
        crate::api::client::pieces_sized(chunks, chunk_size),
        0 <= i < chunks.len(),
    ensures
        joined(chunks, chunks.len() as int) == file,
        chunks[i].offset == joined(chunks, i).len(),
        chunks[i].offset == i * chunk_size,
        i + 1 < chunks.len() ==> chunks[i].data@.len() == chunk_size,
        i + 1 == chunks.len() ==> chunks[i].data@.len() == file.len() - i * chunk_size,
        0 < chunks[i].data@.len() <= chunk_size,
{
    lemma_pieces_so_far(file, chunks, chunk_size, i);
    lemma_pieces_so_far(file, chunks, chunk_size, chunks.len() - 1);
    let last = chunks.len() - 1;
    assert(crate::api::client::piece_fits(file, chunks, last));
    assert(joined(chunks, last) + chunks[last].data@ =~= file);
    assert(crate::api::client::piece_fits(file, chunks, i));
}

proof fn lemma_pieces_so_far(file: Seq<u8>, chunks: Seq<FileChunk>, chunk_size: int, i: int)
    requires
        chunk_size > 0,
        crate::api::client::pieces_of(file, chunks),
        crate::api::client::pieces_sized(chunks, chunk_size),
        0 <= i < chunks.len(),
    ensures
        chunks[i].offset <= file.len(),
        joined(chunks, i) == file.subrange(0, chunks[i].offset as int),
        chunks[i].offset == i * chunk_size,
    decreases i,
{
    assert(crate::api::client::piece_fits(file, chunks, i));
    if i > 0 {
        lemma_pieces_so_far(file, chunks, chunk_size, i - 1);
        assert(crate::api::client::piece_fits(file, chunks, i - 1));
        assert(chunks[i - 1].data@.len() == chunk_size);
        assert((i - 1) * chunk_size + chunk_size == i * chunk_size) by (nonlinear_arith);
        assert(joined(chunks, i) =~= file.subrange(0, chunks[i].offset as int));
    } else {
        assert(file.subrange(0, 0) =~= Seq::<u8>::empty());
        assert(0 * chunk_size == 0);
    }
}

/// An empty file has no pieces, and any other has some.
pub proof fn law_only_empty_files_have_no_pieces(file: Seq<u8>, chunks: Seq<FileChunk>)
    requires
        crate::api::client::pieces_of(file, chunks),
    ensures
        chunks.len() == 0 <==> file.len() == 0,
{
}

/// A client's token claims the client's name, and expires ten seconds from now; it
/// is there whenever the key has the right length and can be encoded and signed
/// with, and else what stood in the way is told.
pub proof fn law_tokens_last_ten_seconds(name: Seq<char>, seed: Seq<u8>, now: nat)
    ensures
        ({
            let claims = "{\"sub\":"@ + outside::json_quoted(name) + ",\"exp\":"@
                + crate::text::decimal(now + 10) + "}"@;
            match crate::api::client::login_token(name, seed, now as int) {
                Ok(token) => {
                    &&& seed.len() == 32
                    &&& outside::ed25519_document(seed) matches Some(document)
                    &&& outside::token_for(claims, document) == Some(token)
                },
                Err(KeyError::WrongLength) => seed.len() != 32,
                Err(KeyError::NotEncodable) => seed.len() == 32 && outside::ed25519_document(
                    seed,
                ) is None,
                Err(error) => {
                    &&& error is NotSignable
                    &&& seed.len() == 32
                    &&& outside::ed25519_document(seed) matches Some(document)
                    &&& outside::token_for(claims, document) is None
                },
            }
        }),
{
    assert((now as int + 10) as nat == now + 10);
}

/// A client logs in with its token, this product's name and version, and the
/// current protocol version.
pub proof fn law_clients_present_themselves(headers: RequestHeaders, token: Seq<char>)
    requires
        crate::api::client::presents(headers, token),
    ensures
        headers.authorization@ == vstd::utf8::encode_utf8("Token "@ + token),
        headers.user_agent@ == vstd::utf8::encode_utf8("Orosu/0.7.0"@),
        headers.protocol_version@ == vstd::utf8::encode_utf8("1"@),
{
    reveal_strlit("Orosu/");
    reveal_strlit("0.7.0");
    reveal_strlit("Orosu/0.7.0");
    reveal_strlit("1");
    assert("Orosu/"@ + "0.7.0"@ =~= "Orosu/0.7.0"@);
    assert(crate::text::decimal(1) =~= "1"@);
}

/// A token that a client was given is one that can stand in a header, and that the
/// client's public key vouches for.
pub proof fn law_signed_tokens_are_vouched_for(token: Seq<char>, seed: Seq<u8>)
    requires
        crate::api::client::is_signed_by(token, seed),
    ensures
        outside::token_signed(token, outside::ed25519_public(seed)),
        forall|i: int|
            0 <= i < token.len() ==> (#[trigger] token[i]) == '\t' || ' ' <= token[i] <= '~',
{
    assert forall|i: int| 0 <= i < token.len() implies (#[trigger] token[i]) == '\t' || ' '
        <= token[i] <= '~' by {
        assert(crate::api::header_value::is_header_text_char(token[i]));
    }
}

} // verus!
