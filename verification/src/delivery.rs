//! What holds of a client and a server together.

use crate::api::client::ClientPhase;
use crate::api::file_chunk::FileChunk;
use crate::server::handler::tasks::{Job, PhaseModel, SessionEvent, SessionModel, UploadModel};
use vstd::prelude::*;

verus! {

/// A session that has opened the frame with the next piece of its upload.
pub open spec fn with_piece_opened(session: SessionModel) -> SessionModel {
    match session.phase {
        PhaseModel::AwaitingChunk(job, upload) => SessionModel {
            phase: PhaseModel::DecodingChunk(job, upload),
            ..session
        },
        _ => session,
    }
}

/// A session after the first `n` pieces of an upload.
pub open spec fn after_pieces(session: SessionModel, chunks: Seq<FileChunk>, n: int) -> SessionModel
    decreases n,
{
    if n <= 0 {
        session
    } else {
        crate::server::handler::tasks::transition(
            with_piece_opened(after_pieces(session, chunks, n - 1)),
            SessionEvent::ChunkDecoded(Some(chunks[n - 1])),
        ).0
    }
}

/// What the application has been told to append to the upload with the first
/// `n` pieces.
pub open spec fn stored_pieces(session: SessionModel, chunks: Seq<FileChunk>, n: int) -> Seq<u8>
    decreases n,
{
    if n <= 0 {
        Seq::empty()
    } else {
        let step = crate::server::handler::tasks::transition(
            with_piece_opened(after_pieces(session, chunks, n - 1)),
            SessionEvent::ChunkDecoded(Some(chunks[n - 1])),
        ).1;
        stored_pieces(session, chunks, n - 1) + match step.store {
            Some(data) => data,
            None => Seq::empty(),
        }
    }
}

/// A file that is split, announced and sent piece by piece arrives whole: after
/// each piece the server has the file up to there, stored as it came, and waits
/// for the next one; and after the last one it has stored the file and goes on
/// to extract it.
pub proof fn law_upload_arrives_whole(
    session: SessionModel,
    job: Job,
    file: Seq<u8>,
    chunks: Seq<FileChunk>,
    chunk_size: int,
    n: int,
)
    requires
        file.len() > 0,
        session.phase == PhaseModel::AwaitingChunk(
            job,
            UploadModel {
                size: file.len() as int,
                hash: crate::outside::md5_digest(file),
                received: Seq::empty(),
            },
        ),
        crate::api::client::pieces_of(file, chunks),
        crate::api::client::pieces_sized(chunks, chunk_size),
        0 <= n <= chunks.len(),
    ensures
        n < chunks.len() ==> {
            &&& after_pieces(session, chunks, n).phase == PhaseModel::AwaitingChunk(
                job,
                UploadModel {
                    size: file.len() as int,
                    hash: crate::outside::md5_digest(file),
                    received: file.subrange(0, chunks[n].offset as int),
                },
            )
            &&& stored_pieces(session, chunks, n) == file.subrange(0, chunks[n].offset as int)
        },
        n == chunks.len() ==> {
            &&& after_pieces(session, chunks, n).phase == PhaseModel::Extracting(job)
            &&& stored_pieces(session, chunks, n) == file
        },
    decreases n,
{
    if n == 0 {
        assert(file.subrange(0, 0) =~= Seq::<u8>::empty());
    } else {
        law_upload_arrives_whole(session, job, file, chunks, chunk_size, n - 1);
        let chunk = chunks[n - 1];
        assert(crate::api::client::piece_fits(file, chunks, n - 1));
        assert(chunk.data@.len() > 0);
        let before = after_pieces(session, chunks, n - 1);
        let upload = UploadModel {
            size: file.len() as int,
            hash: crate::outside::md5_digest(file),
            received: file.subrange(0, chunk.offset as int),
        };
        crate::server::handler::tasks::law_chunk_brings_the_upload_on(
            with_piece_opened(before),
            job,
            upload,
            file,
            chunk,
        );
        let end = chunk.offset + chunk.data@.len();
        assert(file.subrange(0, chunk.offset as int) + chunk.data@ =~= file.subrange(0, end));
        if n < chunks.len() {
            assert(crate::api::client::piece_fits(file, chunks, n));
            assert(chunks[n].data@.len() > 0);
        } else {
            assert(file.subrange(0, end) =~= file);
        }
    }
}

/// A client that is asked for a piece of its file sends that piece.
pub proof fn law_client_sends_what_is_asked_for(
    file: Seq<u8>,
    chunks: Vec<FileChunk>,
    chunk_size: int,
    n: int,
    step: crate::api::client::ClientStep,
)
    requires
        crate::api::client::pieces_of(file, chunks@),
        crate::api::client::pieces_sized(chunks@, chunk_size),
        0 <= n < chunks@.len(),
        crate::api::client::client_answers(
            ClientPhase::Launching,
            Some(chunks),
            crate::api::client::ClientEvent::StatusDecoded(
                crate::api::envelopes::TaskLaunchStatusResponseEnvelope::Success {
                    body: crate::api::TaskLaunchStatus::AwaitingFiles { offset: chunks@[n].offset },
                },
            ),
            step,
        ),
    ensures
        crate::api::client::sends(
            step,
            crate::api::client::chunk_message(chunks@[n].offset, chunks@[n].data@),
        ),
{
    crate::api::client::law_every_piece_can_be_found(file, chunks@, chunk_size, n);
}

} // verus!
