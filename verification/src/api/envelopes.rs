//! The envelopes that requests and responses travel in.

use crate::api::file_chunk::FileChunk;
use crate::api::{ServerErrorResponse, ServerTaskNotification, StartTaskRequest, TaskLaunchStatus};
use crate::json::{to_json_bytes, ToJson};
use crate::tasks::{TaskOutput, Timestamped};
use vstd::prelude::*;
use vstd::string::*;

verus! {

/// What a client sends.
#[derive(Debug)]
pub struct RequestEnvelope<T> {
    pub body: T,
}

/// What the server sends.
#[derive(Debug)]
pub enum ResponseEnvelope<T, E> {
    Success { body: T },
    Failure { error: E },
}

/// An envelope with a piece of an upload.
pub type FileChunkRequestEnvelope = RequestEnvelope<FileChunk>;

/// An envelope with how a launch is getting on.
pub type TaskLaunchStatusResponseEnvelope = ResponseEnvelope<TaskLaunchStatus, ServerErrorResponse>;

/// An envelope with what a running script wrote, or how it ended.
pub type TaskEventResponseEnvelope = ResponseEnvelope<
    ServerTaskNotification<Timestamped<TaskOutput>, i32>,
    ServerErrorResponse,
>;

/// An envelope with a request to launch a script.
pub type TaskLaunchRequestEnvelope = RequestEnvelope<StartTaskRequest>;

impl<T: ToJson> ToJson for RequestEnvelope<T> {
    open spec fn json(&self) -> Seq<char> {
        "{\"body\":"@ + self.body.json() + "}"@
    }

    fn write_json(&self, out: &mut String) {
        out.append("{\"body\":");
        self.body.write_json(out);
        out.append("}");
        assert(out@ =~= old(out)@ + self.json());
    }
}

impl<T: ToJson, E: ToJson> ToJson for ResponseEnvelope<T, E> {
    open spec fn json(&self) -> Seq<char> {
        match self {
            ResponseEnvelope::Success { body } => "{\"success\":{\"body\":"@ + body.json() + "}}"@,
            ResponseEnvelope::Failure { error } => "{\"failure\":{\"error\":"@ + error.json()
                + "}}"@,
        }
    }

    fn write_json(&self, out: &mut String) {
        match self {
            ResponseEnvelope::Success { body } => {
                out.append("{\"success\":{\"body\":");
                body.write_json(out);
                out.append("}}");
            },
            ResponseEnvelope::Failure { error } => {
                out.append("{\"failure\":{\"error\":");
                error.write_json(out);
                out.append("}}");
            },
        }
        assert(out@ =~= old(out)@ + self.json());
    }
}

impl<T: ToJson> RequestEnvelope<T> {
    /// The bytes to send for this envelope.
    pub fn into_bytes(self) -> (bytes: Vec<u8>)
        ensures
            bytes@ == vstd::utf8::encode_utf8(self.json()),
    {
        to_json_bytes(&self)
    }
}

impl<T: ToJson, E: ToJson> ResponseEnvelope<T, E> {
    /// The bytes to send for this envelope.
    pub fn into_bytes(self) -> (bytes: Vec<u8>)
        ensures
            bytes@ == vstd::utf8::encode_utf8(self.json()),
    {
        to_json_bytes(&self)
    }
}

} // verus!
