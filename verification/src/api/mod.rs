//! The wire protocol between clients and the server.

pub mod client;
pub mod envelopes;
pub mod file_chunk;
pub mod handshake;
pub mod header_value;
pub mod protocol_version;
pub mod user_agent_header;

use crate::json::ToJson;
use crate::tasks::Timestamp;
use vstd::prelude::*;
use vstd::string::*;

verus! {

/// A request to launch a script.
#[derive(Debug)]
pub struct StartTaskRequest {
    pub script_name: String,
    pub arguments: Vec<String>,
    pub file: Option<FileAttachment>,
}

/// What is to be uploaded for a script: the MD5 digest and the size of the
/// file.
#[derive(Debug)]
pub struct FileAttachment {
    pub hash: Vec<u8>,
    pub size: usize,
}

/// How a launch is getting on.
#[derive(Debug)]
pub enum TaskLaunchStatus {
    /// The server waits for the piece of the upload that starts here.
    AwaitingFiles { offset: usize },
    /// The script runs.
    Launched { started_on: Timestamp },
}

/// Why the server did not do what it was asked.
#[derive(Debug, Clone, Copy, PartialEq, Eq, Structural)]
pub enum ServerErrorResponse {
    CannotLaunchScript,
    ScriptNotFound,
    Unknown,
}

/// What the server reports of a running script.
#[derive(Debug)]
pub enum ServerTaskNotification<O, E> {
    Output(O),
    ExitCode(E),
}

/// What a client says of itself: the version of its implementation.
pub struct UserAgentHeader {
    pub version: String,
}

/// The wire-protocol version that a client declares, apart from what its
/// `User-Agent` says of the implementation.
pub struct ProtocolVersionHeader {
    pub version: u32,
}

impl ToJson for StartTaskRequest {
    open spec fn json(&self) -> Seq<char> {
        "{\"script\":"@ + self.script_name.json() + ",\"args\":"@ + self.arguments.json()
            + ",\"file\":"@ + self.file.json() + "}"@
    }

    fn write_json(&self, out: &mut String) {
        out.append("{\"script\":");
        self.script_name.write_json(out);
        out.append(",\"args\":");
        self.arguments.write_json(out);
        out.append(",\"file\":");
        self.file.write_json(out);
        out.append("}");
        assert(out@ =~= old(out)@ + self.json());
    }
}

impl ToJson for FileAttachment {
    open spec fn json(&self) -> Seq<char> {
        "{\"hash\":"@ + self.hash.json() + ",\"size\":"@ + self.size.json() + "}"@
    }

    fn write_json(&self, out: &mut String) {
        out.append("{\"hash\":");
        self.hash.write_json(out);
        out.append(",\"size\":");
        self.size.write_json(out);
        out.append("}");
        assert(out@ =~= old(out)@ + self.json());
    }
}

impl ToJson for TaskLaunchStatus {
    open spec fn json(&self) -> Seq<char> {
        match self {
            TaskLaunchStatus::AwaitingFiles { offset } => "{\"awaiting_files\":{\"offset\":"@
                + offset.json() + "}}"@,
            TaskLaunchStatus::Launched { started_on } => "{\"launched\":{\"started_on\":"@
                + started_on.json() + "}}"@,
        }
    }

    fn write_json(&self, out: &mut String) {
        match self {
            TaskLaunchStatus::AwaitingFiles { offset } => {
                out.append("{\"awaiting_files\":{\"offset\":");
                offset.write_json(out);
                out.append("}}");
            },
            TaskLaunchStatus::Launched { started_on } => {
                out.append("{\"launched\":{\"started_on\":");
                started_on.write_json(out);
                out.append("}}");
            },
        }
        assert(out@ =~= old(out)@ + self.json());
    }
}

impl ToJson for ServerErrorResponse {
    open spec fn json(&self) -> Seq<char> {
        match self {
            ServerErrorResponse::CannotLaunchScript => "\"cannot_launch_script\""@,
            ServerErrorResponse::ScriptNotFound => "\"script_not_found\""@,
            ServerErrorResponse::Unknown => "\"unknown\""@,
        }
    }

    fn write_json(&self, out: &mut String) {
        match self {
            ServerErrorResponse::CannotLaunchScript => out.append("\"cannot_launch_script\""),
            ServerErrorResponse::ScriptNotFound => out.append("\"script_not_found\""),
            ServerErrorResponse::Unknown => out.append("\"unknown\""),
        }
    }
}

impl<O: ToJson, E: ToJson> ToJson for ServerTaskNotification<O, E> {
    open spec fn json(&self) -> Seq<char> {
        match self {
            ServerTaskNotification::Output(output) => "{\"output\":"@ + output.json() + "}"@,
            ServerTaskNotification::ExitCode(code) => "{\"exit_code\":"@ + code.json() + "}"@,
        }
    }

    fn write_json(&self, out: &mut String) {
        match self {
            ServerTaskNotification::Output(output) => {
                out.append("{\"output\":");
                output.write_json(out);
                out.append("}");
            },
            ServerTaskNotification::ExitCode(code) => {
                out.append("{\"exit_code\":");
                code.write_json(out);
                out.append("}");
            },
        }
        assert(out@ =~= old(out)@ + self.json());
    }
}

} // verus!
