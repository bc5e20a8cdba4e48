//! The server's side: who may connect, and what a connection does.

pub mod auth_scope;
pub mod handler;
pub mod handshake;

use crate::client::Client;
use crate::cryptography::ServerStaticKey;
use vstd::prelude::*;

verus! {

/// The HTTP status of a request that is turned away.
#[derive(Debug, Clone, Copy, PartialEq, Eq, Structural)]
pub enum StatusCode {
    BadRequest,
    Unauthorized,
    Forbidden,
    InternalServerError,
}

impl StatusCode {
    /// The number of the status.
    pub open spec fn number(&self) -> int {
        match self {
            StatusCode::BadRequest => 400,
            StatusCode::Unauthorized => 401,
            StatusCode::Forbidden => 403,
            StatusCode::InternalServerError => 500,
        }
    }

    /// The number of the status.
    pub fn as_u16(&self) -> (number: u16)
        ensures
            number == self.number(),
    {
        match self {
            StatusCode::BadRequest => 400,
            StatusCode::Unauthorized => 401,
            StatusCode::Forbidden => 403,
            StatusCode::InternalServerError => 500,
        }
    }
}

/// What came of waiting for the next frame of a connection.
#[derive(Debug)]
pub enum Reception {
    /// A binary frame.
    Binary(Vec<u8>),
    /// A text frame.
    Text,
    /// A keepalive.
    Ping,
    /// The answer to a keepalive.
    Pong,
    /// A close frame.
    Close,
    /// The transport failed, with this error.
    Failed(String),
    /// The peer is gone.
    Disconnected,
    /// Nothing came in time.
    TimedOut,
}

/// What came of sending a frame.
#[derive(Debug)]
pub enum Sending {
    /// It was sent.
    Sent,
    /// The transport failed, with this error.
    Failed(String),
    /// It was not sent in time.
    TimedOut,
}

/// What a route is there for, and so who may use it.
#[derive(Debug, Clone, Copy, PartialEq, Eq, Structural)]
pub enum AuthScope {
    Worker,
}

/// An authenticated client, with the protocol version that it speaks.
pub struct WorkerAuthContext {
    pub client: Client,
    pub protocol_version: u32,
}

/// Who is behind a request.
pub enum AuthContext {
    Worker(WorkerAuthContext),
}

/// What the server knows: its clients, and its own key where encryption is
/// configured.
pub struct ServerState {
    pub clients: Vec<Client>,
    pub encryption_key: Option<ServerStaticKey>,
}

} // verus!
