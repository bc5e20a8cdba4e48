//! The server's side of the encryption handshake.

use crate::api::handshake::{
    build_confirmation_frame, ConnectionSecurity, HandshakeError, SecurityState, SessionKeys,
    SessionState, CLIENT_HELLO_LEN, CONFIRMATION_AAD, CONFIRMATION_FRAME_LEN,
};
use crate::api::protocol_version::PROTOCOL_VERSION_ENCRYPTED_V2;
use crate::cryptography::{to_key_bytes, PublicKey, ServerStaticKey};
use crate::outside;
use crate::server::{Reception, Sending};
use vstd::prelude::*;
use vstd::string::*;

verus! {

/// How long, in seconds, a half-completed handshake may hold a connection
/// before the server gives it up: for the ClientHello to come, and for the
/// ServerConfirm to be sent.
pub const HANDSHAKE_TIMEOUT: u64 = 10;

/// A connection's security, with the frame to send before it is in force.
pub struct Established {
    pub security: ConnectionSecurity,
    pub confirmation: Option<[u8; CONFIRMATION_FRAME_LEN]>,
}

/// The shared secret of a handshake: of the server's key and the client's
/// public key, which is its hello.
pub open spec fn handshake_secret(server_key: Seq<u8>, hello: Seq<u8>) -> Seq<u8> {
    outside::x25519_shared(server_key, hello)
}

/// Why a hello is refused, if it is.
pub open spec fn hello_refused(server_key: Seq<u8>, hello: Reception) -> Option<HandshakeError> {
    match hello {
        Reception::TimedOut => Some(HandshakeError::HelloTimedOut),
        Reception::Disconnected => Some(HandshakeError::HelloDisconnected),
        Reception::Failed(error) => Some(HandshakeError::HelloNotReceived(error)),
        Reception::Binary(hello) => if hello@.len() != CLIENT_HELLO_LEN {
            Some(HandshakeError::HelloLength(hello@.len() as usize))
        } else if !crate::cryptography::is_contributory(handshake_secret(server_key, hello@)) {
            Some(HandshakeError::NonContributory)
        } else {
            None
        },
        _ => Some(HandshakeError::HelloNotBinary),
    }
}

/// The state that a handshake with this shared secret leaves the server in:
/// the confirmation frame has taken the first nonce of its direction.
pub open spec fn confirmed_session(shared: Seq<u8>) -> SessionState {
    let fresh = crate::api::handshake::server_session(shared);
    SessionState { send: crate::api::handshake::advanced(fresh.send, true), recv: fresh.recv }
}

/// Whether `frame` is the confirmation that a server with this shared secret
/// sends.
pub open spec fn confirms(shared: Seq<u8>, frame: Seq<u8>) -> bool {
    let fresh = crate::api::handshake::server_session(shared);
    &&& crate::api::handshake::seal_outcome(
        fresh.send,
        Seq::empty(),
        CONFIRMATION_AAD.spec_bytes(),
    ) == Ok::<Seq<u8>, HandshakeError>(frame)
    &&& crate::api::handshake::frame_of(
        fresh.send,
        Seq::empty(),
        CONFIRMATION_AAD.spec_bytes(),
        frame,
    )
}

/// Whether a connection of this protocol version starts with a handshake.
pub fn expects_hello(protocol_version: u32) -> (expected: bool)
    ensures
        expected == (protocol_version == PROTOCOL_VERSION_ENCRYPTED_V2),
{
    protocol_version == PROTOCOL_VERSION_ENCRYPTED_V2
}

/// Establishes a connection's security. Without a handshake, which is to say
/// with any version but the encrypted one, bytes pass unchanged and `hello` is
/// not looked at. With it, `hello` is what came of waiting for the client's
/// public key: from it and the server's key the session keys are derived, and
/// the confirmation frame is built, which has to be sent first.
///
/// A server that accepted the encrypted version has a key.
pub fn establish_security(
    protocol_version: u32,
    server_key: Option<&ServerStaticKey>,
    hello: &Reception,
) -> (result: Result<Established, HandshakeError>)
    requires
        protocol_version == PROTOCOL_VERSION_ENCRYPTED_V2 ==> server_key is Some,
    ensures
        protocol_version != PROTOCOL_VERSION_ENCRYPTED_V2 ==> {
            &&& result matches Ok(established)
            &&& established.security@ == SecurityState::Plaintext
            &&& established.confirmation is None
        },
        protocol_version == PROTOCOL_VERSION_ENCRYPTED_V2 ==> match result {
            Ok(established) => {
                &&& hello_refused(server_key->0.bytes(), *hello) is None
                &&& *hello matches Reception::Binary(public) && {
                    let shared = handshake_secret(server_key->0.bytes(), public@);
                    &&& established.security@ == SecurityState::Encrypted(confirmed_session(shared))
                    &&& established.confirmation matches Some(frame) && confirms(shared, frame@)
                }
            },
            Err(error) => hello_refused(server_key->0.bytes(), *hello) == Some(error),
        },
{
    if protocol_version != PROTOCOL_VERSION_ENCRYPTED_V2 {
        return Ok(Established { security: ConnectionSecurity::Plaintext, confirmation: None });
    }
    let server_key = server_key.unwrap();
    let hello = match hello {
        Reception::TimedOut => {
            return Err(HandshakeError::HelloTimedOut);
        },
        Reception::Disconnected => {
            return Err(HandshakeError::HelloDisconnected);
        },
        Reception::Failed(error) => {
            return Err(HandshakeError::HelloNotReceived(error.clone()));
        },
        Reception::Binary(hello) => hello,
        _ => {
            return Err(HandshakeError::HelloNotBinary);
        },
    };
    let client_public = match to_key_bytes(hello) {
        Some(bytes) => PublicKey { bytes },
        None => {
            return Err(HandshakeError::HelloLength(hello.len()));
        },
    };
    let shared_secret = server_key.as_static_secret().diffie_hellman(&client_public);
    match SessionKeys::derive_for_server(&shared_secret) {
        Ok(mut session_keys) => match build_confirmation_frame(&mut session_keys) {
            Ok(frame) => Ok(
                Established {
                    security: ConnectionSecurity::Encrypted(session_keys),
                    confirmation: Some(frame),
                },
            ),
            Err(error) => Err(error),
        },
        Err(error) => Err(error),
    }
}

/// Whether the handshake is complete, once the confirmation frame was to be
/// sent.
pub fn confirmation_sent(sending: Sending) -> (result: Result<(), HandshakeError>)
    ensures
        result == (match sending {
            Sending::Sent => Ok::<(), HandshakeError>(()),
            Sending::Failed(error) => Err(HandshakeError::ConfirmNotSent(error)),
            Sending::TimedOut => Err(HandshakeError::ConfirmTimedOut),
        }),
{
    match sending {
        Sending::Sent => Ok(()),
        Sending::Failed(error) => Err(HandshakeError::ConfirmNotSent(error)),
        Sending::TimedOut => Err(HandshakeError::ConfirmTimedOut),
    }
}

/// A client that pinned the server's public key and sent its own as the hello
/// verifies the confirmation, and is then in step with the server.
pub proof fn law_handshake_leaves_both_ends_in_step(
    server_key: Seq<u8>,
    client_secret: Seq<u8>,
    client_shared: crate::cryptography::SharedSecret,
    frame: Seq<u8>,
)
    requires
        server_key.len() == 32,
        client_secret.len() == 32,
        crate::cryptography::exchanged(
            client_secret,
            outside::x25519_public(server_key),
            client_shared,
        ),
        confirms(handshake_secret(server_key, outside::x25519_public(client_secret)), frame),
    ensures
        ({
            let shared = handshake_secret(server_key, outside::x25519_public(client_secret));
            let client = crate::api::handshake::client_session(client_shared.bytes());
            &&& crate::api::handshake::open_outcome(
                client.recv,
                frame,
                CONFIRMATION_AAD.spec_bytes(),
            ) == Ok::<Seq<u8>, HandshakeError>(Seq::empty())
            &&& crate::api::handshake::in_step(
                confirmed_session(shared),
                SessionState {
                    send: client.send,
                    recv: crate::api::handshake::advanced(client.recv, true),
                },
            )
        }),
{
    let shared = handshake_secret(server_key, outside::x25519_public(client_secret));
    assert(client_shared.bytes() == shared);
    crate::api::handshake::law_confirmation_verifies(
        crate::api::handshake::server_session(shared),
        crate::api::handshake::client_session(shared),
        frame,
    );
}

/// A low-order public key is refused, whatever the server's key.
pub proof fn law_non_contributory_hello_is_refused(server_key: Seq<u8>, hello: Vec<u8>)
    requires
        hello@.len() == CLIENT_HELLO_LEN,
        forall|i: int| 0 <= i < 32 ==> handshake_secret(server_key, hello@)[i] == 0,
    ensures
        hello_refused(server_key, Reception::Binary(hello)) == Some(HandshakeError::NonContributory),
{
}

/// The confirmation takes the first nonce of its direction, so that the first
/// message after it has the second one; nothing has been received yet.
pub proof fn law_confirmation_takes_the_first_nonce(shared: Seq<u8>)
    ensures
        confirmed_session(shared).send.counter == 1,
        confirmed_session(shared).recv.counter == 0,
        confirmed_session(shared).send.key == crate::api::handshake::server_to_client_key(shared),
        confirmed_session(shared).recv.key == crate::api::handshake::client_to_server_key(shared),
{
}

} // verus!
