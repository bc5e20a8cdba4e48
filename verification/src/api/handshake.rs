//! The end-to-end encryption layer: session keys, the ciphers of the two
//! directions, and the frame by which the server proves that it holds the key
//! that the client pinned.

use crate::cryptography::SharedSecret;
use crate::outside;
use crate::outside::{AEAD_MAX_MESSAGE_LEN, AEAD_TAG_LEN};
use crate::text::append_decimal;
use vstd::prelude::*;
use vstd::slice::slice_to_vec;
use vstd::string::*;

verus! {

/// HKDF-SHA256 salt for deriving the two directional session keys from the
/// X25519 shared secret. Fixed and public: it only keeps this derivation apart
/// from any other use of the same key exchange.
pub const HKDF_SALT: &'static str = "orosu-e2e-v2-salt";

/// HKDF `info` label of the client-to-server key.
pub const HKDF_INFO_CLIENT_TO_SERVER: &'static str = "orosu-e2e-v2 client-to-server";

/// HKDF `info` label of the server-to-client key.
pub const HKDF_INFO_SERVER_TO_CLIENT: &'static str = "orosu-e2e-v2 server-to-client";

/// Associated data of the key-confirmation frame, so that no other frame with
/// an empty plaintext can pass for it.
pub const CONFIRMATION_AAD: &'static str = "orosu-e2e-v2-server-confirm";

/// Size in bytes of the ClientHello frame, an X25519 public key.
pub const CLIENT_HELLO_LEN: usize = 32;

/// Size in bytes of the ServerConfirm frame: an empty plaintext sealed is
/// exactly its authentication tag.
pub const CONFIRMATION_FRAME_LEN: usize = 16;

/// Why a frame could not be sealed or opened, or a handshake not completed.
#[derive(Debug, Clone, PartialEq, Eq)]
pub enum HandshakeError {
    /// The nonce counter is exhausted; the connection must be re-established.
    NonceExhausted,
    /// The message is longer than one nonce covers.
    EncryptionFailed,
    /// The frame does not authenticate, or is longer than one nonce covers.
    DecryptionFailed,
    /// The peer supplied a low-order public key.
    NonContributory,
    /// The confirmation frame carried a payload.
    UnexpectedPayload,
    /// No ClientHello came in time.
    HelloTimedOut,
    /// The client disconnected before its ClientHello.
    HelloDisconnected,
    /// The ClientHello could not be received, with this error of the transport.
    HelloNotReceived(String),
    /// The ClientHello was not a binary frame.
    HelloNotBinary,
    /// The ClientHello has this length, which is not that of a public key.
    HelloLength(usize),
    /// The ServerConfirm could not be sent in time.
    ConfirmTimedOut,
    /// The ServerConfirm could not be sent, with this error of the transport.
    ConfirmNotSent(String),
}

/// The state of one direction's cipher: its key, and how many frames have
/// gone through.
pub struct CipherState {
    pub key: Seq<u8>,
    pub counter: int,
}

/// The state of one end of an encrypted connection.
pub struct SessionState {
    pub send: CipherState,
    pub recv: CipherState,
}

/// The nonce of the frame with this number: four zero bytes, then the number,
/// most significant byte first.
pub open spec fn nonce_bytes(counter: int) -> Seq<u8> {
    seq![
        0u8,
        0u8,
        0u8,
        0u8,
        ((counter / 0x100_0000_0000_0000) % 256) as u8,
        ((counter / 0x1_0000_0000_0000) % 256) as u8,
        ((counter / 0x100_0000_0000) % 256) as u8,
        ((counter / 0x1_0000_0000) % 256) as u8,
        ((counter / 0x100_0000) % 256) as u8,
        ((counter / 0x1_0000) % 256) as u8,
        ((counter / 0x100) % 256) as u8,
        (counter % 256) as u8,
    ]
}

/// The nonce of the frame with number `counter`.
pub fn nonce_for(counter: u64) -> (nonce: [u8; 12])
    ensures
        nonce@ == nonce_bytes(counter as int),
{
    [
        0,
        0,
        0,
        0,
        ((counter / 0x100_0000_0000_0000) % 256) as u8,
        ((counter / 0x1_0000_0000_0000) % 256) as u8,
        ((counter / 0x100_0000_0000) % 256) as u8,
        ((counter / 0x1_0000_0000) % 256) as u8,
        ((counter / 0x100_0000) % 256) as u8,
        ((counter / 0x1_0000) % 256) as u8,
        ((counter / 0x100) % 256) as u8,
        (counter % 256) as u8,
    ]
}

/// The frame number that a nonce was made for.
pub open spec fn nonce_counter(nonce: Seq<u8>) -> int {
    let q1 = nonce[4] as int * 256 + nonce[5];
    let q2 = q1 * 256 + nonce[6];
    let q3 = q2 * 256 + nonce[7];
    let q4 = q3 * 256 + nonce[8];
    let q5 = q4 * 256 + nonce[9];
    let q6 = q5 * 256 + nonce[10];
    q6 * 256 + nonce[11]
}

/// A nonce tells which frame it was made for.
pub proof fn law_nonce_holds_the_counter(counter: u64)
    ensures
        nonce_counter(nonce_bytes(counter as int)) == counter,
{
    let n = counter as int;
    assert(n / 0x1_0000 == (n / 0x100) / 0x100);
    assert(n / 0x100_0000 == (n / 0x1_0000) / 0x100);
    assert(n / 0x1_0000_0000 == (n / 0x100_0000) / 0x100);
    assert(n / 0x100_0000_0000 == (n / 0x1_0000_0000) / 0x100);
    assert(n / 0x1_0000_0000_0000 == (n / 0x100_0000_0000) / 0x100);
    assert(n / 0x100_0000_0000_0000 == (n / 0x1_0000_0000_0000) / 0x100);
    assert(n / 0x100_0000_0000_0000 < 256);
}

/// No two frames of a direction share a nonce.
pub proof fn law_nonces_never_repeat(first: u64, second: u64)
    requires
        first != second,
    ensures
        nonce_bytes(first as int) != nonce_bytes(second as int),
{
    law_nonce_holds_the_counter(first);
    law_nonce_holds_the_counter(second);
}

/// What sealing gives in this state.
pub open spec fn seal_outcome(state: CipherState, plaintext: Seq<u8>, aad: Seq<u8>) -> Result<
    Seq<u8>,
    HandshakeError,
> {
    if state.counter == u64::MAX {
        Err(HandshakeError::NonceExhausted)
    } else if plaintext.len() > AEAD_MAX_MESSAGE_LEN {
        Err(HandshakeError::EncryptionFailed)
    } else {
        Ok(outside::aead_sealed(state.key, nonce_bytes(state.counter), plaintext, aad))
    }
}

/// What opening gives in this state.
pub open spec fn open_outcome(state: CipherState, frame: Seq<u8>, aad: Seq<u8>) -> Result<
    Seq<u8>,
    HandshakeError,
> {
    if state.counter == u64::MAX {
        Err(HandshakeError::NonceExhausted)
    } else if frame.len() > AEAD_MAX_MESSAGE_LEN + AEAD_TAG_LEN {
        Err(HandshakeError::DecryptionFailed)
    } else {
        match outside::aead_opened(state.key, nonce_bytes(state.counter), frame, aad) {
            Some(plaintext) => Ok(plaintext),
            None => Err(HandshakeError::DecryptionFailed),
        }
    }
}

/// The state after a frame went through, or did not.
pub open spec fn advanced(state: CipherState, went_through: bool) -> CipherState {
    CipherState {
        key: state.key,
        counter: if went_through {
            state.counter + 1
        } else {
            state.counter
        },
    }
}

/// Whether, in this state, `frame` is what `plaintext` is sealed as, and what
/// opens as it.
pub open spec fn frame_of(
    state: CipherState,
    plaintext: Seq<u8>,
    aad: Seq<u8>,
    frame: Seq<u8>,
) -> bool {
    let nonce = nonce_bytes(state.counter);
    &&& outside::aead_sealed(state.key, nonce, plaintext, aad) == frame
    &&& outside::aead_opened(state.key, nonce, frame, aad) == Some(plaintext)
    &&& frame.len() == plaintext.len() + AEAD_TAG_LEN
}

/// A result's bytes, as a sequence.
pub open spec fn bytes_of(result: Result<Vec<u8>, HandshakeError>) -> Result<
    Seq<u8>,
    HandshakeError,
> {
    match result {
        Ok(bytes) => Ok(bytes@),
        Err(error) => Err(error),
    }
}

/// A ChaCha20-Poly1305 key with a strictly monotonic nonce counter, for one
/// direction of a connection. Nonces are never sent: both sides count the
/// frames of the direction, which the transport delivers in order. A replayed
/// or reordered frame meets another nonce than it was sealed with.
///
/// `u64::MAX` marks an exhausted counter: sealing and opening fail there
/// instead of returning to a used nonce.
pub struct DirectionalCipher {
    pub key: [u8; 32],
    pub counter: u64,
}

impl View for DirectionalCipher {
    type V = CipherState;

    open spec fn view(&self) -> CipherState {
        CipherState { key: self.key@, counter: self.counter as int }
    }
}

impl DirectionalCipher {
    /// A cipher that no frame has gone through yet.
    pub fn new(key: [u8; 32]) -> (cipher: DirectionalCipher)
        ensures
            cipher@ == (CipherState { key: key@, counter: 0 }),
    {
        DirectionalCipher { key, counter: 0 }
    }

    /// Seals the next frame of this direction.
    pub fn seal(&mut self, plaintext: &[u8], aad: &[u8]) -> (result: Result<Vec<u8>, HandshakeError>)
        ensures
            bytes_of(result) == seal_outcome(old(self)@, plaintext@, aad@),
            final(self)@ == advanced(old(self)@, result is Ok),
            result matches Ok(frame) ==> frame_of(old(self)@, plaintext@, aad@, frame@),
    {
        if self.counter == u64::MAX {
            return Err(HandshakeError::NonceExhausted);
        }
        if plaintext.len() as u64 > AEAD_MAX_MESSAGE_LEN {
            return Err(HandshakeError::EncryptionFailed);
        }
        let nonce = nonce_for(self.counter);
        let frame = outside::aead_encrypt(&self.key, &nonce, plaintext, aad);
        self.counter = self.counter + 1;
        Ok(frame)
    }

    /// Opens the next frame of this direction.
    pub fn open(&mut self, frame: &[u8], aad: &[u8]) -> (result: Result<Vec<u8>, HandshakeError>)
        ensures
            bytes_of(result) == open_outcome(old(self)@, frame@, aad@),
            final(self)@ == advanced(old(self)@, result is Ok),
            result matches Ok(plaintext) ==> frame_of(old(self)@, plaintext@, aad@, frame@),
    {
        if self.counter == u64::MAX {
            return Err(HandshakeError::NonceExhausted);
        }
        if frame.len() as u64 > AEAD_MAX_MESSAGE_LEN + AEAD_TAG_LEN as u64 {
            return Err(HandshakeError::DecryptionFailed);
        }
        let nonce = nonce_for(self.counter);
        match outside::aead_decrypt(&self.key, &nonce, frame, aad) {
            Some(plaintext) => {
                self.counter = self.counter + 1;
                Ok(plaintext)
            },
            None => Err(HandshakeError::DecryptionFailed),
        }
    }
}

/// What one side seals, the other side opens, while both have counted the same
/// frames; and they still have afterwards.
pub proof fn law_open_undoes_seal(
    sender: CipherState,
    receiver: CipherState,
    plaintext: Seq<u8>,
    aad: Seq<u8>,
    frame: Seq<u8>,
)
    requires
        sender == receiver,
        seal_outcome(sender, plaintext, aad) == Ok::<Seq<u8>, HandshakeError>(frame),
        frame_of(sender, plaintext, aad, frame),
    ensures
        open_outcome(receiver, frame, aad) == Ok::<Seq<u8>, HandshakeError>(plaintext),
        advanced(sender, true) == advanced(receiver, true),
{
}

/// A frame that opens in some state is the frame that sealing the plaintext
/// in that very state gives: anything tampered with, replayed or reordered is
/// refused unless it is byte for byte that frame.
pub proof fn law_only_the_expected_frame_opens(
    receiver: CipherState,
    frame: Seq<u8>,
    aad: Seq<u8>,
    plaintext: Seq<u8>,
)
    requires
        open_outcome(receiver, frame, aad) == Ok::<Seq<u8>, HandshakeError>(plaintext),
        frame_of(receiver, plaintext, aad, frame),
    ensures
        seal_outcome(receiver, plaintext, aad) == Ok::<Seq<u8>, HandshakeError>(frame),
{
}

/// The client-to-server key of a shared secret.
pub open spec fn client_to_server_key(shared: Seq<u8>) -> Seq<u8> {
    outside::hkdf_expanded(
        HKDF_SALT.spec_bytes(),
        shared,
        HKDF_INFO_CLIENT_TO_SERVER.spec_bytes(),
    )
}

/// The server-to-client key of a shared secret.
pub open spec fn server_to_client_key(shared: Seq<u8>) -> Seq<u8> {
    outside::hkdf_expanded(
        HKDF_SALT.spec_bytes(),
        shared,
        HKDF_INFO_SERVER_TO_CLIENT.spec_bytes(),
    )
}

/// The server's state right after key derivation.
pub open spec fn server_session(shared: Seq<u8>) -> SessionState {
    SessionState {
        send: CipherState { key: server_to_client_key(shared), counter: 0 },
        recv: CipherState { key: client_to_server_key(shared), counter: 0 },
    }
}

/// The client's state right after key derivation.
pub open spec fn client_session(shared: Seq<u8>) -> SessionState {
    SessionState {
        send: CipherState { key: client_to_server_key(shared), counter: 0 },
        recv: CipherState { key: server_to_client_key(shared), counter: 0 },
    }
}

fn derive_directional_keys(shared_secret: &SharedSecret) -> (keys: ([u8; 32], [u8; 32]))
    ensures
        keys.0@ == client_to_server_key(shared_secret.bytes()),
        keys.1@ == server_to_client_key(shared_secret.bytes()),
{
    let material = shared_secret.as_bytes();
    let client_to_server = outside::hkdf_sha256(
        HKDF_SALT.as_bytes(),
        material.as_slice(),
        HKDF_INFO_CLIENT_TO_SERVER.as_bytes(),
    );
    let server_to_client = outside::hkdf_sha256(
        HKDF_SALT.as_bytes(),
        material.as_slice(),
        HKDF_INFO_SERVER_TO_CLIENT.as_bytes(),
    );
    (client_to_server, server_to_client)
}

/// Both ciphers of one end of an encrypted connection, named from this end's
/// own point of view: `send` is the direction it writes, `recv` the one it
/// reads.
pub struct SessionKeys {
    pub send: DirectionalCipher,
    pub recv: DirectionalCipher,
}

impl View for SessionKeys {
    type V = SessionState;

    open spec fn view(&self) -> SessionState {
        SessionState { send: self.send@, recv: self.recv@ }
    }
}

fn require_contributory(shared_secret: &SharedSecret) -> (result: Result<(), HandshakeError>)
    ensures
        result == (if shared_secret.contributory() {
            Ok(())
        } else {
            Err(HandshakeError::NonContributory)
        }),
{
    if shared_secret.was_contributory() {
        Ok(())
    } else {
        Err(HandshakeError::NonContributory)
    }
}

impl SessionKeys {
    /// The server's keys: it sends with the server-to-client key and receives
    /// with the client-to-server key. There are none for a shared secret that
    /// a low-order public key forced.
    pub fn derive_for_server(shared_secret: &SharedSecret) -> (result: Result<
        SessionKeys,
        HandshakeError,
    >)
        ensures
            match result {
                Ok(keys) => shared_secret.contributory() && keys@ == server_session(
                    shared_secret.bytes(),
                ),
                Err(error) => !shared_secret.contributory() && error
                    == HandshakeError::NonContributory,
            },
    {
        match require_contributory(shared_secret) {
            Ok(()) => {
                let (client_to_server, server_to_client): ([u8; 32], [u8; 32]) =
                    derive_directional_keys(shared_secret);
                Ok(
                    SessionKeys {
                        send: DirectionalCipher::new(server_to_client),
                        recv: DirectionalCipher::new(client_to_server),
                    },
                )
            },
            Err(error) => Err(error),
        }
    }

    /// The client's keys: it sends with the client-to-server key and receives
    /// with the server-to-client key. There are none for a shared secret that
    /// a low-order public key forced.
    pub fn derive_for_client(shared_secret: &SharedSecret) -> (result: Result<
        SessionKeys,
        HandshakeError,
    >)
        ensures
            match result {
                Ok(keys) => shared_secret.contributory() && keys@ == client_session(
                    shared_secret.bytes(),
                ),
                Err(error) => !shared_secret.contributory() && error
                    == HandshakeError::NonContributory,
            },
    {
        match require_contributory(shared_secret) {
            Ok(()) => {
                let (client_to_server, server_to_client): ([u8; 32], [u8; 32]) =
                    derive_directional_keys(shared_secret);
                Ok(
                    SessionKeys {
                        send: DirectionalCipher::new(client_to_server),
                        recv: DirectionalCipher::new(server_to_client),
                    },
                )
            },
            Err(error) => Err(error),
        }
    }
}

/// The state of a connection's byte layer.
pub enum SecurityState {
    Plaintext,
    Encrypted(SessionState),
}

/// What this layer hands to the transport for a message.
pub open spec fn sealed_by(state: SecurityState, plaintext: Seq<u8>) -> Result<
    Seq<u8>,
    HandshakeError,
> {
    match state {
        SecurityState::Plaintext => Ok(plaintext),
        SecurityState::Encrypted(keys) => seal_outcome(keys.send, plaintext, Seq::empty()),
    }
}

/// The layer's state after it was given a message to seal.
pub open spec fn after_sealing(state: SecurityState, plaintext: Seq<u8>) -> SecurityState {
    match state {
        SecurityState::Plaintext => SecurityState::Plaintext,
        SecurityState::Encrypted(keys) => SecurityState::Encrypted(
            SessionState {
                send: advanced(keys.send, sealed_by(state, plaintext) is Ok),
                recv: keys.recv,
            },
        ),
    }
}

/// What this layer takes out of a frame.
pub open spec fn opened_by(state: SecurityState, frame: Seq<u8>) -> Result<
    Seq<u8>,
    HandshakeError,
> {
    match state {
        SecurityState::Plaintext => Ok(frame),
        SecurityState::Encrypted(keys) => open_outcome(keys.recv, frame, Seq::empty()),
    }
}

/// The layer's state after it was given a frame to open.
pub open spec fn after_opening(state: SecurityState, frame: Seq<u8>) -> SecurityState {
    match state {
        SecurityState::Plaintext => SecurityState::Plaintext,
        SecurityState::Encrypted(keys) => SecurityState::Encrypted(
            SessionState {
                send: keys.send,
                recv: advanced(keys.recv, opened_by(state, frame) is Ok),
            },
        ),
    }
}

/// Whether a connection's bytes are sealed beneath the envelopes. `seal` and
/// `open` are the only way for bytes to pass, so an envelope cannot leave an
/// encrypted connection unsealed.
pub enum ConnectionSecurity {
    /// Protocol versions without a handshake: bytes pass unchanged.
    Plaintext,
    /// Bytes are sealed and opened with the keys of the handshake.
    Encrypted(SessionKeys),
}

impl View for ConnectionSecurity {
    type V = SecurityState;

    open spec fn view(&self) -> SecurityState {
        match self {
            ConnectionSecurity::Plaintext => SecurityState::Plaintext,
            ConnectionSecurity::Encrypted(keys) => SecurityState::Encrypted(keys@),
        }
    }
}

impl ConnectionSecurity {
    /// The bytes to hand to the transport for a message.
    pub fn seal(&mut self, plaintext: &[u8]) -> (result: Result<Vec<u8>, HandshakeError>)
        ensures
            bytes_of(result) == sealed_by(old(self)@, plaintext@),
            final(self)@ == after_sealing(old(self)@, plaintext@),
            old(self)@ matches SecurityState::Encrypted(keys) ==> (result matches Ok(frame)
                ==> frame_of(keys.send, plaintext@, Seq::empty(), frame@)),
    {
        let no_aad: [u8; 0] = [];
        assert(no_aad@ =~= Seq::<u8>::empty());
        match self {
            ConnectionSecurity::Plaintext => Ok(slice_to_vec(plaintext)),
            ConnectionSecurity::Encrypted(keys) => keys.send.seal(plaintext, no_aad.as_slice()),
        }
    }

    /// The message that the transport's bytes stand for.
    pub fn open(&mut self, frame: &[u8]) -> (result: Result<Vec<u8>, HandshakeError>)
        ensures
            bytes_of(result) == opened_by(old(self)@, frame@),
            final(self)@ == after_opening(old(self)@, frame@),
            old(self)@ matches SecurityState::Encrypted(keys) ==> (result matches Ok(plaintext)
                ==> frame_of(keys.recv, plaintext@, Seq::empty(), frame@)),
    {
        let no_aad: [u8; 0] = [];
        assert(no_aad@ =~= Seq::<u8>::empty());
        match self {
            ConnectionSecurity::Plaintext => Ok(slice_to_vec(frame)),
            ConnectionSecurity::Encrypted(keys) => keys.recv.open(frame, no_aad.as_slice()),
        }
    }
}

/// Builds the ServerConfirm frame: an empty plaintext sealed with the
/// server-to-client key under its own associated data. It takes the first
/// nonce of the direction. A client that verifies it knows that the server
/// holds the private key of the public key that the client pinned.
pub fn build_confirmation_frame(session_keys: &mut SessionKeys) -> (result: Result<
    [u8; CONFIRMATION_FRAME_LEN],
    HandshakeError,
>)
    ensures
        final(session_keys)@.recv == old(session_keys)@.recv,
        final(session_keys)@.send == advanced(old(session_keys)@.send, result is Ok),
        match result {
            Ok(frame) => {
                &&& seal_outcome(
                    old(session_keys)@.send,
                    Seq::empty(),
                    CONFIRMATION_AAD.spec_bytes(),
                ) == Ok::<Seq<u8>, HandshakeError>(frame@)
                &&& frame_of(
                    old(session_keys)@.send,
                    Seq::empty(),
                    CONFIRMATION_AAD.spec_bytes(),
                    frame@,
                )
            },
            Err(error) => seal_outcome(
                old(session_keys)@.send,
                Seq::empty(),
                CONFIRMATION_AAD.spec_bytes(),
            ) == Err::<Seq<u8>, HandshakeError>(error),
        },
{
    let nothing: [u8; 0] = [];
    assert(nothing@ =~= Seq::<u8>::empty());
    match session_keys.send.seal(nothing.as_slice(), CONFIRMATION_AAD.as_bytes()) {
        Ok(sealed) => {
            let mut frame: [u8; CONFIRMATION_FRAME_LEN] = [0; CONFIRMATION_FRAME_LEN];
            let mut i: usize = 0;
            while i < CONFIRMATION_FRAME_LEN
                invariant
                    0 <= i <= CONFIRMATION_FRAME_LEN,
                    sealed@.len() == CONFIRMATION_FRAME_LEN,
                    forall|j: int| 0 <= j < i ==> frame@[j] == sealed@[j],
                decreases CONFIRMATION_FRAME_LEN - i,
            {
                frame[i] = sealed[i];
                i = i + 1;
            }
            assert(frame@ =~= sealed@);
            Ok(frame)
        },
        Err(error) => Err(error),
    }
}

/// Verifies a ServerConfirm frame. Failure (another server key than the pinned
/// one, or somebody in the middle) must end the connection.
pub fn verify_confirmation_frame(session_keys: &mut SessionKeys, frame: &[u8]) -> (result: Result<
    (),
    HandshakeError,
>)
    ensures
        final(session_keys)@.send == old(session_keys)@.send,
        final(session_keys)@.recv == advanced(
            old(session_keys)@.recv,
            open_outcome(old(session_keys)@.recv, frame@, CONFIRMATION_AAD.spec_bytes()) is Ok,
        ),
        result == (match open_outcome(
            old(session_keys)@.recv,
            frame@,
            CONFIRMATION_AAD.spec_bytes(),
        ) {
            Ok(plaintext) => if plaintext.len() == 0 {
                Ok(())
            } else {
                Err(HandshakeError::UnexpectedPayload)
            },
            Err(error) => Err(error),
        }),
        result is Ok ==> frame_of(
            old(session_keys)@.recv,
            Seq::empty(),
            CONFIRMATION_AAD.spec_bytes(),
            frame@,
        ),
{
    match session_keys.recv.open(frame, CONFIRMATION_AAD.as_bytes()) {
        Ok(plaintext) => {
            if plaintext.len() != 0 {
                return Err(HandshakeError::UnexpectedPayload);
            }
            assert(plaintext@ =~= Seq::<u8>::empty());
            Ok(())
        },
        Err(error) => Err(error),
    }
}

/// Whether two ends of a connection are in step: each direction has the same
/// key and the same count on both sides.
pub open spec fn in_step(one: SessionState, other: SessionState) -> bool {
    &&& one.send == other.recv
    &&& one.recv == other.send
}

/// A client and a server that exchanged keys derive the same two directional
/// keys, each sending with the one that the other receives with.
pub proof fn law_derived_keys_are_in_step(
    server_secret: Seq<u8>,
    client_secret: Seq<u8>,
    server_shared: SharedSecret,
    client_shared: SharedSecret,
)
    requires
        server_secret.len() == 32,
        client_secret.len() == 32,
        crate::cryptography::exchanged(server_secret, outside::x25519_public(client_secret), server_shared),
        crate::cryptography::exchanged(client_secret, outside::x25519_public(server_secret), client_shared),
    ensures
        in_step(server_session(server_shared.bytes()), client_session(client_shared.bytes())),
        server_shared.contributory() == client_shared.contributory(),
{
    crate::cryptography::law_key_exchange_agrees(server_secret, client_secret, server_shared, client_shared);
}

/// The confirmation frame that a server builds verifies at a client that is in
/// step with it, and both are in step afterwards.
pub proof fn law_confirmation_verifies(
    server: SessionState,
    client: SessionState,
    frame: Seq<u8>,
)
    requires
        in_step(server, client),
        seal_outcome(server.send, Seq::empty(), CONFIRMATION_AAD.spec_bytes()) == Ok::<
            Seq<u8>,
            HandshakeError,
        >(frame),
        frame_of(server.send, Seq::empty(), CONFIRMATION_AAD.spec_bytes(), frame),
    ensures
        open_outcome(client.recv, frame, CONFIRMATION_AAD.spec_bytes()) == Ok::<
            Seq<u8>,
            HandshakeError,
        >(Seq::empty()),
        frame.len() == CONFIRMATION_FRAME_LEN,
        in_step(
            SessionState { send: advanced(server.send, true), recv: server.recv },
            SessionState { send: client.send, recv: advanced(client.recv, true) },
        ),
{
}

/// A message sealed on one end of an encrypted connection is what the other
/// end opens, while the ends are in step; and they still are afterwards.
pub proof fn law_encrypted_message_arrives(
    one: SessionState,
    other: SessionState,
    plaintext: Seq<u8>,
    frame: Seq<u8>,
)
    requires
        in_step(one, other),
        sealed_by(SecurityState::Encrypted(one), plaintext) == Ok::<Seq<u8>, HandshakeError>(frame),
        frame_of(one.send, plaintext, Seq::empty(), frame),
    ensures
        opened_by(SecurityState::Encrypted(other), frame) == Ok::<Seq<u8>, HandshakeError>(
            plaintext,
        ),
        after_sealing(SecurityState::Encrypted(one), plaintext) matches SecurityState::Encrypted(
            one_after,
        ) && after_opening(SecurityState::Encrypted(other), frame) matches SecurityState::Encrypted(
            other_after,
        ) && in_step(one_after, other_after),
{
}

/// What one end of a connection has sealed, one message after the other, the
/// other end opens in that order. A frame that it refused before its turn
/// changes nothing: the frames still open in their order.
pub proof fn law_frames_open_in_the_order_of_sealing(
    one: SessionState,
    other: SessionState,
    first: Seq<u8>,
    second: Seq<u8>,
    first_frame: Seq<u8>,
    second_frame: Seq<u8>,
)
    requires
        in_step(one, other),
        sealed_by(SecurityState::Encrypted(one), first) == Ok::<Seq<u8>, HandshakeError>(
            first_frame,
        ),
        frame_of(one.send, first, Seq::empty(), first_frame),
        sealed_by(after_sealing(SecurityState::Encrypted(one), first), second) == Ok::<
            Seq<u8>,
            HandshakeError,
        >(second_frame),
        frame_of(advanced(one.send, true), second, Seq::empty(), second_frame),
    ensures
        ({
            let receiver = SecurityState::Encrypted(other);
            &&& opened_by(receiver, first_frame) == Ok::<Seq<u8>, HandshakeError>(first)
            &&& opened_by(after_opening(receiver, first_frame), second_frame) == Ok::<
                Seq<u8>,
                HandshakeError,
            >(second)
            &&& opened_by(receiver, second_frame) is Err ==> after_opening(receiver, second_frame)
                == receiver
        }),
{
}

/// A frame sealed as one number of its direction, replayed where another
/// number is due, opens only if sealing under two different nonces gave the
/// same frame.
pub proof fn law_replay_needs_a_collision(
    sender: CipherState,
    receiver: CipherState,
    plaintext: Seq<u8>,
    aad: Seq<u8>,
    frame: Seq<u8>,
    replayed: Seq<u8>,
)
    requires
        sender.key == receiver.key,
        0 <= sender.counter < u64::MAX,
        0 <= receiver.counter < u64::MAX,
        sender.counter != receiver.counter,
        frame_of(sender, plaintext, aad, frame),
        open_outcome(receiver, frame, aad) == Ok::<Seq<u8>, HandshakeError>(replayed),
        frame_of(receiver, replayed, aad, frame),
    ensures
        nonce_bytes(sender.counter) != nonce_bytes(receiver.counter),
        outside::aead_sealed(sender.key, nonce_bytes(sender.counter), plaintext, aad)
            == outside::aead_sealed(sender.key, nonce_bytes(receiver.counter), replayed, aad),
{
    law_nonces_never_repeat(sender.counter as u64, receiver.counter as u64);
}

/// A frame that comes back to the end that sealed it opens there only if
/// sealing with the keys of the two directions gave the same frame.
pub proof fn law_reflected_frame_needs_a_collision(
    one: SessionState,
    plaintext: Seq<u8>,
    aad: Seq<u8>,
    frame: Seq<u8>,
    opened: Seq<u8>,
)
    requires
        frame_of(one.send, plaintext, aad, frame),
        open_outcome(one.recv, frame, aad) == Ok::<Seq<u8>, HandshakeError>(opened),
        frame_of(one.recv, opened, aad, frame),
    ensures
        outside::aead_sealed(one.send.key, nonce_bytes(one.send.counter), plaintext, aad)
            == outside::aead_sealed(one.recv.key, nonce_bytes(one.recv.counter), opened, aad),
{
}

/// Without a handshake, bytes pass in both directions unchanged.
pub proof fn law_plaintext_is_unchanged(bytes: Seq<u8>)
    ensures
        sealed_by(SecurityState::Plaintext, bytes) == Ok::<Seq<u8>, HandshakeError>(bytes),
        opened_by(SecurityState::Plaintext, bytes) == Ok::<Seq<u8>, HandshakeError>(bytes),
        after_sealing(SecurityState::Plaintext, bytes) == SecurityState::Plaintext,
        after_opening(SecurityState::Plaintext, bytes) == SecurityState::Plaintext,
{
}

/// Whatever is sealed or opened, a cipher keeps its key, and its counter goes
/// up by one for a frame that went through and stays for one that did not; it
/// never passes its end.
pub proof fn law_counters_only_go_up(state: CipherState, bytes: Seq<u8>, aad: Seq<u8>)
    requires
        0 <= state.counter <= u64::MAX,
    ensures
        ({
            let sealed = advanced(state, seal_outcome(state, bytes, aad) is Ok);
            let opened = advanced(state, open_outcome(state, bytes, aad) is Ok);
            &&& sealed.key == state.key
            &&& state.counter <= sealed.counter <= state.counter + 1
            &&& sealed.counter <= u64::MAX
            &&& opened.key == state.key
            &&& state.counter <= opened.counter <= state.counter + 1
            &&& opened.counter <= u64::MAX
        }),
{
}

/// An exhausted cipher neither seals nor opens any more.
pub proof fn law_exhausted_ciphers_stay_exhausted(state: CipherState, bytes: Seq<u8>, aad: Seq<u8>)
    requires
        state.counter == u64::MAX,
    ensures
        seal_outcome(state, bytes, aad) == Err::<Seq<u8>, HandshakeError>(
            HandshakeError::NonceExhausted,
        ),
        open_outcome(state, bytes, aad) == Err::<Seq<u8>, HandshakeError>(
            HandshakeError::NonceExhausted,
        ),
        advanced(state, false) == state,
{
}

impl HandshakeError {
    /// What went wrong, in words.
    pub open spec fn text(&self) -> Seq<char> {
        match self {
            HandshakeError::NonceExhausted =>
            "nonce counter exhausted; connection must be re-established"@,
            HandshakeError::EncryptionFailed => "encryption failed"@,
            HandshakeError::DecryptionFailed => "decryption failed"@,
            HandshakeError::NonContributory =>
            "ECDH shared secret was non-contributory (peer supplied a low-order public key)"@,
            HandshakeError::UnexpectedPayload => "confirmation frame carried unexpected payload"@,
            HandshakeError::HelloTimedOut => "timed out waiting for ClientHello"@,
            HandshakeError::HelloDisconnected => "client disconnected before sending ClientHello"@,
            HandshakeError::HelloNotReceived(error) => "failed to receive ClientHello: "@ + error@,
            HandshakeError::HelloNotBinary => "expected a binary ClientHello frame"@,
            HandshakeError::HelloLength(length) => "ClientHello has unexpected length "@
                + crate::text::decimal(*length as nat),
            HandshakeError::ConfirmTimedOut => "timed out sending ServerConfirm"@,
            HandshakeError::ConfirmNotSent(error) => "failed to send ServerConfirm: "@ + error@,
        }
    }

    /// What went wrong, in words.
    pub fn message(&self) -> (text: String)
        ensures
            text@ == self.text(),
    {
        match self {
            HandshakeError::NonceExhausted =>
            "nonce counter exhausted; connection must be re-established".to_owned(),
            HandshakeError::EncryptionFailed => "encryption failed".to_owned(),
            HandshakeError::DecryptionFailed => "decryption failed".to_owned(),
            HandshakeError::NonContributory =>
            "ECDH shared secret was non-contributory (peer supplied a low-order public key)".to_owned(),
            HandshakeError::UnexpectedPayload =>
            "confirmation frame carried unexpected payload".to_owned(),
            HandshakeError::HelloTimedOut => "timed out waiting for ClientHello".to_owned(),
            HandshakeError::HelloDisconnected =>
            "client disconnected before sending ClientHello".to_owned(),
            HandshakeError::HelloNotReceived(error) => {
                let mut text = "failed to receive ClientHello: ".to_owned();
                text.append(error.as_str());
                text
            },
            HandshakeError::HelloNotBinary => "expected a binary ClientHello frame".to_owned(),
            HandshakeError::HelloLength(length) => {
                let mut text = "ClientHello has unexpected length ".to_owned();
                append_decimal(&mut text, *length as u64);
                text
            },
            HandshakeError::ConfirmTimedOut => "timed out sending ServerConfirm".to_owned(),
            HandshakeError::ConfirmNotSent(error) => {
                let mut text = "failed to send ServerConfirm: ".to_owned();
                text.append(error.as_str());
                text
            },
        }
    }
}

} // verus!
