//! The encrypted transport: whatever can be sealed is sealed, and arrives.

use crate::api::handshake::{CipherState, HandshakeError, SecurityState, SessionState};
use crate::outside;
use vstd::prelude::*;
use vstd::string::*;

verus! {

/// The most bytes that one nonce covers, in keystream blocks of 64 bytes.
pub const LONGEST_MESSAGE: u64 = 0xffff_fffe * 64;

/// Whether a cipher can take another frame: its counter is not at its end.
pub open spec fn is_usable(state: CipherState) -> bool {
    state.counter != 0xffff_ffff_ffff_ffff
}

/// The number that bytes stand for, the most significant one first.
pub open spec fn big_endian(bytes: Seq<u8>) -> int
    decreases bytes.len(),
{
    if bytes.len() == 0 {
        0
    } else {
        big_endian(bytes.drop_last()) * 256 + bytes.last()
    }
}

/// The frame that a message is sealed as when so many frames went before it.
pub open spec fn frame_number(
    key: Seq<u8>,
    number: int,
    message: Seq<u8>,
    aad: Seq<u8>,
) -> Seq<u8> {
    outside::aead_sealed(key, crate::api::handshake::nonce_bytes(number), message, aad)
}

/// A nonce is twelve bytes that stand for the number of its frame.
pub proof fn law_nonce_is_the_frame_number(number: u64)
    ensures
        crate::api::handshake::nonce_bytes(number as int).len() == 12,
        big_endian(crate::api::handshake::nonce_bytes(number as int)) == number,
{
    let n = number as int;
    let nonce = crate::api::handshake::nonce_bytes(n);
    assert(n / 0x1_0000 == (n / 0x100) / 0x100);
    assert(n / 0x100_0000 == (n / 0x1_0000) / 0x100);
    assert(n / 0x1_0000_0000 == (n / 0x100_0000) / 0x100);
    assert(n / 0x100_0000_0000 == (n / 0x1_0000_0000) / 0x100);
    assert(n / 0x1_0000_0000_0000 == (n / 0x100_0000_0000) / 0x100);
    assert(n / 0x100_0000_0000_0000 == (n / 0x1_0000_0000_0000) / 0x100);
    assert(n / 0x100_0000_0000_0000 < 256);
    let b4 = nonce.take(4);
    assert(big_endian(b4) == 0) by {
        assert(b4.drop_last() =~= nonce.take(3));
        assert(nonce.take(3).drop_last() =~= nonce.take(2));
        assert(nonce.take(2).drop_last() =~= nonce.take(1));
        assert(nonce.take(1).drop_last() =~= Seq::<u8>::empty());
        assert(big_endian(nonce.take(1).drop_last()) == 0);
        assert(big_endian(nonce.take(1)) == 0);
        assert(big_endian(nonce.take(2)) == 0);
        assert(big_endian(nonce.take(3)) == 0);
    }
    assert(nonce.take(5).drop_last() =~= nonce.take(4));
    assert(nonce.take(6).drop_last() =~= nonce.take(5));
    assert(nonce.take(7).drop_last() =~= nonce.take(6));
    assert(nonce.take(8).drop_last() =~= nonce.take(7));
    assert(nonce.take(9).drop_last() =~= nonce.take(8));
    assert(nonce.take(10).drop_last() =~= nonce.take(9));
    assert(nonce.take(11).drop_last() =~= nonce.take(10));
    assert(nonce.take(12).drop_last() =~= nonce.take(11));
    assert(nonce.take(12) =~= nonce);
    assert(big_endian(nonce.take(5)) == n / 0x100_0000_0000_0000);
    assert(big_endian(nonce.take(6)) == n / 0x1_0000_0000_0000);
    assert(big_endian(nonce.take(7)) == n / 0x100_0000_0000);
    assert(big_endian(nonce.take(8)) == n / 0x1_0000_0000);
    assert(big_endian(nonce.take(9)) == n / 0x100_0000);
    assert(big_endian(nonce.take(10)) == n / 0x1_0000);
    assert(big_endian(nonce.take(11)) == n / 0x100);
}

/// Sealing succeeds whenever it can: while the counter is not exhausted, every
/// message that one nonce covers is sealed under the key, with the nonce of its
/// number, and the counter goes up by one. It fails for no other reason than
/// these two, and then changes nothing.
pub proof fn law_sealing_succeeds_whenever_it_can(
    before: CipherState,
    message: Seq<u8>,
    aad: Seq<u8>,
    result: Result<Vec<u8>, HandshakeError>,
    after: CipherState,
)
    requires
        crate::api::handshake::bytes_of(result) == crate::api::handshake::seal_outcome(
            before,
            message,
            aad,
        ),
        after == crate::api::handshake::advanced(before, result is Ok),
    ensures
        result is Ok <==> is_usable(before) && message.len() <= LONGEST_MESSAGE,
        result matches Ok(frame) ==> {
            &&& frame@ == frame_number(before.key, before.counter, message, aad)
            &&& after.counter == before.counter + 1
        },
        result matches Err(error) ==> {
            &&& error == (if is_usable(before) {
                HandshakeError::EncryptionFailed
            } else {
                HandshakeError::NonceExhausted
            })
            &&& after.counter == before.counter
        },
        after.key == before.key,
{
}

/// Opening succeeds exactly if the counter is not exhausted, the frame is one that
/// one nonce covers, and the cipher takes a message out of it under the key and the
/// nonce of its number; that message is what comes out, and the counter goes up by
/// one. Otherwise nothing changes.
pub proof fn law_opening_succeeds_whenever_it_can(
    before: CipherState,
    frame: Seq<u8>,
    aad: Seq<u8>,
    result: Result<Vec<u8>, HandshakeError>,
    after: CipherState,
)
    requires
        crate::api::handshake::bytes_of(result) == crate::api::handshake::open_outcome(
            before,
            frame,
            aad,
        ),
        after == crate::api::handshake::advanced(before, result is Ok),
    ensures
        ({
            let nonce = crate::api::handshake::nonce_bytes(before.counter);
            match outside::aead_opened(before.key, nonce, frame, aad) {
                Some(message) if is_usable(before) && frame.len() <= LONGEST_MESSAGE + 16 => {
                    &&& result matches Ok(opened)
                    &&& opened@ == message
                    &&& after.counter == before.counter + 1
                },
                _ => {
                    &&& result matches Err(error)
                    &&& error == (if is_usable(before) {
                        HandshakeError::DecryptionFailed
                    } else {
                        HandshakeError::NonceExhausted
                    })
                    &&& after.counter == before.counter
                },
            }
        }),
        after.key == before.key,
{
}

/// Every message that one nonce covers, sealed at one end of an encrypted
/// connection, is what the other end opens, as long as both have counted the
/// same frames and have not exhausted their counters. Then both have counted one
/// more in that direction, and as many as before in the other.
pub proof fn law_messages_arrive(
    one: SessionState,
    other: SessionState,
    message: Seq<u8>,
    sent: Result<Vec<u8>, HandshakeError>,
    received: Result<Vec<u8>, HandshakeError>,
)
    requires
        one.send == other.recv,
        is_usable(one.send),
        message.len() <= LONGEST_MESSAGE,
        crate::api::handshake::bytes_of(sent) == crate::api::handshake::sealed_by(
            SecurityState::Encrypted(one),
            message,
        ),
        sent matches Ok(frame) ==> crate::api::handshake::frame_of(
            one.send,
            message,
            Seq::empty(),
            frame@,
        ),
        sent matches Ok(frame) ==> crate::api::handshake::bytes_of(received)
            == crate::api::handshake::opened_by(SecurityState::Encrypted(other), frame@),
    ensures
        sent matches Ok(frame) && {
            &&& frame@ == frame_number(one.send.key, one.send.counter, message, Seq::empty())
            &&& frame@.len() == message.len() + 16
            &&& received matches Ok(opened)
            &&& opened@ == message
            &&& crate::api::handshake::after_sealing(SecurityState::Encrypted(one), message)
                == SecurityState::Encrypted(
                SessionState {
                    send: CipherState { key: one.send.key, counter: one.send.counter + 1 },
                    recv: one.recv,
                },
            )
            &&& crate::api::handshake::after_opening(SecurityState::Encrypted(other), frame@)
                == SecurityState::Encrypted(
                SessionState {
                    send: other.send,
                    recv: CipherState { key: other.recv.key, counter: other.recv.counter + 1 },
                },
            )
        },
{
}

/// Without encryption every byte string is sent and received as it is.
pub proof fn law_plain_bytes_pass(
    bytes: Seq<u8>,
    sent: Result<Vec<u8>, HandshakeError>,
    received: Result<Vec<u8>, HandshakeError>,
)
    requires
        crate::api::handshake::bytes_of(sent) == crate::api::handshake::sealed_by(
            SecurityState::Plaintext,
            bytes,
        ),
        crate::api::handshake::bytes_of(received) == crate::api::handshake::opened_by(
            SecurityState::Plaintext,
            bytes,
        ),
    ensures
        sent matches Ok(frame) && frame@ == bytes,
        received matches Ok(message) && message@ == bytes,
{
}

/// Both ends derive, each for its own direction, the key that HKDF expands from
/// the shared secret under the label of that direction, and no frame has been
/// counted yet.
pub proof fn law_keys_are_expanded_from_the_secret(shared: Seq<u8>)
    ensures
        ({
            let server = crate::api::handshake::server_session(shared);
            let client = crate::api::handshake::client_session(shared);
            let salt = "orosu-e2e-v2-salt".spec_bytes();
            let to_server = "orosu-e2e-v2 client-to-server".spec_bytes();
            let to_client = "orosu-e2e-v2 server-to-client".spec_bytes();
            &&& client.send.key == outside::hkdf_expanded(salt, shared, to_server)
            &&& server.recv.key == client.send.key
            &&& server.send.key == outside::hkdf_expanded(salt, shared, to_client)
            &&& client.recv.key == server.send.key
            &&& client.send.counter == 0 && client.recv.counter == 0
            &&& server.send.counter == 0 && server.recv.counter == 0
        }),
{
}

/// The server takes every hello that is a public key of 32 bytes with which it
/// shares a secret that is not all zeros, and no other; and its confirmation is
/// the empty message, sealed with the key towards the client as the first frame.
pub proof fn law_good_hellos_are_confirmed(
    server_key: Seq<u8>,
    hello: crate::server::Reception,
    frame: Seq<u8>,
)
    ensures
        crate::server::handshake::hello_refused(server_key, hello) is None <==> (hello matches
            crate::server::Reception::Binary(public) && public@.len() == 32 && exists|i: int|
            0 <= i < 32 && (#[trigger] outside::x25519_shared(server_key, public@)[i]) != 0),
        hello matches crate::server::Reception::Binary(public) ==> ({
            let shared = crate::server::handshake::handshake_secret(server_key, public@);
            &&& shared == outside::x25519_shared(server_key, public@)
            &&& crate::server::handshake::confirms(shared, frame) ==> frame == frame_number(
                outside::hkdf_expanded(
                    "orosu-e2e-v2-salt".spec_bytes(),
                    shared,
                    "orosu-e2e-v2 server-to-client".spec_bytes(),
                ),
                0,
                Seq::empty(),
                "orosu-e2e-v2-server-confirm".spec_bytes(),
            )
        }),
{
    if let crate::server::Reception::Binary(public) = hello {
        let shared = outside::x25519_shared(server_key, public@);
        if exists|i: int| 0 <= i < 32 && (#[trigger] shared[i]) != 0 {
            assert(crate::cryptography::is_contributory(shared));
        }
    }
}

/// Why a hello is refused: each way of not getting one has a reason of its own, as
/// have a hello of another length and one whose shared secret is all zeros.
pub proof fn law_bad_hellos_are_told_apart(server_key: Seq<u8>, hello: crate::server::Reception)
    ensures
        ({
            let refused = crate::server::handshake::hello_refused(server_key, hello);
            match hello {
                crate::server::Reception::TimedOut => refused == Some(
                    HandshakeError::HelloTimedOut,
                ),
                crate::server::Reception::Disconnected => refused == Some(
                    HandshakeError::HelloDisconnected,
                ),
                crate::server::Reception::Failed(error) => refused == Some(
                    HandshakeError::HelloNotReceived(error),
                ),
                crate::server::Reception::Binary(public) => {
                    &&& public@.len() != 32 ==> refused == Some(
                        HandshakeError::HelloLength(public@.len() as usize),
                    )
                    &&& public@.len() == 32 && (forall|i: int|
                        0 <= i < 32 ==> (#[trigger] outside::x25519_shared(server_key, public@)[i])
                            == 0) ==> refused == Some(HandshakeError::NonContributory)
                },
                _ => refused == Some(HandshakeError::HelloNotBinary),
            }
        }),
{
}

/// A server that has confirmed a handshake has counted the confirmation towards the
/// client, and nothing from it.
pub proof fn law_confirmation_is_counted(shared: Seq<u8>)
    ensures
        ({
            let fresh = crate::api::handshake::server_session(shared);
            let confirmed = crate::server::handshake::confirmed_session(shared);
            &&& confirmed.send == (CipherState { key: fresh.send.key, counter: 1 })
            &&& confirmed.recv == (CipherState { key: fresh.recv.key, counter: 0 })
        }),
{
}

/// Each failure has words of its own.
pub proof fn law_failures_are_told(text: String, length: usize)
    ensures
        HandshakeError::NonceExhausted.text()
            == "nonce counter exhausted; connection must be re-established"@,
        HandshakeError::EncryptionFailed.text() == "encryption failed"@,
        HandshakeError::DecryptionFailed.text() == "decryption failed"@,
        HandshakeError::NonContributory.text()
            == "ECDH shared secret was non-contributory (peer supplied a low-order public key)"@,
        HandshakeError::UnexpectedPayload.text()
            == "confirmation frame carried unexpected payload"@,
        HandshakeError::HelloTimedOut.text() == "timed out waiting for ClientHello"@,
        HandshakeError::HelloDisconnected.text()
            == "client disconnected before sending ClientHello"@,
        HandshakeError::HelloNotReceived(text).text() == "failed to receive ClientHello: "@ + text@,
        HandshakeError::HelloNotBinary.text() == "expected a binary ClientHello frame"@,
        HandshakeError::HelloLength(length).text() == "ClientHello has unexpected length "@
            + crate::text::decimal(length as nat),
        HandshakeError::ConfirmTimedOut.text() == "timed out sending ServerConfirm"@,
        HandshakeError::ConfirmNotSent(text).text() == "failed to send ServerConfirm: "@ + text@,
{
}

} // verus!
