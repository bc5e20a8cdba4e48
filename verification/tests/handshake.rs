use orosu::api::handshake::{
    build_confirmation_frame, nonce_for, verify_confirmation_frame, ConnectionSecurity,
    DirectionalCipher, HandshakeError, SessionKeys, CONFIRMATION_FRAME_LEN,
};
use orosu::cryptography::{PublicKey, SharedSecret, StaticSecret};

fn paired_session_keys() -> (SessionKeys, SessionKeys) {
    let server_secret = StaticSecret { bytes: [7u8; 32] };
    let client_secret = StaticSecret { bytes: [9u8; 32] };
    let server_public = server_secret.public_key();
    let client_public = client_secret.public_key();

    let server_shared = server_secret.diffie_hellman(&client_public);
    let client_shared = client_secret.diffie_hellman(&server_public);

    (
        SessionKeys::derive_for_server(&server_shared).unwrap_or_else(|_| panic!("server keys")),
        SessionKeys::derive_for_client(&client_shared).unwrap_or_else(|_| panic!("client keys")),
    )
}

#[test]
fn seal_then_open_round_trips() {
    let (mut server, mut client) = paired_session_keys();

    let ciphertext = server.send.seal(b"hello from server", b"").unwrap();
    let plaintext = client.recv.open(&ciphertext, b"").unwrap();
    assert_eq!(plaintext, b"hello from server");

    let ciphertext = client.send.seal(b"hello from client", b"").unwrap();
    let plaintext = server.recv.open(&ciphertext, b"").unwrap();
    assert_eq!(plaintext, b"hello from client");
}

#[test]
fn open_rejects_tampered_ciphertext() {
    let (mut server, mut client) = paired_session_keys();

    let mut ciphertext = server.send.seal(b"hello", b"").unwrap();
    *ciphertext.last_mut().unwrap() ^= 0xff;

    assert!(client.recv.open(&ciphertext, b"").is_err());
}

#[test]
fn open_rejects_a_replayed_earlier_frame() {
    let (mut server, mut client) = paired_session_keys();

    let first = server.send.seal(b"one", b"").unwrap();
    let _second = server.send.seal(b"two", b"").unwrap();

    let opened = client.recv.open(&first, b"").unwrap();
    assert_eq!(opened, b"one");

    assert!(client.recv.open(&first, b"").is_err());
}

#[test]
fn seal_errors_rather_than_panics_or_wraps_at_counter_overflow() {
    let (mut server, _client) = paired_session_keys();
    server.send.counter = u64::MAX;

    assert!(server.send.seal(b"one more", b"").is_err());
}

#[test]
fn open_errors_rather_than_panics_or_wraps_at_counter_overflow() {
    let (_server, mut client) = paired_session_keys();
    client.recv.counter = u64::MAX;

    assert!(client.recv.open(&[0u8; 32], b"").is_err());
}

#[test]
fn an_exhausted_counter_is_told_apart_from_a_bad_frame() {
    let (mut server, mut client) = paired_session_keys();
    assert_eq!(client.recv.open(&[0u8; 32], b""), Err(HandshakeError::DecryptionFailed));
    assert_eq!(client.recv.counter, 0);
    client.recv.counter = u64::MAX;
    assert_eq!(client.recv.open(&[0u8; 32], b""), Err(HandshakeError::NonceExhausted));
    server.send.counter = u64::MAX - 1;
    assert!(server.send.seal(b"the last one", b"").is_ok());
    assert_eq!(server.send.seal(b"", b""), Err(HandshakeError::NonceExhausted));
}

#[test]
fn plaintext_variant_passes_bytes_through_unchanged() {
    let mut security = ConnectionSecurity::Plaintext;

    let sealed = security.seal(b"unchanged").unwrap();
    assert_eq!(sealed, b"unchanged");

    let opened = security.open(b"still unchanged").unwrap();
    assert_eq!(opened, b"still unchanged");
}

#[test]
fn encrypted_variant_seals_and_opens_through_the_underlying_session_keys() {
    let (server_keys, client_keys) = paired_session_keys();
    let mut server_security = ConnectionSecurity::Encrypted(server_keys);
    let mut client_security = ConnectionSecurity::Encrypted(client_keys);

    let sealed = server_security.seal(b"through the enum").unwrap();
    assert_ne!(sealed, b"through the enum");

    let opened = client_security.open(&sealed).unwrap();
    assert_eq!(opened, b"through the enum");
}

#[test]
fn confirmation_frame_is_exactly_sixteen_bytes_and_verifies_on_the_other_side() {
    let (mut server, mut client) = paired_session_keys();

    let frame = build_confirmation_frame(&mut server).unwrap();
    assert_eq!(frame.len(), CONFIRMATION_FRAME_LEN);

    assert!(verify_confirmation_frame(&mut client, &frame).is_ok());
}

#[test]
fn confirmation_frame_from_a_different_shared_secret_fails_to_verify() {
    let (mut server, _client) = paired_session_keys();
    let frame = build_confirmation_frame(&mut server).unwrap();

    let wrong_client_secret = StaticSecret { bytes: [42u8; 32] };
    let wrong_server_public = StaticSecret { bytes: [1u8; 32] }.public_key();
    let wrong_shared = wrong_client_secret.diffie_hellman(&wrong_server_public);
    let mut wrong_client = match SessionKeys::derive_for_client(&wrong_shared) {
        Ok(keys) => keys,
        Err(error) => panic!("unexpected {error:?}"),
    };

    assert!(verify_confirmation_frame(&mut wrong_client, &frame).is_err());
}

fn non_contributory_shared_secret() -> SharedSecret {
    let secret = StaticSecret { bytes: [5u8; 32] };
    let low_order_public = PublicKey { bytes: [0u8; 32] };
    secret.diffie_hellman(&low_order_public)
}

#[test]
fn derive_for_server_rejects_a_non_contributory_shared_secret() {
    let shared = non_contributory_shared_secret();
    assert!(SessionKeys::derive_for_server(&shared).is_err());
}

#[test]
fn derive_for_client_rejects_a_non_contributory_shared_secret() {
    let shared = non_contributory_shared_secret();
    assert!(SessionKeys::derive_for_client(&shared).is_err());
}

fn to_hex(bytes: &[u8]) -> String {
    bytes.iter().map(|b| format!("{b:02x}")).collect()
}

#[test]
fn cross_language_test_vector() {
    let server_secret = StaticSecret { bytes: [1u8; 32] };
    let client_secret = StaticSecret { bytes: [2u8; 32] };
    let client_public = client_secret.public_key();

    let shared = server_secret.diffie_hellman(&client_public);
    let mut server_keys = match SessionKeys::derive_for_server(&shared) {
        Ok(keys) => keys,
        Err(error) => panic!("unexpected {error:?}"),
    };
    let frame = build_confirmation_frame(&mut server_keys).unwrap();

    assert_eq!(to_hex(&frame), "3cefb8b6a2d28e0c1c96d8c5d7919cf9");
}

#[test]
fn nonces_are_the_counter_in_big_endian_after_four_zero_bytes() {
    assert_eq!(nonce_for(0), [0; 12]);
    assert_eq!(nonce_for(1), [0, 0, 0, 0, 0, 0, 0, 0, 0, 0, 0, 1]);
    assert_eq!(
        nonce_for(0x0102_0304_0506_0708),
        [0, 0, 0, 0, 1, 2, 3, 4, 5, 6, 7, 8]
    );
    assert_eq!(
        nonce_for(u64::MAX),
        [0, 0, 0, 0, 255, 255, 255, 255, 255, 255, 255, 255]
    );
}

#[test]
fn sealed_frames_are_longer_by_the_tag_and_differ_from_one_number_to_the_next() {
    let mut cipher = DirectionalCipher::new([3u8; 32]);
    let first = cipher.seal(b"same", b"aad").unwrap();
    let second = cipher.seal(b"same", b"aad").unwrap();
    assert_eq!(first.len(), 4 + 16);
    assert_ne!(first, second);
    assert_eq!(cipher.counter, 2);

    let mut receiver = DirectionalCipher::new([3u8; 32]);
    assert!(receiver.open(&first, b"other aad").is_err());
    assert_eq!(receiver.open(&first, b"aad").unwrap(), b"same");
    assert_eq!(receiver.open(&second, b"aad").unwrap(), b"same");
    assert!(receiver.open(b"short", b"aad").is_err());
}

#[test]
fn a_confirmation_frame_with_a_payload_is_refused() {
    let (mut server, mut client) = paired_session_keys();
    let frame = server
        .send
        .seal(b"payload", b"orosu-e2e-v2-server-confirm")
        .unwrap();
    assert_eq!(
        verify_confirmation_frame(&mut client, &frame),
        Err(HandshakeError::UnexpectedPayload)
    );
}

#[test]
fn both_sides_of_a_key_exchange_share_a_contributory_secret() {
    let one = StaticSecret { bytes: [7u8; 32] };
    let other = StaticSecret { bytes: [9u8; 32] };
    let ours = one.diffie_hellman(&other.public_key());
    let theirs = other.diffie_hellman(&one.public_key());
    assert_eq!(ours.as_bytes(), theirs.as_bytes());
    assert!(ours.was_contributory());
    assert!(!non_contributory_shared_secret().was_contributory());
}

#[test]
fn frames_open_in_the_order_in_which_they_were_sealed() {
    let (server, client) = paired_session_keys();
    let mut server = ConnectionSecurity::Encrypted(server);
    let mut client = ConnectionSecurity::Encrypted(client);
    let first = server.seal(b"first").unwrap();
    let second = server.seal(b"second").unwrap();
    assert_eq!(client.open(&second), Err(HandshakeError::DecryptionFailed));
    assert_eq!(client.open(&first).unwrap(), b"first");
    assert_eq!(client.open(&second).unwrap(), b"second");
    assert_eq!(client.open(&second), Err(HandshakeError::DecryptionFailed));
    let third = server.seal(b"third").unwrap();
    assert_eq!(server.open(&third), Err(HandshakeError::DecryptionFailed));
}
