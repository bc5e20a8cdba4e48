use base64::engine::general_purpose::STANDARD;
use base64::Engine;
use ed25519_dalek::{Signer, SigningKey, Verifier, VerifyingKey};
use orosu::cryptography::{
    read_verifying_key, ClientKey, KeyError, Keygen, PublicKey, ServerKeygen, ServerStaticKey,
    StaticSecret,
};

/// Reads a JSON client key, field by field.
fn json_key(bytes: &Vec<u8>) -> Option<ClientKey> {
    let value: serde_json::Value = serde_json::from_slice(bytes).ok()?;
    let client_name = value.get("client_name")?.as_str()?.to_string();
    let mut key = Vec::new();
    for byte in value.get("key")?.as_array()? {
        key.push(u8::try_from(byte.as_u64()?).ok()?);
    }
    Some(ClientKey { client_name, key })
}

fn from_string(text: String) -> Result<ClientKey, KeyError> {
    ClientKey::from_string(text, json_key)
}

#[test]
fn private_key_base64_roundtrips_through_client_key_from_string() {
    let keygen = Keygen::new("roundtrip-client".to_string());

    let parsed = from_string(keygen.private_key_base64()).unwrap();

    assert_eq!(parsed.client_name, "roundtrip-client");
    assert_eq!(parsed.key, keygen.private_key().key);
}

#[test]
fn client_key_wire_format_is_plain_base64_json() {
    let keygen = Keygen::new("wire-format-client".to_string());

    let decoded = STANDARD.decode(keygen.private_key_base64()).unwrap();
    let json: serde_json::Value = serde_json::from_slice(&decoded).unwrap();

    assert_eq!(json["client_name"], "wire-format-client");
    let key = json["key"].as_array().expect("key should be a JSON array");
    assert_eq!(key.len(), 32);
    assert!(key.iter().all(|b| b.is_u64() && b.as_u64().unwrap() <= 255));
}

#[test]
fn from_string_rejects_invalid_base64() {
    let result = from_string("not valid base64 !!!".to_string());
    assert!(result.is_err());
    assert!(matches!(result, Err(KeyError::NotBase64)));
}

#[test]
fn from_string_rejects_valid_base64_that_is_not_the_expected_json_shape() {
    let garbage = STANDARD.encode(b"{\"unexpected\":\"shape\"}");
    let result = from_string(garbage);
    assert!(result.is_err());
}

#[test]
fn reads_a_key_written_in_the_old_rkyv_format() {
    let private_key = ("old-format-client".to_string(), vec![1u8; 32]);
    let encoded = rkyv::to_bytes::<rkyv::rancor::Error>(&private_key).unwrap();
    let base64 = STANDARD.encode(encoded);

    let parsed = from_string(base64).unwrap();

    assert_eq!(parsed.client_name, "old-format-client");
    assert_eq!(parsed.key, vec![1u8; 32]);
}

#[test]
fn reads_an_archived_key_byte_for_byte() {
    // The bytes of the name and of the key, then the two relative pointers
    // with their lengths.
    let mut archive = b"old-format-client".to_vec();
    archive.extend([1u8; 32]);
    while archive.len() % 4 != 0 {
        archive.push(0);
    }
    let root = archive.len() as i32;
    archive.extend(0x91u32.to_le_bytes());
    archive.extend((-root).to_le_bytes());
    archive.extend((17 - (root + 8)).to_le_bytes());
    archive.extend(32u32.to_le_bytes());
    let written = rkyv::to_bytes::<rkyv::rancor::Error>(&(
        "old-format-client".to_string(),
        vec![1u8; 32],
    ))
    .unwrap();
    assert_eq!(written.as_slice(), archive.as_slice());
    let parsed = from_string(STANDARD.encode(archive)).unwrap();
    assert_eq!(parsed.client_name, "old-format-client");
    assert_eq!(parsed.key, vec![1u8; 32]);
}

#[test]
fn from_string_rejects_garbage_that_is_neither_json_nor_rkyv() {
    let garbage = STANDARD.encode(b"\x00\x01\x02not a valid encoding at all\xff\xfe");
    let result = from_string(garbage);
    assert!(result.is_err());
    assert!(matches!(result, Err(KeyError::UnknownFormat)));
}

#[test]
fn keygen_produces_a_valid_ed25519_keypair() {
    let keygen = Keygen::new("signing-client".to_string());

    let seed: [u8; 32] = keygen.private_key().key.clone().try_into().unwrap();
    let signing_key = SigningKey::from_bytes(&seed);

    let public_key_bytes: [u8; 32] = keygen.public_key().clone().try_into().unwrap();
    let verifying_key = VerifyingKey::from_bytes(&public_key_bytes).unwrap();
    assert_eq!(signing_key.verifying_key(), verifying_key);

    let message: &[u8] = b"test message";
    let signature = signing_key.sign(message);
    assert!(verifying_key.verify(message, &signature).is_ok());
}

#[test]
fn server_keygen_produces_a_valid_x25519_keypair() {
    let server = ServerKeygen::new();
    let server_static_key = ServerStaticKey::from_base64(&server.private_key_base64())
        .unwrap_or_else(|error| panic!("{error:?}"));

    let peer_secret = StaticSecret::random();
    let peer_public = peer_secret.public_key();

    let public_bytes = STANDARD.decode(server.public_key_base64()).unwrap();
    let server_public = PublicKey {
        bytes: <[u8; 32]>::try_from(public_bytes.as_slice()).unwrap(),
    };

    let from_peer = peer_secret.diffie_hellman(&server_public);
    let from_server = server_static_key
        .as_static_secret()
        .diffie_hellman(&peer_public);
    assert_eq!(from_peer.as_bytes(), from_server.as_bytes());
}

#[test]
fn server_keygen_keys_are_plain_base64_of_32_raw_bytes_not_json() {
    let server = ServerKeygen::new();

    let public_bytes = STANDARD.decode(server.public_key_base64()).unwrap();
    assert_eq!(public_bytes.len(), 32);

    let private_bytes = STANDARD.decode(server.private_key_base64()).unwrap();
    assert_eq!(private_bytes.len(), 32);
}

fn derived_public(key: &ServerStaticKey) -> [u8; 32] {
    key.as_static_secret().public_key().bytes
}

#[test]
fn server_static_key_from_base64_roundtrips_with_server_keygen_output() {
    let server = ServerKeygen::new();
    let key = ServerStaticKey::from_base64(&server.private_key_base64())
        .unwrap_or_else(|error| panic!("{error:?}"));

    let public_bytes = STANDARD.decode(server.public_key_base64()).unwrap();
    assert_eq!(derived_public(&key).as_slice(), public_bytes.as_slice());
}

#[test]
fn server_static_key_from_base64_rejects_invalid_base64() {
    assert!(matches!(
        ServerStaticKey::from_base64("not valid base64 !!!"),
        Err(KeyError::NotBase64)
    ));
}

#[test]
fn server_static_key_from_base64_rejects_wrong_length() {
    let too_short = STANDARD.encode([1u8; 16]);
    assert!(matches!(
        ServerStaticKey::from_base64(&too_short),
        Err(KeyError::WrongLength)
    ));
}

#[test]
fn server_static_key_may_have_whitespace_around_it() {
    let server = ServerKeygen::default();
    let text = format!("\u{2003}\t {}\r\n", server.private_key_base64());
    let key = ServerStaticKey::from_base64(&text).unwrap_or_else(|error| panic!("{error:?}"));
    let public_bytes = STANDARD.decode(server.public_key_base64()).unwrap();
    assert_eq!(derived_public(&key).as_slice(), public_bytes.as_slice());
}

#[test]
fn known_x25519_key_pair() {
    // The first secret key and public key of RFC 7748, section 6.1.
    let secret = StaticSecret {
        bytes: [
            0x77, 0x07, 0x6d, 0x0a, 0x73, 0x18, 0xa5, 0x7d, 0x3c, 0x16, 0xc1, 0x72, 0x51, 0xb2,
            0x66, 0x45, 0xdf, 0x4c, 0x2f, 0x87, 0xeb, 0xc0, 0x99, 0x2a, 0xb1, 0x77, 0xfb, 0xa5,
            0x1d, 0xb9, 0x2c, 0x2a,
        ],
    };
    assert_eq!(
        secret.public_key().bytes,
        [
            0x85, 0x20, 0xf0, 0x09, 0x89, 0x30, 0xa7, 0x54, 0x74, 0x8b, 0x7d, 0xdc, 0xb4, 0x3e,
            0xf7, 0x5a, 0x0d, 0xbf, 0x3a, 0x0d, 0x26, 0x38, 0x1a, 0xf4, 0xeb, 0xa4, 0xa9, 0x8e,
            0xaa, 0x9b, 0x4e, 0x6a,
        ]
    );
}

#[test]
fn the_public_key_of_a_client_reads_back() {
    let keygen = Keygen::new("client".to_string());
    let key = read_verifying_key(&format!("{}\n", keygen.public_key_base64())).unwrap();
    assert_eq!(key.as_slice(), keygen.public_key().as_slice());
    assert!(read_verifying_key("").is_none());
    assert!(read_verifying_key("????").is_none());
    assert!(read_verifying_key(&STANDARD.encode([1u8; 31])).is_none());
    // Not the encoding of a point on the curve.
    let mut bytes = [0u8; 32];
    bytes[0] = 2;
    assert!(read_verifying_key(&STANDARD.encode(bytes)).is_none());
}

#[test]
fn key_pairs_are_those_of_their_secrets() {
    let keygen = Keygen::of_seed("seeded".to_string(), [7; 32]);
    assert_eq!(keygen.private_key().client_name, "seeded");
    assert_eq!(keygen.private_key().key, vec![7; 32]);
    assert_eq!(
        keygen.public_key().as_slice(),
        SigningKey::from_bytes(&[7; 32]).verifying_key().as_bytes()
    );
    let keygen = ServerKeygen::of_secret(StaticSecret { bytes: [7; 32] });
    assert_eq!(keygen.private_key_base64(), STANDARD.encode([7; 32]));
    let public = x25519_dalek::PublicKey::from(&x25519_dalek::StaticSecret::from([7; 32]));
    assert_eq!(keygen.public_key_base64(), STANDARD.encode(public.as_bytes()));
}
