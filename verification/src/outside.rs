//! Calls into outside crates, each behind a function whose contract is taken
//! on trust. Nothing else in this crate is unproved.

use base64::Engine;
use chacha20poly1305::aead::{Aead, KeyInit};
use ed25519_dalek::pkcs8::EncodePrivateKey;
use vstd::prelude::*;

verus! {

/// The longest message, in bytes, that ChaCha20-Poly1305 covers with one
/// nonce: the keystream blocks that are left once the first one has keyed the
/// authenticator.
pub const AEAD_MAX_MESSAGE_LEN: u64 = 274877906816;

/// Length in bytes of a ChaCha20-Poly1305 authentication tag.
pub const AEAD_TAG_LEN: usize = 16;

/// The frame that ChaCha20-Poly1305 makes of a message: its ciphertext, then
/// the authentication tag.
pub uninterp spec fn aead_sealed(
    key: Seq<u8>,
    nonce: Seq<u8>,
    message: Seq<u8>,
    aad: Seq<u8>,
) -> Seq<u8>;

/// The message that ChaCha20-Poly1305 takes out of a frame, or nothing where
/// the frame does not authenticate.
pub uninterp spec fn aead_opened(
    key: Seq<u8>,
    nonce: Seq<u8>,
    frame: Seq<u8>,
    aad: Seq<u8>,
) -> Option<Seq<u8>>;

/// `chacha20poly1305::ChaCha20Poly1305::encrypt`, on a message within the
/// cipher's limit, for which it does not fail. The frame is a function of
/// key, nonce, message and associated data; it is longer than the message by
/// the tag; and decrypting it under the same key, nonce and associated data
/// gives the message back.
#[verifier::external_body]
pub(crate) fn aead_encrypt(key: &[u8; 32], nonce: &[u8; 12], message: &[u8], aad: &[u8]) -> (frame:
    Vec<u8>)
    requires
        message@.len() <= AEAD_MAX_MESSAGE_LEN,
    ensures
        frame@ == aead_sealed(key@, nonce@, message@, aad@),
        frame@.len() == message@.len() + AEAD_TAG_LEN,
        aead_opened(key@, nonce@, frame@, aad@) == Some(message@),
{
    let cipher = chacha20poly1305::ChaCha20Poly1305::new(&chacha20poly1305::Key::from(*key));
    let payload = chacha20poly1305::aead::Payload { msg: message, aad };
    cipher.encrypt(&chacha20poly1305::Nonce::from(*nonce), payload).expect(
        "the message is within the cipher's limit",
    )
}

/// `chacha20poly1305::ChaCha20Poly1305::decrypt`, on a frame whose message
/// part is within the cipher's limit. What comes out is a function of key,
/// nonce, frame and associated data; a frame that opens is the one that
/// encrypting what came out gives, and is longer than it by the tag.
#[verifier::external_body]
pub(crate) fn aead_decrypt(key: &[u8; 32], nonce: &[u8; 12], frame: &[u8], aad: &[u8]) -> (message:
    Option<Vec<u8>>)
    requires
        frame@.len() <= AEAD_MAX_MESSAGE_LEN + AEAD_TAG_LEN,
    ensures
        message is Some <==> aead_opened(key@, nonce@, frame@, aad@) is Some,
        message matches Some(m) ==> {
            &&& aead_opened(key@, nonce@, frame@, aad@) == Some(m@)
            &&& aead_sealed(key@, nonce@, m@, aad@) == frame@
            &&& frame@.len() == m@.len() + AEAD_TAG_LEN
        },
{
    let cipher = chacha20poly1305::ChaCha20Poly1305::new(&chacha20poly1305::Key::from(*key));
    let payload = chacha20poly1305::aead::Payload { msg: frame, aad };
    cipher.decrypt(&chacha20poly1305::Nonce::from(*nonce), payload).ok()
}

/// The 32 bytes that HKDF-SHA256 expands from a salt, input key material and
/// an info label.
pub uninterp spec fn hkdf_expanded(salt: Seq<u8>, material: Seq<u8>, info: Seq<u8>) -> Seq<u8>;

/// `hkdf::Hkdf::<sha2::Sha256>::new` and `expand` into 32 bytes, a length
/// that HKDF-SHA256 always provides: a function of salt, material and info.
#[verifier::external_body]
pub(crate) fn hkdf_sha256(salt: &[u8], material: &[u8], info: &[u8]) -> (key: [u8; 32])
    ensures
        key@ == hkdf_expanded(salt@, material@, info@),
{
    let mut key = [0u8; 32];
    hkdf::Hkdf::<sha2::Sha256>::new(Some(salt), material).expand(info, &mut key).expect(
        "32 bytes is a valid HKDF-SHA256 output length",
    );
    key
}

/// The X25519 public key that belongs to a secret key.
pub uninterp spec fn x25519_public(secret: Seq<u8>) -> Seq<u8>;

/// The X25519 shared secret of a secret key and a peer's public key.
pub uninterp spec fn x25519_shared(secret: Seq<u8>, public: Seq<u8>) -> Seq<u8>;

/// `x25519_dalek::StaticSecret::random`: 32 bytes of the operating system's
/// randomness, of which nothing is promised.
#[verifier::external_body]
pub(crate) fn x25519_random_secret() -> [u8; 32] {
    x25519_dalek::StaticSecret::random().to_bytes()
}

/// `x25519_dalek::PublicKey::from(&StaticSecret)`: a function of the secret.
#[verifier::external_body]
pub(crate) fn x25519_public_key(secret: &[u8; 32]) -> (public: [u8; 32])
    ensures
        public@ == x25519_public(secret@),
{
    x25519_dalek::PublicKey::from(&x25519_dalek::StaticSecret::from(*secret)).to_bytes()
}

/// `x25519_dalek::StaticSecret::diffie_hellman` with
/// `SharedSecret::was_contributory`. The shared secret is a function of both
/// keys; where the peer's key belongs to some secret, that secret and this
/// side's public key give the same shared secret; and it is contributory
/// exactly if it is not all zeros.
#[verifier::external_body]
pub(crate) fn x25519_diffie_hellman(secret: &[u8; 32], public: &[u8; 32]) -> (r: ([u8; 32], bool))
    ensures
        r.0@ == x25519_shared(secret@, public@),
        forall|peer: Seq<u8>|
            peer.len() == 32 && public@ == #[trigger] x25519_public(peer) ==> r.0@
                == x25519_shared(peer, x25519_public(secret@)),
        r.1 <==> exists|i: int| 0 <= i < 32 && r.0@[i] != 0,
{
    let secret = x25519_dalek::StaticSecret::from(*secret);
    let shared = secret.diffie_hellman(&x25519_dalek::PublicKey::from(*public));
    (*shared.as_bytes(), shared.was_contributory())
}

/// The Ed25519 public key that belongs to a signing seed.
pub uninterp spec fn ed25519_public(seed: Seq<u8>) -> Seq<u8>;

/// Whether 32 bytes are the encoding of an Ed25519 public key.
pub uninterp spec fn ed25519_valid(public: Seq<u8>) -> bool;

/// `ed25519_dalek::SigningKey::generate` from the operating system's
/// randomness, as its 32-byte seed, of which nothing is promised.
#[verifier::external_body]
pub(crate) fn ed25519_generate() -> [u8; 32] {
    let mut randomness = ed25519_dalek::ed25519::signature::rand_core::OsRng;
    ed25519_dalek::SigningKey::generate(&mut randomness).to_bytes()
}

/// `ed25519_dalek::SigningKey::verifying_key` of the signing key with this
/// seed: a function of the seed, and always a valid public key.
#[verifier::external_body]
pub(crate) fn ed25519_public_key(seed: &[u8; 32]) -> (public: [u8; 32])
    ensures
        public@ == ed25519_public(seed@),
        ed25519_valid(public@),
{
    ed25519_dalek::SigningKey::from_bytes(seed).verifying_key().to_bytes()
}

/// The PKCS #8 document of an Ed25519 signing key, where it can be encoded.
pub uninterp spec fn ed25519_document(seed: Seq<u8>) -> Option<Seq<u8>>;

/// `ed25519_dalek::SigningKey::to_pkcs8_der` of the signing key with this
/// seed: a function of the seed.
#[verifier::external_body]
pub(crate) fn ed25519_pkcs8(seed: &[u8; 32]) -> (document: Option<Vec<u8>>)
    ensures
        match document {
            Some(bytes) => ed25519_document(seed@) == Some(bytes@),
            None => ed25519_document(seed@) is None,
        },
{
    let document = ed25519_dalek::SigningKey::from_bytes(seed).to_pkcs8_der().ok()?;
    Some(document.as_bytes().to_vec())
}

/// `ed25519_dalek::VerifyingKey::from_bytes`: whether it accepts the bytes,
/// which is a function of them.
#[verifier::external_body]
pub(crate) fn ed25519_is_valid(public: &[u8; 32]) -> (valid: bool)
    ensures
        valid == ed25519_valid(public@),
{
    ed25519_dalek::VerifyingKey::from_bytes(public).is_ok()
}

/// The standard padded Base64 text of a byte string.
pub uninterp spec fn base64_text(bytes: Seq<u8>) -> Seq<char>;

/// The bytes that a standard padded Base64 text stands for, or nothing where
/// it is not such a text.
pub uninterp spec fn base64_bytes(text: Seq<char>) -> Option<Seq<u8>>;

/// The characters of standard Base64, padding included.
pub open spec fn is_base64_char(c: char) -> bool {
    ||| 'A' <= c <= 'Z'
    ||| 'a' <= c <= 'z'
    ||| '0' <= c <= '9'
    ||| c == '+'
    ||| c == '/'
    ||| c == '='
}

/// `base64::engine::general_purpose::STANDARD.encode`: a function of the
/// bytes, written in the characters of standard Base64, which decoding turns
/// into the same bytes again.
#[verifier::external_body]
pub(crate) fn base64_encode(bytes: &[u8]) -> (text: String)
    ensures
        text@ == base64_text(bytes@),
        base64_bytes(text@) == Some(bytes@),
        forall|i: int| 0 <= i < text@.len() ==> is_base64_char(#[trigger] text@[i]),
{
    base64::engine::general_purpose::STANDARD.encode(bytes)
}

/// `base64::engine::general_purpose::STANDARD.decode`: a function of the
/// text.
#[verifier::external_body]
pub(crate) fn base64_decode(text: &str) -> (bytes: Option<Vec<u8>>)
    ensures
        bytes is Some <==> base64_bytes(text@) is Some,
        bytes matches Some(b) ==> base64_bytes(text@) == Some(b@),
{
    base64::engine::general_purpose::STANDARD.decode(text).ok()
}

/// The bytes that an HTTP header value can hold: all but the control
/// characters, of which only the tab is allowed.
pub open spec fn is_header_byte(b: u8) -> bool {
    b == 9 || (b >= 32 && b != 127)
}

/// The bytes of an HTTP header value that can be read as text: the visible
/// ASCII characters, the space and the tab.
pub open spec fn is_header_text_byte(b: u8) -> bool {
    b == 9 || 32 <= b < 127
}

/// `axum::http::HeaderValue::from_bytes`: it accepts exactly the byte strings
/// in which every byte is allowed.
#[verifier::external_body]
pub(crate) fn header_accepts(bytes: &[u8]) -> (accepted: bool)
    ensures
        accepted <==> forall|i: int| 0 <= i < bytes@.len() ==> is_header_byte(#[trigger] bytes@[i]),
{
    axum::http::HeaderValue::from_bytes(bytes).is_ok()
}

/// `axum::http::HeaderValue::to_str` of the header value with these bytes: a
/// text exactly if every byte is a text byte, and then the text with these
/// bytes as its characters.
#[verifier::external_body]
pub(crate) fn header_to_str(bytes: &[u8]) -> (text: Option<String>)
    ensures
        text is Some <==> forall|i: int|
            0 <= i < bytes@.len() ==> is_header_text_byte(#[trigger] bytes@[i]),
        text matches Some(t) ==> {
            &&& t@.len() == bytes@.len()
            &&& forall|i: int| 0 <= i < bytes@.len() ==> #[trigger] t@[i] == bytes@[i] as char
        },
{
    axum::http::HeaderValue::from_bytes(bytes).ok()?.to_str().ok().map(String::from)
}

/// The hexadecimal digit for a value below sixteen.
pub open spec fn hex_digit(value: int) -> char {
    if value < 10 {
        (48 + value) as char
    } else {
        (87 + value) as char
    }
}

/// A character within a JSON string: as it is, but for the quote, the
/// backslash and the control characters, which are escaped.
pub open spec fn json_character(c: char) -> Seq<char> {
    if c == '"' {
        seq!['\\', '"']
    } else if c == '\\' {
        seq!['\\', '\\']
    } else if c as int == 8 {
        seq!['\\', 'b']
    } else if c == '\t' {
        seq!['\\', 't']
    } else if c == '\n' {
        seq!['\\', 'n']
    } else if c as int == 12 {
        seq!['\\', 'f']
    } else if c == '\r' {
        seq!['\\', 'r']
    } else if (c as int) < 32 {
        seq!['\\', 'u', '0', '0', hex_digit(c as int / 16), hex_digit(c as int % 16)]
    } else {
        seq![c]
    }
}

/// The characters of a text within a JSON string.
pub open spec fn json_characters(text: Seq<char>) -> Seq<char>
    decreases text.len(),
{
    if text.len() == 0 {
        Seq::empty()
    } else {
        json_characters(text.drop_last()) + json_character(text.last())
    }
}

/// A text as a JSON string.
pub open spec fn json_quoted(text: Seq<char>) -> Seq<char> {
    seq!['"'] + json_characters(text) + seq!['"']
}

/// `serde_json::to_string` of a text, which does not fail: the text in quotes,
/// with the quote, the backslash and the control characters escaped.
#[verifier::external_body]
pub(crate) fn json_string(text: &str) -> (json: String)
    ensures
        json@ == json_quoted(text@),
{
    serde_json::to_string(text).expect("a text is always valid JSON")
}

/// Whether `chrono` can hold the moment that lies this many seconds after the
/// Unix epoch, and nanoseconds after that: a date of the years -262143 to
/// 262142, and a full second's worth of nanoseconds at most, or two seconds'
/// worth in the last second of a minute, where a leap second can stand.
pub open spec fn is_moment(seconds: int, nanoseconds: int) -> bool {
    &&& -8334601228800 <= seconds <= 8210266876799
    &&& 0 <= nanoseconds < 2_000_000_000
    &&& nanoseconds < 1_000_000_000 || seconds % 60 == 59
}

/// A moment as a JSON string, in the form of RFC 3339.
pub uninterp spec fn json_moment(seconds: int, nanoseconds: int) -> Seq<char>;

/// Whether the clock can show the moment that lies this many seconds after the
/// Unix epoch, and nanoseconds after that: one that is not before the epoch,
/// and not in a leap second.
pub open spec fn is_clock_moment(seconds: int, nanoseconds: int) -> bool {
    &&& is_moment(seconds, nanoseconds)
    &&& seconds >= 0
    &&& nanoseconds < 1_000_000_000
}

/// `chrono::Utc::now`, as seconds since the Unix epoch and nanoseconds after
/// that: a moment that the clock can show. Which one is left to the clock,
/// which must not be set before the epoch.
#[verifier::external_body]
pub(crate) fn utc_now() -> (moment: (i64, u32))
    ensures
        is_clock_moment(moment.0 as int, moment.1 as int),
{
    let now = chrono::Utc::now();
    (now.timestamp(), now.timestamp_subsec_nanos())
}

/// `serde_json::to_string` of the `chrono::DateTime<Utc>` at this moment: a
/// function of the moment.
#[verifier::external_body]
pub(crate) fn json_timestamp(seconds: i64, nanoseconds: u32) -> (json: String)
    requires
        is_moment(seconds as int, nanoseconds as int),
    ensures
        json@ == json_moment(seconds as int, nanoseconds as int),
{
    let moment = chrono::DateTime::from_timestamp(seconds, nanoseconds).expect("a moment");
    serde_json::to_string(&moment).expect("a moment is always valid JSON")
}

/// A bit of an address, counted from the most significant one.
pub open spec fn address_bit(octets: Seq<u8>, i: int) -> bool {
    (octets[i / 8] >> ((7 - i % 8) as u8)) & 1u8 == 1u8
}

/// Whether an address with a prefix length is a network: the prefix is no
/// longer than the address, and no bit after it is set.
pub open spec fn is_network(octets: Seq<u8>, prefix: int) -> bool {
    &&& 0 <= prefix <= 8 * octets.len()
    &&& forall|i: int| prefix <= i < 8 * octets.len() ==> !#[trigger] address_bit(octets, i)
}

/// Whether two addresses agree in the first `prefix` bits.
pub open spec fn same_prefix(one: Seq<u8>, other: Seq<u8>, prefix: int) -> bool {
    forall|i: int|
        0 <= i < prefix ==> #[trigger] address_bit(one, i) == #[trigger] address_bit(other, i)
}

/// `cidr::Ipv4Cidr::new`: it accepts exactly the networks.
#[verifier::external_body]
pub(crate) fn ipv4_network_exists(octets: &[u8; 4], prefix: u8) -> (valid: bool)
    ensures
        valid == is_network(octets@, prefix as int),
{
    cidr::Ipv4Cidr::new((*octets).into(), prefix).is_ok()
}

/// `cidr::Ipv6Cidr::new`: it accepts exactly the networks.
#[verifier::external_body]
pub(crate) fn ipv6_network_exists(octets: &[u8; 16], prefix: u8) -> (valid: bool)
    ensures
        valid == is_network(octets@, prefix as int),
{
    cidr::Ipv6Cidr::new((*octets).into(), prefix).is_ok()
}

/// `cidr::Ipv4Cidr::contains`: whether the address agrees with the network in
/// the bits of the prefix.
#[verifier::external_body]
pub(crate) fn ipv4_network_contains(octets: &[u8; 4], prefix: u8, address: &[u8; 4]) -> (inside:
    bool)
    requires
        is_network(octets@, prefix as int),
    ensures
        inside == same_prefix(octets@, address@, prefix as int),
{
    let network = cidr::Ipv4Cidr::new((*octets).into(), prefix).expect("a network");
    network.contains(&(*address).into())
}

/// `cidr::Ipv6Cidr::contains`: whether the address agrees with the network in
/// the bits of the prefix.
#[verifier::external_body]
pub(crate) fn ipv6_network_contains(octets: &[u8; 16], prefix: u8, address: &[u8; 16]) -> (inside:
    bool)
    requires
        is_network(octets@, prefix as int),
    ensures
        inside == same_prefix(octets@, address@, prefix as int),
{
    let network = cidr::Ipv6Cidr::new((*octets).into(), prefix).expect("a network");
    network.contains(&(*address).into())
}

/// Whether a token is a JSON Web Token for EdDSA whose signature is good under
/// an Ed25519 public key.
pub uninterp spec fn token_signed(token: Seq<char>, public_key: Seq<u8>) -> bool;

/// `jsonwebtoken::decode` of a token under an Ed25519 public key, for EdDSA
/// and with the default validation: whether it accepts the token. It accepts
/// none without a good signature, which is a function of token and key; that it
/// accepts one with a good signature is not promised, since the claims are held
/// against the clock.
#[verifier::external_body]
pub(crate) fn token_verifies(token: &str, public_key: &[u8; 32]) -> (accepted: bool)
    ensures
        accepted ==> token_signed(token@, public_key@),
{
    let key = jsonwebtoken::DecodingKey::from_ed_der(public_key);
    let validation = jsonwebtoken::Validation::new(jsonwebtoken::Algorithm::EdDSA);
    jsonwebtoken::decode::<serde::de::IgnoredAny>(token, &key, &validation).is_ok()
}

/// The JSON Web Token for EdDSA that claims, given as JSON, and the PKCS #8
/// document of an Ed25519 key give; nothing where the claims are not JSON or
/// the document is not that of such a key.
pub uninterp spec fn token_for(claims: Seq<char>, document: Seq<u8>) -> Option<Seq<char>>;

/// The characters of a JSON Web Token: those of URL-safe Base64, and the dot.
pub open spec fn is_token_char(c: char) -> bool {
    ||| 'A' <= c <= 'Z'
    ||| 'a' <= c <= 'z'
    ||| '0' <= c <= '9'
    ||| c == '-'
    ||| c == '_'
    ||| c == '.'
}

/// `jsonwebtoken::encode` of claims, given as JSON and passed on as they are,
/// under an Ed25519 key: the token is a function of claims and key, which
/// Ed25519 signatures are; it is written in the characters of JSON Web Tokens;
/// and under the document of a seed its signature is good for the public key of
/// that seed.
#[verifier::external_body]
pub(crate) fn token_sign(claims: String, document: &[u8]) -> (token: Option<String>)
    ensures
        text_view(token) == token_for(claims@, document@),
        token matches Some(t) ==> {
            &&& forall|i: int| 0 <= i < t@.len() ==> is_token_char(#[trigger] t@[i])
            &&& forall|seed: Seq<u8>|
                seed.len() == 32 && #[trigger] ed25519_document(seed) == Some(document@)
                    ==> token_signed(t@, ed25519_public(seed))
        },
{
    let header = jsonwebtoken::Header::new(jsonwebtoken::Algorithm::EdDSA);
    let claims = serde_json::value::RawValue::from_string(claims).ok()?;
    let key = jsonwebtoken::EncodingKey::from_ed_der(document);
    jsonwebtoken::encode(&header, &claims, &key).ok()
}

/// The running state of an MD5 computation, opaque.
#[verifier::external_type_specification]
#[verifier::external_body]
pub struct ExMd5Context(md5::Context);

/// The bytes that an MD5 computation has taken in.
pub uninterp spec fn md5_absorbed(context: md5::Context) -> Seq<u8>;

/// The MD5 digest of a byte string.
pub uninterp spec fn md5_digest(bytes: Seq<u8>) -> Seq<u8>;

/// `md5::Context::new`: it has taken in nothing.
#[verifier::external_body]
pub(crate) fn md5_new() -> (context: md5::Context)
    ensures
        md5_absorbed(context) == Seq::<u8>::empty(),
{
    md5::Context::new()
}

/// `md5::Context::consume`: it takes in the bytes after those before.
#[verifier::external_body]
pub(crate) fn md5_consume(context: &mut md5::Context, data: &[u8])
    ensures
        md5_absorbed(*final(context)) == md5_absorbed(*old(context)) + data@,
{
    context.consume(data)
}

/// `md5::Context::finalize`: the digest is a function of what was taken in.
#[verifier::external_body]
pub(crate) fn md5_finalize(context: md5::Context) -> (digest: [u8; 16])
    ensures
        digest@ == md5_digest(md5_absorbed(context)),
{
    context.finalize().0
}

/// A log level of `tracing`, opaque.
#[verifier::external_type_specification]
#[verifier::external_body]
pub struct ExTracingLevel(tracing::Level);

/// The log level of `tracing` with this name.
pub uninterp spec fn level_named(name: Seq<char>) -> tracing::Level;

/// `tracing::Level::from_str` on the name of a level, for which it does not
/// fail: a function of the name.
#[verifier::external_body]
pub(crate) fn tracing_level(name: &str) -> (level: tracing::Level)
    requires
        name@ == "debug"@ || name@ == "info"@ || name@ == "warn"@ || name@ == "error"@,
    ensures
        level == level_named(name@),
{
    name.parse().expect("the name of a level")
}

/// The scheme, the authority, and the path with the query of a URI, as far as
/// it has them; nothing where the text is not a URI.
pub uninterp spec fn uri_parts(text: Seq<char>) -> Option<
    (Option<Seq<char>>, Option<Seq<char>>, Option<Seq<char>>),
>;

/// The longest URI, in bytes.
pub const URI_MAX_LEN: usize = 65534;

/// Whether the URI of a scheme, an authority and a path with a query, if it is
/// not too long, reads as just these.
pub open spec fn uri_reads_back(
    scheme: Seq<char>,
    authority: Seq<char>,
    path_and_query: Seq<char>,
) -> bool {
    let text = scheme + "://"@ + authority + path_and_query;
    vstd::utf8::encode_utf8(text).len() <= URI_MAX_LEN ==> uri_parts(text) == Some(
        (Some(scheme), Some(authority), Some(path_and_query)),
    )
}

/// A path with a query as it is written in a URI: with a slash in the place of
/// a path that is empty.
pub open spec fn rooted(path_and_query: Seq<char>) -> Seq<char> {
    if path_and_query.len() == 0 || path_and_query[0] == '?' {
        "/"@ + path_and_query
    } else {
        path_and_query
    }
}

/// Whether a text can be the scheme of any URI: up to 64 lower-case letters.
pub open spec fn is_plain_scheme(text: Seq<char>) -> bool {
    &&& 0 < text.len() <= 64
    &&& forall|i: int| 0 <= i < text.len() ==> 'a' <= #[trigger] text[i] <= 'z'
}

/// Whether the URI of an authority and a path with a query, with this scheme or,
/// where there is none, with any plain one, reads as just these.
pub open spec fn parts_read_back(
    scheme: Option<Seq<char>>,
    authority: Seq<char>,
    path_and_query: Seq<char>,
) -> bool {
    match scheme {
        Some(scheme) => uri_reads_back(scheme, authority, path_and_query),
        None => forall|scheme: Seq<char>|
            is_plain_scheme(scheme) ==> #[trigger] uri_reads_back(
                scheme,
                authority,
                path_and_query,
            ),
    }
}

/// An optional text's contents.
pub open spec fn text_view(text: Option<String>) -> Option<Seq<char>> {
    match text {
        Some(text) => Some(text@),
        None => None,
    }
}

/// `axum::http::Uri::try_from` on a text, and `into_parts`: a function of the
/// text. The authority that it finds, put together with the scheme that it
/// finds, or any plain one where it finds none, and with the path and the query
/// that it finds, the path written as a slash where it is empty or missing, is
/// again a URI of these parts, if it is not too long.
#[verifier::external_body]
pub(crate) fn parse_uri(text: &str) -> (parts: Option<
    (Option<String>, Option<String>, Option<String>),
>)
    ensures
        match parts {
            Some((scheme, authority, path_and_query)) => uri_parts(text@) == Some(
                (text_view(scheme), text_view(authority), text_view(path_and_query)),
            ),
            None => uri_parts(text@) is None,
        },
        parts matches Some((scheme, Some(authority), path_and_query)) ==> parts_read_back(
            text_view(scheme),
            authority@,
            match path_and_query {
                Some(path) => rooted(path@),
                None => "/"@,
            },
        ),
{
    let parts = axum::http::Uri::try_from(text).ok()?.into_parts();
    let scheme = parts.scheme.map(|scheme| scheme.as_str().to_owned());
    let authority = parts.authority.map(|authority| authority.as_str().to_owned());
    let path_and_query = parts.path_and_query.map(|path| path.as_str().to_owned());
    Some((scheme, authority, path_and_query))
}

/// The host of a URI's authority, or nothing where the text is not an
/// authority.
pub uninterp spec fn authority_host(authority: Seq<char>) -> Option<Seq<char>>;

/// The port of a URI's authority, where it has one.
pub uninterp spec fn authority_port(authority: Seq<char>) -> Option<u16>;

/// `axum::http::uri::Authority::host`: a function of the authority's text.
#[verifier::external_body]
pub(crate) fn host_of(authority: &str) -> (host: Option<String>)
    ensures
        text_view(host) == authority_host(authority@),
{
    let authority = axum::http::uri::Authority::try_from(authority).ok()?;
    Some(authority.host().to_owned())
}

/// `axum::http::uri::Authority::port_u16`: a function of the authority's text.
#[verifier::external_body]
pub(crate) fn port_of(authority: &str) -> (port: Option<u16>)
    ensures
        port == authority_port(authority@),
{
    axum::http::uri::Authority::try_from(authority).ok()?.port_u16()
}

/// The name and the seed of a client key in the binary form that keys were
/// once written in, or nothing where the bytes are not such a key.
pub uninterp spec fn archived_key(bytes: Seq<u8>) -> Option<(Seq<char>, Seq<u8>)>;

/// `rkyv::from_bytes` of a text and a byte string, which are archived one
/// after the other just as the fields of a client key were: a function of the
/// bytes. They are handed over in an `rkyv::util::AlignedVec`, so that it does
/// not depend on their address.
#[verifier::external_body]
pub(crate) fn read_archived_key(bytes: &[u8]) -> (key: Option<(String, Vec<u8>)>)
    ensures
        match key {
            Some((name, seed)) => archived_key(bytes@) == Some((name@, seed@)),
            None => archived_key(bytes@) is None,
        },
{
    let mut aligned = rkyv::util::AlignedVec::<16>::new();
    aligned.extend_from_slice(bytes);
    rkyv::from_bytes::<(String, Vec<u8>), rkyv::rancor::Error>(&aligned).ok()
}

} // verus!
