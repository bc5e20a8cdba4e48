//! Keys: their generation, their text forms, and the key exchange.

use crate::json::{to_json_bytes, ToJson};
use crate::outside;
use crate::text::trim;
use vstd::prelude::*;
use vstd::slice::slice_to_vec;
use vstd::string::*;

verus! {

/// What an X25519 key exchange gives to both of its sides.
pub struct SharedSecret {
    bytes: [u8; 32],
    contributory: bool,
}

impl SharedSecret {
    /// The bytes of the secret.
    pub closed spec fn bytes(&self) -> Seq<u8> {
        self.bytes@
    }

    /// Whether both sides' keys went into the secret.
    pub closed spec fn contributory(&self) -> bool {
        self.contributory
    }

    /// The bytes of the secret.
    pub fn as_bytes(&self) -> (bytes: &[u8; 32])
        ensures
            bytes@ == self.bytes(),
    {
        &self.bytes
    }

    /// Whether both sides' keys went into the secret: a peer that offers a
    /// low-order point forces it to be all zeros.
    pub fn was_contributory(&self) -> (contributory: bool)
        ensures
            contributory == self.contributory(),
    {
        self.contributory
    }
}

/// An X25519 public key.
#[derive(Clone, Copy)]
pub struct PublicKey {
    pub bytes: [u8; 32],
}

/// An X25519 secret key.
pub struct StaticSecret {
    pub bytes: [u8; 32],
}

/// Whether a shared secret of these bytes is contributory.
pub open spec fn is_contributory(bytes: Seq<u8>) -> bool {
    exists|i: int| 0 <= i < 32 && bytes[i] != 0
}

/// Whether `shared` is what the holder of `secret` gets out of a key exchange
/// with the holder of `public`: the two keys determine it, and whoever holds
/// the secret of `public` gets the same from the other side's public key.
pub open spec fn exchanged(secret: Seq<u8>, public: Seq<u8>, shared: SharedSecret) -> bool {
    &&& shared.bytes() == outside::x25519_shared(secret, public)
    &&& shared.contributory() == is_contributory(shared.bytes())
    &&& forall|peer: Seq<u8>|
        peer.len() == 32 && public == #[trigger] outside::x25519_public(peer) ==> shared.bytes()
            == outside::x25519_shared(peer, outside::x25519_public(secret))
}

/// Both sides of a key exchange get the same secret.
pub proof fn law_key_exchange_agrees(
    ours: Seq<u8>,
    theirs: Seq<u8>,
    our_shared: SharedSecret,
    their_shared: SharedSecret,
)
    requires
        ours.len() == 32,
        theirs.len() == 32,
        exchanged(ours, outside::x25519_public(theirs), our_shared),
        exchanged(theirs, outside::x25519_public(ours), their_shared),
    ensures
        our_shared.bytes() == their_shared.bytes(),
        our_shared.contributory() == their_shared.contributory(),
{
}

impl StaticSecret {
    /// A fresh secret key: random bytes, of which nothing is promised.
    pub fn random() -> StaticSecret {
        StaticSecret { bytes: outside::x25519_random_secret() }
    }

    /// The public key that belongs to this secret key.
    pub fn public_key(&self) -> (public: PublicKey)
        ensures
            public.bytes@ == outside::x25519_public(self.bytes@),
    {
        PublicKey { bytes: outside::x25519_public_key(&self.bytes) }
    }

    /// The secret that this side of a key exchange shares with the holder of
    /// `public`. The other side, from its own secret key and this side's
    /// public key, gets the same.
    pub fn diffie_hellman(&self, public: &PublicKey) -> (shared: SharedSecret)
        ensures
            exchanged(self.bytes@, public.bytes@, shared),
    {
        let (bytes, contributory): ([u8; 32], bool) = outside::x25519_diffie_hellman(
            &self.bytes,
            &public.bytes,
        );
        SharedSecret { bytes, contributory }
    }
}

/// Why a text is not the key that it should be.
#[derive(Debug, Clone, Copy, PartialEq, Eq, Structural)]
pub enum KeyError {
    /// It is not Base64.
    NotBase64,
    /// It stands for another number of bytes than a key has.
    WrongLength,
    /// It has none of the known forms.
    UnknownFormat,
    /// It cannot be encoded for signing.
    NotEncodable,
    /// No token could be signed with it.
    NotSignable,
}

/// The bytes as an array, where there are 32 of them.
pub fn to_key_bytes(bytes: &Vec<u8>) -> (key: Option<[u8; 32]>)
    ensures
        key is Some <==> bytes@.len() == 32,
        key matches Some(k) ==> k@ == bytes@,
{
    if bytes.len() != 32 {
        return None;
    }
    let mut key: [u8; 32] = [0; 32];
    let mut i: usize = 0;
    while i < 32
        invariant
            i <= 32,
            bytes@.len() == 32,
            forall|j: int| 0 <= j < i ==> key@[j] == bytes@[j],
        decreases 32 - i,
    {
        key[i] = bytes[i];
        i = i + 1;
    }
    assert(key@ =~= bytes@);
    Some(key)
}

/// A client's identity: its name, and the Ed25519 seed that it signs with.
/// There is no way to print it, so that a key cannot end up in a log.
#[derive(Clone)]
pub struct ClientKey {
    pub client_name: String,
    pub key: Vec<u8>,
}

/// What a client's token claims: who it is, and until when (in seconds since
/// the Unix epoch).
#[derive(Debug, Clone)]
pub struct Claims {
    pub sub: String,
    pub exp: usize,
}

impl ToJson for Claims {
    open spec fn json(&self) -> Seq<char> {
        claims_json(self.sub@, self.exp as nat)
    }

    fn write_json(&self, out: &mut String) {
        out.append("{\"sub\":");
        self.sub.write_json(out);
        out.append(",\"exp\":");
        self.exp.write_json(out);
        out.append("}");
        assert(out@ =~= old(out)@ + self.json());
    }
}

/// The JSON form of claims.
pub open spec fn claims_json(sub: Seq<char>, exp: nat) -> Seq<char> {
    "{\"sub\":"@ + outside::json_quoted(sub) + ",\"exp\":"@ + crate::text::decimal(exp) + "}"@
}

impl ToJson for ClientKey {
    open spec fn json(&self) -> Seq<char> {
        "{\"client_name\":"@ + self.client_name.json() + ",\"key\":"@ + self.key.json() + "}"@
    }

    fn write_json(&self, out: &mut String) {
        out.append("{\"client_name\":");
        self.client_name.write_json(out);
        out.append(",\"key\":");
        self.key.write_json(out);
        out.append("}");
        assert(out@ =~= old(out)@ + self.json());
    }
}

impl ClientKey {
    /// Reads a client key from its Base64 text. Keys are written as JSON; but
    /// keys from before were written in a binary form, and their holders need
    /// not make new ones: what `json` does not read as a JSON key is read as
    /// such a key.
    pub fn from_string<J: Fn(&Vec<u8>) -> Option<ClientKey>>(value: String, json: J) -> (result:
        Result<ClientKey, KeyError>)
        requires
            forall|bytes: &Vec<u8>| #[trigger] call_requires(json, (bytes,)),
        ensures
            match outside::base64_bytes(value@) {
                None => result == Err::<ClientKey, KeyError>(KeyError::NotBase64),
                Some(contents) => exists|bytes: Vec<u8>|
                    bytes@ == contents && #[trigger] read_as(json, bytes, result),
            },
    {
        match outside::base64_decode(value.as_str()) {
            None => Err(KeyError::NotBase64),
            Some(bytes) => {
                let result = match json(&bytes) {
                    Some(key) => Ok(key),
                    None => match outside::read_archived_key(bytes.as_slice()) {
                        Some((client_name, key)) => Ok(ClientKey { client_name, key }),
                        None => Err(KeyError::UnknownFormat),
                    },
                };
                assert(read_as(json, bytes, result));
                result
            },
        }
    }
}

/// Whether `result` is what comes of reading `bytes` as a JSON key and, where
/// that gave none, as a binary key.
pub open spec fn read_as<J: Fn(&Vec<u8>) -> Option<ClientKey>>(
    json: J,
    bytes: Vec<u8>,
    result: Result<ClientKey, KeyError>,
) -> bool {
    match result {
        Ok(key) => {
            ||| call_ensures(json, (&bytes,), Some(key))
            ||| call_ensures(json, (&bytes,), None) && outside::archived_key(bytes@) == Some(
                (key.client_name@, key.key@),
            )
        },
        Err(error) => {
            &&& error == KeyError::UnknownFormat
            &&& call_ensures(json, (&bytes,), None)
            &&& outside::archived_key(bytes@) is None
        },
    }
}

/// A fresh client identity: what the server is given, and what the client
/// keeps.
pub struct Keygen {
    public_key: Vec<u8>,
    private_key: ClientKey,
}

impl Keygen {
    /// The public key.
    pub closed spec fn public(&self) -> Seq<u8> {
        self.public_key@
    }

    /// The private key.
    pub closed spec fn private(&self) -> ClientKey {
        self.private_key
    }

    /// Generates an Ed25519 key pair for the client with this name.
    pub fn new(name: String) -> (keygen: Keygen)
        ensures
            keygen.private().client_name == name,
            keygen.private().key@.len() == 32,
            keygen.public() == outside::ed25519_public(keygen.private().key@),
            keygen.public().len() == 32,
            outside::ed25519_valid(keygen.public()),
    {
        Keygen::of_seed(name, outside::ed25519_generate())
    }

    /// The Ed25519 key pair of this seed, for the client with this name.
    pub fn of_seed(name: String, seed: [u8; 32]) -> (keygen: Keygen)
        ensures
            keygen.private().client_name == name,
            keygen.private().key@ == seed@,
            keygen.public() == outside::ed25519_public(seed@),
            keygen.public().len() == 32,
            outside::ed25519_valid(keygen.public()),
    {
        let public_key = outside::ed25519_public_key(&seed);
        Keygen {
            public_key: slice_to_vec(public_key.as_slice()),
            private_key: ClientKey { client_name: name, key: slice_to_vec(seed.as_slice()) },
        }
    }

    /// The public key.
    pub fn public_key(&self) -> (key: &Vec<u8>)
        ensures
            key@ == self.public(),
    {
        &self.public_key
    }

    /// The private key.
    pub fn private_key(&self) -> (key: &ClientKey)
        ensures
            *key == self.private(),
    {
        &self.private_key
    }

    /// The public key as Base64 text.
    pub fn public_key_base64(&self) -> (text: String)
        ensures
            base64_of(self.public(), text@),
    {
        outside::base64_encode(self.public_key.as_slice())
    }

    /// The private key as Base64 text of its JSON form.
    pub fn private_key_base64(&self) -> (text: String)
        ensures
            base64_of(vstd::utf8::encode_utf8(self.private().json()), text@),
    {
        let json = to_json_bytes(&self.private_key);
        outside::base64_encode(json.as_slice())
    }
}

/// Whether a text is the Base64 form of bytes: the one that they are written
/// as, and one that they are read from, with or without whitespace around it.
pub open spec fn base64_of(bytes: Seq<u8>, text: Seq<char>) -> bool {
    &&& text == outside::base64_text(bytes)
    &&& outside::base64_bytes(text) == Some(bytes)
    &&& forall|i: int| 0 <= i < text.len() ==> outside::is_base64_char(#[trigger] text[i])
}

/// A fresh server identity: an X25519 key pair. There is one per server, so
/// both halves are plain Base64 of the 32 bytes, without a name.
pub struct ServerKeygen {
    public_key: [u8; 32],
    private_key: [u8; 32],
}

impl ServerKeygen {
    /// The public key.
    pub closed spec fn public(&self) -> Seq<u8> {
        self.public_key@
    }

    /// The private key.
    pub closed spec fn private(&self) -> Seq<u8> {
        self.private_key@
    }

    /// Generates a key pair.
    pub fn new() -> (keygen: ServerKeygen)
        ensures
            keygen.public() == outside::x25519_public(keygen.private()),
            keygen.public().len() == 32,
            keygen.private().len() == 32,
    {
        ServerKeygen::of_secret(StaticSecret::random())
    }

    /// The key pair of this secret key.
    pub fn of_secret(secret: StaticSecret) -> (keygen: ServerKeygen)
        ensures
            keygen.private() == secret.bytes@,
            keygen.public() == outside::x25519_public(secret.bytes@),
            keygen.public().len() == 32,
    {
        let public_key = secret.public_key();
        ServerKeygen { public_key: public_key.bytes, private_key: secret.bytes }
    }

    /// The public key as Base64 text.
    pub fn public_key_base64(&self) -> (text: String)
        ensures
            base64_of(self.public(), text@),
    {
        outside::base64_encode(self.public_key.as_slice())
    }

    /// The private key as Base64 text.
    pub fn private_key_base64(&self) -> (text: String)
        ensures
            base64_of(self.private(), text@),
    {
        outside::base64_encode(self.private_key.as_slice())
    }
}

impl Default for ServerKeygen {
    fn default() -> (keygen: ServerKeygen)
        ensures
            keygen.public() == outside::x25519_public(keygen.private()),
            keygen.public().len() == 32,
            keygen.private().len() == 32,
    {
        ServerKeygen::new()
    }
}

/// The server's own static X25519 key, loaded once at startup: changing the
/// server's identity takes a restart and new pins on every client anyway.
pub struct ServerStaticKey(StaticSecret);

/// The key that a key file's contents stand for.
pub open spec fn static_key(text: Seq<char>) -> Result<Seq<u8>, KeyError> {
    match outside::base64_bytes(crate::text::trimmed(text)) {
        None => Err(KeyError::NotBase64),
        Some(bytes) => if bytes.len() == 32 {
            Ok(bytes)
        } else {
            Err(KeyError::WrongLength)
        },
    }
}

impl ServerStaticKey {
    /// The bytes of the key.
    pub closed spec fn bytes(&self) -> Seq<u8> {
        self.0.bytes@
    }

    /// Reads the key from Base64 text, with or without whitespace around it.
    pub fn from_base64(value: &str) -> (result: Result<ServerStaticKey, KeyError>)
        ensures
            match result {
                Ok(key) => static_key(value@) == Ok::<Seq<u8>, KeyError>(key.bytes()),
                Err(error) => static_key(value@) == Err::<Seq<u8>, KeyError>(error),
            },
    {
        let text = trim(value);
        match outside::base64_decode(text.as_str()) {
            None => Err(KeyError::NotBase64),
            Some(bytes) => match to_key_bytes(&bytes) {
                Some(bytes) => Ok(ServerStaticKey(StaticSecret { bytes })),
                None => Err(KeyError::WrongLength),
            },
        }
    }

    /// The key as a secret for a key exchange.
    pub fn as_static_secret(&self) -> (secret: &StaticSecret)
        ensures
            secret.bytes@ == self.bytes(),
    {
        &self.0
    }
}

proof fn lemma_base64_is_trimmed(text: Seq<char>)
    requires
        forall|i: int| 0 <= i < text.len() ==> outside::is_base64_char(#[trigger] text[i]),
    ensures
        crate::text::trimmed(text) == text,
{
    crate::text::lemma_trimmed_without_whitespace(text);
}

/// The private key that is written for a server is the one that it reads.
pub proof fn law_server_key_reads_back(private: Seq<u8>, text: Seq<char>)
    requires
        private.len() == 32,
        base64_of(private, text),
    ensures
        static_key(text) == Ok::<Seq<u8>, KeyError>(private),
{
    lemma_base64_is_trimmed(text);
}

/// The key in a client's public key file: 32 bytes in Base64, with or without
/// whitespace around it, that encode an Ed25519 public key.
pub open spec fn verifying_key(text: Seq<char>) -> Option<Seq<u8>> {
    match outside::base64_bytes(crate::text::trimmed(text)) {
        Some(bytes) => if bytes.len() == 32 && outside::ed25519_valid(bytes) {
            Some(bytes)
        } else {
            None
        },
        None => None,
    }
}

/// Reads a client's public key from the contents of its file.
pub fn read_verifying_key(contents: &str) -> (key: Option<[u8; 32]>)
    ensures
        key is Some <==> verifying_key(contents@) is Some,
        key matches Some(k) ==> verifying_key(contents@) == Some(k@),
{
    let text = trim(contents);
    match outside::base64_decode(text.as_str()) {
        None => None,
        Some(bytes) => match to_key_bytes(&bytes) {
            Some(key) => if outside::ed25519_is_valid(&key) {
                Some(key)
            } else {
                None
            },
            None => None,
        },
    }
}

/// The public key that is written for a client is the one that the server
/// reads.
pub proof fn law_client_public_key_reads_back(public: Seq<u8>, text: Seq<char>)
    requires
        public.len() == 32,
        outside::ed25519_valid(public),
        base64_of(public, text),
    ensures
        verifying_key(text) == Some(public),
{
    lemma_base64_is_trimmed(text);
}

/// What a client's private key text holds, once decoded, is the JSON form of
/// its key.
pub proof fn law_client_key_is_base64_json(key: ClientKey, text: Seq<char>)
    requires
        base64_of(vstd::utf8::encode_utf8(key.json()), text),
    ensures
        outside::base64_bytes(text) == Some(vstd::utf8::encode_utf8(key.json())),
        key.json() == "{\"client_name\":"@ + outside::json_quoted(key.client_name@) + ",\"key\":["@
            + crate::json::comma_separated(key.key@) + "]}"@,
{
    reveal_strlit(",\"key\":");
    reveal_strlit(",\"key\":[");
    reveal_strlit("[");
    reveal_strlit("]");
    reveal_strlit("}");
    reveal_strlit("]}");
    assert(",\"key\":["@ =~= ",\"key\":"@ + "["@);
    assert("]}"@ =~= "]"@ + "}"@);
    assert(key.json() =~= "{\"client_name\":"@ + outside::json_quoted(key.client_name@)
        + ",\"key\":["@ + crate::json::comma_separated(key.key@) + "]}"@);
}

/// The private key that is written for a client is the one that the client
/// reads, where the JSON reader reads what was written.
pub proof fn law_client_key_reads_back<J: Fn(&Vec<u8>) -> Option<ClientKey>>(
    json: J,
    key: ClientKey,
    bytes: Vec<u8>,
    result: Result<ClientKey, KeyError>,
)
    requires
        forall|read: Option<ClientKey>|
            #[trigger] call_ensures(json, (&bytes,), read) ==> read == Some(key),
        bytes@ == vstd::utf8::encode_utf8(key.json()),
        read_as(json, bytes, result),
    ensures
        result == Ok::<ClientKey, KeyError>(key),
{
}

/// A key in the old binary form is read, where it is not a JSON key.
pub proof fn law_binary_key_is_still_read<J: Fn(&Vec<u8>) -> Option<ClientKey>>(
    json: J,
    bytes: Vec<u8>,
    name: Seq<char>,
    seed: Seq<u8>,
    result: Result<ClientKey, KeyError>,
)
    requires
        forall|read: Option<ClientKey>|
            #[trigger] call_ensures(json, (&bytes,), read) ==> read is None,
        outside::archived_key(bytes@) == Some((name, seed)),
        read_as(json, bytes, result),
    ensures
        result matches Ok(key) && key.client_name@ == name && key.key@ == seed,
{
}

} // verus!
