//! Authentication of a request, in the order in which things are checked.
//!
//! Each stage takes what the application found out (what a token claims, what
//! time it is, what a key file holds) and hands over to the next one, or turns
//! the request away.

use crate::api::header_value::HeaderValue;
use crate::api::protocol_version::supported_protocol_versions;
use crate::api::{ProtocolVersionHeader, UserAgentHeader};
use crate::client::find_client;
use crate::cryptography::{read_verifying_key, Claims};
use crate::outside;
use crate::server::{AuthContext, AuthScope, ServerState, StatusCode, WorkerAuthContext};
use crate::text::{chars_of, find_char, same_text};
use vstd::prelude::*;
use vstd::string::*;

verus! {

/// What a request says of itself, as far as authentication asks.
pub struct RequestHead {
    pub scope: Option<AuthScope>,
    pub user_agent: Option<HeaderValue>,
    pub protocol_version: Option<HeaderValue>,
    pub authorization: Option<HeaderValue>,
}

/// Whether a header names a client implementation of this product.
pub open spec fn is_our_user_agent(value: Seq<u8>) -> bool {
    crate::api::header_value::header_text(value) matches Some(text) && exists|version: Seq<char>|
        crate::api::user_agent_header::names_version(text, version)
}

/// The protocol version of a request: that of its header, or 0 where it has
/// none; nothing where the header has no version.
pub open spec fn requested_version(header: Option<HeaderValue>) -> Option<u32> {
    match header {
        None => Some(0u32),
        Some(value) => crate::api::protocol_version::declared_version(value@),
    }
}

/// The token of an `Authorization` header: what follows `Token` and a space.
pub open spec fn token_of(value: Seq<u8>) -> Option<Seq<char>> {
    match crate::api::header_value::header_text(value) {
        Some(text) => if text.len() >= 6 && text.subrange(0, 6) == "Token "@ {
            Some(text.subrange(6, text.len() as int))
        } else {
            None
        },
        None => None,
    }
}

/// The token and the protocol version that a request presents, or the status
/// that it is turned away with. A version that the server does not speak is
/// another problem than a credential that it does not take, and has another
/// status.
pub open spec fn presented(head: RequestHead, encryption_configured: bool) -> Result<
    (Seq<char>, u32),
    StatusCode,
> {
    if head.scope is None {
        Err(StatusCode::Unauthorized)
    } else if !(head.user_agent matches Some(value) && is_our_user_agent(value@)) {
        Err(StatusCode::Unauthorized)
    } else {
        match requested_version(head.protocol_version) {
            None => Err(StatusCode::BadRequest),
            Some(version) => if !crate::api::protocol_version::supported_versions(
                encryption_configured,
            ).contains(version) {
                Err(StatusCode::BadRequest)
            } else {
                match head.authorization {
                    None => Err(StatusCode::Unauthorized),
                    Some(value) => match token_of(value@) {
                        Some(token) => Ok((token, version)),
                        None => Err(StatusCode::Unauthorized),
                    },
                }
            },
        }
    }
}

/// A request with a token, whose claims are to be read.
pub struct PresentedToken {
    pub token: String,
    pub protocol_version: u32,
}

/// A request with a token's claims, to be held against the clock and the
/// clients.
pub struct ClaimedIdentity {
    pub token: String,
    pub protocol_version: u32,
    pub claims: Claims,
}

/// A request with a token that claims to come from the client at this place
/// in the server's list, to be verified with that client's public key.
pub struct ClaimedClient {
    pub token: String,
    pub protocol_version: u32,
    pub client: usize,
}

fn read_token(value: &HeaderValue) -> (token: Option<String>)
    ensures
        token is Some <==> token_of(value@) is Some,
        token matches Some(t) ==> token_of(value@) == Some(t@),
{
    let text = match value.to_str() {
        Some(text) => text,
        None => {
            return None;
        },
    };
    let chars = chars_of(text.as_str());
    let length: usize = chars.len();
    proof {
        reveal_strlit("Token");
        reveal_strlit("Token ");
        if token_of(value@) is Some {
            assert(text@[5] == text@.subrange(0, 6)[5]);
            assert forall|i: int| 0 <= i < 5 implies text@[i] != ' ' by {
                assert(text@[i] == text@.subrange(0, 6)[i]);
            }
        }
    }
    let space: usize = match find_char(&chars, ' ') {
        Some(at) => at,
        None => {
            return None;
        },
    };
    let kind = text.as_str().substring_char(0, space);
    if !same_text(kind, "Token") {
        proof {
            if token_of(value@) is Some {
                assert(space == 5);
                assert(kind@ =~= "Token"@) by {
                    assert forall|i: int| 0 <= i < 5 implies kind@[i] == "Token"@[i] by {
                        assert(text@[i] == text@.subrange(0, 6)[i]);
                    }
                }
            }
        }
        return None;
    }
    assert(kind@.len() == space);
    assert("Token"@.len() == 5);
    assert(text@.subrange(0, 6) =~= "Token "@) by {
        assert forall|i: int| 0 <= i < 5 implies text@.subrange(0, 6)[i] == "Token "@[i] by {
            assert(kind@[i] == text@[i]);
        }
    }
    Some(text.as_str().substring_char(space + 1, length).to_owned())
}

fn is_supported(versions: &Vec<u32>, version: u32) -> (supported: bool)
    ensures
        supported == versions@.contains(version),
{
    let mut i: usize = 0;
    while i < versions.len()
        invariant
            i <= versions.len(),
            forall|j: int| 0 <= j < i ==> versions@[j] != version,
        decreases versions.len() - i,
    {
        if versions[i] == version {
            return true;
        }
        i = i + 1;
    }
    false
}

impl PresentedToken {
    /// Checks the head of a request: its scope, that it comes from a client of
    /// this product, that the server speaks its protocol version, and that it
    /// has a token.
    pub fn of_request(head: &RequestHead, state: &ServerState) -> (result: Result<
        PresentedToken,
        StatusCode,
    >)
        ensures
            match result {
                Ok(next) => presented(*head, state.encryption_key is Some) == Ok::<
                    (Seq<char>, u32),
                    StatusCode,
                >((next.token@, next.protocol_version)),
                Err(status) => presented(*head, state.encryption_key is Some) == Err::<
                    (Seq<char>, u32),
                    StatusCode,
                >(status),
            },
    {
        if head.scope.is_none() {
            return Err(StatusCode::Unauthorized);
        }
        match &head.user_agent {
            Some(value) => match UserAgentHeader::try_from(value) {
                Ok(header) => {
                    assert(is_our_user_agent(value@));
                },
                Err(_) => {
                    return Err(StatusCode::Unauthorized);
                },
            },
            None => {
                return Err(StatusCode::Unauthorized);
            },
        }
        let protocol_version: u32 = match &head.protocol_version {
            None => 0,
            Some(value) => match ProtocolVersionHeader::try_from(value) {
                Ok(header) => header.version,
                Err(_) => {
                    return Err(StatusCode::BadRequest);
                },
            },
        };
        let versions = supported_protocol_versions(state.encryption_key.is_some());
        if !is_supported(&versions, protocol_version) {
            return Err(StatusCode::BadRequest);
        }
        match &head.authorization {
            None => Err(StatusCode::Unauthorized),
            Some(value) => match read_token(value) {
                Some(token) => Ok(PresentedToken { token, protocol_version }),
                None => Err(StatusCode::Unauthorized),
            },
        }
    }

    /// Reads what the token claims with this reader, without any verification
    /// yet. A token that it cannot read is turned away.
    pub fn read_claims<R: Fn(&String) -> Option<Claims>>(self, reader: R) -> (result: Result<
        ClaimedIdentity,
        StatusCode,
    >)
        requires
            call_requires(reader, (&self.token,)),
        ensures
            match result {
                Ok(identity) => {
                    &&& call_ensures(reader, (&self.token,), Some(identity.claims))
                    &&& identity.token == self.token
                    &&& identity.protocol_version == self.protocol_version
                },
                Err(status) => {
                    &&& call_ensures(reader, (&self.token,), None)
                    &&& status == StatusCode::Unauthorized
                },
            },
    {
        let claims = reader(&self.token);
        self.with_claims(claims)
    }

    /// Takes what the token claims, without any verification yet; nothing
    /// where it cannot be read.
    pub fn with_claims(self, claims: Option<Claims>) -> (result: Result<ClaimedIdentity, StatusCode>)
        ensures
            match claims {
                Some(claims) => result == Ok::<ClaimedIdentity, StatusCode>(
                    ClaimedIdentity {
                        token: self.token,
                        protocol_version: self.protocol_version,
                        claims,
                    },
                ),
                None => result == Err::<ClaimedIdentity, StatusCode>(StatusCode::Unauthorized),
            },
    {
        match claims {
            Some(claims) => Ok(
                ClaimedIdentity {
                    token: self.token,
                    protocol_version: self.protocol_version,
                    claims,
                },
            ),
            None => Err(StatusCode::Unauthorized),
        }
    }
}

/// Where in the list the client is that a token claims to be from, at this
/// time; or the status that the request is turned away with.
pub open spec fn claimed_client(
    clients: Seq<crate::client::Client>,
    claims: Claims,
    now: Option<usize>,
    outcome: Result<int, StatusCode>,
) -> bool {
    match now {
        None => outcome == Err::<int, StatusCode>(StatusCode::InternalServerError),
        Some(now) => if claims.exp < now {
            outcome == Err::<int, StatusCode>(StatusCode::Unauthorized)
        } else {
            match outcome {
                Ok(at) => crate::client::first_client_named(clients, claims.sub@, at),
                Err(status) => {
                    &&& status == StatusCode::Unauthorized
                    &&& forall|i: int|
                        0 <= i < clients.len() ==> (#[trigger] clients[i]).name@ != claims.sub@
                },
            }
        },
    }
}

impl ClaimedIdentity {
    /// Holds the claims against the time, in seconds since the Unix epoch (or
    /// nothing where the clock cannot be read), and against the clients.
    pub fn at_time(self, now: Option<usize>, state: &ServerState) -> (result: Result<
        ClaimedClient,
        StatusCode,
    >)
        ensures
            match result {
                Ok(next) => {
                    &&& claimed_client(
                        state.clients@,
                        self.claims,
                        now,
                        Ok::<int, StatusCode>(next.client as int),
                    )
                    &&& next.client < state.clients@.len()
                    &&& next.token == self.token
                    &&& next.protocol_version == self.protocol_version
                },
                Err(status) => claimed_client(
                    state.clients@,
                    self.claims,
                    now,
                    Err::<int, StatusCode>(status),
                ),
            },
    {
        match now {
            None => Err(StatusCode::InternalServerError),
            Some(now) => {
                if self.claims.exp < now {
                    return Err(StatusCode::Unauthorized);
                }
                match find_client(&state.clients, &self.claims.sub) {
                    Some(client) => Ok(
                        ClaimedClient {
                            token: self.token,
                            protocol_version: self.protocol_version,
                            client,
                        },
                    ),
                    None => Err(StatusCode::Unauthorized),
                }
            },
        }
    }
}

/// Whether `context` is the client at a place in the list, with the protocol
/// version of its request.
pub open spec fn context_of(
    context: AuthContext,
    clients: Seq<crate::client::Client>,
    client: int,
    protocol_version: u32,
) -> bool {
    match context {
        AuthContext::Worker(worker) => {
            &&& worker.client@ == clients[client]@
            &&& worker.protocol_version == protocol_version
        },
    }
}

/// Whether a token is signed with the key that a key file's contents stand
/// for.
pub open spec fn is_signed_for(token: Seq<char>, key_file: Seq<char>) -> bool {
    crate::cryptography::verifying_key(key_file) matches Some(key) && outside::token_signed(
        token,
        key,
    )
}

/// Whether `result` is what follows from whether the token verified: the client
/// is let in if it did, and turned away if it did not.
pub open spec fn concluded(
    claimed: ClaimedClient,
    clients: Seq<crate::client::Client>,
    verified: bool,
    result: Result<AuthContext, StatusCode>,
) -> bool {
    match result {
        Ok(context) => verified && context_of(
            context,
            clients,
            claimed.client as int,
            claimed.protocol_version,
        ),
        Err(status) => !verified && status == StatusCode::Unauthorized,
    }
}

/// Whether the verifier can have given this answer on a token and a public key.
pub closed spec fn verifier_said(token: Seq<char>, public_key: Seq<u8>, answer: bool) -> bool {
    exists|text: &str, key: &[u8; 32]|
        {
            &&& #[trigger] call_ensures(outside::token_verifies, (text, key), answer)
            &&& text@ == token
            &&& key@ == public_key
        }
}

/// Hands a token and a public key to a verifier, and gives its answer.
fn ask<V: Fn(&str, &[u8; 32]) -> bool>(verifier: V, token: &str, public_key: &[u8; 32]) -> (answer:
    bool)
    requires
        call_requires(verifier, (token, public_key)),
    ensures
        call_ensures(verifier, (token, public_key), answer),
{
    verifier(token, public_key)
}

/// Whether `result` can be what an attempt comes to while the client's key file
/// has these contents: what follows from the verifier's answer on the token and
/// the key in the file, or from the lack of such a key. The verifier accepts no
/// token that is not signed for the key.
pub open spec fn attempted(
    claimed: ClaimedClient,
    clients: Seq<crate::client::Client>,
    key_file: Option<String>,
    result: Result<AuthContext, StatusCode>,
) -> bool {
    exists|verified: bool|
        {
            &&& #[trigger] concluded(claimed, clients, verified, result)
            &&& verified ==> (key_file matches Some(contents) && is_signed_for(
                claimed.token@,
                contents@,
            ))
            &&& match key_on_file(key_file) {
                Some(key) => verifier_said(claimed.token@, key, verified),
                None => !verified,
            }
        }
}

/// The public key that a key file holds, where it could be read and holds one.
pub open spec fn key_on_file(key_file: Option<String>) -> Option<Seq<u8>> {
    match key_file {
        Some(contents) => crate::cryptography::verifying_key(contents@),
        None => None,
    }
}

impl ClaimedClient {
    /// Whether the token is this client's, given the contents of the client's
    /// public key file, or nothing where it cannot be read. The file must hold
    /// a public key, and the token must be signed with it; whether a signed
    /// token is accepted also depends on the time, and `conclude` says what
    /// follows from either answer.
    pub fn authenticate(self, key_file: Option<String>, state: &ServerState) -> (result: Result<
        AuthContext,
        StatusCode,
    >)
        requires
            self.client < state.clients@.len(),
        ensures
            attempted(self, state.clients@, key_file, result),
    {
        let verified = match &key_file {
            Some(contents) => match read_verifying_key(contents.as_str()) {
                Some(public_key) => {
                    let token = self.token.as_str();
                    let answer = ask(outside::token_verifies, token, &public_key);
                    assert(call_ensures(outside::token_verifies, (token, &public_key), answer));
                    answer
                },
                None => false,
            },
            None => false,
        };
        let ghost claimed = self;
        let result = self.conclude(verified, state);
        assert(concluded(claimed, state.clients@, verified, result));
        result
    }

    /// Lets the client in if its token verified.
    pub fn conclude(self, verified: bool, state: &ServerState) -> (result: Result<
        AuthContext,
        StatusCode,
    >)
        requires
            self.client < state.clients@.len(),
        ensures
            concluded(self, state.clients@, verified, result),
    {
        if !verified {
            return Err(StatusCode::Unauthorized);
        }
        Ok(
            AuthContext::Worker(
                WorkerAuthContext {
                    client: state.clients[self.client].clone(),
                    protocol_version: self.protocol_version,
                },
            ),
        )
    }
}

/// Where a client's key file holds a public key, the verifier decides: the
/// client is let in, as itself and with the version of its request, exactly if
/// the verifier accepted its token under that key; and a client that is turned
/// away was refused by the verifier. Without a key on file nobody is let in.
pub proof fn law_the_verifier_decides(
    claimed: ClaimedClient,
    clients: Seq<crate::client::Client>,
    key_file: Option<String>,
    result: Result<AuthContext, StatusCode>,
)
    requires
        attempted(claimed, clients, key_file, result),
    ensures
        match result {
            Ok(AuthContext::Worker(worker)) => {
                &&& key_file matches Some(contents)
                &&& crate::cryptography::verifying_key(contents@) matches Some(key)
                &&& verifier_said(claimed.token@, key, true)
                &&& outside::token_signed(claimed.token@, key)
                &&& worker.client@ == clients[claimed.client as int]@
                &&& worker.protocol_version == claimed.protocol_version
            },
            Err(status) => {
                &&& status == StatusCode::Unauthorized
                &&& key_file matches Some(contents) ==> (crate::cryptography::verifying_key(
                    contents@,
                ) matches Some(key) ==> verifier_said(claimed.token@, key, false))
            },
        },
{
}

/// What the verifier said is what the call of it returned; and it says yes only
/// to a token that is signed with the key.
pub(crate) proof fn law_verifier_answers_are_its_own(token: Seq<char>, public_key: Seq<u8>, answer: bool)
    requires
        verifier_said(token, public_key, answer),
    ensures
        exists|text: &str, key: &[u8; 32]|
            {
                &&& #[trigger] call_ensures(outside::token_verifies, (text, key), answer)
                &&& text@ == token
                &&& key@ == public_key
            },
        answer ==> outside::token_signed(token, public_key),
{
}

/// A client whose token the verifier accepts, and never refuses, under the key
/// on file is let in, whoever it is and wherever it stands in the list.
pub proof fn law_accepted_tokens_are_let_in(
    claimed: ClaimedClient,
    clients: Seq<crate::client::Client>,
    key_file: String,
    key: Seq<u8>,
    result: Result<AuthContext, StatusCode>,
)
    requires
        attempted(claimed, clients, Some(key_file), result),
        crate::cryptography::verifying_key(key_file@) == Some(key),
        !verifier_said(claimed.token@, key, false),
    ensures
        result matches Ok(AuthContext::Worker(worker)) && worker.client@
            == clients[claimed.client as int]@ && worker.protocol_version
            == claimed.protocol_version,
{
}

/// A key that was replaced counts no more, and the new one counts at once: an
/// attempt with a token that is not signed for what the key file holds now is
/// turned away, whatever an earlier attempt with it came to; and one whose token
/// the verifier accepts under what the key file holds now is let in.
pub proof fn law_replaced_key_counts_no_more(
    clients: Seq<crate::client::Client>,
    old: ClaimedClient,
    earlier_file: Option<String>,
    earlier: Result<AuthContext, StatusCode>,
    current_file: Option<String>,
    again: Result<AuthContext, StatusCode>,
    new: ClaimedClient,
    renewed: Result<AuthContext, StatusCode>,
)
    requires
        attempted(old, clients, earlier_file, earlier),
        attempted(old, clients, current_file, again),
        !(current_file matches Some(contents) && is_signed_for(old.token@, contents@)),
        concluded(new, clients, true, renewed),
    ensures
        again == Err::<AuthContext, StatusCode>(StatusCode::Unauthorized),
        renewed matches Ok(context) && context_of(
            context,
            clients,
            new.client as int,
            new.protocol_version,
        ),
{
}

/// A request is let in only with a protocol version that the server speaks;
/// so with the encrypted one only where the server has an encryption key.
pub proof fn law_presented_version_is_supported(
    head: RequestHead,
    encryption_configured: bool,
    token: Seq<char>,
    version: u32,
)
    requires
        presented(head, encryption_configured) == Ok::<(Seq<char>, u32), StatusCode>(
            (token, version),
        ),
    ensures
        crate::api::protocol_version::supported_versions(encryption_configured).contains(version),
        version == crate::api::protocol_version::PROTOCOL_VERSION_ENCRYPTED_V2
            ==> encryption_configured,
{
    crate::api::protocol_version::law_encryption_only_adds_a_version(version);
}

/// A request without a version header is taken as one of version 0, and goes
/// on to have its credentials checked.
pub proof fn law_missing_version_is_version_zero(
    head: RequestHead,
    encryption_configured: bool,
    token: Seq<char>,
)
    requires
        head.scope is Some,
        head.user_agent matches Some(value) && is_our_user_agent(value@),
        head.protocol_version is None,
        head.authorization matches Some(value) && token_of(value@) == Some(token),
    ensures
        presented(head, encryption_configured) == Ok::<(Seq<char>, u32), StatusCode>((token, 0u32)),
{
    let versions = crate::api::protocol_version::supported_versions(encryption_configured);
    assert(versions[0] == 0);
}

/// A client that is let in has presented a token whose claims, as the reader
/// read them from that very token, name it and had not expired; the token is
/// signed with the key that is on file for it; and it comes with a protocol
/// version that the server speaks: each stage hands on what the one before it
/// found.
pub proof fn law_whoever_is_let_in_is_known<R: Fn(&String) -> Option<Claims>>(
    reader: R,
    head: RequestHead,
    state: ServerState,
    presented_token: PresentedToken,
    identity: ClaimedIdentity,
    now: Option<usize>,
    claimed: ClaimedClient,
    key_file: Option<String>,
    context: AuthContext,
)
    requires
        presented(head, state.encryption_key is Some) == Ok::<(Seq<char>, u32), StatusCode>(
            (presented_token.token@, presented_token.protocol_version),
        ),
        call_ensures(reader, (&presented_token.token,), Some(identity.claims)),
        identity.token == presented_token.token,
        identity.protocol_version == presented_token.protocol_version,
        claimed_client(
            state.clients@,
            identity.claims,
            now,
            Ok::<int, StatusCode>(claimed.client as int),
        ),
        claimed.token == identity.token,
        claimed.protocol_version == identity.protocol_version,
        attempted(claimed, state.clients@, key_file, Ok(context)),
    ensures
        key_file matches Some(contents) && is_signed_for(presented_token.token@, contents@),
        context matches AuthContext::Worker(worker) && {
            &&& exists|claims: Claims| #[trigger]
                call_ensures(reader, (&presented_token.token,), Some(claims))
                    && worker.client@.name == claims.sub@ && (now matches Some(now) && claims.exp
                    >= now)
            &&& crate::api::protocol_version::supported_versions(
                state.encryption_key is Some,
            ).contains(worker.protocol_version)
            &&& worker.protocol_version
                == crate::api::protocol_version::PROTOCOL_VERSION_ENCRYPTED_V2
                ==> state.encryption_key is Some
        },
{
    law_presented_version_is_supported(
        head,
        state.encryption_key is Some,
        presented_token.token@,
        presented_token.protocol_version,
    );
}

} // verus!
