use base64::engine::general_purpose::{STANDARD, URL_SAFE_NO_PAD};
use base64::Engine;
use ed25519_dalek::pkcs8::EncodePrivateKey;
use ed25519_dalek::SigningKey;
use jsonwebtoken::{Algorithm, EncodingKey, Header};
use orosu::api::client::{ApiClient, RequestHeaders};
use orosu::api::header_value::HeaderValue;
use orosu::client::Client;
use orosu::cryptography::{Claims, ClientKey, KeyError, Keygen, ServerKeygen, ServerStaticKey};
use orosu::server::auth_scope::{ClaimedClient, PresentedToken, RequestHead};
use orosu::server::{AuthContext, AuthScope, ServerState, StatusCode};
use serde_json::Value;

fn client(name: &str) -> Client {
    Client {
        name: name.to_string(),
        secret_file: format!("{name}.pub"),
        whitelisted_ips: None,
        blacklisted_ips: None,
        scripts: vec![],
    }
}

fn state(encrypted: bool) -> ServerState {
    let keygen = ServerKeygen::new();
    ServerState {
        clients: vec![client("other"), client("test-client"), client("test-client")],
        encryption_key: if encrypted {
            ServerStaticKey::from_base64(&keygen.private_key_base64()).ok()
        } else {
            None
        },
    }
}

fn header(text: &str) -> Option<HeaderValue> {
    HeaderValue::from_bytes(text.as_bytes())
}

fn head(authorization: Option<&str>, user_agent: Option<&str>, version: Option<&str>) -> RequestHead {
    RequestHead {
        scope: Some(AuthScope::Worker),
        user_agent: user_agent.and_then(header),
        protocol_version: version.and_then(header),
        authorization: authorization.and_then(header),
    }
}

fn rejection(head: &RequestHead, encrypted: bool) -> StatusCode {
    match PresentedToken::of_request(head, &state(encrypted)) {
        Ok(_) => panic!("accepted"),
        Err(status) => status,
    }
}

fn presented(head: &RequestHead, encrypted: bool) -> (String, u32) {
    match PresentedToken::of_request(head, &state(encrypted)) {
        Ok(presented) => (presented.token, presented.protocol_version),
        Err(status) => panic!("{status:?}"),
    }
}

fn now() -> usize {
    std::time::SystemTime::now()
        .duration_since(std::time::UNIX_EPOCH)
        .unwrap()
        .as_secs() as usize
}

fn sign_jwt(client_name: &str, seed: &[u8], exp: usize) -> String {
    let seed: [u8; 32] = seed.try_into().unwrap();
    let document = SigningKey::from_bytes(&seed).to_pkcs8_der().unwrap();
    let key = EncodingKey::from_ed_der(document.as_bytes());
    let claims: Value =
        serde_json::from_str(&format!("{{\"sub\":\"{client_name}\",\"exp\":{exp}}}")).unwrap();
    jsonwebtoken::encode(&Header::new(Algorithm::EdDSA), &claims, &key).unwrap()
}

/// Reads a token's claims without verifying anything.
fn claims_of(token: &str) -> Option<Claims> {
    let value = jsonwebtoken::dangerous::insecure_decode::<Value>(token).ok()?.claims;
    Some(Claims {
        sub: value.get("sub")?.as_str()?.to_string(),
        exp: usize::try_from(value.get("exp")?.as_u64()?).ok()?,
    })
}

/// Takes a token all the way, with the public key of `registered` on file.
fn authenticate(token: &str, registered: &Keygen) -> Result<AuthContext, StatusCode> {
    let state = state(false);
    let head = head(Some(&format!("Token {token}")), Some("Orosu/x"), Some("1"));
    PresentedToken::of_request(&head, &state)?
        .read_claims(|token: &String| claims_of(token))?
        .at_time(Some(now()), &state)?
        .authenticate(Some(format!("{}\n", registered.public_key_base64())), &state)
}

#[test]
fn a_token_signed_with_the_registered_key_is_let_in() {
    let keygen = Keygen::new("test-client".to_string());
    let token = sign_jwt("test-client", &keygen.private_key().key, now() + 10);
    match authenticate(&token, &keygen) {
        Ok(AuthContext::Worker(worker)) => {
            assert_eq!(worker.client.name, "test-client");
            assert_eq!(worker.client.secret_file, "test-client.pub");
            assert_eq!(worker.protocol_version, 1);
        }
        Err(status) => panic!("{status:?}"),
    }
}

#[test]
fn a_client_key_written_in_the_old_rkyv_format_still_authenticates_end_to_end() {
    let keygen = Keygen::new("test-client".to_string());
    let private_key = keygen.private_key();
    let fields = (private_key.client_name.clone(), private_key.key.clone());
    let old_format_bytes = rkyv::to_bytes::<rkyv::rancor::Error>(&fields).unwrap();
    let old_format_key_base64 = STANDARD.encode(old_format_bytes);
    let client_key = match ClientKey::from_string(old_format_key_base64, |_: &Vec<u8>| None) {
        Ok(key) => key,
        Err(error) => panic!("{error:?}"),
    };
    let token = sign_jwt(&client_key.client_name, &client_key.key, now() + 10);
    assert!(authenticate(&token, &keygen).is_ok());
}

#[test]
fn rejects_a_jwt_for_an_unregistered_client_name() {
    let keygen = Keygen::new("test-client".to_string());
    let token = sign_jwt(
        "nobody-registered-with-this-name",
        &keygen.private_key().key,
        now() + 10,
    );
    assert!(matches!(authenticate(&token, &keygen), Err(StatusCode::Unauthorized)));
}

#[test]
fn rejects_a_signature_that_does_not_match_the_registered_public_key() {
    let real = Keygen::new("test-client".to_string());
    let impostor = Keygen::new("test-client".to_string());
    let token = sign_jwt("test-client", &impostor.private_key().key, now() + 10);
    assert!(matches!(authenticate(&token, &real), Err(StatusCode::Unauthorized)));
}

#[test]
fn a_replaced_key_counts_no_more_and_the_new_one_at_once() {
    let old = Keygen::new("test-client".to_string());
    let new = Keygen::new("test-client".to_string());
    let old_token = sign_jwt("test-client", &old.private_key().key, now() + 10);
    let new_token = sign_jwt("test-client", &new.private_key().key, now() + 10);
    assert!(authenticate(&old_token, &old).is_ok());
    assert!(matches!(authenticate(&old_token, &new), Err(StatusCode::Unauthorized)));
    assert!(authenticate(&new_token, &new).is_ok());
}

#[test]
fn rejects_an_expired_token() {
    let keygen = Keygen::new("test-client".to_string());
    let token = sign_jwt("test-client", &keygen.private_key().key, now() - 100);
    assert!(matches!(authenticate(&token, &keygen), Err(StatusCode::Unauthorized)));
}

#[test]
fn rejects_a_missing_authorization_header() {
    let head = head(None, Some("Orosu/x"), Some("1"));
    assert_eq!(rejection(&head, false), StatusCode::Unauthorized);
}

#[test]
fn rejects_a_missing_user_agent_header() {
    let head = head(Some("Token t"), None, Some("1"));
    assert_eq!(rejection(&head, false), StatusCode::Unauthorized);
}

#[test]
fn rejects_a_user_agent_with_the_wrong_product_name() {
    let head = head(Some("Token t"), Some("curl/8.0.0"), Some("1"));
    assert_eq!(rejection(&head, false), StatusCode::Unauthorized);
}

#[test]
fn treats_a_missing_protocol_version_header_as_version_zero_and_accepts_it() {
    let head = head(Some("Token t"), Some("Orosu/x"), None);
    assert_eq!(presented(&head, false), ("t".to_string(), 0));
}

#[test]
fn rejects_a_protocol_version_that_is_not_supported_by_the_server() {
    let unsupported = head(Some("Token t"), Some("Orosu/x"), Some("2"));
    assert_eq!(rejection(&unsupported, false), StatusCode::BadRequest);
    assert_eq!(presented(&unsupported, true), ("t".to_string(), 2));
    let unknown = head(Some("Token t"), Some("Orosu/x"), Some("3"));
    assert_eq!(rejection(&unknown, true), StatusCode::BadRequest);
    let malformed = head(Some("Token t"), Some("Orosu/x"), Some("one"));
    assert_eq!(rejection(&malformed, true), StatusCode::BadRequest);
}

#[test]
fn encrypted_connection_rejects_when_server_has_no_key_configured() {
    let head = head(Some("Token t"), Some("Orosu/x"), Some("2"));
    assert_eq!(rejection(&head, false), StatusCode::BadRequest);
}

#[test]
fn the_version_is_checked_before_the_credentials() {
    assert_eq!(
        rejection(&head(None, Some("Orosu/x"), Some("9")), false),
        StatusCode::BadRequest
    );
    assert_eq!(
        rejection(&head(None, Some("nobody"), Some("9")), false),
        StatusCode::Unauthorized
    );
    let mut scopeless = head(Some("Token t"), Some("Orosu/x"), Some("9"));
    scopeless.scope = None;
    assert_eq!(rejection(&scopeless, false), StatusCode::Unauthorized);
}

#[test]
fn tokens_follow_their_kind_and_one_space() {
    for (authorization, token) in [
        ("Token abc", Some("abc")),
        ("Token ", Some("")),
        ("Token  a b", Some(" a b")),
        ("Token", None),
        ("token abc", None),
        ("Bearer abc", None),
        (" Token abc", None),
        ("Tokens abc", None),
        ("", None),
    ] {
        let head = head(Some(authorization), Some("Orosu/x"), Some("1"));
        match token {
            Some(token) => assert_eq!(presented(&head, false).0, token, "{authorization:?}"),
            None => assert_eq!(
                rejection(&head, false),
                StatusCode::Unauthorized,
                "{authorization:?}"
            ),
        }
    }
}

fn at_time(exp: usize, sub: &str, now: Option<usize>) -> Result<ClaimedClient, StatusCode> {
    let token = PresentedToken {
        token: "t".to_string(),
        protocol_version: 1,
    };
    token
        .with_claims(Some(Claims {
            sub: sub.to_string(),
            exp,
        }))?
        .at_time(now, &state(false))
}

#[test]
fn claims_are_held_against_the_clock_and_the_clients() {
    assert!(matches!(at_time(100, "test-client", Some(100)), Ok(claimed) if claimed.client == 1));
    assert!(matches!(
        at_time(99, "test-client", Some(100)),
        Err(StatusCode::Unauthorized)
    ));
    assert!(matches!(
        at_time(100, "nobody", Some(100)),
        Err(StatusCode::Unauthorized)
    ));
    assert!(matches!(
        at_time(100, "test-client", None),
        Err(StatusCode::InternalServerError)
    ));
    let token = PresentedToken {
        token: "t".to_string(),
        protocol_version: 1,
    };
    assert!(matches!(token.with_claims(None), Err(StatusCode::Unauthorized)));
}

#[test]
fn without_a_key_on_file_nobody_is_let_in() {
    let state = state(false);
    let claimed = || ClaimedClient {
        token: "t".to_string(),
        protocol_version: 1,
        client: 1,
    };
    for contents in [None, Some("????".to_string()), Some("AAAA".to_string())] {
        assert!(matches!(
            claimed().authenticate(contents, &state),
            Err(StatusCode::Unauthorized)
        ));
    }
    assert!(claimed().conclude(true, &state).is_ok());
    assert!(matches!(
        claimed().conclude(false, &state),
        Err(StatusCode::Unauthorized)
    ));
}

#[test]
fn a_client_logs_in_with_a_token_that_the_server_takes() {
    let keygen = Keygen::new("test-client".to_string());
    let start = now();
    let headers = match ApiClient::connect(keygen.private_key().clone(), start) {
        Ok(headers) => headers,
        Err(error) => panic!("{error:?}"),
    };
    assert_eq!(headers.user_agent.to_str().unwrap(), "Orosu/0.7.0");
    let authorization = headers.authorization.to_str().unwrap();
    let token = authorization.strip_prefix("Token ").unwrap().to_string();
    let payload = token.split('.').nth(1).unwrap();
    assert_eq!(
        String::from_utf8(URL_SAFE_NO_PAD.decode(payload).unwrap()).unwrap(),
        format!("{{\"sub\":\"test-client\",\"exp\":{}}}", start + 10)
    );
    let claims = claims_of(&token).unwrap();
    assert_eq!(claims.sub, "test-client");
    assert_eq!(claims.exp, start + 10);
    let head = RequestHead {
        scope: Some(AuthScope::Worker),
        user_agent: Some(headers.user_agent),
        protocol_version: Some(headers.protocol_version),
        authorization: Some(headers.authorization),
    };
    assert_eq!(presented(&head, false), (token.clone(), 1));
    assert!(authenticate(&token, &keygen).is_ok());
    let other = Keygen::new("test-client".to_string());
    assert!(matches!(authenticate(&token, &other), Err(StatusCode::Unauthorized)));
    assert!(RequestHeaders::with_token("line\nbreak").is_none());
    assert!(RequestHeaders::with_token(&token).is_some());
}

#[test]
fn a_login_takes_a_whole_seed() {
    let key = ClientKey {
        client_name: "test-client".to_string(),
        key: vec![1; 31],
    };
    assert!(matches!(ApiClient::connect(key, 0), Err(KeyError::WrongLength)));
}
