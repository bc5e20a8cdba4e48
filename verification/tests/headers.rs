use orosu::api::header_value::HeaderValue;
use orosu::api::protocol_version::{
    supported_protocol_versions, PROTOCOL_VERSION, PROTOCOL_VERSION_ENCRYPTED_V2,
    PROTOCOL_VERSION_HEADER_NAME,
};
use orosu::api::{ProtocolVersionHeader, UserAgentHeader};

fn header(text: &str) -> HeaderValue {
    HeaderValue::from_bytes(text.as_bytes()).unwrap()
}

#[test]
fn default_uses_the_crate_protocol_version() {
    let header = ProtocolVersionHeader::default();
    assert_eq!(header.version, PROTOCOL_VERSION);
}

#[test]
fn supported_protocol_versions_without_encryption_matches_todays_set_exactly() {
    assert_eq!(
        supported_protocol_versions(false),
        vec![0, PROTOCOL_VERSION]
    );
}

#[test]
fn supported_protocol_versions_with_encryption_additionally_includes_the_encrypted_version() {
    let versions = supported_protocol_versions(true);
    assert!(versions.contains(&0));
    assert!(versions.contains(&PROTOCOL_VERSION));
    assert!(versions.contains(&PROTOCOL_VERSION_ENCRYPTED_V2));
}

#[test]
fn header_value_conversion_formats_as_a_bare_integer() {
    let header = ProtocolVersionHeader { version: 7 };
    let header_value: HeaderValue = header.into();
    assert_eq!(header_value.to_str().unwrap(), "7");
}

#[test]
fn protocol_version_valid_header_parses_the_version() {
    let header_value = header("3");
    let header = ProtocolVersionHeader::try_from(&header_value).unwrap_or_else(|_| panic!("3"));
    assert_eq!(header.version, 3);
}

#[test]
fn protocol_version_round_trips_through_header_value() {
    let original = ProtocolVersionHeader { version: 42 };
    let header_value: HeaderValue = original.into();
    let parsed = ProtocolVersionHeader::try_from(&header_value).unwrap_or_else(|_| panic!("42"));
    assert_eq!(parsed.version, 42);
}

#[test]
fn rejects_a_non_numeric_value() {
    let header_value = header("not-a-number");
    assert!(ProtocolVersionHeader::try_from(&header_value).is_err());
}

#[test]
fn rejects_a_negative_number() {
    let header_value = header("-1");
    assert!(ProtocolVersionHeader::try_from(&header_value).is_err());
}

#[test]
fn rejects_a_decimal_value() {
    let header_value = header("1.5");
    assert!(ProtocolVersionHeader::try_from(&header_value).is_err());
}

#[test]
fn rejects_a_value_that_is_not_valid_ascii() {
    let header_value = HeaderValue::from_bytes(b"\xff\xfe").unwrap();
    assert!(ProtocolVersionHeader::try_from(&header_value).is_err());
}

#[test]
fn versions_are_read_as_the_standard_library_reads_them() {
    for text in [
        "0", "00", "+7", "+", "", "-0", " 1", "1 ", "4294967295", "4294967296", "0004294967295",
        "99999999999999999999999999", "1_000", "+ 1", "++1", "\t3",
    ] {
        let parsed = ProtocolVersionHeader::try_from(&header(text)).map(|h| h.version).ok();
        assert_eq!(parsed, text.parse::<u32>().ok(), "{text:?}");
    }
}

#[test]
fn default_uses_the_crate_version() {
    let header = UserAgentHeader::default();
    assert_eq!(header.version, "0.7.0");
}

#[test]
fn header_value_conversion_formats_as_orosu_slash_version() {
    let header = UserAgentHeader {
        version: "1.2.3".to_string(),
    };
    let header_value: HeaderValue = header.to_header_value();
    assert_eq!(header_value.to_str().unwrap(), "Orosu/1.2.3");
}

#[test]
fn user_agent_header_valid_header_parses_the_version() {
    let header_value = header("Orosu/1.2.3");
    let header = UserAgentHeader::try_from(&header_value).unwrap_or_else(|_| panic!("refused"));
    assert_eq!(header.version, "1.2.3");
}

#[test]
fn user_agent_header_round_trips_through_header_value() {
    let original = UserAgentHeader {
        version: "9.9.9".to_string(),
    };
    let header_value: HeaderValue = original.to_header_value();
    let parsed = UserAgentHeader::try_from(&header_value).unwrap_or_else(|_| panic!("refused"));
    assert_eq!(parsed.version, "9.9.9");
}

#[test]
fn rejects_a_header_with_no_slash() {
    let header_value = header("Orosu");
    assert!(UserAgentHeader::try_from(&header_value).is_err());
}

#[test]
fn rejects_a_header_with_the_wrong_product_name() {
    let header_value = header("curl/8.0.0");
    assert!(UserAgentHeader::try_from(&header_value).is_err());
}

#[test]
fn rejects_a_header_with_more_than_one_slash() {
    let header_value = header("Orosu/1.2.3/extra");
    assert!(UserAgentHeader::try_from(&header_value).is_err());
}

#[test]
fn rejects_a_header_that_is_not_valid_ascii() {
    let header_value = HeaderValue::from_bytes(b"Orosu/\xff\xfe").unwrap();
    assert!(UserAgentHeader::try_from(&header_value).is_err());
}

#[test]
fn an_empty_version_is_a_version() {
    let header = UserAgentHeader::try_from(&header("Orosu/")).unwrap_or_else(|_| panic!("refused"));
    assert_eq!(header.version, "");
    assert!(UserAgentHeader::try_from(&HeaderValue::from_bytes(b"/").unwrap()).is_err());
    assert!(UserAgentHeader::try_from(&HeaderValue::from_bytes(b"orosu/1").unwrap()).is_err());
}

#[test]
fn header_values_take_what_http_takes() {
    assert!(HeaderValue::from_bytes(b"line\nbreak").is_none());
    assert!(HeaderValue::from_bytes(b"\x7f").is_none());
    assert!(HeaderValue::from_bytes(b"tab\tand space").is_some());
    let value = HeaderValue::from_bytes(b"tab\tand space").unwrap();
    assert_eq!(value.to_str().unwrap(), "tab\tand space");
    assert_eq!(value.as_bytes(), b"tab\tand space");
    assert!(HeaderValue::from_bytes(b"caf\xc3\xa9").unwrap().to_str().is_none());
}

#[test]
fn the_version_header_has_a_valid_name() {
    assert_eq!(PROTOCOL_VERSION_HEADER_NAME, "orosu-protocol-version");
    assert!(axum::http::HeaderName::try_from(PROTOCOL_VERSION_HEADER_NAME).is_ok());
}
