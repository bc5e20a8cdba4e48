//! The wire-protocol version that a client speaks.

use crate::api::header_value::HeaderValue;
use crate::api::user_agent_header::InvalidHeader;
use crate::api::ProtocolVersionHeader;
use crate::text::{append_decimal, parse_u32};
use vstd::prelude::*;
use vstd::string::*;

verus! {

/// The current wire-protocol version. Version 0 is implicit: it is what a
/// client speaks that sends no version header at all.
pub const PROTOCOL_VERSION: u32 = 1;

/// The protocol version with the end-to-end encryption handshake beneath the
/// envelopes.
pub const PROTOCOL_VERSION_ENCRYPTED_V2: u32 = 2;

/// The name of the header that carries the version.
pub const PROTOCOL_VERSION_HEADER_NAME: &'static str = "orosu-protocol-version";

/// The protocol versions that a server accepts: the encrypted one only where
/// an encryption key is configured.
pub open spec fn supported_versions(encryption_configured: bool) -> Seq<u32> {
    if encryption_configured {
        seq![0, PROTOCOL_VERSION, PROTOCOL_VERSION_ENCRYPTED_V2]
    } else {
        seq![0, PROTOCOL_VERSION]
    }
}

/// Every protocol version that this server accepts a client speaking. Version
/// 0 stays listed for the clients that send no version. The encrypted version
/// is there only where the server has an encryption key, so that a server
/// without one goes on as it always has.
pub fn supported_protocol_versions(encryption_configured: bool) -> (versions: Vec<u32>)
    ensures
        versions@ == supported_versions(encryption_configured),
{
    if encryption_configured {
        vec![0, PROTOCOL_VERSION, PROTOCOL_VERSION_ENCRYPTED_V2]
    } else {
        vec![0, PROTOCOL_VERSION]
    }
}

impl Default for ProtocolVersionHeader {
    fn default() -> (header: ProtocolVersionHeader)
        ensures
            header.version == PROTOCOL_VERSION,
    {
        ProtocolVersionHeader { version: PROTOCOL_VERSION }
    }
}

impl From<ProtocolVersionHeader> for HeaderValue {
    fn from(header: ProtocolVersionHeader) -> (value: HeaderValue)
        ensures
            value@ == vstd::utf8::encode_utf8(crate::text::decimal(header.version as nat)),
    {
        let mut text = String::new();
        append_decimal(&mut text, header.version as u64);
        proof {
            law_protocol_version_round_trips(header.version);
            assert(text@ =~= crate::text::decimal(header.version as nat));
        }
        HeaderValue::from_bytes(text.as_str().as_bytes()).unwrap()
    }
}

impl vstd::std_specs::convert::FromSpecImpl<ProtocolVersionHeader> for HeaderValue {
    open spec fn obeys_from_spec() -> bool {
        false
    }

    open spec fn from_spec(header: ProtocolVersionHeader) -> HeaderValue {
        arbitrary()
    }
}

/// The version that a header value declares.
pub open spec fn declared_version(value: Seq<u8>) -> Option<u32> {
    match crate::api::header_value::header_text(value) {
        Some(text) => crate::text::parsed_u32(text),
        None => None,
    }
}

impl TryFrom<&HeaderValue> for ProtocolVersionHeader {
    type Error = InvalidHeader;

    fn try_from(value: &HeaderValue) -> (result: Result<ProtocolVersionHeader, InvalidHeader>)
        ensures
            result is Ok <==> declared_version(value@) is Some,
            result matches Ok(header) ==> declared_version(value@) == Some(header.version),
    {
        match value.to_str() {
            Some(text) => match parse_u32(text.as_str()) {
                Some(version) => Ok(ProtocolVersionHeader { version }),
                None => Err(InvalidHeader),
            },
            None => Err(InvalidHeader),
        }
    }
}

impl vstd::std_specs::convert::TryFromSpecImpl<&HeaderValue> for ProtocolVersionHeader {
    open spec fn obeys_try_from_spec() -> bool {
        false
    }

    open spec fn try_from_spec(value: &HeaderValue) -> Result<ProtocolVersionHeader, InvalidHeader> {
        arbitrary()
    }
}

/// Every version reads back from the header value that carries it.
pub proof fn law_protocol_version_round_trips(version: u32)
    ensures
        crate::api::header_value::valid_header_bytes(
            vstd::utf8::encode_utf8(crate::text::decimal(version as nat)),
        ),
        declared_version(vstd::utf8::encode_utf8(crate::text::decimal(version as nat))) == Some(
            version,
        ),
{
    crate::text::lemma_decimal_digits(version as nat);
    crate::text::law_parse_undoes_decimal(version);
    crate::api::header_value::lemma_ascii_header_text(crate::text::decimal(version as nat));
}

/// A server that gains an encryption key accepts what it accepted before, and
/// the encrypted version besides; one without a key does not accept that.
pub proof fn law_encryption_only_adds_a_version(version: u32)
    ensures
        supported_versions(true).contains(version) <==> supported_versions(false).contains(version)
            || version == PROTOCOL_VERSION_ENCRYPTED_V2,
        !supported_versions(false).contains(PROTOCOL_VERSION_ENCRYPTED_V2),
{
    let with = supported_versions(true);
    let without = supported_versions(false);
    assert(with[0] == 0 && with[1] == PROTOCOL_VERSION && with[2] == PROTOCOL_VERSION_ENCRYPTED_V2);
    assert(without[0] == 0 && without[1] == PROTOCOL_VERSION);
}

} // verus!
