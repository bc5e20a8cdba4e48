//! The `User-Agent` header, by which a client names its product and version.

use crate::api::header_value::HeaderValue;
use crate::api::UserAgentHeader;
use crate::text::{chars_of, find_char, same_text};
use vstd::prelude::*;
use vstd::string::*;

verus! {

/// The version of this crate.
pub const CRATE_VERSION: &'static str = "0.7.0";

/// A header that has not the form it should have.
#[derive(Debug, Clone, Copy, PartialEq, Eq, Structural)]
pub struct InvalidHeader;

/// The text of the header for a version.
pub open spec fn user_agent_text(version: Seq<char>) -> Seq<char> {
    "Orosu/"@ + version
}

/// Whether a text is the header for a version: the product name, a slash and
/// the version, with no other slash.
pub open spec fn names_version(text: Seq<char>, version: Seq<char>) -> bool {
    text == user_agent_text(version) && !version.contains('/')
}

impl Default for UserAgentHeader {
    fn default() -> (header: UserAgentHeader)
        ensures
            header.version@ == CRATE_VERSION@,
    {
        UserAgentHeader { version: CRATE_VERSION.to_owned() }
    }
}

impl TryFrom<&HeaderValue> for UserAgentHeader {
    type Error = InvalidHeader;

    fn try_from(value: &HeaderValue) -> (result: Result<UserAgentHeader, InvalidHeader>)
        ensures
            match result {
                Ok(header) => crate::api::header_value::header_text(value@) matches Some(text)
                    && names_version(text, header.version@),
                Err(_) => crate::api::header_value::header_text(value@) matches Some(text)
                    ==> !exists|version: Seq<char>| names_version(text, version),
            },
    {
        let text = match value.to_str() {
            Some(text) => text,
            None => {
                return Err(InvalidHeader);
            },
        };
        let chars = chars_of(text.as_str());
        let slash: usize = match find_char(&chars, '/') {
            Some(at) => at,
            None => {
                proof {
                    lemma_slash_after_product(text@);
                }
                return Err(InvalidHeader);
            },
        };
        let length: usize = chars.len();
        let product = text.as_str().substring_char(0, slash);
        let version = text.as_str().substring_char(slash + 1, length);
        let more_slashes = find_char(&chars_of(version), '/').is_some();
        proof {
            reveal_strlit("Orosu");
            reveal_strlit("Orosu/");
            lemma_slash_after_product(text@);
            assert(text@ =~= product@ + seq!['/'] + version@);
            assert("Orosu/"@ =~= "Orosu"@ + seq!['/']);
            assert forall|other: Seq<char>| names_version(text@, other) implies product@ == "Orosu"@
                && version@ == other by {
                assert(text@[5] == '/');
                assert(slash == 5);
                assert(product@ =~= "Orosu"@);
                assert(version@ =~= other);
            }
        }
        if same_text(product, "Orosu") && !more_slashes {
            Ok(UserAgentHeader { version: version.to_owned() })
        } else {
            Err(InvalidHeader)
        }
    }
}

proof fn lemma_slash_after_product(text: Seq<char>)
    ensures
        forall|version: Seq<char>| #[trigger] names_version(text, version) ==> {
            &&& text.len() > 5
            &&& text[5] == '/'
            &&& forall|i: int| 0 <= i < 5 ==> text[i] != '/'
            &&& text.contains('/')
        },
{
    reveal_strlit("Orosu/");
    assert forall|version: Seq<char>| #[trigger] names_version(text, version) implies {
        &&& text.len() > 5
        &&& text[5] == '/'
        &&& forall|i: int| 0 <= i < 5 ==> text[i] != '/'
        &&& text.contains('/')
    } by {
        assert(text[5] == "Orosu/"@[5]);
        assert forall|i: int| 0 <= i < 5 implies text[i] != '/' by {
            assert(text[i] == "Orosu/"@[i]);
        }
    }
}

impl UserAgentHeader {
    /// The value of the header. The version must be one that a header can
    /// carry.
    pub fn to_header_value(&self) -> (value: HeaderValue)
        requires
            crate::api::header_value::valid_header_bytes(
                vstd::utf8::encode_utf8(user_agent_text(self.version@)),
            ),
        ensures
            value@ == vstd::utf8::encode_utf8(user_agent_text(self.version@)),
    {
        let mut text = "Orosu/".to_owned();
        text.append(self.version.as_str());
        let value = HeaderValue::from_bytes(text.as_str().as_bytes());
        value.unwrap()
    }
}

/// A version of visible ASCII characters, spaces and tabs, without a slash,
/// reads back from the header that carries it.
pub proof fn law_user_agent_round_trips(version: Seq<char>)
    requires
        !version.contains('/'),
        forall|i: int|
            0 <= i < version.len() ==> crate::api::header_value::is_header_text_char(
                #[trigger] version[i],
            ),
    ensures
        crate::api::header_value::valid_header_bytes(
            vstd::utf8::encode_utf8(user_agent_text(version)),
        ),
        crate::api::header_value::header_text(vstd::utf8::encode_utf8(user_agent_text(version)))
            == Some(user_agent_text(version)),
        names_version(user_agent_text(version), version),
        forall|other: Seq<char>|
            names_version(user_agent_text(version), other) ==> other == version,
{
    reveal_strlit("Orosu/");
    let text = user_agent_text(version);
    assert forall|i: int| 0 <= i < text.len() implies crate::api::header_value::is_header_text_char(
        #[trigger] text[i],
    ) by {
        if i < 6 {
            assert(text[i] == "Orosu/"@[i]);
        } else {
            assert(text[i] == version[i - 6]);
        }
    }
    crate::api::header_value::lemma_ascii_header_text(text);
    assert forall|other: Seq<char>| names_version(text, other) implies other == version by {
        assert(other =~= text.subrange(6, text.len() as int));
        assert(version =~= text.subrange(6, text.len() as int));
    }
}

impl vstd::std_specs::convert::TryFromSpecImpl<&HeaderValue> for UserAgentHeader {
    open spec fn obeys_try_from_spec() -> bool {
        false
    }

    open spec fn try_from_spec(value: &HeaderValue) -> Result<UserAgentHeader, InvalidHeader> {
        arbitrary()
    }
}

} // verus!
