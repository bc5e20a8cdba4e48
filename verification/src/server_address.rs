//! The address of a server.

use crate::outside;
use crate::text::{chars_of, find_char};
use vstd::prelude::*;
use vstd::string::*;

verus! {

/// The address of a server: a URI with a scheme, an authority and a path.
#[derive(Debug, Clone)]
pub struct ServerAddress {
    scheme: String,
    authority: String,
    path_and_query: String,
}

/// Why a text is not the address of a server.
#[derive(Debug, Clone, Copy, PartialEq, Eq, Structural)]
pub enum AddressError {
    /// It is not a URI.
    InvalidFormat,
    /// It names no host.
    MissingAuthority,
}

/// The parts of a server's address.
pub struct AddressModel {
    pub scheme: Seq<char>,
    pub authority: Seq<char>,
    pub path_and_query: Seq<char>,
}

/// The scheme of an address that names none.
pub const DEFAULT_SCHEME: &'static str = "wss";

/// The path of an address that names none.
pub const DEFAULT_PATH: &'static str = "/";

/// The address that a text stands for: that of its URI, with the default
/// scheme and the default path where it has none of its own.
pub open spec fn address_of(text: Seq<char>) -> Result<AddressModel, AddressError> {
    match outside::uri_parts(text) {
        None => Err(AddressError::InvalidFormat),
        Some((scheme, authority, path_and_query)) => match authority {
            None => Err(AddressError::MissingAuthority),
            Some(authority) => Ok(
                AddressModel {
                    scheme: match scheme {
                        Some(scheme) => scheme,
                        None => DEFAULT_SCHEME@,
                    },
                    authority,
                    path_and_query: match path_and_query {
                        Some(path) => path,
                        None => DEFAULT_PATH@,
                    },
                },
            ),
        },
    }
}

/// The address as a URI, in which an empty path is written as a slash.
pub open spec fn uri_of(address: AddressModel) -> Seq<char> {
    address.scheme + "://"@ + address.authority + outside::rooted(address.path_and_query)
}

/// Whether `path` is the path of a path with a query: what stands before the
/// first question mark, or the default path where nothing does.
pub open spec fn is_path_of(path_and_query: Seq<char>, path: Seq<char>) -> bool {
    exists|end: int| #[trigger]
        ends_path(path_and_query, end) && path == path_to(path_and_query, end)
}

/// The path that ends here.
pub open spec fn path_to(path_and_query: Seq<char>, end: int) -> Seq<char> {
    if end == 0 {
        DEFAULT_PATH@
    } else {
        path_and_query.subrange(0, end)
    }
}

/// The query after a path that ends here.
pub open spec fn query_from(path_and_query: Seq<char>, end: int) -> Option<Seq<char>> {
    if end < path_and_query.len() {
        Some(path_and_query.subrange(end + 1, path_and_query.len() as int))
    } else {
        None
    }
}

/// Whether the path ends here: at the first question mark, or at the end.
pub open spec fn ends_path(path_and_query: Seq<char>, end: int) -> bool {
    ||| crate::text::first_occurrence(path_and_query, '?', end)
    ||| !path_and_query.contains('?') && end == path_and_query.len()
}

/// Whether `query` is the query of a path with a query: what stands after the
/// first question mark, or nothing where there is none.
pub open spec fn is_query_of(path_and_query: Seq<char>, query: Option<Seq<char>>) -> bool {
    exists|end: int| #[trigger]
        ends_path(path_and_query, end) && query == query_from(path_and_query, end)
}

/// Whether two addresses are the same: they have the same scheme, authority,
/// path and query.
pub open spec fn same_address(one: AddressModel, other: AddressModel) -> bool {
    &&& one.scheme == other.scheme
    &&& one.authority == other.authority
    &&& forall|path: Seq<char>| #[trigger]
        is_path_of(one.path_and_query, path) <==> is_path_of(other.path_and_query, path)
    &&& forall|query: Option<Seq<char>>| #[trigger]
        is_query_of(one.path_and_query, query) <==> is_query_of(other.path_and_query, query)
}

/// How far a slash in the place of an empty path moves the rest.
spec fn shift(path_and_query: Seq<char>) -> int {
    outside::rooted(path_and_query).len() - path_and_query.len()
}

proof fn lemma_rooted_ends(path_and_query: Seq<char>, end: int)
    ensures
        ends_path(path_and_query, end) <==> ends_path(
            outside::rooted(path_and_query),
            end + shift(path_and_query),
        ),
{
    reveal_strlit("/");
    let rooted = outside::rooted(path_and_query);
    let by = shift(path_and_query);
    assert(by == 0 || by == 1);
    assert(by == 1 ==> rooted[0] == '/');
    assert forall|i: int| 0 <= i < path_and_query.len() implies rooted[i + by]
        == #[trigger] path_and_query[i] by {}
    if rooted.contains('?') {
        let at = choose|i: int| 0 <= i < rooted.len() && rooted[i] == '?';
        assert(path_and_query[at - by] == '?');
    }
    if path_and_query.contains('?') {
        let at = choose|i: int| 0 <= i < path_and_query.len() && path_and_query[i] == '?';
        assert(rooted[at + by] == '?');
    }
    if crate::text::first_occurrence(path_and_query, '?', end) {
        assert forall|i: int| 0 <= i < end + by implies rooted[i] != '?' by {
            if i >= by {
                assert(path_and_query[i - by] != '?');
            }
        }
    }
    if crate::text::first_occurrence(rooted, '?', end + by) {
        assert forall|i: int| 0 <= i < end implies path_and_query[i] != '?' by {
            assert(rooted[i + by] != '?');
        }
    }
}

proof fn lemma_rooted_is_the_same(path_and_query: Seq<char>)
    ensures
        forall|path: Seq<char>| #[trigger]
            is_path_of(outside::rooted(path_and_query), path) <==> is_path_of(path_and_query, path),
        forall|query: Option<Seq<char>>| #[trigger]
            is_query_of(outside::rooted(path_and_query), query) <==> is_query_of(
                path_and_query,
                query,
            ),
{
    reveal_strlit("/");
    let rooted = outside::rooted(path_and_query);
    let by = shift(path_and_query);
    assert forall|end: int| #[trigger] ends_path(path_and_query, end) implies ends_path(
        rooted,
        end + by,
    ) && path_to(path_and_query, end) == path_to(rooted, end + by) && query_from(
        path_and_query,
        end,
    ) == query_from(rooted, end + by) by {
        lemma_rooted_ends(path_and_query, end);
        lemma_same_pieces(path_and_query, end);
    }
    assert forall|end: int| #[trigger] ends_path(rooted, end) implies ends_path(
        path_and_query,
        end - by,
    ) && path_to(path_and_query, end - by) == path_to(rooted, end) && query_from(
        path_and_query,
        end - by,
    ) == query_from(rooted, end) by {
        lemma_rooted_ends(path_and_query, end - by);
        lemma_same_pieces(path_and_query, end - by);
    }
}

proof fn lemma_same_pieces(path_and_query: Seq<char>, end: int)
    requires
        ends_path(path_and_query, end),
    ensures
        path_to(path_and_query, end) == path_to(
            outside::rooted(path_and_query),
            end + shift(path_and_query),
        ),
        query_from(path_and_query, end) == query_from(
            outside::rooted(path_and_query),
            end + shift(path_and_query),
        ),
{
    reveal_strlit("/");
    let rooted = outside::rooted(path_and_query);
    let by = shift(path_and_query);
    if by == 1 {
        if path_and_query.len() > 0 {
            assert(path_and_query[0] == '?');
            assert(path_and_query.contains('?'));
            assert(end == 0);
        }
        assert(rooted.subrange(0, 1) =~= "/"@);
        if end < path_and_query.len() {
            assert(rooted.subrange(end + 2, rooted.len() as int) =~= path_and_query.subrange(
                end + 1,
                path_and_query.len() as int,
            ));
        }
    }
}

/// An address that was read is read again from its own URI, if the scheme that
/// it was given does not make that too long.
pub proof fn law_address_reads_back(address: AddressModel)
    requires
        outside::uri_reads_back(
            address.scheme,
            address.authority,
            outside::rooted(address.path_and_query),
        ),
        vstd::utf8::encode_utf8(uri_of(address)).len() <= outside::URI_MAX_LEN,
    ensures
        address_of(uri_of(address)) matches Ok(again) && same_address(again, address),
{
    lemma_rooted_is_the_same(address.path_and_query);
}

fn or_default(text: Option<String>, default: &str) -> (result: String)
    ensures
        result@ == (match outside::text_view(text) {
            Some(text) => text,
            None => default@,
        }),
{
    match text {
        Some(text) => text,
        None => default.to_owned(),
    }
}

impl View for ServerAddress {
    type V = AddressModel;

    closed spec fn view(&self) -> AddressModel {
        AddressModel {
            scheme: self.scheme@,
            authority: self.authority@,
            path_and_query: self.path_and_query@,
        }
    }
}

impl ServerAddress {
    /// Reads an address. A bare host, with or without a port, is one: it has
    /// the default scheme and the default path.
    pub fn from_string(address: String) -> (result: Result<ServerAddress, AddressError>)
        ensures
            match result {
                Ok(parsed) => {
                    &&& address_of(address@) == Ok::<AddressModel, AddressError>(parsed@)
                    &&& outside::uri_reads_back(
                        parsed@.scheme,
                        parsed@.authority,
                        outside::rooted(parsed@.path_and_query),
                    )
                },
                Err(error) => address_of(address@) == Err::<AddressModel, AddressError>(error),
            },
    {
        proof {
            reveal_strlit("wss");
            reveal_strlit("/");
            assert(outside::is_plain_scheme(DEFAULT_SCHEME@));
        }
        match outside::parse_uri(address.as_str()) {
            None => Err(AddressError::InvalidFormat),
            Some((scheme, authority, path_and_query)) => match authority {
                None => Err(AddressError::MissingAuthority),
                Some(authority) => {
                    let parsed = ServerAddress {
                        scheme: or_default(scheme, DEFAULT_SCHEME),
                        authority,
                        path_and_query: or_default(path_and_query, DEFAULT_PATH),
                    };
                    assert(outside::uri_reads_back(
                        parsed@.scheme,
                        parsed@.authority,
                        outside::rooted(parsed@.path_and_query),
                    ));
                    Ok(parsed)
                },
            },
        }
    }

    /// The scheme.
    pub fn scheme_str(&self) -> (scheme: Option<&str>)
        ensures
            scheme matches Some(text) && text@ == self@.scheme,
    {
        Some(self.scheme.as_str())
    }

    /// The host.
    pub fn host(&self) -> (host: Option<String>)
        ensures
            outside::text_view(host) == outside::authority_host(self@.authority),
    {
        outside::host_of(self.authority.as_str())
    }

    /// The port, where there is one.
    pub fn port_u16(&self) -> (port: Option<u16>)
        ensures
            port == outside::authority_port(self@.authority),
    {
        outside::port_of(self.authority.as_str())
    }

    /// The path.
    pub fn path(&self) -> (path: String)
        ensures
            is_path_of(self@.path_and_query, path@),
    {
        let chars = chars_of(self.path_and_query.as_str());
        let end: usize = match find_char(&chars, '?') {
            Some(at) => at,
            None => chars.len(),
        };
        assert(ends_path(self@.path_and_query, end as int));
        if end == 0 {
            DEFAULT_PATH.to_owned()
        } else {
            self.path_and_query.as_str().substring_char(0, end).to_owned()
        }
    }

    /// The query, where there is one.
    pub fn query(&self) -> (query: Option<String>)
        ensures
            is_query_of(self@.path_and_query, outside::text_view(query)),
    {
        let chars = chars_of(self.path_and_query.as_str());
        let length: usize = chars.len();
        match find_char(&chars, '?') {
            Some(at) => {
                let query = self.path_and_query.as_str().substring_char(at + 1, length).to_owned();
                assert(ends_path(self@.path_and_query, at as int));
                Some(query)
            },
            None => {
                assert(ends_path(self@.path_and_query, length as int));
                None
            },
        }
    }

    /// The authority: the host, with a port and a user where there are.
    pub fn authority(&self) -> (authority: &str)
        ensures
            authority@ == self@.authority,
    {
        self.authority.as_str()
    }

    /// The path with the query, as it was given.
    pub fn path_and_query(&self) -> (path_and_query: &str)
        ensures
            path_and_query@ == self@.path_and_query,
    {
        self.path_and_query.as_str()
    }

    /// The address as a URI, in which an empty path is written as a slash.
    pub fn to_uri(&self) -> (uri: String)
        ensures
            uri@ == uri_of(self@),
    {
        let mut uri = self.scheme.clone();
        uri.append("://");
        uri.append(self.authority.as_str());
        let chars = chars_of(self.path_and_query.as_str());
        if chars.len() == 0 || chars[0] == '?' {
            uri.append("/");
        }
        uri.append(self.path_and_query.as_str());
        assert(uri@ =~= uri_of(self@));
        uri
    }
}

} // verus!
