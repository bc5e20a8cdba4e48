//! Who is let in: from where, with which headers, with which claims, and as whom.

use crate::api::header_value::HeaderValue;
use crate::client::Client;
use crate::configuration::{LogLevelConfiguration, Named};
use crate::cryptography::Claims;
use crate::ip::{IpAddress, IpNetwork};
use crate::outside;
use crate::script::Script;
use crate::server::auth_scope::{ClaimedClient, RequestHead};
use crate::server::{AuthContext, StatusCode};
use vstd::prelude::*;
use vstd::string::*;

verus! {

/// Whether a header value reads like this.
pub open spec fn reads(value: HeaderValue, text: Seq<char>) -> bool {
    crate::api::header_value::header_text(value@) == Some(text)
}

/// Whether a request comes from a client of this product, of whatever version.
pub open spec fn is_of_this_product(head: RequestHead) -> bool {
    exists|version: Seq<char>| #[trigger] names_itself(head, version)
}

/// Whether a request comes from a client of this product, of this version.
pub open spec fn names_itself(head: RequestHead, version: Seq<char>) -> bool {
    &&& head.user_agent matches Some(value)
    &&& reads(value, "Orosu/"@ + version)
    &&& !version.contains('/')
}

/// Whether a request is of this protocol version: it says so in decimal, or it says
/// nothing and the version is 0.
pub open spec fn speaks(head: RequestHead, version: int) -> bool {
    match head.protocol_version {
        None => version == 0,
        Some(value) => crate::api::header_value::header_text(value@) matches Some(text) && {
            let digits = if text.len() > 0 && text[0] == '+' {
                text.skip(1)
            } else {
                text
            };
            &&& crate::laws::wire::is_number(digits)
            &&& crate::laws::wire::number(digits) == version
            &&& version <= 0xffff_ffff
        },
    }
}

/// Whether a server speaks a protocol version: 0 and 1 always, and 2 where it has
/// an encryption key.
pub open spec fn is_spoken(version: int, encryption_configured: bool) -> bool {
    version == 0 || version == 1 || version == 2 && encryption_configured
}

/// A server speaks the versions 0 and 1, and with an encryption key also version 2.
pub proof fn law_versions_are_spoken(version: u32, encryption_configured: bool)
    ensures
        crate::api::protocol_version::supported_versions(encryption_configured).contains(version)
            <==> is_spoken(version as int, encryption_configured),
{
    let versions = crate::api::protocol_version::supported_versions(encryption_configured);
    assert(versions[0] == 0);
    assert(versions[1] == 1);
    if encryption_configured {
        assert(versions[2] == 2);
    }
}

/// A request is taken, with its token and its version, exactly if it has a scope,
/// comes from a client of this product, is of a version that the server speaks, and
/// its authorization is `Token`, a space and the token. One of another version, or
/// of none that can be read, is a bad request; and any other is unauthorized.
pub proof fn law_good_requests_are_taken(
    head: RequestHead,
    encryption_configured: bool,
    token: Seq<char>,
    version: u32,
)
    ensures
        ({
            let known = head.scope is Some && is_of_this_product(head);
            let outcome = crate::server::auth_scope::presented(head, encryption_configured);
            &&& outcome == Ok::<(Seq<char>, u32), StatusCode>((token, version)) <==> {
                &&& known
                &&& speaks(head, version as int)
                &&& is_spoken(version as int, encryption_configured)
                &&& head.authorization matches Some(value)
                &&& reads(value, "Token "@ + token)
            }
            &&& !known ==> outcome == Err::<(Seq<char>, u32), StatusCode>(StatusCode::Unauthorized)
            &&& known && speaks(head, version as int) && !is_spoken(
                version as int,
                encryption_configured,
            ) ==> outcome == Err::<(Seq<char>, u32), StatusCode>(StatusCode::BadRequest)
            &&& known && (forall|other: u32| !#[trigger] speaks(head, other as int)) ==> outcome
                == Err::<(Seq<char>, u32), StatusCode>(StatusCode::BadRequest)
            &&& known && speaks(head, version as int) && is_spoken(
                version as int,
                encryption_configured,
            ) && !(head.authorization matches Some(value) && exists|other: Seq<char>|
                #[trigger] reads(value, "Token "@ + other)) ==> outcome == Err::<
                (Seq<char>, u32),
                StatusCode,
            >(StatusCode::Unauthorized)
        }),
{
    lemma_product(head);
    lemma_version(head, version);
    law_versions_are_spoken(version, encryption_configured);
    let asked = crate::server::auth_scope::requested_version(head.protocol_version);
    if let Some(found) = asked {
        lemma_version(head, found);
        law_versions_are_spoken(found, encryption_configured);
        assert(speaks(head, found as int));
    }
    if let Some(value) = head.authorization {
        lemma_token(value, token);
        if let Some(found) = crate::server::auth_scope::token_of(value@) {
            lemma_token(value, found);
            assert(reads(value, "Token "@ + found));
        }
    }
}

proof fn lemma_product(head: RequestHead)
    ensures
        is_of_this_product(head) <==> (head.user_agent matches Some(value)
            && crate::server::auth_scope::is_our_user_agent(value@)),
{
    if let Some(value) = head.user_agent {
        if let Some(text) = crate::api::header_value::header_text(value@) {
            if is_of_this_product(head) {
                let version = choose|version: Seq<char>| #[trigger] names_itself(head, version);
                assert(crate::api::user_agent_header::names_version(text, version));
            }
            if crate::server::auth_scope::is_our_user_agent(value@) {
                let version = choose|version: Seq<char>|
                    crate::api::user_agent_header::names_version(text, version);
                assert(names_itself(head, version));
            }
        }
    }
}

proof fn lemma_version(head: RequestHead, version: u32)
    ensures
        speaks(head, version as int) <==> crate::server::auth_scope::requested_version(
            head.protocol_version,
        ) == Some(version),
{
    if let Some(value) = head.protocol_version {
        if let Some(text) = crate::api::header_value::header_text(value@) {
            crate::laws::wire::law_numbers_are_read_from_decimal(text);
            let digits = if text.len() > 0 && text[0] == '+' {
                text.skip(1)
            } else {
                text
            };
            if crate::laws::wire::is_number(digits) {
                crate::laws::wire::law_numbers_are_not_negative(digits);
            }
        }
    }
}

proof fn lemma_token(value: HeaderValue, token: Seq<char>)
    ensures
        reads(value, "Token "@ + token) <==> crate::server::auth_scope::token_of(value@) == Some(
            token,
        ),
{
    reveal_strlit("Token ");
    if let Some(text) = crate::api::header_value::header_text(value@) {
        let whole = "Token "@ + token;
        assert(whole.subrange(0, 6) =~= "Token "@);
        assert(whole.subrange(6, whole.len() as int) =~= token);
        if text.len() >= 6 && text.subrange(0, 6) == "Token "@ {
            assert(text =~= "Token "@ + text.subrange(6, text.len() as int));
        }
    }
}

/// Claims are good up to the second in which they expire, and lead to the first
/// client with the name that they claim, whoever that is. Claims that have expired
/// or name nobody are unauthorized; and without a clock nobody can be let in.
pub proof fn law_claims_are_good_until_they_expire(
    clients: Seq<Client>,
    claims: Claims,
    now: Option<usize>,
    outcome: Result<int, StatusCode>,
)
    requires
        crate::server::auth_scope::claimed_client(clients, claims, now, outcome),
    ensures
        now is None ==> outcome == Err::<int, StatusCode>(StatusCode::InternalServerError),
        now matches Some(now) ==> {
            let known = exists|i: int|
                0 <= i < clients.len() && (#[trigger] clients[i]).name@ == claims.sub@;
            match outcome {
                Ok(at) => {
                    &&& now <= claims.exp
                    &&& 0 <= at < clients.len()
                    &&& clients[at].name@ == claims.sub@
                    &&& forall|i: int| 0 <= i < at ==> (#[trigger] clients[i]).name@ != claims.sub@
                },
                Err(status) => status == StatusCode::Unauthorized && (claims.exp < now || !known),
            }
        },
{
}

/// What became of a token decides, and nothing else: with one that verified its
/// client is let in, as itself and with the version of the request, wherever it
/// stands in the list; and with any other it is unauthorized.
pub proof fn law_verified_clients_are_let_in(
    claimed: ClaimedClient,
    clients: Seq<Client>,
    verified: bool,
    result: Result<AuthContext, StatusCode>,
)
    requires
        crate::server::auth_scope::concluded(claimed, clients, verified, result),
    ensures
        verified ==> (result matches Ok(AuthContext::Worker(worker)) && worker.client@
            == clients[claimed.client as int]@ && worker.protocol_version
            == claimed.protocol_version),
        !verified ==> result == Err::<AuthContext, StatusCode>(StatusCode::Unauthorized),
{
}

/// Two clients with the same contents have the same name, key file, lists and
/// scripts.
pub proof fn law_copies_of_clients_are_alike(one: Client, other: Client)
    requires
        one@ == other@,
    ensures
        one.name@ == other.name@,
        one.secret_file@ == other.secret_file@,
        match (one.whitelisted_ips, other.whitelisted_ips) {
            (Some(networks), Some(same)) => networks@ == same@,
            (None, None) => true,
            _ => false,
        },
        match (one.blacklisted_ips, other.blacklisted_ips) {
            (Some(networks), Some(same)) => networks@ == same@,
            (None, None) => true,
            _ => false,
        },
        one.scripts@.len() == other.scripts@.len(),
        forall|i: int|
            0 <= i < one.scripts@.len() ==> (#[trigger] one.scripts@[i])@ == other.scripts@[i]@,
{
    let ours = crate::client::script_models(one.scripts@);
    let theirs = crate::client::script_models(other.scripts@);
    assert(ours.len() == one.scripts@.len());
    assert(theirs.len() == other.scripts@.len());
    assert forall|i: int| 0 <= i < one.scripts@.len() implies (#[trigger] one.scripts@[i])@
        == other.scripts@[i]@ by {
        assert(ours[i] == theirs[i]);
    }
}

/// Whether addresses of so many bytes agree in their first bits.
pub open spec fn agree(one: Seq<u8>, other: Seq<u8>, bits: int) -> bool {
    forall|i: int|
        #![trigger outside::address_bit(one, i)]
        0 <= i < bits ==> outside::address_bit(one, i) == outside::address_bit(other, i)
}

/// A network covers the addresses of its own family that agree with it in all the
/// bits of its prefix, and no others; it is a network if its prefix is no longer
/// than an address and the bits after it are zero.
pub proof fn law_networks_cover_their_prefix(
    network: IpNetwork,
    four: [u8; 4],
    six: [u8; 16],
    prefix: int,
)
    ensures
        match network.address() {
            IpAddress::V4(octets) => {
                &&& network.covers(IpAddress::V4(four)) <==> agree(octets@, four@, network.prefix())
                &&& !network.covers(IpAddress::V6(six))
            },
            IpAddress::V6(octets) => {
                &&& network.covers(IpAddress::V6(six)) <==> agree(octets@, six@, network.prefix())
                &&& !network.covers(IpAddress::V4(four))
            },
        },
        crate::ip::is_ip_network(IpAddress::V4(four), prefix) <==> 0 <= prefix <= 32 && (
        forall|i: int| prefix <= i < 32 ==> !#[trigger] outside::address_bit(four@, i)),
        crate::ip::is_ip_network(IpAddress::V6(six), prefix) <==> 0 <= prefix <= 128 && (
        forall|i: int| prefix <= i < 128 ==> !#[trigger] outside::address_bit(six@, i)),
{
}

/// An address is let in exactly if some network of the whitelist covers it, where
/// there is a whitelist, and none of the blacklist does, where there is a blacklist.
/// A peer without an address is let in.
pub proof fn law_lists_decide(
    whitelist: Option<Vec<IpNetwork>>,
    blacklist: Option<Vec<IpNetwork>>,
    address: IpAddress,
)
    ensures
        crate::ip::lets_in(whitelist, blacklist, Some(address)) <==> {
            &&& whitelist matches Some(networks) ==> exists|i: int|
                0 <= i < networks@.len() && (#[trigger] networks@[i]).covers(address)
            &&& blacklist matches Some(networks) ==> forall|i: int|
                0 <= i < networks@.len() ==> !(#[trigger] networks@[i]).covers(address)
        },
        crate::ip::lets_in(whitelist, blacklist, None),
{
}

/// Names are distinct exactly if any two clients have different ones, and so for
/// scripts; and something is repeated, at the first place at which the list stops
/// being distinct, exactly if they are not.
pub proof fn law_distinct_means_no_two_alike(clients: Seq<Client>, scripts: Seq<Script>, at: int)
    ensures
        crate::configuration::distinct_names(clients) <==> forall|i: int, j: int|
            0 <= i < j < clients.len() ==> (#[trigger] clients[i]).name@ != (
            #[trigger] clients[j]).name@,
        crate::configuration::distinct_names(scripts) <==> forall|i: int, j: int|
            0 <= i < j < scripts.len() ==> (#[trigger] scripts[i]).name@ != (
            #[trigger] scripts[j]).name@,
        crate::configuration::first_repeated(clients, at) ==> {
            &&& 0 <= at < clients.len()
            &&& exists|i: int| 0 <= i < at && (#[trigger] clients[i]).name@ == clients[at].name@
            &&& forall|i: int, j: int|
                0 <= i < j < at ==> (#[trigger] clients[i]).name@ != (#[trigger] clients[j]).name@
        },
        crate::configuration::first_repeated(scripts, at) ==> {
            &&& 0 <= at < scripts.len()
            &&& exists|i: int| 0 <= i < at && (#[trigger] scripts[i]).name@ == scripts[at].name@
            &&& forall|i: int, j: int|
                0 <= i < j < at ==> (#[trigger] scripts[i]).name@ != (#[trigger] scripts[j]).name@
        },
        crate::configuration::first_repeated(clients, at) ==>
            !crate::configuration::distinct_names(clients),
        crate::configuration::first_repeated(scripts, at) ==>
            !crate::configuration::distinct_names(scripts),
        crate::configuration::distinct_script_names(clients) <==> forall|k: int, i: int, j: int|
            #![trigger clients[k].scripts@[i], clients[k].scripts@[j]]
            0 <= k < clients.len() && 0 <= i < j < clients[k].scripts@.len()
                ==> clients[k].scripts@[i].name@ != clients[k].scripts@[j].name@,
{
    lemma_client_names(clients);
    lemma_script_names(scripts);
    if crate::configuration::first_repeated(clients, at) {
        lemma_client_names(clients.subrange(0, at));
        let i = choose|i: int|
            0 <= i < at && (#[trigger] clients[i]).name_text() == clients[at].name_text();
        assert(clients[i].name@ == clients[at].name@);
        let before = clients.subrange(0, at);
        assert forall|i: int, j: int| 0 <= i < j < at implies (#[trigger] clients[i]).name@ != (
        #[trigger] clients[j]).name@ by {
            assert(before[i] == clients[i] && before[j] == clients[j]);
        }
    }
    if crate::configuration::first_repeated(scripts, at) {
        lemma_script_names(scripts.subrange(0, at));
        let i = choose|i: int|
            0 <= i < at && (#[trigger] scripts[i]).name_text() == scripts[at].name_text();
        assert(scripts[i].name@ == scripts[at].name@);
        let before = scripts.subrange(0, at);
        assert forall|i: int, j: int| 0 <= i < j < at implies (#[trigger] scripts[i]).name@ != (
        #[trigger] scripts[j]).name@ by {
            assert(before[i] == scripts[i] && before[j] == scripts[j]);
        }
    }
    let each = forall|k: int, i: int, j: int|
        #![trigger clients[k].scripts@[i], clients[k].scripts@[j]]
        0 <= k < clients.len() && 0 <= i < j < clients[k].scripts@.len()
            ==> clients[k].scripts@[i].name@ != clients[k].scripts@[j].name@;
    if crate::configuration::distinct_script_names(clients) {
        assert forall|k: int, i: int, j: int|
            #![trigger clients[k].scripts@[i], clients[k].scripts@[j]]
            0 <= k < clients.len() && 0 <= i < j
                < clients[k].scripts@.len() implies clients[k].scripts@[i].name@
            != clients[k].scripts@[j].name@ by {
            lemma_script_names(clients[k].scripts@);
        }
    }
    if each {
        assert forall|k: int| 0 <= k < clients.len() implies crate::configuration::distinct_names(
            (#[trigger] clients[k]).scripts@,
        ) by {
            lemma_script_names(clients[k].scripts@);
        }
    }
}

proof fn lemma_client_names(list: Seq<Client>)
    ensures
        crate::configuration::distinct_names(list) <==> forall|i: int, j: int|
            0 <= i < j < list.len() ==> (#[trigger] list[i]).name@ != (#[trigger] list[j]).name@,
{
    if crate::configuration::distinct_names(list) {
        assert forall|i: int, j: int| 0 <= i < j < list.len() implies (#[trigger] list[i]).name@
            != (#[trigger] list[j]).name@ by {
            assert(list[i].name_text() != list[j].name_text());
        }
    }
}

proof fn lemma_script_names(list: Seq<Script>)
    ensures
        crate::configuration::distinct_names(list) <==> forall|i: int, j: int|
            0 <= i < j < list.len() ==> (#[trigger] list[i]).name@ != (#[trigger] list[j]).name@,
{
    if crate::configuration::distinct_names(list) {
        assert forall|i: int, j: int| 0 <= i < j < list.len() implies (#[trigger] list[i]).name@
            != (#[trigger] list[j]).name@ by {
            assert(list[i].name_text() != list[j].name_text());
        }
    }
}

/// Each status has its own number, and each level of logging its own name.
pub proof fn law_statuses_and_levels_have_names()
    ensures
        StatusCode::BadRequest.number() == 400,
        StatusCode::Unauthorized.number() == 401,
        StatusCode::Forbidden.number() == 403,
        StatusCode::InternalServerError.number() == 500,
        crate::configuration::level_name(LogLevelConfiguration::Debug) == "debug"@,
        crate::configuration::level_name(LogLevelConfiguration::Info) == "info"@,
        crate::configuration::level_name(LogLevelConfiguration::Warn) == "warn"@,
        crate::configuration::level_name(LogLevelConfiguration::Error) == "error"@,
{
}

} // verus!
