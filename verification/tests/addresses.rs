use orosu::ip::{is_let_in, peer_address, IpAddress, IpNetwork};
use orosu::server_address::{AddressError, ServerAddress};

fn address(text: &str) -> ServerAddress {
    ServerAddress::from_string(text.to_string()).unwrap()
}

#[test]
fn bare_host_defaults_to_wss_scheme_and_root_path() {
    let address = address("example.com");
    assert_eq!(address.scheme_str(), Some("wss"));
    assert_eq!(address.host().as_deref(), Some("example.com"));
    assert_eq!(address.path(), "/");
}

#[test]
fn host_with_port_and_no_scheme_defaults_to_wss() {
    let address = address("example.com:8081");
    assert_eq!(address.scheme_str(), Some("wss"));
    assert_eq!(address.host().as_deref(), Some("example.com"));
    assert_eq!(address.port_u16(), Some(8081));
    assert_eq!(address.path(), "/");
}

#[test]
fn explicit_scheme_is_preserved() {
    let address = address("ws://127.0.0.1:8091");
    assert_eq!(address.scheme_str(), Some("ws"));
    assert_eq!(address.host().as_deref(), Some("127.0.0.1"));
    assert_eq!(address.port_u16(), Some(8091));
}

#[test]
fn explicit_path_is_preserved_when_a_scheme_is_present() {
    let address = address("wss://host:443/deploy/");
    assert_eq!(address.path(), "/deploy/");
}

#[test]
fn schemeless_host_port_and_path_together_is_rejected() {
    let result = ServerAddress::from_string("host:443/deploy/".to_string());
    assert!(result.is_err());
}

#[test]
fn invalid_address_format_is_rejected() {
    let result = ServerAddress::from_string("not a valid uri".to_string());
    assert!(matches!(result, Err(AddressError::InvalidFormat)));
}

#[test]
fn an_address_without_a_host_is_rejected() {
    let result = ServerAddress::from_string("/deploy/".to_string());
    assert!(matches!(result, Err(AddressError::MissingAuthority)));
}

#[test]
fn queries_do_not_belong_to_the_path() {
    let with_path = address("wss://user@host/deploy?key=1?2");
    assert_eq!(with_path.path(), "/deploy");
    assert_eq!(with_path.host().as_deref(), Some("host"));
    assert_eq!(with_path.port_u16(), None);
    assert_eq!(with_path.to_uri(), "wss://user@host/deploy?key=1?2");
    let bare = address("wss://host?key=1");
    assert_eq!(bare.path(), "/");
    assert_eq!(bare.query().as_deref(), Some("key=1"));
    assert_eq!(bare.path_and_query(), "?key=1");
    assert_eq!(bare.to_uri(), "wss://host/?key=1");
    assert_eq!(with_path.query().as_deref(), Some("key=1?2"));
    assert_eq!(with_path.authority(), "user@host");
    assert_eq!(address("wss://host/?").query().as_deref(), Some(""));
    assert_eq!(address("example.com").query(), None);
    for text in ["wss://host?key=1", "ws://h:1/a/b?c#d", "http://[::1]:80/x", "example.com"] {
        let uri: axum::http::Uri = address(text).to_uri().parse().unwrap();
        assert_eq!(Some(uri.path()), Some(address(text).path().as_str()));
        assert_eq!(uri.host(), address(text).host().as_deref());
        assert_eq!(uri.port_u16(), address(text).port_u16());
        assert_eq!(uri.query(), address(text).query().as_deref());
        assert_eq!(uri.to_string(), address(text).to_uri());
    }
}

#[test]
fn an_address_reads_back_from_its_own_uri() {
    for text in [
        "example.com",
        "example.com:8081",
        "x",
        "user:pass@host:1",
        "[::1]:8091",
        "HTTP://Host",
        "WSS://Host/Deploy?to=here#there",
        "ws://host?q",
        "ws://host#there",
        "a-b.c+1://host/\u{e9}",
        "://host",
        "ws://*",
    ] {
        let first = address(text);
        let again = address(&first.to_uri());
        assert_eq!(first.scheme_str(), again.scheme_str(), "{text}");
        assert_eq!(first.authority(), again.authority(), "{text}");
        assert_eq!(first.path(), again.path(), "{text}");
        assert_eq!(first.query(), again.query(), "{text}");
        assert_eq!(first.to_uri(), again.to_uri(), "{text}");
    }
    assert_eq!(address("example.com").to_uri(), "wss://example.com/");
    let longest = "a".repeat(65534);
    assert!(ServerAddress::from_string(address(&longest).to_uri()).is_err());
    let shorter = address(&longest[..65527]);
    assert_eq!(shorter.to_uri().len(), 65534);
    assert_eq!(address(&shorter.to_uri()).host(), shorter.host());
}

fn v4(a: u8, b: u8, c: u8, d: u8) -> IpAddress {
    IpAddress::V4([a, b, c, d])
}

fn network(address: IpAddress, prefix: u8) -> IpNetwork {
    IpNetwork::new(address, prefix).unwrap()
}

#[test]
fn networks_have_no_bits_after_their_prefix() {
    assert!(IpNetwork::new(v4(10, 0, 0, 0), 8).is_some());
    assert!(IpNetwork::new(v4(10, 0, 0, 1), 8).is_none());
    assert!(IpNetwork::new(v4(10, 128, 0, 0), 9).is_some());
    assert!(IpNetwork::new(v4(10, 128, 0, 0), 8).is_none());
    assert!(IpNetwork::new(v4(127, 0, 0, 1), 32).is_some());
    assert!(IpNetwork::new(v4(127, 0, 0, 1), 33).is_none());
    assert!(IpNetwork::new(v4(0, 0, 0, 0), 0).is_some());
    let mut octets = [0u8; 16];
    octets[0] = 0xfc;
    assert!(IpNetwork::new(IpAddress::V6(octets), 7).is_some());
    assert!(IpNetwork::new(IpAddress::V6(octets), 5).is_none());
    assert!(IpNetwork::new(IpAddress::V6(octets), 129).is_none());
}

#[test]
fn networks_contain_the_addresses_with_their_prefix() {
    let ten = network(v4(10, 0, 0, 0), 8);
    assert!(ten.contains(&v4(10, 255, 1, 2)));
    assert!(!ten.contains(&v4(11, 0, 0, 0)));
    assert!(network(v4(0, 0, 0, 0), 0).contains(&v4(255, 255, 255, 255)));
    assert!(network(v4(192, 168, 0, 4), 30).contains(&v4(192, 168, 0, 7)));
    assert!(!network(v4(192, 168, 0, 4), 30).contains(&v4(192, 168, 0, 8)));
    let mut octets = [0u8; 16];
    octets[0] = 0xfc;
    let local = network(IpAddress::V6(octets), 7);
    octets[0] = 0xfd;
    octets[15] = 9;
    assert!(local.contains(&IpAddress::V6(octets)));
    octets[0] = 0xfe;
    assert!(!local.contains(&IpAddress::V6(octets)));
    assert!(!ten.contains(&IpAddress::V6([10; 16])));
    assert!(!local.contains(&v4(252, 0, 0, 0)));
}

#[test]
fn lists_let_in_and_keep_out() {
    let local = Some(v4(127, 0, 0, 1));
    let ten = || Some(vec![network(v4(10, 0, 0, 0), 8)]);
    let home = || Some(vec![network(v4(10, 0, 0, 0), 8), network(v4(127, 0, 0, 1), 32)]);
    assert!(is_let_in(&None, &None, &local));
    assert!(!is_let_in(&ten(), &None, &local));
    assert!(is_let_in(&home(), &None, &local));
    assert!(!is_let_in(&None, &home(), &local));
    assert!(is_let_in(&None, &ten(), &local));
    assert!(!is_let_in(&home(), &home(), &local));
    assert!(!is_let_in(&Some(vec![]), &None, &local));
    assert!(is_let_in(&ten(), &home(), &None));
}

#[test]
fn a_forwarded_address_comes_before_that_of_the_connection() {
    let forwarded = Some(v4(1, 1, 1, 1));
    let connection = Some(v4(127, 0, 0, 1));
    assert_eq!(peer_address(forwarded, connection), forwarded);
    assert_eq!(peer_address(None, connection), connection);
    assert_eq!(peer_address(None, None), None);
}
