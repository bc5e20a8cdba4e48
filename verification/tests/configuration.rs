use orosu::client::Client;
use orosu::configuration::{
    Configuration, ConfigurationError, ListenConfiguration, LogLevelConfiguration, SocketAddress,
};
use orosu::ip::{IpAddress, IpNetwork};
use orosu::script::Script;
use orosu::server::StatusCode;

#[test]
fn log_level_defaults_to_info() {
    assert_eq!(
        LogLevelConfiguration::default(),
        LogLevelConfiguration::Info
    );
}

#[test]
fn log_level_converts_to_the_matching_tracing_level() {
    assert_eq!(
        tracing::Level::from(LogLevelConfiguration::Debug),
        tracing::Level::DEBUG
    );
    assert_eq!(
        tracing::Level::from(LogLevelConfiguration::Info),
        tracing::Level::INFO
    );
    assert_eq!(
        tracing::Level::from(LogLevelConfiguration::Warn),
        tracing::Level::WARN
    );
    assert_eq!(
        tracing::Level::from(LogLevelConfiguration::Error),
        tracing::Level::ERROR
    );
}

fn script(name: &str) -> Script {
    Script {
        name: name.to_string(),
        run_as: None,
        command: vec!["true".to_string()],
    }
}

fn client(name: &str, scripts: &[&str]) -> Client {
    Client {
        name: name.to_string(),
        secret_file: "public.key".to_string(),
        whitelisted_ips: None,
        blacklisted_ips: None,
        scripts: scripts.iter().map(|name| script(name)).collect(),
    }
}

fn configuration(clients: Vec<Client>) -> Configuration {
    Configuration {
        listen: ListenConfiguration::Tcp(SocketAddress {
            ip: IpAddress::V4([0, 0, 0, 0]),
            port: 8081,
        }),
        log_level: LogLevelConfiguration::default(),
        ip_whitelist: None,
        ip_blacklist: None,
        clients,
        encryption_key_file: None,
    }
}

#[test]
fn names_of_their_own_are_accepted() {
    assert!(configuration(vec![]).validate().is_ok());
    let clients = vec![
        client("one", &["deploy", "test"]),
        client("two", &["deploy", "test"]),
    ];
    assert!(configuration(clients).validate().is_ok());
}

#[test]
fn a_client_name_that_is_used_twice_is_rejected() {
    let clients = vec![
        client("one", &[]),
        client("two", &["a", "a"]),
        client("three", &[]),
        client("two", &[]),
        client("one", &[]),
    ];
    match configuration(clients).validate() {
        Err(ConfigurationError::DuplicateClient(name)) => assert_eq!(name, "two"),
        other => panic!("expected a duplicate client, got {other:?}"),
    }
}

#[test]
fn a_script_name_that_a_client_uses_twice_is_rejected() {
    let clients = vec![client("one", &["a", "b"]), client("two", &["b", "c", "b"])];
    match configuration(clients).validate() {
        Err(ConfigurationError::DuplicateScript { client, script }) => {
            assert_eq!(client, "two");
            assert_eq!(script, "b");
        }
        other => panic!("expected a duplicate script, got {other:?}"),
    }
}

#[test]
fn the_global_lists_are_applied_to_requests() {
    let mut configuration = configuration(vec![]);
    let local = Some(IpAddress::V4([127, 0, 0, 1]));
    assert_eq!(configuration.filter_peer(None, local), Ok(()));
    configuration.ip_blacklist =
        Some(vec![IpNetwork::new(IpAddress::V4([127, 0, 0, 1]), 32).unwrap()]);
    assert_eq!(
        configuration.filter_peer(None, local),
        Err(StatusCode::Forbidden)
    );
    assert_eq!(
        configuration.filter_peer(Some(IpAddress::V4([1, 2, 3, 4])), local),
        Ok(())
    );
    assert_eq!(configuration.filter_peer(None, None), Ok(()));
    assert_eq!(StatusCode::Forbidden.as_u16(), 403);
    assert_eq!(StatusCode::BadRequest.as_u16(), 400);
    assert_eq!(StatusCode::Unauthorized.as_u16(), 401);
    assert_eq!(StatusCode::InternalServerError.as_u16(), 500);
}

fn networks(octets: [u8; 4], prefix: u8) -> Option<Vec<IpNetwork>> {
    Some(vec![IpNetwork::new(IpAddress::V4(octets), prefix).unwrap()])
}

fn rejection_of_local_peer(configuration: &Configuration) -> Option<u16> {
    let local = Some(IpAddress::V4([127, 0, 0, 1]));
    configuration.filter_peer(None, local).err().map(|status| status.as_u16())
}

#[test]
fn global_blacklist_rejects_before_auth_even_runs() {
    let mut configuration = configuration(vec![client("test-client", &["hello"])]);
    configuration.ip_blacklist = networks([127, 0, 0, 1], 32);
    assert_eq!(rejection_of_local_peer(&configuration), Some(403));
}

#[test]
fn global_whitelist_rejects_a_non_matching_ip() {
    let mut configuration = configuration(vec![client("test-client", &["hello"])]);
    configuration.ip_whitelist = networks([10, 0, 0, 0], 8);
    assert_eq!(rejection_of_local_peer(&configuration), Some(403));
}

#[test]
fn global_whitelist_allows_a_matching_ip_through_to_auth() {
    let mut configuration = configuration(vec![client("test-client", &["hello"])]);
    configuration.ip_whitelist = networks([127, 0, 0, 1], 32);
    assert_eq!(rejection_of_local_peer(&configuration), None);
}

#[test]
fn unix_socket_connection_succeeds_even_when_a_global_whitelist_is_configured() {
    let mut configuration = configuration(vec![client("test-client", &["hello"])]);
    configuration.listen = ListenConfiguration::Socket("/tmp/orosu.sock".to_string());
    configuration.ip_whitelist = networks([10, 0, 0, 0], 8);
    assert_eq!(configuration.filter_peer(None, None), Ok(()));
}

#[test]
fn copies_of_a_client_are_like_it() {
    let mut original = client("one", &["a", "b"]);
    original.whitelisted_ips =
        Some(vec![IpNetwork::new(IpAddress::V4([10, 0, 0, 0]), 8).unwrap()]);
    original.scripts[0].run_as = Some("deploy".to_string());
    let copy = original.clone();
    assert_eq!(format!("{copy:?}"), format!("{original:?}"));
}
