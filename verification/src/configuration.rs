//! The server's configuration.

use crate::client::Client;
use crate::ip::{is_let_in, peer_address, IpAddress, IpNetwork};
use crate::outside;
use crate::script::Script;
use crate::server::StatusCode;
use vstd::prelude::*;
use vstd::string::*;

verus! {

/// A TCP socket's address.
#[derive(Debug, Clone, Copy)]
pub struct SocketAddress {
    pub ip: IpAddress,
    pub port: u16,
}

/// Where the server listens: on a TCP socket, or on a Unix socket at a path.
#[derive(Debug)]
pub enum ListenConfiguration {
    Tcp(SocketAddress),
    Socket(String),
}

/// How much the server logs.
#[derive(Debug, Clone, Copy, PartialEq, Eq, Structural)]
pub enum LogLevelConfiguration {
    Debug,
    Info,
    Warn,
    Error,
}

impl Default for LogLevelConfiguration {
    fn default() -> (level: LogLevelConfiguration)
        ensures
            level == LogLevelConfiguration::Info,
    {
        LogLevelConfiguration::Info
    }
}

/// The name of a level.
pub open spec fn level_name(level: LogLevelConfiguration) -> Seq<char> {
    match level {
        LogLevelConfiguration::Debug => "debug"@,
        LogLevelConfiguration::Info => "info"@,
        LogLevelConfiguration::Warn => "warn"@,
        LogLevelConfiguration::Error => "error"@,
    }
}

impl From<LogLevelConfiguration> for tracing::Level {
    fn from(value: LogLevelConfiguration) -> (level: tracing::Level) {
        match value {
            LogLevelConfiguration::Debug => outside::tracing_level("debug"),
            LogLevelConfiguration::Info => outside::tracing_level("info"),
            LogLevelConfiguration::Warn => outside::tracing_level("warn"),
            LogLevelConfiguration::Error => outside::tracing_level("error"),
        }
    }
}

impl vstd::std_specs::convert::FromSpecImpl<LogLevelConfiguration> for tracing::Level {
    open spec fn obeys_from_spec() -> bool {
        true
    }

    open spec fn from_spec(value: LogLevelConfiguration) -> tracing::Level {
        outside::level_named(level_name(value))
    }
}

/// The server's configuration.
#[derive(Debug)]
pub struct Configuration {
    pub listen: ListenConfiguration,
    pub log_level: LogLevelConfiguration,
    pub ip_whitelist: Option<Vec<IpNetwork>>,
    pub ip_blacklist: Option<Vec<IpNetwork>>,
    pub clients: Vec<Client>,
    /// Where the server's own X25519 key is. Without it the encrypted protocol
    /// version is not accepted.
    pub encryption_key_file: Option<String>,
}

/// Something with a name.
pub trait Named {
    /// The name.
    spec fn name_text(&self) -> Seq<char>;

    /// The name.
    fn name_of(&self) -> (name: &String)
        ensures
            name@ == self.name_text(),
    ;
}

impl Named for Client {
    open spec fn name_text(&self) -> Seq<char> {
        self.name@
    }

    fn name_of(&self) -> (name: &String) {
        &self.name
    }
}

impl Named for Script {
    open spec fn name_text(&self) -> Seq<char> {
        self.name@
    }

    fn name_of(&self) -> (name: &String) {
        &self.name
    }
}

/// Whether no two things of a list have the same name.
pub open spec fn distinct_names<T: Named>(list: Seq<T>) -> bool {
    forall|i: int, j: int|
        0 <= i < j < list.len() ==> (#[trigger] list[i]).name_text() != (
        #[trigger] list[j]).name_text()
}

/// Whether `at` is the first thing of a list with a name that came before.
pub open spec fn first_repeated<T: Named>(list: Seq<T>, at: int) -> bool {
    &&& 0 <= at < list.len()
    &&& exists|i: int| 0 <= i < at && (#[trigger] list[i]).name_text() == list[at].name_text()
    &&& distinct_names(list.subrange(0, at))
}

fn find_repeated<T: Named>(list: &Vec<T>) -> (at: Option<usize>)
    ensures
        match at {
            Some(at) => first_repeated(list@, at as int),
            None => distinct_names(list@),
        },
{
    let mut at: usize = 0;
    while at < list.len()
        invariant
            at <= list.len(),
            distinct_names(list@.subrange(0, at as int)),
        decreases list.len() - at,
    {
        let mut i: usize = 0;
        while i < at
            invariant
                i <= at < list.len(),
                distinct_names(list@.subrange(0, at as int)),
                forall|j: int|
                    0 <= j < i ==> (#[trigger] list@[j]).name_text() != list@[at as int].name_text(),
            decreases at - i,
        {
            if *list[i].name_of() == *list[at].name_of() {
                assert(list@[i as int].name_text() == list@[at as int].name_text());
                return Some(at);
            }
            i = i + 1;
        }
        proof {
            let longer = list@.subrange(0, at + 1);
            assert forall|a: int, b: int| 0 <= a < b < longer.len() implies (
            #[trigger] longer[a]).name_text() != (#[trigger] longer[b]).name_text() by {
                if b < at {
                    assert(list@.subrange(0, at as int)[a] == longer[a]);
                    assert(list@.subrange(0, at as int)[b] == longer[b]);
                } else {
                    assert(longer[a] == list@[a]);
                }
            }
        }
        at = at + 1;
    }
    assert(list@.subrange(0, at as int) =~= list@);
    None
}

/// What is wrong with a configuration.
#[derive(Debug)]
pub enum ConfigurationError {
    /// Two clients have this name.
    DuplicateClient(String),
    /// Two scripts of this client have this name.
    DuplicateScript { client: String, script: String },
}

/// Whether every client's scripts have names of their own.
pub open spec fn distinct_script_names(clients: Seq<Client>) -> bool {
    forall|i: int| 0 <= i < clients.len() ==> distinct_names((#[trigger] clients[i]).scripts@)
}

impl Configuration {
    /// Checks that no two clients, and no two scripts of a client, have the
    /// same name: the second could never be reached.
    pub fn validate(&self) -> (result: Result<(), ConfigurationError>)
        ensures
            match result {
                Ok(()) => distinct_names(self.clients@) && distinct_script_names(self.clients@),
                Err(ConfigurationError::DuplicateClient(name)) => exists|at: int| #[trigger]
                    first_repeated(self.clients@, at) && name@ == self.clients@[at].name@,
                Err(ConfigurationError::DuplicateScript { client, script }) => {
                    &&& distinct_names(self.clients@)
                    &&& exists|i: int, at: int|
                        {
                            &&& 0 <= i < self.clients@.len()
                            &&& distinct_script_names(self.clients@.subrange(0, i))
                            &&& #[trigger] first_repeated(self.clients@[i].scripts@, at)
                            &&& client@ == self.clients@[i].name@
                            &&& script@ == self.clients@[i].scripts@[at].name@
                        }
                },
            },
    {
        match find_repeated(&self.clients) {
            Some(at) => {
                return Err(ConfigurationError::DuplicateClient(self.clients[at].name.clone()));
            },
            None => {},
        }
        let mut i: usize = 0;
        while i < self.clients.len()
            invariant
                i <= self.clients.len(),
                distinct_names(self.clients@),
                distinct_script_names(self.clients@.subrange(0, i as int)),
            decreases self.clients.len() - i,
        {
            let client = &self.clients[i];
            match find_repeated(&client.scripts) {
                Some(at) => {
                    assert(first_repeated(self.clients@[i as int].scripts@, at as int));
                    return Err(
                        ConfigurationError::DuplicateScript {
                            client: client.name.clone(),
                            script: client.scripts[at].name.clone(),
                        },
                    );
                },
                None => {},
            }
            proof {
                let longer = self.clients@.subrange(0, i + 1);
                assert forall|k: int| 0 <= k < longer.len() implies distinct_names(
                    (#[trigger] longer[k]).scripts@,
                ) by {
                    if k < i {
                        assert(longer[k] == self.clients@.subrange(0, i as int)[k]);
                    }
                }
            }
            i = i + 1;
        }
        assert(self.clients@.subrange(0, i as int) =~= self.clients@);
        Ok(())
    }

    /// Decides whether a request may go on to authentication, by where it
    /// comes from: the address that a proxy forwarded, or else that of the
    /// connection.
    pub fn filter_peer(&self, forwarded: Option<IpAddress>, connection: Option<IpAddress>) -> (result:
        Result<(), StatusCode>)
        ensures
            result == (if crate::ip::lets_in(
                self.ip_whitelist,
                self.ip_blacklist,
                if forwarded is Some {
                    forwarded
                } else {
                    connection
                },
            ) {
                Ok(())
            } else {
                Err(StatusCode::Forbidden)
            }),
    {
        let address = peer_address(forwarded, connection);
        if is_let_in(&self.ip_whitelist, &self.ip_blacklist, &address) {
            Ok(())
        } else {
            Err(StatusCode::Forbidden)
        }
    }
}

/// In a configuration that passes the check every client is the one that its
/// name leads to.
pub proof fn law_every_client_can_be_reached(clients: Seq<Client>, i: int)
    requires
        distinct_names(clients),
        0 <= i < clients.len(),
    ensures
        crate::client::first_client_named(clients, clients[i].name@, i),
{
    assert forall|j: int| 0 <= j < i implies (#[trigger] clients[j]).name@ != clients[i].name@ by {
        assert(clients[j].name_text() != clients[i].name_text());
    }
}

/// In a configuration that passes the check every script is the one that its
/// name leads to.
pub proof fn law_every_script_can_be_reached(clients: Seq<Client>, i: int, k: int)
    requires
        distinct_script_names(clients),
        0 <= i < clients.len(),
        0 <= k < clients[i].scripts@.len(),
    ensures
        crate::script::first_named(clients[i].scripts@, clients[i].scripts@[k].name@, k),
{
    let scripts = clients[i].scripts@;
    assert(distinct_names(scripts));
    assert forall|j: int| 0 <= j < k implies (#[trigger] scripts[j]).name@ != scripts[k].name@ by {
        assert(scripts[j].name_text() != scripts[k].name_text());
    }
}

} // verus!
