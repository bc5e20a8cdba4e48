//! The clients that a server knows.

use crate::ip::IpNetwork;
use crate::script::Script;
use vstd::prelude::*;

verus! {

/// A client: its name, the file with its public key, from where it may
/// connect, and the scripts that it may run.
#[derive(Debug)]
pub struct Client {
    pub name: String,
    pub secret_file: String,
    pub whitelisted_ips: Option<Vec<IpNetwork>>,
    pub blacklisted_ips: Option<Vec<IpNetwork>>,
    pub scripts: Vec<Script>,
}

/// A client's contents.
pub struct ClientModel {
    pub name: Seq<char>,
    pub secret_file: Seq<char>,
    pub whitelisted_ips: Option<Seq<IpNetwork>>,
    pub blacklisted_ips: Option<Seq<IpNetwork>>,
    pub scripts: Seq<crate::script::ScriptModel>,
}

/// An optional list's contents.
pub open spec fn optional_networks(networks: Option<Vec<IpNetwork>>) -> Option<Seq<IpNetwork>> {
    match networks {
        Some(networks) => Some(networks@),
        None => None,
    }
}

/// The contents of several scripts.
pub open spec fn script_models(scripts: Seq<Script>) -> Seq<crate::script::ScriptModel> {
    Seq::new(scripts.len(), |i: int| scripts[i]@)
}

impl View for Client {
    type V = ClientModel;

    open spec fn view(&self) -> ClientModel {
        ClientModel {
            name: self.name@,
            secret_file: self.secret_file@,
            whitelisted_ips: optional_networks(self.whitelisted_ips),
            blacklisted_ips: optional_networks(self.blacklisted_ips),
            scripts: script_models(self.scripts@),
        }
    }
}

fn copy_networks(networks: &Option<Vec<IpNetwork>>) -> (copy: Option<Vec<IpNetwork>>)
    ensures
        optional_networks(copy) == optional_networks(*networks),
{
    match networks {
        Some(networks) => {
            let mut copy: Vec<IpNetwork> = Vec::new();
            let mut i: usize = 0;
            while i < networks.len()
                invariant
                    i <= networks.len(),
                    copy@ =~= networks@.subrange(0, i as int),
                decreases networks.len() - i,
            {
                copy.push(networks[i]);
                i = i + 1;
            }
            assert(copy@ =~= networks@);
            Some(copy)
        },
        None => None,
    }
}

fn copy_scripts(scripts: &Vec<Script>) -> (copy: Vec<Script>)
    ensures
        script_models(copy@) == script_models(scripts@),
{
    let mut copy: Vec<Script> = Vec::new();
    let mut i: usize = 0;
    while i < scripts.len()
        invariant
            i <= scripts.len(),
            copy@.len() == i,
            forall|j: int| 0 <= j < i ==> (#[trigger] copy@[j])@ == scripts@[j]@,
        decreases scripts.len() - i,
    {
        copy.push(scripts[i].clone());
        i = i + 1;
    }
    assert(script_models(copy@) =~= script_models(scripts@));
    copy
}

impl Clone for Client {
    fn clone(&self) -> (copy: Client)
        ensures
            copy@ == self@,
    {
        Client {
            name: self.name.clone(),
            secret_file: self.secret_file.clone(),
            whitelisted_ips: copy_networks(&self.whitelisted_ips),
            blacklisted_ips: copy_networks(&self.blacklisted_ips),
            scripts: copy_scripts(&self.scripts),
        }
    }
}

/// Whether `at` is the first client with this name.
pub open spec fn first_client_named(clients: Seq<Client>, name: Seq<char>, at: int) -> bool {
    &&& 0 <= at < clients.len()
    &&& clients[at].name@ == name
    &&& forall|i: int| 0 <= i < at ==> (#[trigger] clients[i]).name@ != name
}

/// The first client with this name.
pub fn find_client(clients: &Vec<Client>, name: &String) -> (at: Option<usize>)
    ensures
        match at {
            Some(at) => first_client_named(clients@, name@, at as int),
            None => forall|i: int| 0 <= i < clients@.len() ==> (#[trigger] clients@[i]).name@
                != name@,
        },
{
    let mut i: usize = 0;
    while i < clients.len()
        invariant
            i <= clients.len(),
            forall|j: int| 0 <= j < i ==> (#[trigger] clients@[j]).name@ != name@,
        decreases clients.len() - i,
    {
        if clients[i].name == *name {
            return Some(i);
        }
        i = i + 1;
    }
    None
}

} // verus!
