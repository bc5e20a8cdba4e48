//! IP addresses, networks, and the lists that let addresses in or keep them
//! out.

use crate::outside;
use vstd::prelude::*;

verus! {

/// An IP address.
#[derive(Debug, Clone, Copy, PartialEq, Eq)]
pub enum IpAddress {
    V4([u8; 4]),
    V6([u8; 16]),
}

/// An IP network: an address of which only a prefix counts.
#[derive(Debug, Clone, Copy, PartialEq, Eq)]
pub struct IpNetwork {
    address: IpAddress,
    prefix: u8,
}

/// Whether an address with a prefix length is a network.
pub open spec fn is_ip_network(address: IpAddress, prefix: int) -> bool {
    match address {
        IpAddress::V4(octets) => outside::is_network(octets@, prefix),
        IpAddress::V6(octets) => outside::is_network(octets@, prefix),
    }
}

/// Whether an address is of the network's family and has its prefix.
pub open spec fn in_network(network: IpAddress, prefix: int, address: IpAddress) -> bool {
    match (network, address) {
        (IpAddress::V4(network), IpAddress::V4(address)) => outside::same_prefix(
            network@,
            address@,
            prefix,
        ),
        (IpAddress::V6(network), IpAddress::V6(address)) => outside::same_prefix(
            network@,
            address@,
            prefix,
        ),
        _ => false,
    }
}

impl IpNetwork {
    #[verifier::type_invariant]
    spec fn is_a_network(self) -> bool {
        is_ip_network(self.address, self.prefix as int)
    }

    /// The first address of the network.
    pub closed spec fn address(&self) -> IpAddress {
        self.address
    }

    /// How many leading bits of the address count.
    pub closed spec fn prefix(&self) -> int {
        self.prefix as int
    }

    /// Whether an address lies in the network.
    pub open spec fn covers(&self, address: IpAddress) -> bool {
        in_network(self.address(), self.prefix(), address)
    }

    /// The network with this address and prefix length, where there is one.
    pub fn new(address: IpAddress, prefix: u8) -> (network: Option<IpNetwork>)
        ensures
            network is Some <==> is_ip_network(address, prefix as int),
            network matches Some(n) ==> n.address() == address && n.prefix() == prefix,
    {
        let valid = match &address {
            IpAddress::V4(octets) => outside::ipv4_network_exists(octets, prefix),
            IpAddress::V6(octets) => outside::ipv6_network_exists(octets, prefix),
        };
        if valid {
            Some(IpNetwork { address, prefix })
        } else {
            None
        }
    }

    /// Whether an address lies in the network.
    pub fn contains(&self, address: &IpAddress) -> (inside: bool)
        ensures
            inside == self.covers(*address),
    {
        proof {
            use_type_invariant(self);
        }
        match (&self.address, address) {
            (IpAddress::V4(network), IpAddress::V4(address)) => outside::ipv4_network_contains(
                network,
                self.prefix,
                address,
            ),
            (IpAddress::V6(network), IpAddress::V6(address)) => outside::ipv6_network_contains(
                network,
                self.prefix,
                address,
            ),
            _ => false,
        }
    }
}

/// Whether some network of a list covers an address.
pub open spec fn listed(networks: Seq<IpNetwork>, address: IpAddress) -> bool {
    exists|i: int| 0 <= i < networks.len() && (#[trigger] networks[i]).covers(address)
}

/// Whether the lists let a peer in: a peer without an address always; one with
/// an address if a whitelist, where there is one, lists it and a blacklist,
/// where there is one, does not.
pub open spec fn lets_in(
    whitelist: Option<Vec<IpNetwork>>,
    blacklist: Option<Vec<IpNetwork>>,
    address: Option<IpAddress>,
) -> bool {
    match address {
        None => true,
        Some(address) => {
            &&& whitelist matches Some(networks) ==> listed(networks@, address)
            &&& blacklist matches Some(networks) ==> !listed(networks@, address)
        },
    }
}

fn any_contains(networks: &Vec<IpNetwork>, address: &IpAddress) -> (found: bool)
    ensures
        found == listed(networks@, *address),
{
    let mut i: usize = 0;
    while i < networks.len()
        invariant
            i <= networks.len(),
            forall|j: int| 0 <= j < i ==> !(#[trigger] networks@[j]).covers(*address),
        decreases networks.len() - i,
    {
        if networks[i].contains(address) {
            assert(networks@[i as int].covers(*address));
            return true;
        }
        i = i + 1;
    }
    false
}

/// Whether the lists let a peer in. A peer without an address, on a Unix
/// socket, has nothing to be listed by and is let in.
pub fn is_let_in(
    whitelist: &Option<Vec<IpNetwork>>,
    blacklist: &Option<Vec<IpNetwork>>,
    address: &Option<IpAddress>,
) -> (allowed: bool)
    ensures
        allowed == lets_in(*whitelist, *blacklist, *address),
{
    match address {
        None => true,
        Some(address) => {
            let admitted = match whitelist {
                Some(networks) => any_contains(networks, address),
                None => true,
            };
            let barred = match blacklist {
                Some(networks) => any_contains(networks, address),
                None => false,
            };
            admitted && !barred
        },
    }
}

/// The address to filter a peer by: the one that a proxy forwarded, or else
/// the one that the connection came from, where it has one.
pub fn peer_address(forwarded: Option<IpAddress>, connection: Option<IpAddress>) -> (address: Option<
    IpAddress,
>)
    ensures
        address == (if forwarded is Some {
            forwarded
        } else {
            connection
        }),
{
    match forwarded {
        Some(address) => Some(address),
        None => connection,
    }
}

/// Without lists, everybody is let in; and a peer without an address is,
/// whatever the lists.
pub proof fn law_lists_need_an_address(
    whitelist: Option<Vec<IpNetwork>>,
    blacklist: Option<Vec<IpNetwork>>,
    address: Option<IpAddress>,
)
    ensures
        lets_in(whitelist, blacklist, None),
        lets_in(None, None, address),
{
}

} // verus!
