use crate::types::{address_views, Address, AddressView};
use get_if_addrs::{get_if_addrs, IfAddr};
use vstd::prelude::*;

verus! {

/// The address of one network interface, as the host reports it: the
/// address family and the address in text form.
pub enum HostAddress {
    V4(String),
    V6(String),
}

/// The endpoint that an interface address gives for `port`: IPv4 addresses
/// give one, others give none.
pub open spec fn endpoint(host: HostAddress, port: u16) -> Option<AddressView> {
    match host {
        HostAddress::V4(ip) => Some(AddressView { ip: ip@, port }),
        HostAddress::V6(_) => None,
    }
}

/// The endpoints for `port` on the IPv4 addresses among `hosts`, in their order.
pub open spec fn endpoints(hosts: Seq<HostAddress>, port: u16) -> Seq<AddressView> {
    hosts.filter_map(|host: HostAddress| endpoint(host, port))
}

/// The endpoints that an enumeration of the interfaces gives for `port`; an
/// enumeration that failed gives none.
pub open spec fn reachable(found: Option<Vec<HostAddress>>, port: u16) -> Seq<AddressView> {
    match found {
        Some(hosts) => endpoints(hosts@, port),
        None => Seq::empty(),
    }
}

/// Calls `get_if_addrs::get_if_addrs` and hands back each interface's address
/// with its family, in the order of the enumeration; `None` where the
/// enumeration failed. What comes back depends on the machine, so nothing is
/// claimed of it.
#[verifier::external_body]
fn host_addresses() -> (found: Option<Vec<HostAddress>>) {
    match get_if_addrs() {
        Ok(interfaces) => Some(
            interfaces.into_iter().map(|interface| match interface.addr {
                IfAddr::V4(v4) => HostAddress::V4(v4.ip.to_string()),
                IfAddr::V6(v6) => HostAddress::V6(v6.ip.to_string()),
            }).collect(),
        ),
        Err(_) => None,
    }
}

/// Pairs each IPv4 address of an enumeration with `port`, keeping the order
/// of the enumeration. A failed enumeration, or one without an IPv4 address,
/// gives an empty list.
pub fn addresses_of(found: &Option<Vec<HostAddress>>, port: u16) -> (addresses: Vec<Address>)
    ensures
        address_views(addresses@) == reachable(*found, port),
{
    let mut addresses: Vec<Address> = Vec::new();
    match found {
        Some(hosts) => {
            let mut i: usize = 0;
            assert(address_views(addresses@) =~= endpoints(hosts@.take(0), port));
            while i < hosts.len()
                invariant
                    i <= hosts.len(),
                    address_views(addresses@) == endpoints(hosts@.take(i as int), port),
                decreases hosts.len() - i,
            {
                proof {
                    hosts@.lemma_filter_map_take_succ(|host: HostAddress| endpoint(host, port), i as int);
                }
                let ghost before = addresses@;
                match &hosts[i] {
                    HostAddress::V4(ip) => {
                        let address = Address { ip: ip.clone(), port };
                        addresses.push(address);
                        assert(address_views(addresses@) =~= address_views(before) + seq![address@]);
                    },
                    HostAddress::V6(_) => {},
                }
                i += 1;
            }
            assert(hosts@.take(hosts.len() as int) =~= hosts@);
        },
        None => {
            assert(address_views(addresses@) =~= Seq::<AddressView>::empty());
        },
    }
    addresses
}

/// The endpoints at which this machine can be reached on `port`: one for each
/// IPv4 address of its interfaces. The list is empty where the interfaces
/// cannot be enumerated or none has an IPv4 address.
pub fn local_addresses(port: u16) -> (addresses: Vec<Address>)
    ensures
        forall|i: int| 0 <= i < addresses.len() ==> addresses[i].port == port,
{
    let found = host_addresses();
    let addresses = addresses_of(&found, port);
    proof {
        lemma_endpoints_port(found, port);
        assert forall|i: int| 0 <= i < addresses.len() implies addresses[i].port == port by {
            assert(address_views(addresses@)[i] == addresses[i]@);
        }
    }
    addresses
}

/// Every endpoint of an enumeration carries the port it was asked for.
pub proof fn lemma_endpoints_port(found: Option<Vec<HostAddress>>, port: u16)
    ensures
        forall|i: int| 0 <= i < reachable(found, port).len() ==> reachable(found, port)[i].port == port,
{
    if let Some(hosts) = found {
        lemma_endpoints_of_seq(hosts@, port);
    }
}

proof fn lemma_endpoints_of_seq(hosts: Seq<HostAddress>, port: u16)
    ensures
        endpoints(hosts, port).len() <= hosts.len(),
        forall|i: int| 0 <= i < endpoints(hosts, port).len() ==> endpoints(hosts, port)[i].port == port,
    decreases hosts.len(),
{
    if hosts.len() > 0 {
        lemma_endpoints_of_seq(hosts.drop_last(), port);
    }
}

} // verus!
