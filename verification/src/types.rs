use std::path::PathBuf;
use tokio::sync::mpsc::Sender;
use vstd::prelude::*;

verus! {

/// `std::path::PathBuf`, carried through as an opaque value.
#[verifier::external_type_specification]
#[verifier::external_body]
pub struct ExPathBuf(PathBuf);

/// `tokio::sync::mpsc::Sender`, carried through as an opaque value: the
/// capability to signal a running instance.
#[verifier::external_type_specification]
#[verifier::external_body]
#[verifier::reject_recursive_types(T)]
pub struct ExSender<T>(Sender<T>);

/// `Clone` for `PathBuf`: the copy equals the path it was made from.
pub assume_specification[ <PathBuf as Clone>::clone ](path: &PathBuf) -> (copy: PathBuf)
    ensures
        copy == *path,
;

/// A local directory exposed under the URL segment `name`.
#[derive(Debug, Clone, Eq, PartialEq, Hash)]
pub struct LinkedPath {
    pub name: String,
    pub path: PathBuf,
}

/// A named bundle of directories served together by one instance.
#[derive(Debug)]
pub struct Network {
    pub name: String,
    pub linked_paths: Vec<LinkedPath>,
}

#[derive(Clone)]
pub enum ServerMode {
    LocalHost,
    Internet,
    DarkWeb,
}

pub type NetworkName = String;

/// One reachable endpoint of a running instance.
#[derive(Clone)]
pub struct Address {
    pub ip: String,
    pub port: u16,
}

/// An endpoint as a mathematical value.
pub struct AddressView {
    pub ip: Seq<char>,
    pub port: u16,
}

impl View for Address {
    type V = AddressView;

    open spec fn view(&self) -> AddressView {
        AddressView { ip: self.ip@, port: self.port }
    }
}

/// The endpoints in `addresses`, each as a mathematical value, in order.
pub open spec fn address_views(addresses: Seq<Address>) -> Seq<AddressView> {
    addresses.map_values(|a: Address| a@)
}

/// What a listing shows of an instance: its identifier and where it can be reached.
pub struct ServerSummary {
    pub id: u64,
    pub addresses: Seq<AddressView>,
}

/// A running instance as the registry holds it: its identifier, where it
/// can be reached, and the capability to signal it to stop.
pub struct ServerGroup {
    pub id: u64,
    pub addresses: Vec<Address>,
    pub tx: Sender<()>,
}

/// What a listing reports of a running instance.
#[derive(Clone)]
pub struct ServerGroupSerde {
    pub id: u64,
    pub addresses: Vec<Address>,
}

impl ServerGroup {
    /// What a listing shows of this instance.
    pub open spec fn summary(&self) -> ServerSummary {
        ServerSummary { id: self.id, addresses: address_views(self.addresses@) }
    }
}

impl View for ServerGroupSerde {
    type V = ServerSummary;

    open spec fn view(&self) -> ServerSummary {
        ServerSummary { id: self.id, addresses: address_views(self.addresses@) }
    }
}

/// The summaries of `servers`, in order.
pub open spec fn summaries(servers: Seq<ServerGroup>) -> Seq<ServerSummary> {
    servers.map_values(|g: ServerGroup| g.summary())
}

/// The listing `entries` as a sequence of summaries.
pub open spec fn listing_view(entries: Seq<ServerGroupSerde>) -> Seq<ServerSummary> {
    entries.map_values(|e: ServerGroupSerde| e@)
}

/// A copy of `addresses`, element by element.
pub fn copy_addresses(addresses: &Vec<Address>) -> (copy: Vec<Address>)
    ensures
        copy@ == addresses@,
{
    let mut copy: Vec<Address> = Vec::new();
    let mut i: usize = 0;
    while i < addresses.len()
        invariant
            i <= addresses.len(),
            copy@ == addresses@.take(i as int),
        decreases addresses.len() - i,
    {
        let address = &addresses[i];
        copy.push(Address { ip: address.ip.clone(), port: address.port });
        assert(copy@ =~= addresses@.take(i + 1));
        i += 1;
    }
    assert(addresses@.take(addresses.len() as int) =~= addresses@);
    copy
}

} // verus!
