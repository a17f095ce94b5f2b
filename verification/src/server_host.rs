use crate::ids::{next_id, ServerIdState};
use crate::registry::{found_in, unregistered, Registry};
use crate::types::{
    listing_view, summaries, LinkedPath, Network, ServerGroup, ServerGroupSerde, ServerMode,
};
use std::path::PathBuf;
use vstd::prelude::*;
use vstd::string::StringExecFns;

verus! {

/// The port that every instance binds, on all interfaces.
pub const SERVER_PORT: u16 = 8080;

/// Why a start request did not lead to a serving instance.
#[derive(Debug, Clone, Copy, PartialEq, Eq)]
pub enum StartError {
    /// The network names no directory to serve.
    NoLinkedPaths,
    /// The port could not be bound.
    BindFailed,
}

/// Why a stop request stopped nothing.
#[derive(Debug, Clone, Copy, PartialEq, Eq)]
pub enum StopError {
    /// No instance with that identifier runs under that network name.
    NotFound,
}

/// What the caller of a start request has to do next.
#[derive(Debug, Clone, Copy, PartialEq, Eq)]
pub enum StartAction {
    /// Launch a serving task for the network; it runs under identifier `id`.
    Spawn { id: u64 },
    /// Nothing: the mode has no transport yet.
    Nothing,
}

impl StartError {
    /// The error in words.
    pub fn message(&self) -> (text: String)
        ensures
            text@ == match self {
                StartError::NoLinkedPaths => "No linked paths given"@,
                StartError::BindFailed => "Failed to bind the server port"@,
            },
    {
        match self {
            StartError::NoLinkedPaths => String::from_str("No linked paths given"),
            StartError::BindFailed => String::from_str("Failed to bind the server port"),
        }
    }
}

impl StopError {
    /// The error in words.
    pub fn message(&self) -> (text: String)
        ensures
            text@ == "Server not found"@,
    {
        String::from_str("Server not found")
    }
}

/// One mounted directory: requests below `prefix` are answered from `directory`.
pub struct Route {
    pub prefix: String,
    pub directory: PathBuf,
}

/// What a serving task sets up before it accepts requests.
pub struct ServePlan {
    /// The port to bind on all interfaces.
    pub port: u16,
    /// The names answered at `/`, in the order of the network's directories.
    pub manifest: Vec<String>,
    /// One mounted directory for each of the network's directories, in their order.
    pub routes: Vec<Route>,
}

/// The strings in `names` as sequences of characters.
pub open spec fn texts(names: Seq<String>) -> Seq<Seq<char>> {
    names.map_values(|name: String| name@)
}

/// The names of `linked_paths`, in order.
pub open spec fn manifest_of(linked_paths: Seq<LinkedPath>) -> Seq<Seq<char>> {
    linked_paths.map_values(|linked_path: LinkedPath| linked_path.name@)
}

/// The URL prefix under which a directory named `name` is mounted.
pub open spec fn route_prefix(name: Seq<char>) -> Seq<char> {
    seq!['/'] + name
}

/// `routes` mounts each of `linked_paths` under its name, in order.
pub open spec fn routes_mount(routes: Seq<Route>, linked_paths: Seq<LinkedPath>) -> bool {
    &&& routes.len() == linked_paths.len()
    &&& forall|i: int|
        0 <= i < routes.len() ==> {
            &&& (#[trigger] routes[i]).prefix@ == route_prefix(linked_paths[i].name@)
            &&& routes[i].directory == linked_paths[i].path
        }
}

/// `plan` is the plan for serving `network`.
pub open spec fn plan_serves(plan: ServePlan, network: Network) -> bool {
    &&& plan.port == SERVER_PORT
    &&& texts(plan.manifest@) == manifest_of(network.linked_paths@)
    &&& routes_mount(plan.routes@, network.linked_paths@)
}

/// No two of `linked_paths` share a name, so none shadows another.
pub open spec fn names_unique(linked_paths: Seq<LinkedPath>) -> bool {
    forall|i: int, j: int|
        0 <= i < j < linked_paths.len() ==> linked_paths[i].name@ != linked_paths[j].name@
}

/// Whether no two of `linked_paths` share a name.
pub fn has_unique_names(linked_paths: &Vec<LinkedPath>) -> (unique: bool)
    ensures
        unique == names_unique(linked_paths@),
{
    let mut j: usize = 0;
    while j < linked_paths.len()
        invariant
            j <= linked_paths.len(),
            names_unique(linked_paths@.take(j as int)),
        decreases linked_paths.len() - j,
    {
        let mut i: usize = 0;
        while i < j
            invariant
                i <= j < linked_paths.len(),
                forall|a: int| 0 <= a < i ==> linked_paths[a].name@ != linked_paths[j as int].name@,
            decreases j - i,
        {
            if linked_paths[i].name == linked_paths[j].name {
                return false;
            }
            i += 1;
        }
        j += 1;
    }
    assert(linked_paths@.take(linked_paths.len() as int) =~= linked_paths@);
    true
}

/// Where no two directories share a name, no two of their routes share a
/// prefix: every directory can be reached.
pub proof fn lemma_unique_names_give_distinct_prefixes(routes: Seq<Route>, linked_paths: Seq<LinkedPath>)
    requires
        routes_mount(routes, linked_paths),
        names_unique(linked_paths),
    ensures
        forall|i: int, j: int| 0 <= i < j < routes.len() ==> routes[i].prefix@ != routes[j].prefix@,
{
    assert forall|i: int, j: int| 0 <= i < j < routes.len() implies routes[i].prefix@ != routes[j].prefix@ by {
        let a = linked_paths[i].name@;
        let b = linked_paths[j].name@;
        assert(routes[i].prefix@ == route_prefix(a));
        assert(routes[j].prefix@ == route_prefix(b));
        if route_prefix(a) == route_prefix(b) {
            assert(a =~= route_prefix(a).subrange(1, route_prefix(a).len() as int));
            assert(b =~= route_prefix(b).subrange(1, route_prefix(b).len() as int));
        }
    }
}

/// The manifest of a set of directories: their names, in order.
pub fn linked_path_names(linked_paths: &Vec<LinkedPath>) -> (names: Vec<String>)
    ensures
        texts(names@) == manifest_of(linked_paths@),
{
    let mut names: Vec<String> = Vec::new();
    let mut i: usize = 0;
    while i < linked_paths.len()
        invariant
            i <= linked_paths.len(),
            texts(names@) == manifest_of(linked_paths@.take(i as int)),
        decreases linked_paths.len() - i,
    {
        let name = linked_paths[i].name.clone();
        let ghost before = names@;
        names.push(name);
        assert(texts(names@) =~= texts(before).push(name@));
        assert(manifest_of(linked_paths@.take(i + 1)) =~= manifest_of(linked_paths@.take(i as int)).push(
            linked_paths[i as int].name@,
        ));
        i += 1;
    }
    assert(linked_paths@.take(linked_paths.len() as int) =~= linked_paths@);
    names
}

/// The mounted directories for a set of directories: each under `/` and its name.
pub fn linked_path_routes(linked_paths: &Vec<LinkedPath>) -> (routes: Vec<Route>)
    ensures
        routes_mount(routes@, linked_paths@),
{
    let mut routes: Vec<Route> = Vec::new();
    let mut i: usize = 0;
    while i < linked_paths.len()
        invariant
            i <= linked_paths.len(),
            routes_mount(routes@, linked_paths@.take(i as int)),
        decreases linked_paths.len() - i,
    {
        let linked_path = &linked_paths[i];
        let mut prefix = String::from_str("/");
        proof {
            reveal_strlit("/");
            assert("/"@ =~= seq!['/']);
        }
        prefix.append(linked_path.name.as_str());
        routes.push(Route { prefix, directory: linked_path.path.clone() });
        i += 1;
    }
    assert(linked_paths@.take(linked_paths.len() as int) =~= linked_paths@);
    routes
}

/// Plans the serving task for `network`: which port to bind, what to answer
/// at `/`, and which directory to mount under which prefix. Only the
/// local-host mode serves; for the other modes there is nothing to set up.
pub fn file_server(server_mode: &ServerMode, network: &Network) -> (plan: Option<ServePlan>)
    ensures
        match plan {
            Some(plan) => *server_mode is LocalHost && plan_serves(plan, *network),
            None => !(*server_mode is LocalHost),
        },
{
    match server_mode {
        ServerMode::LocalHost => Some(
            ServePlan {
                port: SERVER_PORT,
                manifest: linked_path_names(&network.linked_paths),
                routes: linked_path_routes(&network.linked_paths),
            },
        ),
        ServerMode::Internet => None,
        ServerMode::DarkWeb => None,
    }
}

/// Decides a start request. A network without directories is refused, and
/// then no identifier is used up. Otherwise the local-host mode obtains the
/// next identifier and asks for a serving task under it; the other modes
/// succeed without starting anything.
pub fn start_file_server_command(
    server_mode: &ServerMode,
    network: &Network,
    ids: &mut ServerIdState,
) -> (decision: Result<StartAction, StartError>)
    requires
        network.linked_paths@.len() > 0 && *server_mode is LocalHost ==> old(ids).server_id_counter
            < u64::MAX,
    ensures
        decision == start_decision(*server_mode, *network, old(ids).server_id_counter),
        final(ids).server_id_counter == match decision {
            Ok(StartAction::Spawn { id }) => id,
            _ => old(ids).server_id_counter,
        },
{
    if network.linked_paths.len() == 0 {
        return Err(StartError::NoLinkedPaths);
    }
    match server_mode {
        ServerMode::LocalHost => {
            let id: u64 = ids.generate_server_id();
            Ok(StartAction::Spawn { id })
        },
        ServerMode::Internet => Ok(StartAction::Nothing),
        ServerMode::DarkWeb => Ok(StartAction::Nothing),
    }
}

/// The decision on a start request made while the identifier counter stands at `counter`.
pub open spec fn start_decision(server_mode: ServerMode, network: Network, counter: u64) -> Result<
    StartAction,
    StartError,
> {
    if network.linked_paths@.len() == 0 {
        Err(StartError::NoLinkedPaths)
    } else if server_mode is LocalHost {
        Ok(StartAction::Spawn { id: next_id(counter) })
    } else {
        Ok(StartAction::Nothing)
    }
}

/// Takes the instance with identifier `id` out of what runs under
/// `network_name` and hands it back, so that the caller can signal it to
/// stop. Where no such instance runs, the registry is left as it was and the
/// request is answered with `NotFound`.
pub fn stop_file_server_command(registry: &mut Registry, network_name: &String, id: u64) -> (stopped:
    Result<ServerGroup, StopError>)
    requires
        old(registry).wf(),
    ensures
        final(registry).wf(),
        final(registry)@ == unregistered(old(registry)@, network_name@, id),
        match stopped {
            Ok(instance) => found_in(old(registry)@, network_name@, id) == Some(instance),
            Err(e) => e == StopError::NotFound && found_in(old(registry)@, network_name@, id) is None
                && final(registry)@ == old(registry)@,
        },
{
    match registry.unregister(network_name, id) {
        Some(instance) => Ok(instance),
        None => Err(StopError::NotFound),
    }
}

/// Lists what runs under `network_name`: each instance's identifier and
/// endpoints, oldest first. A name that has no entry gives an empty list.
pub fn get_servers(registry: &Registry, network_name: &String) -> (servers: Vec<ServerGroupSerde>)
    requires
        registry.wf(),
    ensures
        listing_view(servers@) == summaries(registry.servers_of(network_name@)),
{
    registry.list(network_name)
}

} // verus!
