use netshare::ids::ServerIdState;
use netshare::registry::Registry;
use netshare::server_host::{
    file_server, get_servers, has_unique_names, linked_path_names, linked_path_routes,
    start_file_server_command, stop_file_server_command, StartAction, StartError, StopError,
    SERVER_PORT,
};
use netshare::types::{Address, LinkedPath, Network, ServerGroup, ServerMode};
use std::path::PathBuf;
use tokio::sync::mpsc::{channel, Receiver};

fn linked(name: &str, path: &str) -> LinkedPath {
    LinkedPath { name: String::from(name), path: PathBuf::from(path) }
}

fn docs_and_pics() -> Network {
    Network {
        name: String::from("N"),
        linked_paths: vec![linked("docs", "/tmp/docs"), linked("pics", "/tmp/pics")],
    }
}

fn empty_network() -> Network {
    Network { name: String::from("N"), linked_paths: Vec::new() }
}

fn running(id: u64) -> (ServerGroup, Receiver<()>) {
    let (tx, rx) = channel::<()>(1);
    let group = ServerGroup {
        id,
        addresses: vec![Address { ip: String::from("192.168.1.20"), port: SERVER_PORT }],
        tx,
    };
    (group, rx)
}

fn listed_ids(registry: &Registry, network: &str) -> Vec<u64> {
    get_servers(registry, &String::from(network)).iter().map(|entry| entry.id).collect()
}

#[test]
fn server_port_is_8080() {
    assert_eq!(SERVER_PORT, 8080);
}

#[test]
fn start_rejects_a_network_without_linked_paths() {
    let mut ids = ServerIdState::new();
    let decision = start_file_server_command(&ServerMode::LocalHost, &empty_network(), &mut ids);
    assert_eq!(decision, Err(StartError::NoLinkedPaths));
    assert_eq!(ids.server_id_counter, 0);
}

#[test]
fn start_rejects_an_empty_network_in_every_mode() {
    let mut ids = ServerIdState { server_id_counter: 7 };
    for mode in [ServerMode::LocalHost, ServerMode::Internet, ServerMode::DarkWeb] {
        let decision = start_file_server_command(&mode, &empty_network(), &mut ids);
        assert_eq!(decision, Err(StartError::NoLinkedPaths));
        assert_eq!(ids.server_id_counter, 7);
    }
}

#[test]
fn rejected_start_leaves_the_registry_as_it_was() {
    let mut ids = ServerIdState::new();
    let mut registry = Registry::new();
    registry.register(String::from("N"), running(1).0);
    let decision = start_file_server_command(&ServerMode::LocalHost, &empty_network(), &mut ids);
    assert_eq!(decision, Err(StartError::NoLinkedPaths));
    assert_eq!(listed_ids(&registry, "N"), vec![1]);
}

#[test]
fn start_on_local_host_asks_for_a_task_with_the_next_identifier() {
    let mut ids = ServerIdState::new();
    let network = docs_and_pics();
    assert_eq!(
        start_file_server_command(&ServerMode::LocalHost, &network, &mut ids),
        Ok(StartAction::Spawn { id: 1 })
    );
    assert_eq!(
        start_file_server_command(&ServerMode::LocalHost, &network, &mut ids),
        Ok(StartAction::Spawn { id: 2 })
    );
    assert_eq!(ids.server_id_counter, 2);
}

#[test]
fn start_in_the_other_modes_starts_nothing() {
    let mut ids = ServerIdState::new();
    let network = docs_and_pics();
    assert_eq!(
        start_file_server_command(&ServerMode::Internet, &network, &mut ids),
        Ok(StartAction::Nothing)
    );
    assert_eq!(
        start_file_server_command(&ServerMode::DarkWeb, &network, &mut ids),
        Ok(StartAction::Nothing)
    );
    assert_eq!(ids.server_id_counter, 0);
}

#[test]
fn two_starts_under_one_name_both_appear() {
    let mut ids = ServerIdState::new();
    let mut registry = Registry::new();
    let network = docs_and_pics();
    for _ in 0..2 {
        match start_file_server_command(&ServerMode::LocalHost, &network, &mut ids) {
            Ok(StartAction::Spawn { id }) => registry.register(network.name.clone(), running(id).0),
            other => panic!("unexpected decision {:?}", other),
        }
    }
    assert_eq!(listed_ids(&registry, "N"), vec![1, 2]);
}

#[test]
fn stop_removes_exactly_one() {
    let mut registry = Registry::new();
    registry.register(String::from("N"), running(1).0);
    registry.register(String::from("N"), running(2).0);
    let stopped = stop_file_server_command(&mut registry, &String::from("N"), 1);
    assert_eq!(stopped.map(|group| group.id), Ok(1));
    assert_eq!(listed_ids(&registry, "N"), vec![2]);
}

#[test]
fn stop_hands_back_the_shutdown_handle_of_the_stopped_instance() {
    let mut registry = Registry::new();
    let (first, mut first_rx) = running(1);
    let (second, mut second_rx) = running(2);
    registry.register(String::from("N"), first);
    registry.register(String::from("N"), second);
    let stopped = stop_file_server_command(&mut registry, &String::from("N"), 1)
        .expect("instance 1 is running");
    assert!(stopped.tx.try_send(()).is_ok());
    assert!(first_rx.try_recv().is_ok());
    assert!(second_rx.try_recv().is_err());
}

#[test]
fn stop_of_an_unknown_id_reports_not_found() {
    let mut registry = Registry::new();
    registry.register(String::from("N"), running(1).0);
    registry.register(String::from("N"), running(2).0);
    let stopped = stop_file_server_command(&mut registry, &String::from("N"), 999);
    assert_eq!(stopped.map(|group| group.id), Err(StopError::NotFound));
    assert_eq!(listed_ids(&registry, "N"), vec![1, 2]);
}

#[test]
fn stop_in_an_unknown_network_reports_not_found() {
    let mut registry = Registry::new();
    registry.register(String::from("N"), running(1).0);
    let stopped = stop_file_server_command(&mut registry, &String::from("missing"), 1);
    assert_eq!(stopped.map(|group| group.id), Err(StopError::NotFound));
    assert_eq!(listed_ids(&registry, "N"), vec![1]);
}

#[test]
fn stop_twice_reports_not_found_the_second_time() {
    let mut registry = Registry::new();
    registry.register(String::from("N"), running(1).0);
    assert!(stop_file_server_command(&mut registry, &String::from("N"), 1).is_ok());
    let again = stop_file_server_command(&mut registry, &String::from("N"), 1);
    assert_eq!(again.map(|group| group.id), Err(StopError::NotFound));
}

#[test]
fn servers_of_an_unknown_network_are_none() {
    let mut registry = Registry::new();
    assert!(get_servers(&registry, &String::from("missing")).is_empty());
    registry.register(String::from("N"), running(1).0);
    assert!(get_servers(&registry, &String::from("missing")).is_empty());
    assert_eq!(listed_ids(&registry, "N"), vec![1]);
}

#[test]
fn servers_are_listed_with_their_addresses() {
    let mut registry = Registry::new();
    registry.register(String::from("N"), running(3).0);
    let servers = get_servers(&registry, &String::from("N"));
    assert_eq!(servers.len(), 1);
    assert_eq!(servers[0].id, 3);
    assert_eq!(servers[0].addresses.len(), 1);
    assert_eq!(servers[0].addresses[0].ip, "192.168.1.20");
    assert_eq!(servers[0].addresses[0].port, 8080);
}

#[test]
fn manifest_lists_the_names_in_order() {
    let plan = file_server(&ServerMode::LocalHost, &docs_and_pics()).expect("local host serves");
    assert_eq!(plan.manifest, vec![String::from("docs"), String::from("pics")]);
}

#[test]
fn plan_mounts_each_directory_under_its_name() {
    let plan = file_server(&ServerMode::LocalHost, &docs_and_pics()).expect("local host serves");
    assert_eq!(plan.port, 8080);
    assert_eq!(plan.routes.len(), 2);
    assert_eq!(plan.routes[0].prefix, "/docs");
    assert_eq!(plan.routes[0].directory, PathBuf::from("/tmp/docs"));
    assert_eq!(plan.routes[1].prefix, "/pics");
    assert_eq!(plan.routes[1].directory, PathBuf::from("/tmp/pics"));
}

#[test]
fn plan_for_a_network_without_directories_is_empty() {
    let plan = file_server(&ServerMode::LocalHost, &empty_network()).expect("local host serves");
    assert_eq!(plan.port, 8080);
    assert!(plan.manifest.is_empty());
    assert!(plan.routes.is_empty());
}

#[test]
fn plan_keeps_repeated_names() {
    let network = Network {
        name: String::from("N"),
        linked_paths: vec![linked("a", "/one"), linked("b", "/two"), linked("a", "/three")],
    };
    let plan = file_server(&ServerMode::LocalHost, &network).expect("local host serves");
    assert_eq!(plan.manifest, vec![String::from("a"), String::from("b"), String::from("a")]);
    assert_eq!(plan.routes[2].prefix, "/a");
    assert_eq!(plan.routes[2].directory, PathBuf::from("/three"));
}

#[test]
fn the_other_modes_have_no_plan() {
    assert!(file_server(&ServerMode::Internet, &docs_and_pics()).is_none());
    assert!(file_server(&ServerMode::DarkWeb, &docs_and_pics()).is_none());
}

#[test]
fn names_of_linked_paths() {
    let paths = vec![linked("music", "/srv/music"), linked("", "/srv/empty"), linked("a b", "/srv/ab")];
    assert_eq!(
        linked_path_names(&paths),
        vec![String::from("music"), String::from(""), String::from("a b")]
    );
    assert!(linked_path_names(&Vec::new()).is_empty());
}

#[test]
fn routes_of_linked_paths() {
    let paths = vec![linked("music", "/srv/music"), linked("", "relative/dir")];
    let routes = linked_path_routes(&paths);
    assert_eq!(routes.len(), 2);
    assert_eq!(routes[0].prefix, "/music");
    assert_eq!(routes[0].directory, PathBuf::from("/srv/music"));
    assert_eq!(routes[1].prefix, "/");
    assert_eq!(routes[1].directory, PathBuf::from("relative/dir"));
}

#[test]
fn start_and_stop_errors_in_words() {
    assert_eq!(StartError::NoLinkedPaths.message(), "No linked paths given");
    assert_eq!(StartError::BindFailed.message(), "Failed to bind the server port");
    assert_eq!(StopError::NotFound.message(), "Server not found");
}

#[test]
fn unique_names_are_recognised() {
    assert!(has_unique_names(&Vec::new()));
    assert!(has_unique_names(&vec![linked("docs", "/tmp/docs")]));
    assert!(has_unique_names(&docs_and_pics().linked_paths));
    assert!(has_unique_names(&vec![linked("a", "/x"), linked("A", "/x"), linked("a ", "/x")]));
}

#[test]
fn repeated_names_are_recognised() {
    assert!(!has_unique_names(&vec![linked("a", "/one"), linked("a", "/two")]));
    assert!(!has_unique_names(&vec![linked("a", "/one"), linked("b", "/two"), linked("a", "/three")]));
    assert!(!has_unique_names(&vec![linked("x", "/1"), linked("b", "/2"), linked("c", "/3"), linked("c", "/4")]));
}

#[test]
fn start_at_the_last_identifier_in_a_mode_that_needs_none() {
    let mut ids = ServerIdState { server_id_counter: u64::MAX };
    assert_eq!(
        start_file_server_command(&ServerMode::Internet, &docs_and_pics(), &mut ids),
        Ok(StartAction::Nothing)
    );
    assert_eq!(
        start_file_server_command(&ServerMode::LocalHost, &empty_network(), &mut ids),
        Err(StartError::NoLinkedPaths)
    );
    assert_eq!(ids.server_id_counter, u64::MAX);
}
