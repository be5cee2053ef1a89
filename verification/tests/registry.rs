use poc_game::registry::{filter_peers, registration_name, Config, Service};

#[test]
fn registration_name_is_prefix_colon_address() {
    let name = registration_name("10.0.0.7:8080");
    assert_eq!(name, "poc-game:10.0.0.7:8080");
}

#[test]
fn registration_name_of_empty_address() {
    assert_eq!(registration_name(""), "poc-game:");
}

#[test]
fn filter_peers_keeps_only_prefixed_names_in_order() {
    let services = vec![
        Service {
            id: "a".to_string(),
            service: "poc-game:10.0.0.1:8080".to_string(),
            address: "10.0.0.1".to_string(),
        },
        Service {
            id: "b".to_string(),
            service: "consul".to_string(),
            address: "10.0.0.2".to_string(),
        },
        Service {
            id: "c".to_string(),
            service: "poc-game".to_string(),
            address: "10.0.0.3".to_string(),
        },
        Service {
            id: "d".to_string(),
            service: "poc-gam".to_string(),
            address: "10.0.0.4".to_string(),
        },
    ];
    let peers = filter_peers(&services);
    assert_eq!(peers.len(), 2);
    assert_eq!(peers[0].id, "a");
    assert_eq!(peers[0].service, "poc-game:10.0.0.1:8080");
    assert_eq!(peers[0].address, "10.0.0.1");
    assert_eq!(peers[1].id, "c");
    assert_eq!(peers[1].service, "poc-game");
}

#[test]
fn filter_peers_of_nothing_is_empty() {
    let peers = filter_peers(&vec![]);
    assert!(peers.is_empty());
}

#[test]
fn config_new_keeps_host_and_port() {
    let cfg = Config::new("registry.local".to_string(), 8501);
    assert_eq!(cfg.host, "registry.local");
    assert_eq!(cfg.port, 8501);
}

#[test]
fn config_default_is_local_registry() {
    let cfg = Config::default();
    assert_eq!(cfg.host, "localhost");
    assert_eq!(cfg.port, 8500);
}
