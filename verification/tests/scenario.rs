use im::hashmap::HashMap;

use noronha::cluster::Cluster;
use noronha::configuration::Configuration;
use noronha::http_transport::handle_ping;
use noronha::http_utils::{Body, Status};
use noronha::namespace::Namespace;
use noronha::node::Node;
use noronha::object::Object;
use noronha::storage::{Outcome, Storage};
use noronha::utils::make_id_string;

fn data(pairs: &[(&str, &str)]) -> HashMap<String, String> {
    let mut map = HashMap::new();
    for (key, value) in pairs {
        map.insert(key.to_string(), value.to_string());
    }
    map
}

#[test]
fn store_scenario() {
    let mut storage = Storage::new();

    let people = Namespace::make("people");
    let outcome = storage.create_or_update_namespace(people.clone()).unwrap();
    assert_eq!(outcome, Outcome::NamespaceCreated(people.clone()));

    let mut again = Namespace::make("people");
    again.metadata.insert("owner".to_string(), "ana".to_string());
    assert_ne!(again.metadata, people.metadata);
    let outcome = storage.create_or_update_namespace(again.clone()).unwrap();
    assert_eq!(outcome, Outcome::NamespaceUpdated(again.clone()));
    assert_eq!(storage.namespaces().get("people").unwrap().metadata, again.metadata);

    let id = make_id_string();
    let ana = Object::make(&id, data(&[("name", "ana")]));
    let outcome = storage.create_or_update_namespace_object("people".to_string(), ana.clone()).unwrap();
    match outcome {
        Outcome::NamespaceObjectCreated(created) => {
            assert_eq!(created.metadata.get("id"), Some(&id));
            assert_eq!(created.data.get("id"), Some(&id));
            assert_eq!(created.data.get("name"), Some(&"ana".to_string()));
        },
        other => panic!("not created: {:?}", other),
    }

    let ana2 = Object::make(&id, data(&[("name", "ana2")]));
    let outcome = storage.create_or_update_namespace_object("people".to_string(), ana2).unwrap();
    match outcome {
        Outcome::NamespaceObjectUpdated(updated) => {
            assert_eq!(updated.metadata.get("id"), Some(&id));
            assert_eq!(updated.data.get("id"), Some(&id));
            assert_eq!(updated.data.get("name"), Some(&"ana2".to_string()));
        },
        other => panic!("not updated: {:?}", other),
    }
    assert_eq!(storage.namespaces().get("people").unwrap().objects.len(), 1);

    let outcome = storage.read_namespace_object("people".to_string(), "unknown".to_string()).unwrap();
    assert_eq!(outcome, Outcome::NamespaceObjectNotFound("unknown".to_string()));

    let outcome = storage.read_namespace_object("nowhere".to_string(), id.clone()).unwrap();
    assert_eq!(outcome, Outcome::NamespaceNotFound("nowhere".to_string()));
    let outcome = storage.read_namespace("nowhere".to_string()).unwrap();
    assert_eq!(outcome, Outcome::NamespaceNotFound("nowhere".to_string()));

    assert_eq!(storage.log().len(), 7);
    assert!(storage.rejected().is_empty());
}

#[test]
fn ping_scenario() {
    let configuration = Configuration {
        cluster_name: "noronha".to_string(),
        node_name: "self".to_string(),
        bind_host: "0.0.0.0".to_string(),
        publish_host: "10.0.0.1".to_string(),
        cluster_peers: Vec::new(),
        http_resources_port: 6500,
        http_resources_workers: 1,
        http_transport_port: 7000,
        http_transport_workers: 1,
        http_transport_pinger_connect_timeout: 1000,
        http_transport_pinger_schedule: 5000,
        log_config_file: String::new(),
    };
    let mut cluster = Some(Cluster::make(&configuration, 1, "0.1.0"));
    let peer = Node { id: 77, address: "10.0.0.2:7000".to_string(), name: "peer".to_string() };

    let before = std::time::SystemTime::now();
    let response = handle_ping(&mut cluster, Ok(peer.clone()));
    let after = std::time::SystemTime::now();

    assert_eq!(response.status, Status::Success);
    match response.body {
        Body::Pong(pong) => {
            assert_eq!(pong.from, Node { id: 1, address: "10.0.0.1:7000".to_string(), name: "self".to_string() });
            assert!(before <= pong.timestamp && pong.timestamp <= after);
        },
        other => panic!("no pong: {:?}", other),
    }
    let cluster = cluster.unwrap();
    assert_eq!(cluster.pings.len(), 1);
    assert_eq!(cluster.pings.get(&77).unwrap().from, peer);
}
