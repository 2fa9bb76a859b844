use std::time::SystemTime;

use im::hashmap::HashMap;

use noronha::cluster::Cluster;
use noronha::configuration::Configuration;
use noronha::http_resources::{
    cluster_information, create_namespace, create_or_update_namespace_object, handle_cluster_information,
    handle_cluster_state, handle_create_namespace, handle_create_or_update_namespace_object,
    handle_get_namespace, handle_get_namespace_object,
};
use noronha::http_transport::handle_ping;
use noronha::http_utils::{Body, ClusterInformation, Status};
use noronha::node::Node;
use noronha::storage::{Operation, Storage};

fn cluster() -> Cluster {
    let configuration = Configuration {
        cluster_name: "noronha".to_string(),
        node_name: "first".to_string(),
        bind_host: "0.0.0.0".to_string(),
        publish_host: "10.0.0.1".to_string(),
        cluster_peers: vec!["10.0.0.2:7000".to_string()],
        http_resources_port: 6500,
        http_resources_workers: 2,
        http_transport_port: 7000,
        http_transport_workers: 1,
        http_transport_pinger_connect_timeout: 1000,
        http_transport_pinger_schedule: 5000,
        log_config_file: String::new(),
    };
    Cluster::make(&configuration, 1, "0.1.0")
}

fn data(pairs: &[(&str, &str)]) -> HashMap<String, String> {
    let mut map = HashMap::new();
    for (key, value) in pairs {
        map.insert(key.to_string(), value.to_string());
    }
    map
}

fn metadata(body: Body) -> HashMap<String, String> {
    match body {
        Body::Metadata(metadata) => metadata,
        other => panic!("no metadata: {:?}", other),
    }
}

fn fields(body: Body) -> HashMap<String, String> {
    match body {
        Body::Data(data) => data,
        other => panic!("no fields: {:?}", other),
    }
}

#[test]
fn status_codes() {
    assert_eq!(Status::Success.code(), 200);
    assert_eq!(Status::Created.code(), 201);
    assert_eq!(Status::BadRequest.code(), 400);
    assert_eq!(Status::NotFound.code(), 404);
    assert_eq!(Status::ServiceUnavailable.code(), 503);
}

#[test]
fn cluster_information_of_a_node() {
    let expected = ClusterInformation {
        cluster_name: "noronha".to_string(),
        node_name: "first".to_string(),
        noronha_version: "0.1.0".to_string(),
    };
    assert_eq!(cluster_information(&cluster()), expected);
    let response = handle_cluster_information(&Some(cluster()));
    assert_eq!(response.status, Status::Success);
    assert!(matches!(response.body, Body::Information(information) if information == expected));
}

#[test]
fn cluster_questions_before_the_cluster_is_known() {
    let response = handle_cluster_information(&None);
    assert_eq!(response.status, Status::ServiceUnavailable);
    assert!(matches!(response.body, Body::Empty));
    let response = handle_cluster_state(&None);
    assert_eq!(response.status, Status::ServiceUnavailable);
    assert!(matches!(response.body, Body::Empty));
}

#[test]
fn cluster_state_is_handed_out_whole() {
    let known = Some(cluster());
    let response = handle_cluster_state(&known);
    assert_eq!(response.status, Status::Success);
    match response.body {
        Body::State(state) => assert!(std::ptr::eq(state, known.as_ref().unwrap())),
        other => panic!("no state: {:?}", other),
    }
}

#[test]
fn ping_is_noted_and_answered() {
    let mut known = Some(cluster());
    let pinger = Node { id: 2, address: "10.0.0.2:7000".to_string(), name: "second".to_string() };
    let before = SystemTime::now();
    let response = handle_ping(&mut known, Ok(pinger.clone()));
    let after = SystemTime::now();
    assert_eq!(response.status, Status::Success);
    match response.body {
        Body::Pong(pong) => {
            assert_eq!(pong.from, known.as_ref().unwrap().node);
            assert_eq!(pong.from.address, "10.0.0.1:7000");
            assert!(before <= pong.timestamp && pong.timestamp <= after);
        },
        other => panic!("no pong: {:?}", other),
    }
    let state = known.unwrap();
    let ping = state.pings.get(&2).unwrap();
    assert_eq!(ping.from, pinger);
    assert!(before <= ping.timestamp && ping.timestamp <= after);
    assert!(state.peers.is_empty());
    assert_eq!(state.unknown_peers.len(), 1);
}

#[test]
fn ping_without_a_sender_is_a_bad_request() {
    let mut known = Some(cluster());
    let response = handle_ping(&mut known, Err("missing field `id`".to_string()));
    assert_eq!(response.status, Status::BadRequest);
    assert!(matches!(response.body, Body::Error(error) if error == "missing field `id`"));
    assert!(known.unwrap().pings.is_empty());
}

#[test]
fn ping_before_the_cluster_is_known() {
    let mut unknown = None;
    let pinger = Node { id: 2, address: "10.0.0.2:7000".to_string(), name: "second".to_string() };
    let response = handle_ping(&mut unknown, Ok(pinger));
    assert_eq!(response.status, Status::ServiceUnavailable);
    assert!(matches!(response.body, Body::Empty));
    let response = handle_ping(&mut unknown, Err("bad".to_string()));
    assert_eq!(response.status, Status::ServiceUnavailable);
    assert!(unknown.is_none());
}

#[test]
fn namespace_is_created_once() {
    let mut storage = Storage::new();
    let response = create_namespace(&mut storage, "people".to_string(), "n-1".to_string());
    assert_eq!(response.status, Status::Created);
    assert_eq!(metadata(response.body), data(&[("id", "n-1"), ("name", "people")]));
    assert_eq!(storage.log().len(), 2);

    let response = create_namespace(&mut storage, "people".to_string(), "n-2".to_string());
    assert_eq!(response.status, Status::Success);
    assert_eq!(metadata(response.body), data(&[("id", "n-1"), ("name", "people")]));
    assert_eq!(storage.log().len(), 3);
    assert_eq!(storage.log()[2], Operation::ReadNamespace { namespace_name: "people".to_string() });
    assert_eq!(storage.namespaces().len(), 1);
}

#[test]
fn namespace_is_created_with_a_fresh_id() {
    let mut storage = Storage::new();
    let response = handle_create_namespace(&mut storage, "people".to_string());
    assert_eq!(response.status, Status::Created);
    let created = metadata(response.body);
    assert_eq!(created.get("name"), Some(&"people".to_string()));
    assert_eq!(created.get("id").unwrap().len(), 36);

    let response = handle_create_namespace(&mut storage, "people".to_string());
    assert_eq!(response.status, Status::Success);
    assert_eq!(metadata(response.body), created);

    let response = handle_get_namespace(&mut storage, "people".to_string());
    assert_eq!(response.status, Status::Success);
    assert_eq!(metadata(response.body), created);
}

#[test]
fn namespace_that_is_missing_is_not_found() {
    let mut storage = Storage::new();
    let response = handle_get_namespace(&mut storage, "people".to_string());
    assert_eq!(response.status, Status::NotFound);
    assert!(matches!(response.body, Body::Empty));
    assert!(storage.namespaces().is_empty());
    assert_eq!(storage.log().len(), 1);
}

#[test]
fn object_is_created_then_updated() {
    let mut storage = Storage::new();
    create_namespace(&mut storage, "people".to_string(), "n-1".to_string());

    let response = create_or_update_namespace_object(
        &mut storage,
        "people".to_string(),
        "7".to_string(),
        data(&[("name", "ana")]),
    );
    assert_eq!(response.status, Status::Created);
    assert_eq!(fields(response.body), data(&[("id", "7"), ("name", "ana")]));

    let response = handle_create_or_update_namespace_object(
        &mut storage,
        "people".to_string(),
        Some("7".to_string()),
        data(&[("name", "ana2")]),
    );
    assert_eq!(response.status, Status::Success);
    assert_eq!(fields(response.body), data(&[("id", "7"), ("name", "ana2")]));

    let response = handle_get_namespace_object(&mut storage, "people".to_string(), Some("7".to_string()));
    assert_eq!(response.status, Status::Success);
    assert_eq!(fields(response.body), data(&[("id", "7"), ("name", "ana2")]));
    assert_eq!(storage.namespaces().get("people").unwrap().objects.len(), 1);
}

#[test]
fn object_without_an_id_gets_one_and_keeps_it() {
    let mut storage = Storage::new();
    create_namespace(&mut storage, "people".to_string(), "n-1".to_string());

    let response =
        handle_create_or_update_namespace_object(&mut storage, "people".to_string(), None, data(&[("name", "ana")]));
    assert_eq!(response.status, Status::Created);
    let created = fields(response.body);
    let id = created.get("id").unwrap().clone();
    assert_eq!(id.len(), 36);
    assert_eq!(created.get("name"), Some(&"ana".to_string()));
    let stored = storage.namespaces().get("people").unwrap().objects.get(&id).unwrap().clone();
    assert_eq!(stored.metadata, data(&[("id", &id)]));
    assert_eq!(stored.data, created);

    let response = handle_create_or_update_namespace_object(
        &mut storage,
        "people".to_string(),
        Some(id.clone()),
        data(&[("name", "ana2")]),
    );
    assert_eq!(response.status, Status::Success);
    assert_eq!(fields(response.body), data(&[("id", &id), ("name", "ana2")]));
    assert_eq!(storage.namespaces().get("people").unwrap().objects.len(), 1);
}

#[test]
fn object_in_a_missing_namespace_is_not_found() {
    let mut storage = Storage::new();
    let response = handle_create_or_update_namespace_object(
        &mut storage,
        "people".to_string(),
        Some("7".to_string()),
        data(&[("name", "ana")]),
    );
    assert_eq!(response.status, Status::NotFound);
    assert!(matches!(response.body, Body::Empty));
    assert!(storage.namespaces().is_empty());

    let response = handle_get_namespace_object(&mut storage, "people".to_string(), Some("7".to_string()));
    assert_eq!(response.status, Status::NotFound);
}

#[test]
fn object_that_is_missing_is_not_found() {
    let mut storage = Storage::new();
    create_namespace(&mut storage, "people".to_string(), "n-1".to_string());
    let response = handle_get_namespace_object(&mut storage, "people".to_string(), Some("7".to_string()));
    assert_eq!(response.status, Status::NotFound);
    assert!(matches!(response.body, Body::Empty));
    let response = handle_get_namespace_object(&mut storage, "people".to_string(), None);
    assert_eq!(response.status, Status::NotFound);
    assert!(storage.rejected().is_empty());
}
