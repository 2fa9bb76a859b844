use im::hashmap::HashMap;

use noronha::namespace::Namespace;
use noronha::object::Object;
use noronha::storage::Operation::{
    CreateOrUpdateNamespace, CreateOrUpdateNamespaceObject, ReadNamespace, ReadNamespaceObject,
};
use noronha::storage::Outcome::{
    NamespaceCreated, NamespaceFound, NamespaceObjectCreated, NamespaceObjectFound,
};
use noronha::storage::Storage;
use noronha::types::Bag;

#[test]
fn test_new() {
    let storage = Storage::new();
    assert_eq!(*storage.log(), Vec::new());
    assert_eq!(*storage.namespaces(), HashMap::new());
}

#[test]
fn test_operations() {
    // Namespace create:
    // 1. has successful outcome
    // 2. appends operation to log
    // 3. inserts namespace into namespaces

    let mut storage = Storage::new();
    let namespace_name = "people";
    let namespace = Namespace::make(namespace_name);
    let create_or_update_namespace = CreateOrUpdateNamespace {
        namespace: namespace.to_owned(),
    };

    let expected_outcome = NamespaceCreated(namespace.clone());
    let expected_log = vec![create_or_update_namespace.clone()];
    let mut expected_namespaces: Bag<Namespace> = HashMap::new();
    expected_namespaces.insert(namespace_name.to_owned(), namespace.to_owned());

    let outcome = storage.apply(create_or_update_namespace.clone()).unwrap();

    assert_eq!(outcome, expected_outcome);
    assert_eq!(*storage.log(), expected_log);
    assert_eq!(*storage.namespaces(), expected_namespaces);

    // Namespace object create:
    // 1. has successful outcome
    // 2. appends operation to log
    // 3. inserts object into namespace

    let mut namespace = namespace.clone();
    let object_id = "1";
    let object = Object::make(object_id, HashMap::new());

    namespace.objects.insert(object_id.to_owned(), object.clone());

    let create_or_update_namespace_object = CreateOrUpdateNamespaceObject {
        namespace_name: namespace_name.to_owned(),
        object: object.clone(),
    };

    let expected_outcome = NamespaceObjectCreated(object.clone());
    let expected_log = vec![
        create_or_update_namespace.clone(),
        create_or_update_namespace_object.clone(),
    ];
    let mut expected_namespaces: Bag<Namespace> = HashMap::new();
    expected_namespaces.insert(namespace_name.to_owned(), namespace.to_owned());

    let outcome = storage
        .apply(create_or_update_namespace_object.clone())
        .unwrap();

    assert_eq!(outcome, expected_outcome);
    assert_eq!(*storage.log(), expected_log);
    assert_eq!(*storage.namespaces(), expected_namespaces);

    // First namespace read (through Storage::apply):
    // 1. has successful outcome
    // 2. appends operation to log
    // 3. doesn't change namespaces

    let read_namespace = ReadNamespace {
        namespace_name: namespace_name.to_owned(),
    };

    let expected_outcome = NamespaceFound(namespace.clone());
    let expected_log = vec![
        create_or_update_namespace.clone(),
        create_or_update_namespace_object.clone(),
        read_namespace.clone(),
    ];

    let outcome = storage.apply(read_namespace.clone()).unwrap();

    assert_eq!(outcome, expected_outcome);
    assert_eq!(*storage.log(), expected_log);
    assert_eq!(*storage.namespaces(), expected_namespaces);

    // Second namespace read (through Storage::read_namespace):
    // 1. has successful outcome
    // 2. appends operation to log
    // 3. doesn't change namespaces

    let expected_log = vec![
        create_or_update_namespace.clone(),
        create_or_update_namespace_object.clone(),
        read_namespace.clone(),
        read_namespace.clone(),
    ];

    let outcome = storage.read_namespace(namespace_name.to_owned()).unwrap();

    assert_eq!(outcome, expected_outcome);
    assert_eq!(*storage.log(), expected_log);
    assert_eq!(*storage.namespaces(), expected_namespaces);

    // Namespace object read:
    // 1. has successful outcome
    // 2. appends operation to log
    // 3. doesn't change namespaces

    let read_namespace_object = ReadNamespaceObject {
        namespace_name: namespace_name.to_owned(),
        object_id: object_id.to_owned(),
    };

    let expected_outcome = NamespaceObjectFound(object.clone());
    let expected_log = vec![
        create_or_update_namespace.clone(),
        create_or_update_namespace_object.clone(),
        read_namespace.clone(),
        read_namespace.clone(),
        read_namespace_object.clone(),
    ];

    let outcome = storage.apply(read_namespace_object.clone()).unwrap();

    assert_eq!(outcome, expected_outcome);
    assert_eq!(*storage.log(), expected_log);
    assert_eq!(*storage.namespaces(), expected_namespaces);
}
