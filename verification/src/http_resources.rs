//! The interface for the users of a node: it tells of the cluster, and it
//! stores and reads namespaces and records.
//!
//! A namespace is created through this interface once: asking for it again
//! finds it and leaves it as it is. A record is written over by every request
//! that names its id.

use vstd::prelude::*;
use crate::cluster::{state, Cluster, ClusterView};
use crate::http_utils::{
    Body, BodyView, ClusterInformation, ClusterInformationView, Response, ResponseView, Status,
};
use crate::namespace::{Namespace, NamespaceView};
use crate::object::{Object, ObjectData, ObjectView};
use crate::storage::{OperationView, Outcome, OutcomeView, Storage, StorageView};
use crate::types::{entries, strings_clone, Entries};
use crate::utils::{id_text, is_random, make_id_string};

verus! {

impl ClusterView {
    /// What a node that knows this of its cluster tells of itself.
    pub open spec fn information(self) -> ClusterInformationView {
        ClusterInformationView {
            cluster_name: self.name,
            node_name: self.node.name,
            noronha_version: self.noronha_version,
        }
    }
}

/// The answer to the question what the node is: not available as long as the
/// node knows nothing of its cluster, then what it tells of itself.
pub open spec fn cluster_information_response(cluster: Option<ClusterView>) -> ResponseView {
    match cluster {
        Some(cluster) => ResponseView {
            status: Status::Success,
            body: BodyView::Information(cluster.information()),
        },
        None => ResponseView::empty(Status::ServiceUnavailable),
    }
}

/// The answer to the question what the node knows of its cluster: not
/// available as long as it knows nothing, then all of it.
pub open spec fn cluster_state_response(cluster: Option<ClusterView>) -> ResponseView {
    match cluster {
        Some(cluster) => ResponseView { status: Status::Success, body: BodyView::State(cluster) },
        None => ResponseView::empty(Status::ServiceUnavailable),
    }
}

/// What asking for the namespace of the given name does to the store when
/// `id` is the id for a new namespace, and the answer: the namespace is looked
/// up; if it is there its metadata are the answer, and if not an empty
/// namespace of that name is stored and its metadata are the answer.
pub open spec fn put_namespace(store: StorageView, namespace_name: Seq<char>, id: Seq<char>) -> (
    StorageView,
    ResponseView,
) {
    let (read, found) = store.apply(OperationView::ReadNamespace { namespace_name });
    match found {
        Ok(OutcomeView::NamespaceFound(namespace)) => (
            read,
            ResponseView { status: Status::Success, body: BodyView::Metadata(namespace.metadata) },
        ),
        _ => {
            let namespace = NamespaceView::make(namespace_name, id);
            (
                read.apply(OperationView::CreateOrUpdateNamespace { namespace }).0,
                ResponseView { status: Status::Created, body: BodyView::Metadata(namespace.metadata) },
            )
        },
    }
}

/// What reading the namespace of the given name does to the store, and the
/// answer: its metadata if it is there.
pub open spec fn get_namespace(store: StorageView, namespace_name: Seq<char>) -> (StorageView, ResponseView) {
    let (read, found) = store.apply(OperationView::ReadNamespace { namespace_name });
    (
        read,
        match found {
            Ok(OutcomeView::NamespaceFound(namespace)) => ResponseView {
                status: Status::Success,
                body: BodyView::Metadata(namespace.metadata),
            },
            _ => ResponseView::empty(Status::NotFound),
        },
    )
}

/// What writing a record with the given id and fields to the namespace of the
/// given name does to the store, and the answer: the fields of the record as
/// it is stored, if the namespace is there.
pub open spec fn put_object(store: StorageView, namespace_name: Seq<char>, id: Seq<char>, data: Entries) -> (
    StorageView,
    ResponseView,
) {
    let (written, answer) = store.apply(
        OperationView::CreateOrUpdateNamespaceObject { namespace_name, object: ObjectView::make(id, data) },
    );
    (
        written,
        match answer {
            Ok(OutcomeView::NamespaceObjectCreated(object)) => ResponseView {
                status: Status::Created,
                body: BodyView::Data(object.data),
            },
            Ok(OutcomeView::NamespaceObjectUpdated(object)) => ResponseView {
                status: Status::Success,
                body: BodyView::Data(object.data),
            },
            Ok(_) => ResponseView::empty(Status::NotFound),
            Err(_) => ResponseView::empty(Status::ServiceUnavailable),
        },
    )
}

/// What reading the record of the given id in the namespace of the given name
/// does to the store, and the answer: the fields of the record if it is there.
pub open spec fn get_object(store: StorageView, namespace_name: Seq<char>, id: Seq<char>) -> (
    StorageView,
    ResponseView,
) {
    let (read, found) = store.apply(OperationView::ReadNamespaceObject { namespace_name, object_id: id });
    (
        read,
        match found {
            Ok(OutcomeView::NamespaceObjectFound(object)) => ResponseView {
                status: Status::Success,
                body: BodyView::Data(object.data),
            },
            _ => ResponseView::empty(Status::NotFound),
        },
    )
}

/// What the node tells of itself and its cluster.
pub fn cluster_information(cluster: &Cluster) -> (information: ClusterInformation)
    ensures
        information@ == cluster@.information(),
{
    ClusterInformation {
        cluster_name: cluster.name.clone(),
        node_name: cluster.node.name.clone(),
        noronha_version: cluster.noronha_version.clone(),
    }
}

/// Answers the question what the node is.
pub fn handle_cluster_information(cluster: &Option<Cluster>) -> (response: Response<'static>)
    ensures
        response@ == cluster_information_response(state(*cluster)),
{
    match cluster {
        Some(cluster) => Response {
            status: Status::Success,
            body: Body::Information(cluster_information(cluster)),
        },
        None => Response { status: Status::ServiceUnavailable, body: Body::Empty },
    }
}

/// Answers the question what the node knows of its cluster.
pub fn handle_cluster_state<'a>(cluster: &'a Option<Cluster>) -> (response: Response<'a>)
    ensures
        response@ == cluster_state_response(state(*cluster)),
{
    match cluster {
        Some(cluster) => Response { status: Status::Success, body: Body::State(cluster) },
        None => Response { status: Status::ServiceUnavailable, body: Body::Empty },
    }
}

/// Answers a request for the namespace of the given name, with a fresh random
/// id for the namespace if it is new.
pub fn handle_create_namespace(storage: &mut Storage, namespace_name: String) -> (response: Response<'static>)
    ensures
        exists|id: u128|
            is_random(id) && (final(storage)@, response@) == put_namespace(
                old(storage)@,
                namespace_name@,
                id_text(id),
            ),
{
    create_namespace(storage, namespace_name, make_id_string())
}

/// Answers a request for the namespace of the given name, with the given id
/// for the namespace if it is new.
pub fn create_namespace(storage: &mut Storage, namespace_name: String, id: String) -> (response: Response<
    'static,
>)
    ensures
        (final(storage)@, response@) == put_namespace(old(storage)@, namespace_name@, id@),
{
    match storage.read_namespace(namespace_name.clone()) {
        Ok(Outcome::NamespaceFound(namespace)) => Response {
            status: Status::Success,
            body: Body::Metadata(namespace.metadata),
        },
        _ => {
            let namespace = Namespace::with_id(namespace_name.as_str(), id);
            let metadata = strings_clone(&namespace.metadata);
            let _ = storage.create_or_update_namespace(namespace);
            Response { status: Status::Created, body: Body::Metadata(metadata) }
        },
    }
}

/// Answers a request to read the namespace of the given name.
pub fn handle_get_namespace(storage: &mut Storage, namespace_name: String) -> (response: Response<'static>)
    ensures
        (final(storage)@, response@) == get_namespace(old(storage)@, namespace_name@),
{
    match storage.read_namespace(namespace_name) {
        Ok(Outcome::NamespaceFound(namespace)) => Response {
            status: Status::Success,
            body: Body::Metadata(namespace.metadata),
        },
        _ => Response { status: Status::NotFound, body: Body::Empty },
    }
}

/// Answers a request to write a record to the namespace of the given name:
/// under the given id, or under a fresh random id if none is given.
pub fn handle_create_or_update_namespace_object(
    storage: &mut Storage,
    namespace_name: String,
    object_id: Option<String>,
    object_data: ObjectData,
) -> (response: Response<'static>)
    ensures
        match object_id {
            Some(id) => (final(storage)@, response@) == put_object(
                old(storage)@,
                namespace_name@,
                id@,
                entries(object_data),
            ),
            None => exists|id: u128|
                is_random(id) && (final(storage)@, response@) == put_object(
                    old(storage)@,
                    namespace_name@,
                    id_text(id),
                    entries(object_data),
                ),
        },
{
    let id = match object_id {
        Some(id) => id,
        None => make_id_string(),
    };
    create_or_update_namespace_object(storage, namespace_name, id, object_data)
}

/// Answers a request to write a record to the namespace of the given name
/// under the given id.
pub fn create_or_update_namespace_object(
    storage: &mut Storage,
    namespace_name: String,
    object_id: String,
    object_data: ObjectData,
) -> (response: Response<'static>)
    ensures
        (final(storage)@, response@) == put_object(
            old(storage)@,
            namespace_name@,
            object_id@,
            entries(object_data),
        ),
{
    let object = Object::make(object_id.as_str(), object_data);
    match storage.create_or_update_namespace_object(namespace_name, object) {
        Ok(Outcome::NamespaceObjectCreated(object)) => Response {
            status: Status::Created,
            body: Body::Data(object.data),
        },
        Ok(Outcome::NamespaceObjectUpdated(object)) => Response {
            status: Status::Success,
            body: Body::Data(object.data),
        },
        Ok(_) => Response { status: Status::NotFound, body: Body::Empty },
        Err(_) => Response { status: Status::ServiceUnavailable, body: Body::Empty },
    }
}

/// Answers a request to read a record of the namespace of the given name: the
/// one of the given id, or, if none is given, the one of a fresh random id.
pub fn handle_get_namespace_object(storage: &mut Storage, namespace_name: String, object_id: Option<String>) -> (response:
    Response<'static>)
    ensures
        match object_id {
            Some(id) => (final(storage)@, response@) == get_object(old(storage)@, namespace_name@, id@),
            None => exists|id: u128|
                is_random(id) && (final(storage)@, response@) == get_object(
                    old(storage)@,
                    namespace_name@,
                    id_text(id),
                ),
        },
{
    let id = match object_id {
        Some(id) => id,
        None => make_id_string(),
    };
    match storage.read_namespace_object(namespace_name, id) {
        Ok(Outcome::NamespaceObjectFound(object)) => Response {
            status: Status::Success,
            body: Body::Data(object.data),
        },
        _ => Response { status: Status::NotFound, body: Body::Empty },
    }
}

/// A namespace is created once: the first request for a name answers
/// `Created` if the name was free and `Success` if it was taken; a second
/// request for the name answers `Success` with the same metadata, whatever id
/// it brings, and leaves every namespace as it is.
pub proof fn namespace_is_created_once(
    store: StorageView,
    namespace_name: Seq<char>,
    first_id: Seq<char>,
    second_id: Seq<char>,
)
    ensures
        ({
            let (between, first) = put_namespace(store, namespace_name, first_id);
            let (after, second) = put_namespace(between, namespace_name, second_id);
            &&& first.status == if store.namespaces.contains_key(namespace_name) {
                Status::Success
            } else {
                Status::Created
            }
            &&& between.namespaces.contains_key(namespace_name)
            &&& second.status == Status::Success
            &&& second.body == first.body
            &&& after.namespaces == between.namespaces
        }),
{
}

/// Reading a namespace answers `Success` with its metadata if the name is
/// taken and `NotFound` if it is free, and changes no namespace.
pub proof fn namespace_is_read(store: StorageView, namespace_name: Seq<char>)
    ensures
        ({
            let (after, response) = get_namespace(store, namespace_name);
            &&& after.namespaces == store.namespaces
            &&& store.namespaces.contains_key(namespace_name) ==> response == ResponseView {
                status: Status::Success,
                body: BodyView::Metadata(store.namespaces[namespace_name].metadata),
            }
            &&& !store.namespaces.contains_key(namespace_name) ==> response == ResponseView::empty(
                Status::NotFound,
            )
        }),
{
}

/// Writing a record answers `NotFound` if there is no namespace of the name,
/// and then changes no namespace; `Created` if the namespace holds no record
/// of the id; and `Success` if it holds one. In the last two cases the answer
/// holds the fields with the id among them, and reading the record afterwards
/// answers `Success` with the same fields.
pub proof fn object_is_written(store: StorageView, namespace_name: Seq<char>, id: Seq<char>, data: Entries)
    ensures
        ({
            let (after, response) = put_object(store, namespace_name, id, data);
            let stored = ResponseView { status: response.status, body: BodyView::Data(data.insert("id"@, id)) };
            &&& !store.namespaces.contains_key(namespace_name) ==> response == ResponseView::empty(
                Status::NotFound,
            ) && after.namespaces == store.namespaces
            &&& store.namespaces.contains_key(namespace_name) ==> response == stored && response.status == if store.namespaces[namespace_name].objects.contains_key(
                id,
            ) {
                Status::Success
            } else {
                Status::Created
            }
            &&& store.namespaces.contains_key(namespace_name) ==> get_object(after, namespace_name, id).1
                == ResponseView { status: Status::Success, body: BodyView::Data(data.insert("id"@, id)) }
        }),
{
}

/// Reading a record answers `Success` with its fields if the namespace holds
/// a record of the id, and `NotFound` if there is no such namespace or no
/// such record; it changes no namespace.
pub proof fn object_is_read(store: StorageView, namespace_name: Seq<char>, id: Seq<char>)
    ensures
        ({
            let (after, response) = get_object(store, namespace_name, id);
            let there = store.namespaces.contains_key(namespace_name)
                && store.namespaces[namespace_name].objects.contains_key(id);
            &&& after.namespaces == store.namespaces
            &&& there ==> response == ResponseView {
                status: Status::Success,
                body: BodyView::Data(store.namespaces[namespace_name].objects[id].data),
            }
            &&& !there ==> response == ResponseView::empty(Status::NotFound)
        }),
{
}

} // verus!
