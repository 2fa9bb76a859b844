//! The store: namespaces of records, changed and read through operations
//! that are all written to a log.

use vstd::prelude::*;
use crate::namespace::{objects_get, objects_insert, Namespace, NamespaceView};
use crate::object::{Object, ObjectView};
use crate::types::{strings_get, Bag, Entries};

verus! {

/// A mathematical map from names to what the namespaces stored under them hold.
pub type Namespaces = Map<Seq<char>, NamespaceView>;

/// The namespaces of a bag: each name with what the namespace stored under it holds.
pub uninterp spec fn namespaces(bag: im::HashMap<String, Namespace>) -> Map<Seq<char>, NamespaceView>;

/// `im::HashMap::new`: the new bag has no namespace.
#[verifier::external_body]
pub(crate) fn namespaces_new() -> (bag: Bag<Namespace>)
    ensures
        namespaces(bag) == Namespaces::empty(),
{
    im::HashMap::new()
}

/// `im::HashMap::insert`: afterwards the name maps to the given namespace and
/// every other name is as before. A namespace is returned exactly if the name
/// had one.
#[verifier::external_body]
pub(crate) fn namespaces_insert(bag: &mut Bag<Namespace>, name: String, namespace: Namespace) -> (previous: Option<Namespace>)
    ensures
        namespaces(*final(bag)) == namespaces(*old(bag)).insert(name@, namespace@),
        previous.is_some() == namespaces(*old(bag)).contains_key(name@),
{
    bag.insert(name, namespace)
}

/// `im::HashMap::get`: the namespace stored under the name, if there is one.
#[verifier::external_body]
pub(crate) fn namespaces_get<'a>(bag: &'a Bag<Namespace>, name: &String) -> (namespace: Option<&'a Namespace>)
    ensures
        namespace.is_some() == namespaces(*bag).contains_key(name@),
        namespace matches Some(n) ==> n@ == namespaces(*bag)[name@],
{
    bag.get(name)
}

/// A request to the store.
#[derive(Debug, PartialEq)]
pub enum Operation {
    CreateOrUpdateNamespace { namespace: Namespace },
    CreateOrUpdateNamespaceObject { namespace_name: String, object: Object },
    ReadNamespace { namespace_name: String },
    ReadNamespaceObject { namespace_name: String, object_id: String },
}

/// What a request holds.
pub enum OperationView {
    CreateOrUpdateNamespace { namespace: NamespaceView },
    CreateOrUpdateNamespaceObject { namespace_name: Seq<char>, object: ObjectView },
    ReadNamespace { namespace_name: Seq<char> },
    ReadNamespaceObject { namespace_name: Seq<char>, object_id: Seq<char> },
}

impl View for Operation {
    type V = OperationView;

    open spec fn view(&self) -> OperationView {
        match *self {
            Operation::CreateOrUpdateNamespace { namespace } => OperationView::CreateOrUpdateNamespace {
                namespace: namespace@,
            },
            Operation::CreateOrUpdateNamespaceObject {
                namespace_name,
                object,
            } => OperationView::CreateOrUpdateNamespaceObject {
                namespace_name: namespace_name@,
                object: object@,
            },
            Operation::ReadNamespace { namespace_name } => OperationView::ReadNamespace {
                namespace_name: namespace_name@,
            },
            Operation::ReadNamespaceObject {
                namespace_name,
                object_id,
            } => OperationView::ReadNamespaceObject {
                namespace_name: namespace_name@,
                object_id: object_id@,
            },
        }
    }
}

impl Clone for Operation {
    fn clone(&self) -> (copy: Self)
        ensures
            copy@ == self@,
    {
        match self {
            Operation::CreateOrUpdateNamespace { namespace } => Operation::CreateOrUpdateNamespace {
                namespace: namespace.clone(),
            },
            Operation::CreateOrUpdateNamespaceObject {
                namespace_name,
                object,
            } => Operation::CreateOrUpdateNamespaceObject {
                namespace_name: namespace_name.clone(),
                object: object.clone(),
            },
            Operation::ReadNamespace { namespace_name } => Operation::ReadNamespace {
                namespace_name: namespace_name.clone(),
            },
            Operation::ReadNamespaceObject {
                namespace_name,
                object_id,
            } => Operation::ReadNamespaceObject {
                namespace_name: namespace_name.clone(),
                object_id: object_id.clone(),
            },
        }
    }
}

/// The answer of the store to a request that it carried out.
#[derive(Debug, PartialEq)]
pub enum Outcome {
    NamespaceCreated(Namespace),
    NamespaceUpdated(Namespace),
    NamespaceFound(Namespace),
    NamespaceNotFound(String),
    NamespaceObjectCreated(Object),
    NamespaceObjectUpdated(Object),
    NamespaceObjectFound(Object),
    NamespaceObjectNotFound(String),
}

/// What an answer holds.
pub enum OutcomeView {
    NamespaceCreated(NamespaceView),
    NamespaceUpdated(NamespaceView),
    NamespaceFound(NamespaceView),
    NamespaceNotFound(Seq<char>),
    NamespaceObjectCreated(ObjectView),
    NamespaceObjectUpdated(ObjectView),
    NamespaceObjectFound(ObjectView),
    NamespaceObjectNotFound(Seq<char>),
}

impl View for Outcome {
    type V = OutcomeView;

    open spec fn view(&self) -> OutcomeView {
        match *self {
            Outcome::NamespaceCreated(namespace) => OutcomeView::NamespaceCreated(namespace@),
            Outcome::NamespaceUpdated(namespace) => OutcomeView::NamespaceUpdated(namespace@),
            Outcome::NamespaceFound(namespace) => OutcomeView::NamespaceFound(namespace@),
            Outcome::NamespaceNotFound(name) => OutcomeView::NamespaceNotFound(name@),
            Outcome::NamespaceObjectCreated(object) => OutcomeView::NamespaceObjectCreated(object@),
            Outcome::NamespaceObjectUpdated(object) => OutcomeView::NamespaceObjectUpdated(object@),
            Outcome::NamespaceObjectFound(object) => OutcomeView::NamespaceObjectFound(object@),
            Outcome::NamespaceObjectNotFound(id) => OutcomeView::NamespaceObjectNotFound(id@),
        }
    }
}

impl Clone for Outcome {
    fn clone(&self) -> (copy: Self)
        ensures
            copy@ == self@,
    {
        match self {
            Outcome::NamespaceCreated(namespace) => Outcome::NamespaceCreated(namespace.clone()),
            Outcome::NamespaceUpdated(namespace) => Outcome::NamespaceUpdated(namespace.clone()),
            Outcome::NamespaceFound(namespace) => Outcome::NamespaceFound(namespace.clone()),
            Outcome::NamespaceNotFound(name) => Outcome::NamespaceNotFound(name.clone()),
            Outcome::NamespaceObjectCreated(object) => Outcome::NamespaceObjectCreated(object.clone()),
            Outcome::NamespaceObjectUpdated(object) => Outcome::NamespaceObjectUpdated(object.clone()),
            Outcome::NamespaceObjectFound(object) => Outcome::NamespaceObjectFound(object.clone()),
            Outcome::NamespaceObjectNotFound(id) => Outcome::NamespaceObjectNotFound(id.clone()),
        }
    }
}

/// The failure of a request that lacks the identifier under which its subject
/// is stored: a record without an id, or a namespace without a name.
#[derive(Debug, PartialEq, Eq)]
pub struct Error;

/// What the result of a request holds.
pub open spec fn result_view(result: Result<Outcome, Error>) -> Result<OutcomeView, Error> {
    match result {
        Ok(outcome) => Ok(outcome@),
        Err(error) => Err(error),
    }
}

impl NamespaceView {
    /// Stores a record under the id that its fields name: the namespace
    /// afterwards, and the answer. A record without an id is refused and
    /// nothing changes.
    pub open spec fn create_or_update_object(self, object: ObjectView) -> (
        NamespaceView,
        Result<OutcomeView, Error>,
    ) {
        match object.id() {
            Some(id) => (
                NamespaceView { metadata: self.metadata, objects: self.objects.insert(id, object) },
                if self.objects.contains_key(id) {
                    Ok(OutcomeView::NamespaceObjectUpdated(object))
                } else {
                    Ok(OutcomeView::NamespaceObjectCreated(object))
                },
            ),
            None => (self, Err(Error)),
        }
    }
}

impl Namespace {
    /// Stores the record under the id that its fields name, in place of any
    /// record that was stored under it.
    pub fn create_or_update_object(&mut self, object: Object) -> (result: Result<Outcome, Error>)
        ensures
            (final(self)@, result_view(result)) == old(self)@.create_or_update_object(object@),
    {
        match strings_get(&object.data, "id") {
            Some(object_id) => {
                let id = object_id.clone();
                let previous = objects_insert(&mut self.objects, id, object.clone());
                match previous {
                    Some(_) => Ok(Outcome::NamespaceObjectUpdated(object)),
                    None => Ok(Outcome::NamespaceObjectCreated(object)),
                }
            },
            None => Err(Error),
        }
    }
}

/// What a store holds: the requests that it was given, oldest first; the
/// positions in that log of the requests that it refused, in rising order; and
/// its namespaces by name.
pub struct StorageView {
    pub log: Seq<OperationView>,
    pub rejected: Seq<int>,
    pub namespaces: Namespaces,
}

impl StorageView {
    /// The store that holds nothing.
    pub open spec fn empty() -> StorageView {
        StorageView { log: Seq::empty(), rejected: Seq::empty(), namespaces: Namespaces::empty() }
    }

    /// Stores a namespace under its name, in place of any that was stored
    /// under it: the namespaces afterwards, and the answer. A namespace
    /// without a name is refused and nothing changes.
    pub open spec fn create_or_update_namespace(all: Namespaces, namespace: NamespaceView) -> (
        Namespaces,
        Result<OutcomeView, Error>,
    ) {
        match namespace.name() {
            Some(name) => (
                all.insert(name, namespace),
                if all.contains_key(name) {
                    Ok(OutcomeView::NamespaceUpdated(namespace))
                } else {
                    Ok(OutcomeView::NamespaceCreated(namespace))
                },
            ),
            None => (all, Err(Error)),
        }
    }

    /// Stores a record in the namespace of the given name, if there is one:
    /// the namespaces afterwards, and the answer.
    pub open spec fn create_or_update_namespace_object(
        all: Namespaces,
        namespace_name: Seq<char>,
        object: ObjectView,
    ) -> (Namespaces, Result<OutcomeView, Error>) {
        if all.contains_key(namespace_name) {
            let (namespace, result) = all[namespace_name].create_or_update_object(object);
            (
                if result is Ok {
                    all.insert(namespace_name, namespace)
                } else {
                    all
                },
                result,
            )
        } else {
            (all, Ok(OutcomeView::NamespaceNotFound(namespace_name)))
        }
    }

    /// Looks up the namespace of the given name.
    pub open spec fn read_namespace(all: Namespaces, namespace_name: Seq<char>) -> OutcomeView {
        if all.contains_key(namespace_name) {
            OutcomeView::NamespaceFound(all[namespace_name])
        } else {
            OutcomeView::NamespaceNotFound(namespace_name)
        }
    }

    /// Looks up the record of the given id in the namespace of the given name.
    pub open spec fn read_namespace_object(
        all: Namespaces,
        namespace_name: Seq<char>,
        object_id: Seq<char>,
    ) -> OutcomeView {
        if !all.contains_key(namespace_name) {
            OutcomeView::NamespaceNotFound(namespace_name)
        } else if all[namespace_name].objects.contains_key(object_id) {
            OutcomeView::NamespaceObjectFound(all[namespace_name].objects[object_id])
        } else {
            OutcomeView::NamespaceObjectNotFound(object_id)
        }
    }

    /// What a request does to the namespaces, and the answer to it.
    pub open spec fn dispatch(all: Namespaces, operation: OperationView) -> (
        Namespaces,
        Result<OutcomeView, Error>,
    ) {
        match operation {
            OperationView::CreateOrUpdateNamespace { namespace } => Self::create_or_update_namespace(
                all,
                namespace,
            ),
            OperationView::CreateOrUpdateNamespaceObject {
                namespace_name,
                object,
            } => Self::create_or_update_namespace_object(all, namespace_name, object),
            OperationView::ReadNamespace { namespace_name } => (
                all,
                Ok(Self::read_namespace(all, namespace_name)),
            ),
            OperationView::ReadNamespaceObject { namespace_name, object_id } => (
                all,
                Ok(Self::read_namespace_object(all, namespace_name, object_id)),
            ),
        }
    }

    /// Carries out a request: the store afterwards, and the answer. The
    /// request is written to the log whatever the answer, and its position is
    /// noted if it was refused.
    pub open spec fn apply(self, operation: OperationView) -> (StorageView, Result<OutcomeView, Error>) {
        let (namespaces, result) = Self::dispatch(self.namespaces, operation);
        (
            StorageView {
                log: self.log.push(operation),
                rejected: if result is Err {
                    self.rejected.push(self.log.len() as int)
                } else {
                    self.rejected
                },
                namespaces,
            },
            result,
        )
    }
}

/// The store. Its log holds every request that it was given, oldest first;
/// `rejected` holds the positions in the log of the requests that it refused.
#[derive(Debug, PartialEq)]
pub struct Storage {
    log: Vec<Operation>,
    rejected: Vec<usize>,
    namespaces: Bag<Namespace>,
}

impl View for Storage {
    type V = StorageView;

    closed spec fn view(&self) -> StorageView {
        StorageView {
            log: Seq::new(self.log@.len(), |i: int| self.log@[i]@),
            rejected: Seq::new(self.rejected@.len(), |j: int| self.rejected@[j] as int),
            namespaces: namespaces(self.namespaces),
        }
    }
}

impl Default for Storage {
    fn default() -> (storage: Self)
        ensures
            storage@ == StorageView::empty(),
    {
        Storage::new()
    }
}

impl Storage {
    /// The store that holds nothing.
    pub fn new() -> (storage: Self)
        ensures
            storage@ == StorageView::empty(),
    {
        let storage = Storage { log: Vec::new(), rejected: Vec::new(), namespaces: namespaces_new() };
        assert(storage@.log =~= Seq::empty());
        assert(storage@.rejected =~= Seq::empty());
        storage
    }

    /// Stores the namespace under its name, in place of any that was stored
    /// under it.
    pub fn create_or_update_namespace(&mut self, namespace: Namespace) -> (result: Result<Outcome, Error>)
        ensures
            (final(self)@, result_view(result)) == old(self)@.apply(
                OperationView::CreateOrUpdateNamespace { namespace: namespace@ },
            ),
    {
        self.apply(Operation::CreateOrUpdateNamespace { namespace })
    }

    /// Looks up the namespace of the given name.
    pub fn read_namespace(&mut self, namespace_name: String) -> (result: Result<Outcome, Error>)
        ensures
            (final(self)@, result_view(result)) == old(self)@.apply(
                OperationView::ReadNamespace { namespace_name: namespace_name@ },
            ),
    {
        self.apply(Operation::ReadNamespace { namespace_name })
    }

    /// Stores the record, under the id that its fields name, in the namespace
    /// of the given name.
    pub fn create_or_update_namespace_object(&mut self, namespace_name: String, object: Object) -> (result:
        Result<Outcome, Error>)
        ensures
            (final(self)@, result_view(result)) == old(self)@.apply(
                OperationView::CreateOrUpdateNamespaceObject {
                    namespace_name: namespace_name@,
                    object: object@,
                },
            ),
    {
        self.apply(Operation::CreateOrUpdateNamespaceObject { namespace_name, object })
    }

    /// Looks up the record of the given id in the namespace of the given name.
    pub fn read_namespace_object(&mut self, namespace_name: String, object_id: String) -> (result: Result<
        Outcome,
        Error,
    >)
        ensures
            (final(self)@, result_view(result)) == old(self)@.apply(
                OperationView::ReadNamespaceObject {
                    namespace_name: namespace_name@,
                    object_id: object_id@,
                },
            ),
    {
        self.apply(Operation::ReadNamespaceObject { namespace_name, object_id })
    }

    /// Writes the request to the log and carries it out.
    pub fn apply(&mut self, operation: Operation) -> (result: Result<Outcome, Error>)
        ensures
            (final(self)@, result_view(result)) == old(self)@.apply(operation@),
    {
        self.log.push(operation.clone());
        let result = match operation {
            Operation::CreateOrUpdateNamespace { namespace } => self._create_or_update_namespace(namespace),
            Operation::CreateOrUpdateNamespaceObject {
                namespace_name,
                object,
            } => self._create_or_update_namespace_object(namespace_name, object),
            Operation::ReadNamespace { namespace_name } => self._read_namespace(namespace_name),
            Operation::ReadNamespaceObject {
                namespace_name,
                object_id,
            } => self._read_namespace_object(namespace_name, object_id),
        };
        if result.is_err() {
            self.rejected.push(self.log.len() - 1);
        }
        proof {
            let expected = old(self)@.apply(operation@).0;
            assert(self@.log =~= expected.log);
            assert(self@.rejected =~= expected.rejected);
        }
        result
    }

    fn _create_or_update_namespace(&mut self, namespace: Namespace) -> (result: Result<Outcome, Error>)
        ensures
            final(self).log == old(self).log,
            final(self).rejected == old(self).rejected,
            (namespaces(final(self).namespaces), result_view(result))
                == StorageView::create_or_update_namespace(namespaces(old(self).namespaces), namespace@),
    {
        match strings_get(&namespace.metadata, "name") {
            Some(name) => {
                let namespace_name = name.clone();
                match namespaces_insert(&mut self.namespaces, namespace_name, namespace.clone()) {
                    Some(_) => Ok(Outcome::NamespaceUpdated(namespace)),
                    None => Ok(Outcome::NamespaceCreated(namespace)),
                }
            },
            None => Err(Error),
        }
    }

    fn _create_or_update_namespace_object(&mut self, namespace_name: String, object: Object) -> (result: Result<
        Outcome,
        Error,
    >)
        ensures
            final(self).log == old(self).log,
            final(self).rejected == old(self).rejected,
            (namespaces(final(self).namespaces), result_view(result))
                == StorageView::create_or_update_namespace_object(
                namespaces(old(self).namespaces),
                namespace_name@,
                object@,
            ),
    {
        match namespaces_get(&self.namespaces, &namespace_name) {
            Some(found) => {
                let mut namespace = found.clone();
                let result = namespace.create_or_update_object(object);
                if result.is_ok() {
                    namespaces_insert(&mut self.namespaces, namespace_name, namespace);
                }
                result
            },
            None => Ok(Outcome::NamespaceNotFound(namespace_name)),
        }
    }

    fn _read_namespace(&mut self, namespace_name: String) -> (result: Result<Outcome, Error>)
        ensures
            *final(self) == *old(self),
            result_view(result) == Ok::<OutcomeView, Error>(
                StorageView::read_namespace(namespaces(old(self).namespaces), namespace_name@),
            ),
    {
        match namespaces_get(&self.namespaces, &namespace_name) {
            Some(namespace) => Ok(Outcome::NamespaceFound(namespace.clone())),
            None => Ok(Outcome::NamespaceNotFound(namespace_name)),
        }
    }

    fn _read_namespace_object(&mut self, namespace_name: String, object_id: String) -> (result: Result<
        Outcome,
        Error,
    >)
        ensures
            *final(self) == *old(self),
            result_view(result) == Ok::<OutcomeView, Error>(
                StorageView::read_namespace_object(
                    namespaces(old(self).namespaces),
                    namespace_name@,
                    object_id@,
                ),
            ),
    {
        match namespaces_get(&self.namespaces, &namespace_name) {
            Some(namespace) => match objects_get(&namespace.objects, &object_id) {
                Some(object) => Ok(Outcome::NamespaceObjectFound(object.clone())),
                None => Ok(Outcome::NamespaceObjectNotFound(object_id)),
            },
            None => Ok(Outcome::NamespaceNotFound(namespace_name)),
        }
    }

    /// The requests that the store was given, oldest first.
    pub fn log(&self) -> (log: &Vec<Operation>)
        ensures
            log@.len() == self@.log.len(),
            forall|i: int| 0 <= i < log@.len() ==> (#[trigger] log@[i])@ == self@.log[i],
    {
        &self.log
    }

    /// The positions in the log of the requests that the store refused, in
    /// rising order.
    pub fn rejected(&self) -> (positions: &Vec<usize>)
        ensures
            positions@.len() == self@.rejected.len(),
            forall|j: int| 0 <= j < positions@.len() ==> (#[trigger] positions@[j]) as int == self@.rejected[j],
    {
        &self.rejected
    }

    /// The namespaces of the store, by name.
    pub fn namespaces(&self) -> (bag: &Bag<Namespace>)
        ensures
            namespaces(*bag) == self@.namespaces,
    {
        &self.namespaces
    }
}

impl StorageView {
    /// The store after a sequence of requests, carried out in order.
    pub open spec fn apply_all(self, operations: Seq<OperationView>) -> StorageView
        decreases operations.len(),
    {
        if operations.len() == 0 {
            self
        } else {
            self.apply_all(operations.drop_last()).apply(operations.last()).0
        }
    }

    /// What holds of every store that requests could have led to: the noted
    /// positions lie in the log and rise, and every namespace is stored under
    /// its own name.
    pub open spec fn well_formed(self) -> bool {
        &&& forall|j: int| 0 <= j < self.rejected.len() ==> 0 <= #[trigger] self.rejected[j] < self.log.len()
        &&& forall|j: int, k: int|
            0 <= j < k < self.rejected.len() ==> self.rejected[j] < self.rejected[k]
        &&& forall|name: Seq<char>| #[trigger]
            self.namespaces.contains_key(name) ==> self.namespaces[name].name() == Some(name)
    }
}

/// Every request is written to the log, whatever its answer: after a sequence
/// of requests the log is the log before, followed by the requests in the
/// order in which they came.
pub proof fn log_holds_every_request(store: StorageView, operations: Seq<OperationView>)
    ensures
        store.apply_all(operations).log == store.log + operations,
        store.apply_all(operations).log.len() == store.log.len() + operations.len(),
    decreases operations.len(),
{
    if operations.len() > 0 {
        log_holds_every_request(store, operations.drop_last());
    }
}

/// A request is refused exactly when it lacks the identifier that it needs: it
/// asks to store a namespace that has no name, or to store, in a namespace
/// that exists, a record that has no id. Every other request is answered.
pub proof fn refused_without_identifier(store: StorageView, operation: OperationView)
    ensures
        store.apply(operation).1 is Err <==> match operation {
            OperationView::CreateOrUpdateNamespace { namespace } => namespace.name().is_none(),
            OperationView::CreateOrUpdateNamespaceObject { namespace_name, object } => {
                store.namespaces.contains_key(namespace_name) && object.id().is_none()
            },
            _ => false,
        },
{
}

/// A request is noted as refused exactly when its answer is a failure, and
/// then at the position at which it stands in the log.
pub proof fn refusal_is_noted(store: StorageView, operation: OperationView)
    ensures
        store.apply(operation).1 is Err ==> store.apply(operation).0.rejected == store.rejected.push(
            store.log.len() as int,
        ),
        store.apply(operation).1 is Ok ==> store.apply(operation).0.rejected == store.rejected,
        store.apply(operation).1 is Err ==> store.apply(operation).0.namespaces == store.namespaces,
{
}

/// The empty store is well formed, and a request leaves a well-formed store
/// well formed.
pub proof fn requests_keep_well_formed(store: StorageView, operation: OperationView)
    requires
        store.well_formed(),
    ensures
        StorageView::empty().well_formed(),
        store.apply(operation).0.well_formed(),
{
}

/// A sequence of requests leaves a well-formed store well formed.
pub proof fn request_sequences_keep_well_formed(store: StorageView, operations: Seq<OperationView>)
    requires
        store.well_formed(),
    ensures
        store.apply_all(operations).well_formed(),
    decreases operations.len(),
{
    if operations.len() > 0 {
        request_sequences_keep_well_formed(store, operations.drop_last());
        requests_keep_well_formed(store.apply_all(operations.drop_last()), operations.last());
    }
}

/// Storing a namespace replaces the whole of what was stored under its name:
/// when two namespaces of one name are stored one after the other, the first
/// answer is `NamespaceCreated` if the name was free and `NamespaceUpdated`
/// if it was taken, the second answer is `NamespaceUpdated`, and in the end
/// the name holds the second namespace and every other name what it held.
pub proof fn namespace_stored_twice(store: StorageView, first: NamespaceView, second: NamespaceView)
    requires
        first.name().is_some(),
        second.name() == first.name(),
    ensures
        ({
            let name = first.name().unwrap();
            let (between, first_answer) = store.apply(OperationView::CreateOrUpdateNamespace { namespace: first });
            let (after, second_answer) = between.apply(
                OperationView::CreateOrUpdateNamespace { namespace: second },
            );
            &&& !store.namespaces.contains_key(name) ==> first_answer == Ok::<OutcomeView, Error>(
                OutcomeView::NamespaceCreated(first),
            )
            &&& store.namespaces.contains_key(name) ==> first_answer == Ok::<OutcomeView, Error>(
                OutcomeView::NamespaceUpdated(first),
            )
            &&& between.namespaces[name] == first
            &&& second_answer == Ok::<OutcomeView, Error>(OutcomeView::NamespaceUpdated(second))
            &&& after.namespaces == store.namespaces.insert(name, second)
            &&& after.namespaces[name] == second
        }),
{
}

/// A record keeps the id that it was given: when a record with an id is
/// stored in a namespace and a record with the same id is stored there
/// afterwards, the second answer is `NamespaceObjectUpdated`, the namespace
/// holds records under the same ids as after the first request, and the id
/// holds the second record, which carries the id in its metadata and in its
/// fields.
pub proof fn object_stored_twice(
    store: StorageView,
    namespace_name: Seq<char>,
    id: Seq<char>,
    first: Entries,
    second: Entries,
)
    requires
        store.namespaces.contains_key(namespace_name),
    ensures
        ({
            let (between, first_answer) = store.apply(
                OperationView::CreateOrUpdateNamespaceObject {
                    namespace_name,
                    object: ObjectView::make(id, first),
                },
            );
            let (after, second_answer) = between.apply(
                OperationView::CreateOrUpdateNamespaceObject {
                    namespace_name,
                    object: ObjectView::make(id, second),
                },
            );
            &&& first_answer is Ok
            &&& between.namespaces[namespace_name].objects[id] == ObjectView::make(id, first)
            &&& second_answer == Ok::<OutcomeView, Error>(
                OutcomeView::NamespaceObjectUpdated(ObjectView::make(id, second)),
            )
            &&& after.namespaces[namespace_name].objects.dom() == between.namespaces[namespace_name].objects.dom()
            &&& after.namespaces[namespace_name].objects[id] == ObjectView::make(id, second)
            &&& ObjectView::make(id, second).metadata["id"@] == id
            &&& ObjectView::make(id, second).data["id"@] == id
        }),
{
}

/// A record is never stored in a namespace that does not exist: the answer is
/// `NamespaceNotFound`, whatever the record, and the namespaces are as before.
pub proof fn object_needs_its_namespace(store: StorageView, namespace_name: Seq<char>, object: ObjectView)
    requires
        !store.namespaces.contains_key(namespace_name),
    ensures
        ({
            let (after, answer) = store.apply(
                OperationView::CreateOrUpdateNamespaceObject { namespace_name, object },
            );
            &&& answer == Ok::<OutcomeView, Error>(OutcomeView::NamespaceNotFound(namespace_name))
            &&& after.namespaces == store.namespaces
            &&& !after.namespaces.contains_key(namespace_name)
        }),
{
}

/// Reading changes no namespace.
pub proof fn reading_changes_nothing(store: StorageView, namespace_name: Seq<char>, object_id: Seq<char>)
    ensures
        store.apply(OperationView::ReadNamespace { namespace_name }).0.namespaces == store.namespaces,
        store.apply(OperationView::ReadNamespaceObject { namespace_name, object_id }).0.namespaces
            == store.namespaces,
{
}

} // verus!
