//! A named collection of records.

use vstd::prelude::*;
use crate::object::{Object, ObjectView};
use crate::types::{entries, strings_clone, strings_insert, strings_new, Bag, Entries, Metadata};
use crate::utils::{id_text, is_random, make_id_string};

verus! {

/// A mathematical map from ids to what the records stored under them hold.
pub type Objects = Map<Seq<char>, ObjectView>;

/// The records of a bag: each id with what the record stored under it holds.
pub uninterp spec fn objects(bag: im::HashMap<String, Object>) -> Map<Seq<char>, ObjectView>;

/// `im::HashMap::new`: the new bag has no record.
#[verifier::external_body]
pub(crate) fn objects_new() -> (bag: Bag<Object>)
    ensures
        objects(bag) == Objects::empty(),
{
    im::HashMap::new()
}

/// `im::HashMap::insert`: afterwards the id maps to the given record and every
/// other id is as before. A record is returned exactly if the id had one.
#[verifier::external_body]
pub(crate) fn objects_insert(bag: &mut Bag<Object>, id: String, object: Object) -> (previous: Option<Object>)
    ensures
        objects(*final(bag)) == objects(*old(bag)).insert(id@, object@),
        previous.is_some() == objects(*old(bag)).contains_key(id@),
{
    bag.insert(id, object)
}

/// `im::HashMap::get`: the record stored under the id, if there is one.
#[verifier::external_body]
pub(crate) fn objects_get<'a>(bag: &'a Bag<Object>, id: &String) -> (object: Option<&'a Object>)
    ensures
        object.is_some() == objects(*bag).contains_key(id@),
        object matches Some(o) ==> o@ == objects(*bag)[id@],
{
    bag.get(id)
}

/// `Clone::clone` of `im::HashMap`: the copy has the same records.
#[verifier::external_body]
pub(crate) fn objects_clone(bag: &Bag<Object>) -> (copy: Bag<Object>)
    ensures
        objects(copy) == objects(*bag),
{
    bag.clone()
}

/// A named collection of records, each stored under its id.
#[derive(Debug, PartialEq)]
pub struct Namespace {
    pub metadata: Metadata,
    pub objects: Bag<Object>,
}

/// What a namespace holds.
pub struct NamespaceView {
    pub metadata: Entries,
    pub objects: Objects,
}

impl View for Namespace {
    type V = NamespaceView;

    open spec fn view(&self) -> NamespaceView {
        NamespaceView { metadata: entries(self.metadata), objects: objects(self.objects) }
    }
}

impl Clone for Namespace {
    fn clone(&self) -> (copy: Self)
        ensures
            copy@ == self@,
    {
        Namespace { metadata: strings_clone(&self.metadata), objects: objects_clone(&self.objects) }
    }
}

impl NamespaceView {
    /// The empty namespace with the given name and id.
    pub open spec fn make(name: Seq<char>, id: Seq<char>) -> NamespaceView {
        NamespaceView {
            metadata: Entries::empty().insert("id"@, id).insert("name"@, name),
            objects: Objects::empty(),
        }
    }

    /// The name under which the namespace is stored, if its metadata holds one.
    pub open spec fn name(self) -> Option<Seq<char>> {
        if self.metadata.contains_key("name"@) {
            Some(self.metadata["name"@])
        } else {
            None
        }
    }
}

impl Namespace {
    /// Builds the empty namespace with the given name and a fresh random id.
    pub fn make(name: &str) -> (namespace: Self)
        ensures
            exists|id: u128| is_random(id) && namespace@ == NamespaceView::make(name@, id_text(id)),
    {
        Self::with_id(name, make_id_string())
    }

    /// Builds the empty namespace with the given name and id.
    pub fn with_id(name: &str, id: String) -> (namespace: Self)
        ensures
            namespace@ == NamespaceView::make(name@, id@),
    {
        let mut metadata: Metadata = strings_new();
        strings_insert(&mut metadata, "id".to_string(), id);
        strings_insert(&mut metadata, "name".to_string(), name.to_string());
        Namespace { metadata, objects: objects_new() }
    }
}

} // verus!
