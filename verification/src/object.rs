//! A stored record.

use vstd::prelude::*;
use crate::types::{entries, strings_clone, strings_insert, strings_new, Bag, Entries, Metadata};

verus! {

/// The fields of a record.
pub type ObjectData = Bag<String>;

/// A record: its fields, and metadata that repeats its id.
#[derive(Debug, PartialEq)]
pub struct Object {
    pub metadata: Metadata,
    pub data: ObjectData,
}

/// What a record holds.
pub struct ObjectView {
    pub metadata: Entries,
    pub data: Entries,
}

impl View for Object {
    type V = ObjectView;

    open spec fn view(&self) -> ObjectView {
        ObjectView { metadata: entries(self.metadata), data: entries(self.data) }
    }
}

impl Clone for Object {
    fn clone(&self) -> (copy: Self)
        ensures
            copy@ == self@,
    {
        Object { metadata: strings_clone(&self.metadata), data: strings_clone(&self.data) }
    }
}

impl ObjectView {
    /// The record with the given id and fields: the id is its only metadata,
    /// and it stands among the fields too, over any `"id"` they held.
    pub open spec fn make(id: Seq<char>, data: Entries) -> ObjectView {
        ObjectView {
            metadata: Entries::empty().insert("id"@, id),
            data: data.insert("id"@, id),
        }
    }

    /// The id under which the record is stored, if its fields hold one.
    pub open spec fn id(self) -> Option<Seq<char>> {
        if self.data.contains_key("id"@) {
            Some(self.data["id"@])
        } else {
            None
        }
    }
}

impl Object {
    /// Builds the record with the given id and fields.
    pub fn make(id: &str, data: ObjectData) -> (object: Self)
        ensures
            object@ == ObjectView::make(id@, entries(data)),
    {
        let mut data = data;
        let mut metadata: Metadata = strings_new();
        strings_insert(&mut metadata, "id".to_owned(), id.to_owned());
        strings_insert(&mut data, "id".to_string(), id.to_string());
        Object { metadata, data }
    }
}

} // verus!
