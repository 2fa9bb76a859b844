//! The persistent hash map of `im`, as this library uses it: keyed by
//! strings, and described in contracts by the mathematical map it holds.

use vstd::prelude::*;

verus! {

/// `im::HashMap`: Verus sees nothing of what it holds but what the functions
/// of this library that call it state.
#[verifier::external_type_specification]
#[verifier::external_body]
#[verifier::reject_recursive_types(K)]
#[verifier::reject_recursive_types(V)]
#[verifier::reject_recursive_types(S)]
pub struct ExHashMap<K, V, S>(im::HashMap<K, V, S>);

/// A collection of values that are found by a string key.
pub type Bag<T> = im::HashMap<String, T>;

/// Free-form attributes of a stored item, such as its id and its name.
pub type Metadata = Bag<String>;

/// A mathematical map from strings to strings.
pub type Entries = Map<Seq<char>, Seq<char>>;

/// The entries of a bag of strings: each key with the string stored under it.
pub uninterp spec fn entries(bag: im::HashMap<String, String>) -> Map<Seq<char>, Seq<char>>;

/// `im::HashMap::new`: the new bag has no entry.
#[verifier::external_body]
pub(crate) fn strings_new() -> (bag: Metadata)
    ensures
        entries(bag) == Entries::empty(),
{
    im::HashMap::new()
}

/// `im::HashMap::insert`: afterwards the key maps to the given value and every
/// other key is as before.
#[verifier::external_body]
pub(crate) fn strings_insert(bag: &mut Metadata, key: String, value: String)
    ensures
        entries(*final(bag)) == entries(*old(bag)).insert(key@, value@),
{
    bag.insert(key, value);
}

/// `im::HashMap::get`: the value stored under the key, if there is one.
#[verifier::external_body]
pub(crate) fn strings_get<'a>(bag: &'a Metadata, key: &str) -> (value: Option<&'a String>)
    ensures
        value.is_some() == entries(*bag).contains_key(key@),
        value matches Some(v) ==> v@ == entries(*bag)[key@],
{
    bag.get(key)
}

/// `Clone::clone` of `im::HashMap`: the copy has the same entries.
#[verifier::external_body]
pub(crate) fn strings_clone(bag: &Metadata) -> (copy: Metadata)
    ensures
        entries(copy) == entries(*bag),
{
    bag.clone()
}

} // verus!
