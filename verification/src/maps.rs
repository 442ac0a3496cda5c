//! The ordered maps of the configuration, as the `indexmap` crate keeps them.
//!
//! An `IndexMap` holds its entries in the order in which their keys were
//! first inserted, and no key twice. All that the library knows of one is
//! stated here, over the row of its entries.

use crate::provisioner::Provisioner;
use crate::settings::{JailConfValue, JailSettings};
use crate::source::Source;
use crate::volume::Volume;
use indexmap::IndexMap;
use vstd::prelude::*;

verus! {

/// The map type `indexmap::IndexMap`. Nothing is known of what is inside
/// one but what is stated below.
#[verifier::external_type_specification]
#[verifier::external_body]
#[verifier::reject_recursive_types(K)]
#[verifier::reject_recursive_types(V)]
#[verifier::reject_recursive_types(S)]
pub struct ExIndexMap<K, V, S>(IndexMap<K, V, S>);

/// The entries of a map of options, in their order: each key's text with its
/// value.
pub uninterp spec fn conf_entries(m: IndexMap<String, JailConfValue>) -> Seq<
    (Seq<char>, JailConfValue),
>;

/// The declared jails, in their order.
pub uninterp spec fn jail_entries(m: IndexMap<String, JailSettings>) -> Seq<
    (Seq<char>, JailSettings),
>;

/// The declared sources, in their order.
pub uninterp spec fn source_entries(m: IndexMap<String, Source>) -> Seq<(Seq<char>, Source)>;

/// The declared provisioners, in their order.
pub uninterp spec fn provisioner_entries(m: IndexMap<String, Provisioner>) -> Seq<
    (Seq<char>, Provisioner),
>;

/// The declared volumes, in their order.
pub uninterp spec fn volume_entries(m: IndexMap<String, Volume>) -> Seq<(Seq<char>, Volume)>;

/// What a row of references to entries holds.
pub open spec fn row<V>(refs: Seq<(&String, &V)>) -> Seq<(Seq<char>, V)> {
    Seq::new(refs.len(), |i: int| (refs[i].0@, *refs[i].1))
}

/// Where in a row of entries a key stands first, if it is there.
pub open spec fn position<V>(entries: Seq<(Seq<char>, V)>, key: Seq<char>) -> Option<int>
    decreases entries.len(),
{
    if entries.len() == 0 {
        None
    } else {
        match position(entries.drop_last(), key) {
            Some(i) => Some(i),
            None => if entries.last().0 == key {
                Some(entries.len() - 1)
            } else {
                None
            },
        }
    }
}

/// What a row of entries has under a key, if anything.
pub open spec fn lookup<V>(entries: Seq<(Seq<char>, V)>, key: Seq<char>) -> Option<V> {
    match position(entries, key) {
        Some(i) => Some(entries[i].1),
        None => None,
    }
}

/// A row of entries after `IndexMap::insert`: a new key goes to the end, a
/// key that is there keeps its place and gets the new value.
pub open spec fn inserted<V>(entries: Seq<(Seq<char>, V)>, key: Seq<char>, value: V) -> Seq<
    (Seq<char>, V),
> {
    match position(entries, key) {
        Some(i) => entries.update(i, (key, value)),
        None => entries.push((key, value)),
    }
}

/// `IndexMap::new` makes a map without entries.
#[verifier::external_body]
pub(crate) fn conf_new() -> (m: IndexMap<String, JailConfValue>)
    ensures
        conf_entries(m) == Seq::<(Seq<char>, JailConfValue)>::empty(),
{
    IndexMap::new()
}

/// `IndexMap::insert` puts a new key last in the order; a key that is there
/// keeps its place and its value is replaced.
#[verifier::external_body]
pub(crate) fn conf_insert(m: &mut IndexMap<String, JailConfValue>, key: String, value: JailConfValue)
    ensures
        conf_entries(*final(m)) == inserted(conf_entries(*old(m)), key@, value),
{
    m.insert(key, value);
}

/// `IndexMap::iter` walks the entries in their order.
#[verifier::external_body]
pub(crate) fn conf_rows(m: &IndexMap<String, JailConfValue>) -> (r: Vec<(&String, &JailConfValue)>)
    ensures
        row(r@) == conf_entries(*m),
{
    m.iter().collect()
}

/// `IndexMap::iter` walks the entries in their order.
#[verifier::external_body]
pub(crate) fn jail_rows(m: &IndexMap<String, JailSettings>) -> (r: Vec<(&String, &JailSettings)>)
    ensures
        row(r@) == jail_entries(*m),
{
    m.iter().collect()
}

/// `IndexMap::iter` walks the entries in their order.
#[verifier::external_body]
pub(crate) fn source_rows(m: &IndexMap<String, Source>) -> (r: Vec<(&String, &Source)>)
    ensures
        row(r@) == source_entries(*m),
{
    m.iter().collect()
}

/// `IndexMap::iter` walks the entries in their order.
#[verifier::external_body]
pub(crate) fn provisioner_rows(m: &IndexMap<String, Provisioner>) -> (r: Vec<(&String, &Provisioner)>)
    ensures
        row(r@) == provisioner_entries(*m),
{
    m.iter().collect()
}

/// `IndexMap::get` hands out the value that is stored for a key, if the map
/// has the key.
#[verifier::external_body]
pub(crate) fn source_get<'a>(m: &'a IndexMap<String, Source>, key: &str) -> (r: Option<&'a Source>)
    ensures
        r is Some == lookup(source_entries(*m), key@) is Some,
        r matches Some(v) ==> lookup(source_entries(*m), key@) == Some(*v),
{
    m.get(key)
}

/// `IndexMap::get` hands out the value that is stored for a key, if the map
/// has the key.
#[verifier::external_body]
pub(crate) fn provisioner_get<'a>(m: &'a IndexMap<String, Provisioner>, key: &str) -> (r: Option<
    &'a Provisioner,
>)
    ensures
        r is Some == lookup(provisioner_entries(*m), key@) is Some,
        r matches Some(v) ==> lookup(provisioner_entries(*m), key@) == Some(*v),
{
    m.get(key)
}

/// `IndexMap::get` hands out the value that is stored for a key, if the map
/// has the key.
#[verifier::external_body]
pub(crate) fn volume_get<'a>(m: &'a IndexMap<String, Volume>, key: &str) -> (r: Option<&'a Volume>)
    ensures
        r is Some == lookup(volume_entries(*m), key@) is Some,
        r matches Some(v) ==> lookup(volume_entries(*m), key@) == Some(*v),
{
    m.get(key)
}

} // verus!
