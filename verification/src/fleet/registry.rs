//! The index of agents: a concurrent hash map from agent IDs to handles.

use dashmap::DashMap;
use std::collections::hash_map::RandomState;
use vstd::prelude::*;

verus! {

/// `dashmap::DashMap`, a hash map that shards its contents over locks.
#[verifier::external_type_specification]
#[verifier::external_body]
#[verifier::reject_recursive_types(K)]
#[verifier::reject_recursive_types(V)]
#[verifier::reject_recursive_types(S)]
pub struct ExDashMap<K, V, S>(dashmap::DashMap<K, V, S>);

/// The entries of an index: which handle each agent ID leads to.
pub uninterp spec fn entries_of(index: DashMap<String, usize, RandomState>) -> Map<Seq<char>, usize>;

/// `dashmap::DashMap::new`: an index without entries.
#[verifier::external_body]
pub(crate) fn empty_index() -> (index: DashMap<String, usize, RandomState>)
    ensures
        entries_of(index).dom() == Set::<Seq<char>>::empty(),
{
    DashMap::new()
}

/// `dashmap::DashMap::insert`: the ID leads to the new handle, every other entry
/// stays. Hands back the handle that the ID led to before.
#[verifier::external_body]
pub(crate) fn insert_handle(
    index: &mut DashMap<String, usize, RandomState>,
    agent_id: String,
    handle: usize,
) -> (previous: Option<usize>)
    ensures
        entries_of(*final(index)) == entries_of(*old(index)).insert(agent_id@, handle),
        previous == (if entries_of(*old(index)).contains_key(agent_id@) {
            Some(entries_of(*old(index))[agent_id@])
        } else {
            None
        }),
{
    index.insert(agent_id, handle)
}

/// `dashmap::DashMap::get`: the handle that an ID leads to.
#[verifier::external_body]
pub(crate) fn get_handle(index: &DashMap<String, usize, RandomState>, agent_id: &str) -> (handle:
    Option<usize>)
    ensures
        handle == (if entries_of(*index).contains_key(agent_id@) {
            Some(entries_of(*index)[agent_id@])
        } else {
            None
        }),
{
    index.get(agent_id).map(|entry| *entry.value())
}

/// `dashmap::DashMap::contains_key`: whether an ID has an entry.
#[verifier::external_body]
pub(crate) fn has_handle(index: &DashMap<String, usize, RandomState>, agent_id: &str) -> (found:
    bool)
    ensures
        found == entries_of(*index).contains_key(agent_id@),
{
    index.contains_key(agent_id)
}

/// `dashmap::DashMap::len`: the number of entries.
#[verifier::external_body]
pub(crate) fn count_handles(index: &DashMap<String, usize, RandomState>) -> (count: usize)
    ensures
        entries_of(*index).dom().finite() ==> count == entries_of(*index).len(),
{
    index.len()
}

/// `dashmap::DashMap::iter`: every entry once, in an order that is left open.
#[verifier::external_body]
pub(crate) fn list_handles(index: &DashMap<String, usize, RandomState>) -> (list: Vec<(String, usize)>)
    ensures
        forall|i: int|
            0 <= i < list.len() ==> entries_of(*index).contains_key((#[trigger] list[i]).0@)
                && entries_of(*index)[list[i].0@] == list[i].1,
        forall|i: int, j: int|
            0 <= i < j < list.len() ==> (#[trigger] list[i]).0@ != (#[trigger] list[j]).0@,
        forall|agent_id: Seq<char>| #[trigger]
            entries_of(*index).contains_key(agent_id) ==> exists|i: int|
                0 <= i < list.len() && (#[trigger] list[i]).0@ == agent_id,
{
    index.iter().map(|entry| (entry.key().clone(), *entry.value())).collect()
}

} // verus!
