//! The engine's hash map, held behind contracts.
//!
//! The registry keeps its lookup tables in `bevy::utils::HashMap`. Verus does not
//! read that type, so each table is held in [`EngineMap`], its contents are named
//! by a spec function, and each operation the registry uses is stated over that name.
//! Nothing in this file is proved: the contracts restate what the map's
//! documentation says of `default`, `insert` and `get`.

use crate::registration::ReplicateDirection;
use vstd::prelude::*;

verus! {

/// A `bevy::utils::HashMap`, opaque to the verifier.
#[verifier::external_body]
#[verifier::reject_recursive_types(K)]
#[verifier::reject_recursive_types(V)]
pub struct EngineMap<K, V> {
    inner: bevy::utils::HashMap<K, V>,
}

/// The pairs held by a map from remote to local entity.
pub uninterp spec fn entity_pairs(map: EngineMap<u64, u64>) -> Map<u64, u64>;

/// The pairs held by a map from type path to identifier.
pub uninterp spec fn path_ids(map: EngineMap<String, usize>) -> Map<Seq<char>, usize>;

/// The pairs held by a map from identifier to type path.
pub uninterp spec fn id_paths(map: EngineMap<usize, String>) -> Map<usize, Seq<char>>;

/// The pairs held by a map from identifier to direction.
pub uninterp spec fn id_directions(map: EngineMap<usize, ReplicateDirection>) -> Map<
    usize,
    ReplicateDirection,
>;

/// `HashMap::default()`: a map that holds nothing.
#[verifier::external_body]
pub(crate) fn entity_map_new() -> (table: EngineMap<u64, u64>)
    ensures
        entity_pairs(table) == (Map::<u64, u64>::empty()),
{
    EngineMap { inner: bevy::utils::HashMap::default() }
}

/// `HashMap::insert`: afterwards `remote` maps to `local` and every other key is as
/// before; the value that `remote` had is returned, `None` if it had none.
#[verifier::external_body]
pub(crate) fn entity_map_insert(map: &mut EngineMap<u64, u64>, remote: u64, local: u64) -> (previous:
    Option<u64>)
    ensures
        entity_pairs(*final(map)) == entity_pairs(*old(map)).insert(remote, local),
        previous == if entity_pairs(*old(map)).contains_key(remote) {
            Some(entity_pairs(*old(map))[remote])
        } else {
            None
        },
{
    map.inner.insert(remote, local)
}

/// `HashMap::get`: the value that `remote` maps to, `None` if it maps to none.
#[verifier::external_body]
pub(crate) fn entity_map_get(map: &EngineMap<u64, u64>, remote: u64) -> (local: Option<u64>)
    ensures
        local == if entity_pairs(*map).contains_key(remote) {
            Some(entity_pairs(*map)[remote])
        } else {
            None
        },
{
    map.inner.get(&remote).copied()
}

/// `HashMap::default()`: a map that holds nothing.
#[verifier::external_body]
pub(crate) fn path_map_new() -> (table: EngineMap<String, usize>)
    ensures
        path_ids(table) == (Map::<Seq<char>, usize>::empty()),
{
    EngineMap { inner: bevy::utils::HashMap::default() }
}

/// `HashMap::insert`: afterwards `path` maps to `id` and every other key is as
/// before; the value that `path` had is returned, `None` if it had none.
#[verifier::external_body]
pub(crate) fn path_map_insert(map: &mut EngineMap<String, usize>, path: String, id: usize) -> (previous:
    Option<usize>)
    ensures
        path_ids(*final(map)) == path_ids(*old(map)).insert(path@, id),
        previous == if path_ids(*old(map)).contains_key(path@) {
            Some(path_ids(*old(map))[path@])
        } else {
            None
        },
{
    map.inner.insert(path, id)
}

/// `HashMap::get`: the value that `path` maps to, `None` if it maps to none.
#[verifier::external_body]
pub(crate) fn path_map_get(map: &EngineMap<String, usize>, path: &str) -> (id: Option<usize>)
    ensures
        id == if path_ids(*map).contains_key(path@) {
            Some(path_ids(*map)[path@])
        } else {
            None
        },
{
    map.inner.get(path).copied()
}

/// `HashMap::default()`: a map that holds nothing.
#[verifier::external_body]
pub(crate) fn name_map_new() -> (table: EngineMap<usize, String>)
    ensures
        id_paths(table) == (Map::<usize, Seq<char>>::empty()),
{
    EngineMap { inner: bevy::utils::HashMap::default() }
}

/// `HashMap::insert`: afterwards `id` maps to `path` and every other key is as
/// before; the value that `id` had is returned, `None` if it had none.
#[verifier::external_body]
pub(crate) fn name_map_insert(map: &mut EngineMap<usize, String>, id: usize, path: String) -> (previous:
    Option<String>)
    ensures
        id_paths(*final(map)) == id_paths(*old(map)).insert(id, path@),
        match previous {
            Some(text) => id_paths(*old(map)).contains_key(id) && text@ == id_paths(*old(map))[id],
            None => !id_paths(*old(map)).contains_key(id),
        },
{
    map.inner.insert(id, path)
}

/// `HashMap::get`: the value that `id` maps to, `None` if it maps to none.
#[verifier::external_body]
pub(crate) fn name_map_get(map: &EngineMap<usize, String>, id: usize) -> (path: Option<&String>)
    ensures
        match path {
            Some(text) => id_paths(*map).contains_key(id) && text@ == id_paths(*map)[id],
            None => !id_paths(*map).contains_key(id),
        },
{
    map.inner.get(&id)
}

/// `HashMap::default()`: a map that holds nothing.
#[verifier::external_body]
pub(crate) fn direction_map_new() -> (table: EngineMap<usize, ReplicateDirection>)
    ensures
        id_directions(table) == (Map::<usize, ReplicateDirection>::empty()),
{
    EngineMap { inner: bevy::utils::HashMap::default() }
}

/// `HashMap::insert`: afterwards `id` maps to `direction` and every other key is as
/// before; the value that `id` had is returned, `None` if it had none.
#[verifier::external_body]
pub(crate) fn direction_map_insert(
    map: &mut EngineMap<usize, ReplicateDirection>,
    id: usize,
    direction: ReplicateDirection,
) -> (previous: Option<ReplicateDirection>)
    ensures
        id_directions(*final(map)) == id_directions(*old(map)).insert(id, direction),
        previous == if id_directions(*old(map)).contains_key(id) {
            Some(id_directions(*old(map))[id])
        } else {
            None
        },
{
    map.inner.insert(id, direction)
}

/// `HashMap::get`: the value that `id` maps to, `None` if it maps to none.
#[verifier::external_body]
pub(crate) fn direction_map_get(map: &EngineMap<usize, ReplicateDirection>, id: usize) -> (direction:
    Option<ReplicateDirection>)
    ensures
        direction == if id_directions(*map).contains_key(id) {
            Some(id_directions(*map)[id])
        } else {
            None
        },
{
    map.inner.get(&id).copied()
}

} // verus!
