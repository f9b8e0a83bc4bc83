//! The stable-memory structures the store is built on, and what is taken on
//! trust about them.
//!
//! Nothing in this file is proved. Each function hands one call to
//! `ic_stable_structures` and states what that call does, in terms of two
//! names: the value a cell holds and the entries a map holds.
//!
//! A cell or a map is attached to its region by whoever owns the memory, and
//! is then wrapped in `IdCell` or `RecordMap`; attaching can abort on a
//! memory of another layout, so it is not done here. A structure is taken to
//! be the only handle on its region: whoever shares a region between two
//! structures voids these statements. Every statement is about a call that
//! returns: a map aborts where its region cannot grow.

use vstd::prelude::*;

verus! {

/// The most bytes a stored record may take.
pub const MAX_RECORD_SIZE: usize = 1024;

#[verifier::external_type_specification]
#[verifier::external_body]
pub struct ExValueError(ic_stable_structures::cell::ValueError);

#[verifier::external_type_specification]
#[verifier::external_body]
pub struct ExTryFromSliceError(ic_stable_structures::storable::TryFromSliceError);

/// A durable `u64`. Holds a `Cell` in one region.
#[verifier::external_body]
pub struct IdCell {
    pub cell: ic_stable_structures::Cell<
        u64,
        ic_stable_structures::memory_manager::VirtualMemory<
            ic_stable_structures::DefaultMemoryImpl,
        >,
    >,
}

/// A durable ordered map from `u64` to byte strings of at most
/// `MAX_RECORD_SIZE` bytes. Holds a `StableBTreeMap` in one region.
#[verifier::external_body]
pub struct RecordMap {
    pub tree: ic_stable_structures::StableBTreeMap<
        u64,
        ic_stable_structures::storable::Blob<MAX_RECORD_SIZE>,
        ic_stable_structures::memory_manager::VirtualMemory<
            ic_stable_structures::DefaultMemoryImpl,
        >,
    >,
}

/// The value a cell holds.
pub uninterp spec fn cell_value(cell: IdCell) -> u64;

/// The entries a map holds.
pub uninterp spec fn map_entries(map: RecordMap) -> Map<u64, Seq<u8>>;

/// `Cell::get`: the value the cell holds.
#[verifier::external_body]
pub(crate) fn cell_get(cell: &IdCell) -> (value: u64)
    ensures
        value == cell_value(*cell),
{
    *cell.cell.get()
}

/// `Cell::set`: writes `value` through to the region and hands back the value
/// held before. Where the write fails the cell keeps its value.
#[verifier::external_body]
pub(crate) fn cell_set(cell: &mut IdCell, value: u64) -> (r: Result<
    u64,
    ic_stable_structures::cell::ValueError,
>)
    ensures
        r matches Ok(before) ==> before == cell_value(*old(cell)) && cell_value(*final(cell))
            == value,
        r is Err ==> cell_value(*final(cell)) == cell_value(*old(cell)),
{
    cell.cell.set(value)
}

/// `StableBTreeMap::get`: the bytes stored under `key`, if any.
#[verifier::external_body]
pub(crate) fn map_get(map: &RecordMap, key: u64) -> (r: Option<Vec<u8>>)
    ensures
        r matches Some(bytes) ==> map_entries(*map).contains_key(key) && bytes@ == map_entries(
            *map,
        )[key],
        r is None ==> !map_entries(*map).contains_key(key),
{
    map.tree.get(&key).map(|blob| blob.as_slice().to_vec())
}

/// `StableBTreeMap::insert` of the `Blob` that `Blob::try_from` makes of
/// `bytes`: stores `bytes` under `key` and hands back what was stored there
/// before. `Blob::try_from` refuses more than `MAX_RECORD_SIZE` bytes, and
/// then the map is not touched.
#[verifier::external_body]
pub(crate) fn map_insert(map: &mut RecordMap, key: u64, bytes: &Vec<u8>) -> (r: Result<
    Option<Vec<u8>>,
    ic_stable_structures::storable::TryFromSliceError,
>)
    ensures
        r is Ok <==> bytes@.len() <= MAX_RECORD_SIZE,
        r is Ok ==> map_entries(*final(map)) == map_entries(*old(map)).insert(key, bytes@),
        r is Err ==> map_entries(*final(map)) == map_entries(*old(map)),
        r matches Ok(Some(before)) ==> map_entries(*old(map)).contains_key(key) && before@
            == map_entries(*old(map))[key],
        r matches Ok(None) ==> !map_entries(*old(map)).contains_key(key),
{
    let blob = ic_stable_structures::storable::Blob::try_from(bytes.as_slice())?;
    Ok(map.tree.insert(key, blob).map(|before| before.as_slice().to_vec()))
}

/// `StableBTreeMap::remove`: takes the entry under `key` out of the map and
/// hands back its bytes; without such an entry the map stays as it is.
#[verifier::external_body]
pub(crate) fn map_remove(map: &mut RecordMap, key: u64) -> (r: Option<Vec<u8>>)
    ensures
        map_entries(*final(map)) == map_entries(*old(map)).remove(key),
        r matches Some(bytes) ==> map_entries(*old(map)).contains_key(key) && bytes@
            == map_entries(*old(map))[key],
        r is None ==> !map_entries(*old(map)).contains_key(key),
{
    map.tree.remove(&key).map(|blob| blob.as_slice().to_vec())
}

} // verus!
