//! The stable-memory structures of `ic_stable_structures`, each held behind a
//! handle of this crate. Nothing in this file is proved: every contract here
//! restates what the structure's source does, for a structure that alone
//! writes to its region.

use ic_stable_structures::memory_manager::{MemoryId, MemoryManager, VirtualMemory};
use ic_stable_structures::{BTreeMap, Cell, DefaultMemoryImpl};
use vstd::prelude::*;

verus! {

/// A `MemoryManager` over the default memory: it divides one memory into
/// regions that grow independently.
#[verifier::external_body]
pub struct Arena {
    manager: MemoryManager<DefaultMemoryImpl>,
}

/// A `VirtualMemory`: the handle to one region of an `Arena`.
#[verifier::external_body]
pub struct Region {
    memory: VirtualMemory<DefaultMemoryImpl>,
}

/// A stable `BTreeMap` from `u64` keys to byte strings, living in one region.
#[verifier::external_body]
pub struct Rows {
    map: BTreeMap<u64, Vec<u8>, VirtualMemory<DefaultMemoryImpl>>,
}

/// A stable `Cell` holding one `u64`, living in one region.
#[verifier::external_body]
pub struct Counter {
    cell: Cell<u64, VirtualMemory<DefaultMemoryImpl>>,
}

/// The index of the region that a handle addresses.
pub uninterp spec fn region_index(region: Region) -> u8;

/// The index of the region that a map was opened in.
pub uninterp spec fn rows_region(rows: Rows) -> u8;

/// The key-value pairs that a map holds.
pub uninterp spec fn rows_content(rows: Rows) -> Map<u64, Seq<u8>>;

/// The index of the region that a cell was opened in.
pub uninterp spec fn counter_region(counter: Counter) -> u8;

/// The number that a cell holds.
pub uninterp spec fn counter_value(counter: Counter) -> u64;

/// `MemoryManager::init` on a default memory. Nothing is claimed of the
/// result: what the regions hold is whatever the memory held before. The call
/// aborts where the memory holds a manager of an unsupported layout.
#[verifier::external_body]
pub(crate) fn arena_init() -> (arena: Arena) {
    Arena { manager: MemoryManager::init(DefaultMemoryImpl::default()) }
}

/// `MemoryManager::get` with `MemoryId::new(index)`: the handle addresses the
/// region of that index. `MemoryId::new` refuses 255, which marks unallocated
/// buckets, so that index is left out.
#[verifier::external_body]
pub(crate) fn arena_region(arena: &Arena, index: u8) -> (region: Region)
    requires
        index < 255,
    ensures
        region_index(region) == index,
{
    Region { memory: arena.manager.get(MemoryId::new(index)) }
}

/// `BTreeMap::init`: loads the map that the region holds, or starts an empty
/// one. Only the region is claimed; the content is whatever was stored. The
/// call aborts where the region holds a map of an unsupported layout.
#[verifier::external_body]
pub(crate) fn rows_init(region: Region) -> (rows: Rows)
    ensures
        rows_region(rows) == region_index(region),
{
    Rows { map: BTreeMap::init(region.memory) }
}

/// `BTreeMap::get`: the value stored under `key`, if there is one.
#[verifier::external_body]
pub(crate) fn rows_get(rows: &Rows, key: u64) -> (value: Option<Vec<u8>>)
    ensures
        match value {
            Some(bytes) => rows_content(*rows).contains_key(key) && rows_content(*rows)[key]
                == bytes@,
            None => !rows_content(*rows).contains_key(key),
        },
{
    rows.map.get(&key)
}

/// `BTreeMap::contains_key`: whether a value is stored under `key`.
#[verifier::external_body]
pub(crate) fn rows_contains(rows: &Rows, key: u64) -> (present: bool)
    ensures
        present == rows_content(*rows).contains_key(key),
{
    rows.map.contains_key(&key)
}

/// `BTreeMap::insert`: afterwards `key` maps to `value` and every other key
/// to what it mapped to before; the map stays in its region. A `Vec<u8>` value
/// is unbounded, so no length is refused. The call aborts where stable memory
/// cannot grow.
#[verifier::external_body]
pub(crate) fn rows_insert(rows: &mut Rows, key: u64, value: Vec<u8>)
    ensures
        rows_content(*final(rows)) == rows_content(*old(rows)).insert(key, value@),
        rows_region(*final(rows)) == rows_region(*old(rows)),
{
    rows.map.insert(key, value);
}

/// `BTreeMap::iter`, collected: every stored pair exactly once, in ascending
/// order of the keys.
#[verifier::external_body]
pub(crate) fn rows_entries(rows: &Rows) -> (entries: Vec<(u64, Vec<u8>)>)
    ensures
        forall|i: int, j: int| 0 <= i < j < entries@.len() ==> entries@[i].0 < entries@[j].0,
        forall|i: int|
            0 <= i < entries@.len() ==> rows_content(*rows).contains_key(
                (#[trigger] entries@[i]).0,
            ) && rows_content(*rows)[entries@[i].0] == entries@[i].1@,
        forall|key: u64| #[trigger]
            rows_content(*rows).contains_key(key) ==> exists|i: int|
                0 <= i < entries@.len() && (#[trigger] entries@[i]).0 == key,
{
    rows.map.iter().map(|entry| entry.into_pair()).collect()
}

/// `Cell::init` with a default of zero: loads the number that the region
/// holds, or stores zero in an empty region. Only the region is claimed. The
/// call aborts where the region holds a cell of an unsupported layout.
#[verifier::external_body]
pub(crate) fn counter_init(region: Region) -> (counter: Counter)
    ensures
        counter_region(counter) == region_index(region),
{
    Counter { cell: Cell::init(region.memory, 0) }
}

/// `Cell::get`: the number that the cell holds.
#[verifier::external_body]
pub(crate) fn counter_get(counter: &Counter) -> (value: u64)
    ensures
        value == counter_value(*counter),
{
    *counter.cell.get()
}

/// `Cell::set`: writes `value` through to the region; afterwards the cell
/// holds it, in the same region. The call aborts where stable memory cannot
/// grow.
#[verifier::external_body]
pub(crate) fn counter_set(counter: &mut Counter, value: u64)
    ensures
        counter_value(*final(counter)) == value,
        counter_region(*final(counter)) == counter_region(*old(counter)),
{
    counter.cell.set(value);
}

} // verus!
