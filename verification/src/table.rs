//! The entity store: an ordered map from 64-bit identifiers to records of one
//! kind, kept encoded in one region.

use crate::backing::{
    region_index, rows_contains, rows_content, rows_entries, rows_get, rows_init, rows_insert,
    rows_region, Region, Rows,
};
use crate::codec::{storable, Entity, MAX_ENCODED_SIZE};
use std::marker::PhantomData;
use vstd::prelude::*;

verus! {

/// A table of records of kind `E`.
pub struct Table<E: Entity> {
    rows: Rows,
    kind: PhantomData<E>,
}

impl<E: Entity> View for Table<E> {
    type V = Map<u64, E::V>;

    /// The records of the table by identifier. It is meaningful for a table
    /// that is intact.
    closed spec fn view(&self) -> Map<u64, E::V> {
        Map::new(
            |id: u64| rows_content(self.rows).contains_key(id),
            |id: u64| E::decoding(rows_content(self.rows)[id])->0,
        )
    }
}

impl<E: Entity> Table<E> {
    /// The index of the region that holds the table.
    pub closed spec fn region(&self) -> u8 {
        rows_region(self.rows)
    }

    /// Every stored value is within the size bound and decodes to a record.
    pub closed spec fn intact(&self) -> bool {
        forall|id: u64| #[trigger]
            rows_content(self.rows).contains_key(id) ==> storable(
                rows_content(self.rows)[id].len(),
            ) && E::decoding(rows_content(self.rows)[id]) is Some
    }

    /// Opens the table that `region` holds.
    pub(crate) fn open(region: Region) -> (table: Table<E>)
        ensures
            table.region() == region_index(region),
    {
        Table { rows: rows_init(region), kind: PhantomData }
    }

    /// Whether every stored value is within the size bound and decodes.
    pub fn is_intact(&self) -> (ok: bool)
        ensures
            ok == self.intact(),
    {
        let entries = rows_entries(&self.rows);
        let mut i: usize = 0;
        while i < entries.len()
            invariant
                0 <= i <= entries@.len(),
                forall|j: int|
                    0 <= j < entries@.len() ==> rows_content(self.rows).contains_key(
                        (#[trigger] entries@[j]).0,
                    ) && rows_content(self.rows)[entries@[j].0] == entries@[j].1@,
                forall|key: u64| #[trigger]
                    rows_content(self.rows).contains_key(key) ==> exists|j: int|
                        0 <= j < entries@.len() && (#[trigger] entries@[j]).0 == key,
                forall|j: int|
                    0 <= j < i ==> storable((#[trigger] entries@[j]).1@.len()) && E::decoding(
                        entries@[j].1@,
                    ) is Some,
            decreases entries@.len() - i,
        {
            let bytes = &entries[i].1;
            if bytes.len() > MAX_ENCODED_SIZE {
                return false;
            }
            if E::decode(bytes.as_slice()).is_none() {
                return false;
            }
            i = i + 1;
        }
        true
    }

    /// Whether a record is stored under `id`.
    pub fn contains(&self, id: u64) -> (present: bool)
        ensures
            present == self@.contains_key(id),
    {
        rows_contains(&self.rows, id)
    }

    /// The record stored under `id`, if there is one.
    pub fn get(&self, id: u64) -> (record: Option<E>)
        requires
            self.intact(),
        ensures
            match record {
                Some(e) => self@.contains_key(id) && self@[id] == e@,
                None => !self@.contains_key(id),
            },
    {
        match rows_get(&self.rows, id) {
            Some(bytes) => Some(E::from_bytes(bytes.as_slice())),
            None => None,
        }
    }

    /// Stores `record` under `id`, replacing whatever was stored there.
    pub fn put(&mut self, id: u64, record: &E)
        requires
            old(self).intact(),
            storable(E::encoding(record@).len()),
        ensures
            final(self).intact(),
            final(self)@ == old(self)@.insert(id, record@),
            final(self).region() == old(self).region(),
    {
        let bytes = record.encode();
        rows_insert(&mut self.rows, id, bytes);
    }

    /// Every record of the table with its identifier, in ascending order of
    /// the identifiers.
    pub fn iterate(&self) -> (records: Vec<(u64, E)>)
        requires
            self.intact(),
        ensures
            forall|i: int, j: int|
                0 <= i < j < records@.len() ==> records@[i].0 < records@[j].0,
            forall|i: int|
                0 <= i < records@.len() ==> self@.contains_key((#[trigger] records@[i]).0)
                    && self@[records@[i].0] == records@[i].1@,
            forall|id: u64| #[trigger]
                self@.contains_key(id) ==> exists|i: int|
                    0 <= i < records@.len() && (#[trigger] records@[i]).0 == id,
    {
        let entries = rows_entries(&self.rows);
        let mut records: Vec<(u64, E)> = Vec::new();
        let mut i: usize = 0;
        while i < entries.len()
            invariant
                0 <= i <= entries@.len(),
                self.intact(),
                records@.len() == i,
                forall|j: int|
                    0 <= j < entries@.len() ==> rows_content(self.rows).contains_key(
                        (#[trigger] entries@[j]).0,
                    ) && rows_content(self.rows)[entries@[j].0] == entries@[j].1@,
                forall|j: int|
                    0 <= j < i ==> (#[trigger] records@[j]).0 == entries@[j].0 && E::decoding(
                        entries@[j].1@,
                    ) == Some(records@[j].1@),
            decreases entries@.len() - i,
        {
            let id: u64 = entries[i].0;
            records.push((id, E::from_bytes(entries[i].1.as_slice())));
            i = i + 1;
        }
        proof {
            assert forall|id: u64| #[trigger] self@.contains_key(id) implies exists|a: int|
                0 <= a < records@.len() && (#[trigger] records@[a]).0 == id by {
                let j = choose|j: int| 0 <= j < entries@.len() && (#[trigger] entries@[j]).0 == id;
                assert(records@[j].0 == id);
            }
        }
        records
    }
}

} // verus!
