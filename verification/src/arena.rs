//! The memory arena: one durable memory divided into a fixed set of regions,
//! one for the identifier counter and one for each table.

use crate::backing::{arena_init, arena_region, region_index, Arena, Region};
use vstd::prelude::*;

verus! {

/// The region of the identifier counter.
pub const COUNTER_REGION: u8 = 0;

/// The region of the farmers table.
pub const FARMERS_REGION: u8 = 1;

/// The region of the plots table.
pub const PLOTS_REGION: u8 = 2;

/// The region of the activities table.
pub const ACTIVITIES_REGION: u8 = 3;

/// The region of the resources table.
pub const RESOURCES_REGION: u8 = 4;

/// The region of the events table.
pub const EVENTS_REGION: u8 = 5;

/// How many regions the arena hands out.
pub const REGION_COUNT: u8 = 6;

/// The durable memory, divided into regions.
pub struct MemoryArena {
    arena: Arena,
}

impl MemoryArena {
    /// Opens the arena over the durable memory of the process, once per
    /// process: where that memory is the one stable memory of a canister, a
    /// second arena would reach the same bytes, and what is proved of a
    /// table holds only while nothing else writes to its region.
    pub fn new() -> (arena: MemoryArena) {
        MemoryArena { arena: arena_init() }
    }

    /// The handle to the region of the given index. Asking twice for one
    /// index gives two handles to the same bytes.
    pub fn region(&self, index: u8) -> (region: Region)
        requires
            index < REGION_COUNT,
        ensures
            region_index(region) == index,
    {
        arena_region(&self.arena, index)
    }
}

} // verus!
