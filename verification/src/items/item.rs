use vstd::prelude::*;

verus! {

/// The fixed target of one craft.
#[derive(Debug, Clone, Copy, PartialEq, Eq, Structural)]
pub struct ItemStats {
    pub level: u32,
    pub initial_durability: u32,
    pub target_quality: u32,
    pub required_progress: u32,
}

/// A named entry of the item table.
#[derive(Debug, Clone, Copy)]
pub struct Item {
    pub name: &'static str,
    pub stats: ItemStats,
}

} // verus!
