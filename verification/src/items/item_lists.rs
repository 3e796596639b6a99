use vstd::prelude::*;

use super::item::{Item, ItemStats};
use crate::profile::classes::{CraftingClass, CraftingClassStats};

verus! {

/// The stats of the item table, row by row.
pub open spec fn alchemist_item_stats() -> Seq<ItemStats> {
    seq![
        ItemStats { level: 1, initial_durability: 40, target_quality: 80, required_progress: 9 },
        ItemStats { level: 1, initial_durability: 40, target_quality: 80, required_progress: 9 },
        ItemStats { level: 2, initial_durability: 40, target_quality: 88, required_progress: 10 },
        ItemStats { level: 3, initial_durability: 40, target_quality: 96, required_progress: 10 },
        ItemStats { level: 4, initial_durability: 40, target_quality: 104, required_progress: 10 },
        ItemStats { level: 4, initial_durability: 60, target_quality: 130, required_progress: 21 },
        ItemStats {
            level: 80,
            initial_durability: 80,
            target_quality: 2300,
            required_progress: 1780,
        },
    ]
}

/// The names of the item table, row by row.
pub open spec fn alchemist_item_names() -> Seq<Seq<char>> {
    seq![
        "Distilled Water"@,
        "Quicksilver"@,
        "Animal Glue"@,
        "Growth Formula Alpha"@,
        "Enchanted Copper Ink"@,
        "Maple Wand"@,
        "Wanderer's Campfire"@,
    ]
}

/// `items` is the item table of `crafting_class`.
pub open spec fn is_item_table(crafting_class: CraftingClass, items: Seq<Item>) -> bool {
    match crafting_class {
        CraftingClass::Alchemist => {
            &&& items.len() == alchemist_item_stats().len()
            &&& forall|i: int|
                0 <= i < items.len() ==> (#[trigger] items[i]).stats == alchemist_item_stats()[i]
            &&& forall|i: int|
                0 <= i < items.len() ==> (#[trigger] items[i]).name@ == alchemist_item_names()[i]
        },
    }
}

/// What the class can craft at its level. The level does not narrow the table.
pub fn get_craftable_items_for_class_at_level(
    crafting_class: CraftingClass,
    _stats: &CraftingClassStats,
) -> (items: Vec<Item>)
    ensures
        is_item_table(crafting_class, items@),
{
    get_craftable_items_for_class(crafting_class)
}

/// Everything the class can craft.
pub fn get_craftable_items_for_class(crafting_class: CraftingClass) -> (items: Vec<Item>)
    ensures
        is_item_table(crafting_class, items@),
{
    match crafting_class {
        CraftingClass::Alchemist => {
            let mut items: Vec<Item> = Vec::new();
            items.push(
                Item {
                    name: "Distilled Water",
                    stats: ItemStats {
                        level: 1,
                        initial_durability: 40,
                        target_quality: 80,
                        required_progress: 9,
                    },
                },
            );
            items.push(
                Item {
                    name: "Quicksilver",
                    stats: ItemStats {
                        level: 1,
                        initial_durability: 40,
                        target_quality: 80,
                        required_progress: 9,
                    },
                },
            );
            items.push(
                Item {
                    name: "Animal Glue",
                    stats: ItemStats {
                        level: 2,
                        initial_durability: 40,
                        target_quality: 88,
                        required_progress: 10,
                    },
                },
            );
            items.push(
                Item {
                    name: "Growth Formula Alpha",
                    stats: ItemStats {
                        level: 3,
                        initial_durability: 40,
                        target_quality: 96,
                        required_progress: 10,
                    },
                },
            );
            items.push(
                Item {
                    name: "Enchanted Copper Ink",
                    stats: ItemStats {
                        level: 4,
                        initial_durability: 40,
                        target_quality: 104,
                        required_progress: 10,
                    },
                },
            );
            items.push(
                Item {
                    name: "Maple Wand",
                    stats: ItemStats {
                        level: 4,
                        initial_durability: 60,
                        target_quality: 130,
                        required_progress: 21,
                    },
                },
            );
            items.push(
                Item {
                    name: "Wanderer's Campfire",
                    stats: ItemStats {
                        level: 80,
                        initial_durability: 80,
                        target_quality: 2300,
                        required_progress: 1780,
                    },
                },
            );
            items
        },
    }
}

} // verus!
