//! What can be crafted.

pub mod item;
pub mod item_lists;

pub use self::item::{Item, ItemStats};
pub use self::item_lists::{get_craftable_items_for_class, get_craftable_items_for_class_at_level};
