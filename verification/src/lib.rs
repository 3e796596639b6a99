//! Planner for a turn-based crafting minigame.
//!
//! Every turn one ability is used on the item being made. It spends
//! durability and crafting points and adds progress and quality. The planner
//! searches for a sequence of abilities that completes the item, preferably at
//! or above its quality target, in as few turns as possible.
//!
//! All multipliers are whole percentages, so every formula is exact integer
//! arithmetic and every function has a mathematical contract.

pub mod items;
pub mod profile;

pub mod simulation;
