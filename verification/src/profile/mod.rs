//! The crafter: attributes, abilities and the ability table.

pub mod abilities;
pub mod ability_lists;

pub mod classes;

pub use self::abilities::{
    Ability, AbilityAction, AbilityEffect, AbilityEffectAction, AbilityEffectLimit,
    AbilityEffectTurns, AbilityState, AbilityType, BaseAction, ComboAction,
    DurabilityWithDiscount, RequiredState, SuccessAction,
};

pub use self::ability_lists::{get_all_abilities, get_all_abilities_at_level};
pub use self::classes::{
    BuffedCraftingAttributes, BuiltCraftingAttributes, CraftingAttributes, CraftingClass,
    CraftingClassStats,
};
