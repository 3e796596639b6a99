use vstd::prelude::*;

verus! {

#[derive(Debug, Copy, Clone, PartialEq, Eq, Structural)]
pub enum CraftingClass {
    Alchemist,
}

#[derive(Debug, Clone, Copy, PartialEq, Eq, Structural)]
pub struct CraftingAttributes {
    pub cp: u32,
    pub control: u32,
    pub craftmanship: u32,
}

/// Attributes from gear, and what food and medicine add to them.
#[derive(Debug, Clone, Copy, PartialEq, Eq, Structural)]
pub struct BuiltCraftingAttributes {
    pub gear_attributes: CraftingAttributes,
    pub buffs: CraftingAttributes,
}

#[derive(Debug, Clone, Copy, PartialEq, Eq, Structural)]
pub enum BuffedCraftingAttributes {
    Built(BuiltCraftingAttributes),
    Final(CraftingAttributes),
}

/// The sum of two attributes, capped at the largest value an attribute holds.
pub open spec fn capped_sum(a: u32, b: u32) -> u32 {
    if a + b > u32::MAX {
        u32::MAX
    } else {
        (a + b) as u32
    }
}

fn add_capped(a: u32, b: u32) -> (r: u32)
    ensures
        r == capped_sum(a, b),
{
    if a > u32::MAX - b {
        u32::MAX
    } else {
        a + b
    }
}

impl BuffedCraftingAttributes {
    /// The attributes a craft is run with.
    pub open spec fn final_attributes_spec(self) -> CraftingAttributes {
        match self {
            BuffedCraftingAttributes::Built(built) => CraftingAttributes {
                cp: capped_sum(built.gear_attributes.cp, built.buffs.cp),
                control: capped_sum(built.gear_attributes.control, built.buffs.control),
                craftmanship: capped_sum(
                    built.gear_attributes.craftmanship,
                    built.buffs.craftmanship,
                ),
            },
            BuffedCraftingAttributes::Final(ca) => ca,
        }
    }

    /// Gear plus buffs, attribute by attribute; final attributes as they are.
    pub fn final_attributes(&self) -> (r: CraftingAttributes)
        ensures
            r == self.final_attributes_spec(),
    {
        match self {
            BuffedCraftingAttributes::Built(built) => CraftingAttributes {
                cp: add_capped(built.gear_attributes.cp, built.buffs.cp),
                control: add_capped(built.gear_attributes.control, built.buffs.control),
                craftmanship: add_capped(
                    built.gear_attributes.craftmanship,
                    built.buffs.craftmanship,
                ),
            },
            BuffedCraftingAttributes::Final(ca) => *ca,
        }
    }
}

#[derive(Debug, Clone, Copy, PartialEq, Eq, Structural)]
pub struct CraftingClassStats {
    pub level: u32,
    pub class_quest_level: u32,
    pub attributres: BuffedCraftingAttributes,
}

} // verus!
