use std::cmp::Ordering;
use vstd::prelude::*;

use super::numbers::cap_u32;
use crate::items::item::ItemStats;
use crate::profile::abilities::{Ability, AbilityEffectTurns};

verus! {

/// The state of the material in one turn. It scales the quality that the turn
/// can add: a half when poor, double when good, fourfold when excellent.
#[derive(Debug, Clone, Copy, PartialEq, Eq, Structural, PartialOrd, Ord)]
pub enum Condition {
    Poor,
    Normal,
    Good,
    Excellent,
}

/// What stays the same through a whole craft.
#[derive(Debug, Clone)]
pub struct SimulationConstants {
    pub class_level: u32,
    pub craftmanship: u32,
    pub control: u32,
    /// The crafting points that the crafter starts with and cannot exceed.
    pub cp: u32,
    /// The abilities that the search tries, in this order.
    pub available_abilities: Vec<Ability>,
    pub item: ItemStats,
    /// The step budget: below an unfinished item at this step no search goes
    /// on.
    pub max_steps: u8,
    /// A run that a search further down found, that meets the quality target
    /// and has at most this many steps ends the search of the turn at once.
    pub accept_first_of_length: u8,
}

/// The crafter's level against the item's, in twentieths: each level above
/// the item adds a twentieth, each level below takes one away.
pub open spec fn level_twentieths(class_level: u32, item_level: u32) -> int {
    20 + class_level - item_level
}

/// Progress that an efficiency of 100 adds:
/// `(1 + 0.05 * (class_level - item_level)) * (0.21 * craftmanship + 1.6)`,
/// rounded down, and nothing where the level gap makes it negative.
pub open spec fn base_progress_of(class_level: u32, item_level: u32, craftmanship: u32) -> u32 {
    cap_u32((level_twentieths(class_level, item_level) * (21 * craftmanship + 160)) / 2000)
}

/// Quality that an efficiency of 100 adds in a normal turn:
/// `(1 + 0.05 * (class_level - item_level)) * (0.36 * control + 34)`,
/// rounded down, and nothing where the level gap makes it negative.
pub open spec fn plain_quality_of(class_level: u32, item_level: u32, control: u32) -> int {
    let q = (level_twentieths(class_level, item_level) * (36 * control + 3400)) / 2000;
    if q < 0 {
        0
    } else {
        q
    }
}

/// The turn's base quality: the plain value scaled by the condition. A poor
/// turn halves it, rounding down.
pub open spec fn base_quality_of(
    item_level: u32,
    class_level: u32,
    control: u32,
    condition: Condition,
) -> u32 {
    let q = plain_quality_of(class_level, item_level, control);
    cap_u32(
        match condition {
            Condition::Poor => q / 2,
            Condition::Normal => q,
            Condition::Good => 2 * q,
            Condition::Excellent => 4 * q,
        },
    )
}

/// `(20 + class_level - item_level) * weight / 2000`, rounded down; 0 where
/// the first factor is not positive.
pub fn level_scaled(class_level: u32, item_level: u32, weight: u64) -> (r: u128)
    ensures
        level_twentieths(class_level, item_level) > 0 ==> r == (level_twentieths(
            class_level,
            item_level,
        ) * weight) / 2000,
        level_twentieths(class_level, item_level) <= 0 ==> r == 0,
        level_twentieths(class_level, item_level) <= 0 ==> (level_twentieths(
            class_level,
            item_level,
        ) * weight) / 2000 <= 0,
        r <= 0x1_0000_0000_0000_0000_0000_0000,
{
    let raised: u64 = class_level as u64 + 20;
    if raised <= item_level as u64 {
        proof {
            let f = level_twentieths(class_level, item_level);
            assert(f * weight <= 0) by (nonlinear_arith)
                requires
                    f <= 0,
                    weight >= 0,
            ;
        }
        0
    } else {
        let factor: u64 = raised - item_level as u64;
        proof {
            assert(0x1_0000_0013int * 0xffff_ffff_ffff_ffffint
                <= 0x2_0000_0000_0000_0000_0000_0000int) by (nonlinear_arith);
            super::numbers::lemma_product_below(
                factor as int,
                weight as int,
                0x1_0000_0013,
                0xffff_ffff_ffff_ffff,
                0x2_0000_0000_0000_0000_0000_0000,
            );
        }
        let product: u128 = (factor as u128) * (weight as u128);
        product / 2000
    }
}

impl SimulationConstants {
    /// Progress that an efficiency of 100 adds in every turn of this craft.
    pub fn base_progress(&self) -> (r: u32)
        ensures
            r == base_progress_of(self.class_level, self.item.level, self.craftmanship),
    {
        let weight: u64 = 21 * (self.craftmanship as u64) + 160;
        let scaled = level_scaled(self.class_level, self.item.level, weight);
        if scaled > u32::MAX as u128 {
            u32::MAX
        } else {
            scaled as u32
        }
    }

    /// The durability that the item starts with and can be restored to.
    pub open spec fn durability_ceiling_spec(&self) -> i32 {
        if self.item.initial_durability > i32::MAX {
            i32::MAX
        } else {
            self.item.initial_durability as i32
        }
    }

    /// The durability that the item starts with and can be restored to.
    pub fn durability_ceiling(&self) -> (r: i32)
        ensures
            r == self.durability_ceiling_spec(),
            r >= 0,
    {
        if self.item.initial_durability > i32::MAX as u32 {
            i32::MAX
        } else {
            self.item.initial_durability as i32
        }
    }

    /// Every ability of the table is well formed.
    pub open spec fn well_formed(&self) -> bool {
        forall|i: int|
            0 <= i < self.available_abilities@.len() ==> (
            #[trigger] self.available_abilities@[i]).well_formed()
    }

    /// Whether every ability of the table is well formed.
    pub fn is_well_formed(&self) -> (r: bool)
        ensures
            r == self.well_formed(),
    {
        let mut i: usize = 0;
        while i < self.available_abilities.len()
            invariant
                i <= self.available_abilities@.len(),
                forall|j: int|
                    0 <= j < i ==> (#[trigger] self.available_abilities@[j]).well_formed(),
            decreases self.available_abilities.len() - i,
        {
            if !self.available_abilities[i].is_well_formed() {
                return false;
            }
            i = i + 1;
        }
        true
    }

    /// The step count that a new search has to beat: one more than the step
    /// budget, as far as a `u8` holds it.
    pub open spec fn open_step_limit(&self) -> u8 {
        if self.max_steps == u8::MAX {
            u8::MAX
        } else {
            (self.max_steps + 1) as u8
        }
    }
}

/// The turn's base quality for an item, a crafter and a condition.
pub fn next_quality(item_level: u32, class_level: u32, control: u32, condition: Condition) -> (r:
    u32)
    ensures
        r == base_quality_of(item_level, class_level, control, condition),
{
    let weight: u64 = 36 * (control as u64) + 3400;
    let plain = level_scaled(class_level, item_level, weight);
    let scaled: u128 = match condition {
        Condition::Poor => plain / 2,
        Condition::Normal => plain,
        Condition::Good => 2 * plain,
        Condition::Excellent => 4 * plain,
    };
    if scaled > u32::MAX as u128 {
        u32::MAX
    } else {
        scaled as u32
    }
}

/// One turn of a run: the ability used, the condition it met and, where the
/// ability had a chance part, whether that succeeded.
#[derive(Debug, Clone, Copy)]
pub struct SimulationStep {
    pub ability: &'static str,
    pub condition: Condition,
    pub action_success: Option<bool>,
}

/// A finished craft: its turns and what they reached.
#[derive(Debug, Clone)]
pub struct SimulationRun {
    pub steps: Vec<SimulationStep>,
    pub quality: u32,
    pub progress: u32,
}

/// A run as a mathematical value.
pub struct RunView {
    pub steps: Seq<SimulationStep>,
    pub quality: u32,
    pub progress: u32,
}

impl View for SimulationRun {
    type V = RunView;

    open spec fn view(&self) -> RunView {
        RunView { steps: self.steps@, quality: self.quality, progress: self.progress }
    }
}

impl RunView {
    /// The run meets the quality target.
    pub open spec fn meets(self, target_quality: u32) -> bool {
        self.quality >= target_quality
    }

    /// `self` is the better run: it meets the quality target and `other` does
    /// not; or both stand on the same side of the target and `self` is
    /// shorter; or they are equally long too and `self` has more quality.
    pub open spec fn outranks(self, other: RunView, target_quality: u32) -> bool {
        if self.meets(target_quality) != other.meets(target_quality) {
            self.meets(target_quality)
        } else if self.steps.len() != other.steps.len() {
            self.steps.len() < other.steps.len()
        } else {
            self.quality > other.quality
        }
    }

    /// Neither run is better than the other.
    pub open spec fn ties(self, other: RunView, target_quality: u32) -> bool {
        &&& self.meets(target_quality) == other.meets(target_quality)
        &&& self.steps.len() == other.steps.len()
        &&& self.quality == other.quality
    }
}

impl SimulationRun {
    /// Orders two runs, the better one greater.
    pub fn compare(&self, other: &Self, target_quality: u32) -> (r: Ordering)
        ensures
            (r == Ordering::Greater) == self@.outranks(other@, target_quality),
            (r == Ordering::Less) == other@.outranks(self@, target_quality),
            (r == Ordering::Equal) == self@.ties(other@, target_quality),
    {
        let a_tq = self.quality >= target_quality;
        let b_tq = other.quality >= target_quality;
        if a_tq != b_tq {
            return if a_tq {
                Ordering::Greater
            } else {
                Ordering::Less
            };
        }
        if self.steps.len() != other.steps.len() {
            return if self.steps.len() < other.steps.len() {
                Ordering::Greater
            } else {
                Ordering::Less
            };
        }
        if self.quality > other.quality {
            Ordering::Greater
        } else if self.quality < other.quality {
            Ordering::Less
        } else {
            Ordering::Equal
        }
    }

    /// `self` is the better of the two runs.
    pub fn is_better_than(&self, other: &Self, target_quality: u32) -> (r: bool)
        ensures
            r == self@.outranks(other@, target_quality),
    {
        match self.compare(other, target_quality) {
            Ordering::Greater => true,
            _ => false,
        }
    }

    /// A copy of the run.
    pub fn duplicate(&self) -> (r: SimulationRun)
        ensures
            r@ == self@,
    {
        SimulationRun {
            steps: copy_steps(&self.steps),
            quality: self.quality,
            progress: self.progress,
        }
    }
}

/// A copy of the steps.
pub fn copy_steps(steps: &Vec<SimulationStep>) -> (r: Vec<SimulationStep>)
    ensures
        r@ == steps@,
{
    let mut r: Vec<SimulationStep> = Vec::new();
    let mut i: usize = 0;
    while i < steps.len()
        invariant
            i <= steps.len(),
            r@ == steps@.take(i as int),
        decreases steps.len() - i,
    {
        r.push(steps[i]);
        i = i + 1;
    }
    r
}

/// No run is better than itself.
pub proof fn lemma_outranks_irreflexive(a: RunView, target_quality: u32)
    ensures
        !a.outranks(a, target_quality),
{
}

/// Of two runs at most one is the better.
pub proof fn lemma_outranks_asymmetric(a: RunView, b: RunView, target_quality: u32)
    requires
        a.outranks(b, target_quality),
    ensures
        !b.outranks(a, target_quality),
{
}

/// Better than a better run is better.
pub proof fn lemma_outranks_transitive(a: RunView, b: RunView, c: RunView, target_quality: u32)
    requires
        a.outranks(b, target_quality),
        b.outranks(c, target_quality),
    ensures
        a.outranks(c, target_quality),
{
}

/// Of two runs one is the better, unless both stand on the same side of the
/// target with the same length and the same quality.
pub proof fn lemma_outranks_total(a: RunView, b: RunView, target_quality: u32)
    ensures
        a.outranks(b, target_quality) || b.outranks(a, target_quality) || a.ties(
            b,
            target_quality,
        ),
        a.ties(b, target_quality) ==> !a.outranks(b, target_quality) && !b.outranks(
            a,
            target_quality,
        ),
{
}

/// What changes from turn to turn.
#[derive(Debug, Clone)]
pub struct SimulationVariables {
    pub remaining_durability: i32,
    pub remaining_cp: u32,
    pub current_progress: u32,
    pub current_quality: u32,
    pub current_state_turns: Vec<AbilityEffectTurns>,
    pub inner_quiet_stack: u32,
    /// The fewest steps in which the search has met the quality target so far.
    pub lowest_target_quality_steps: u8,
}

/// The craft itself: the variables without the search's bookkeeping.
pub struct CraftState {
    pub remaining_durability: i32,
    pub remaining_cp: u32,
    pub current_progress: u32,
    pub current_quality: u32,
    pub effects: Seq<AbilityEffectTurns>,
    pub inner_quiet_stack: u32,
}

impl View for SimulationVariables {
    type V = CraftState;

    open spec fn view(&self) -> CraftState {
        CraftState {
            remaining_durability: self.remaining_durability,
            remaining_cp: self.remaining_cp,
            current_progress: self.current_progress,
            current_quality: self.current_quality,
            effects: self.current_state_turns@,
            inner_quiet_stack: self.inner_quiet_stack,
        }
    }
}

impl CraftState {
    /// The state in which every craft starts.
    pub open spec fn fresh(constants: SimulationConstants) -> CraftState {
        CraftState {
            remaining_durability: constants.durability_ceiling_spec(),
            remaining_cp: constants.cp,
            current_progress: 0,
            current_quality: 0,
            effects: Seq::empty(),
            inner_quiet_stack: 0,
        }
    }

    /// Durability is neither negative nor above what the item started with,
    /// and the crafting points are not above the crafter's.
    pub open spec fn within_limits(self, constants: SimulationConstants) -> bool {
        &&& 0 <= self.remaining_durability <= constants.durability_ceiling_spec()
        &&& self.remaining_cp <= constants.cp
    }

    /// The item is complete.
    pub open spec fn completed(self, constants: SimulationConstants) -> bool {
        self.current_progress >= constants.item.required_progress
    }
}

impl SimulationVariables {
    /// The variables of a craft that has not begun.
    pub fn new(constants: &SimulationConstants) -> (r: SimulationVariables)
        ensures
            r@ == CraftState::fresh(*constants),
            r@.within_limits(*constants),
            r.lowest_target_quality_steps == constants.open_step_limit(),
    {
        SimulationVariables {
            remaining_durability: constants.durability_ceiling(),
            remaining_cp: constants.cp,
            current_progress: 0,
            current_quality: 0,
            current_state_turns: Vec::new(),
            inner_quiet_stack: 0,
            lowest_target_quality_steps: if constants.max_steps == u8::MAX {
                u8::MAX
            } else {
                constants.max_steps + 1
            },
        }
    }

    /// A copy of the variables.
    pub fn duplicate(&self) -> (r: SimulationVariables)
        ensures
            r@ == self@,
            r.lowest_target_quality_steps == self.lowest_target_quality_steps,
    {
        let mut effects: Vec<AbilityEffectTurns> = Vec::new();
        let mut i: usize = 0;
        while i < self.current_state_turns.len()
            invariant
                i <= self.current_state_turns.len(),
                effects@ == self.current_state_turns@.take(i as int),
            decreases self.current_state_turns.len() - i,
        {
            effects.push(self.current_state_turns[i]);
            i = i + 1;
        }
        assert(effects@ =~= self.current_state_turns@);
        SimulationVariables {
            remaining_durability: self.remaining_durability,
            remaining_cp: self.remaining_cp,
            current_progress: self.current_progress,
            current_quality: self.current_quality,
            current_state_turns: effects,
            inner_quiet_stack: self.inner_quiet_stack,
            lowest_target_quality_steps: self.lowest_target_quality_steps,
        }
    }
}

/// What one turn works with, derived at its start.
#[derive(Debug, Clone, Copy)]
pub struct StepVariables {
    pub condition: Condition,
    pub step_number: u8,
    pub base_progress: u32,
    pub base_quality: u32,
    /// The percentage at which durability costs are charged this turn.
    pub durability_scale: u32,
    pub progress_floor: bool,
}

} // verus!
