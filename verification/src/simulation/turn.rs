use vstd::prelude::*;

use super::numbers::{cap_u32, cap_u8, floor_percent, floored_percent, restore_durability, restored};
use super::random::SimulationRandomnessGenerator;
use super::state::{
    base_progress_of, base_quality_of, next_quality, Condition, CraftState, SimulationConstants,
    SimulationStep, SimulationVariables, StepVariables,
};
use crate::profile::abilities::{AbilityEffect, AbilityEffectAction, AbilityEffectTurns};

verus! {

/// The condition of the last recorded turn; normal before the first.
pub open spec fn last_condition(steps: Seq<SimulationStep>) -> Condition {
    if steps.len() == 0 {
        Condition::Normal
    } else {
        steps.last().condition
    }
}

/// The number of the turn that follows the recorded ones, as far as a `u8`
/// holds it.
pub open spec fn step_number_after(steps: Seq<SimulationStep>) -> u8 {
    cap_u8(steps.len() as int + 1)
}

/// The effect lasts into the next turn: it has turns left and, where it is
/// limited, uses left.
pub open spec fn survives(effect: AbilityEffectTurns) -> bool {
    &&& effect.turns != 0
    &&& match effect.limit {
        Some(l) => l.uses != 0,
        None => true,
    }
}

/// A surviving effect at the start of the next turn: one without a limit has
/// a turn less, a limited one wears off by use alone.
pub open spec fn aged(effect: AbilityEffectTurns) -> AbilityEffectTurns {
    if effect.limit is None {
        AbilityEffectTurns { turns: (effect.turns - 1) as u8, ..effect }
    } else {
        effect
    }
}

/// `survives` as a predicate to filter by.
pub open spec fn survival() -> spec_fn(AbilityEffectTurns) -> bool {
    |e: AbilityEffectTurns| survives(e)
}

/// `aged` as a function to map with.
pub open spec fn aging() -> spec_fn(AbilityEffectTurns) -> AbilityEffectTurns {
    |e: AbilityEffectTurns| aged(e)
}

/// The effects that a turn starts with: those that survive, each aged.
pub open spec fn carried_over(effects: Seq<AbilityEffectTurns>) -> Seq<AbilityEffectTurns> {
    effects.filter(survival()).map_values(aging())
}

/// What the effects make of a turn while they are folded into it.
pub struct TurnStart {
    pub step: StepVariables,
    pub durability: i32,
}

/// One active effect folded into the turn: a durability scale and the two
/// efficiencies multiply what is there, rounding down; the progress floor
/// sets its flag; a durability grant is paid out at once, up to what the item
/// started with. A state changes nothing here.
pub open spec fn fold_effect(
    effect: AbilityEffectTurns,
    constants: SimulationConstants,
    turn: TurnStart,
) -> TurnStart {
    match effect.effect {
        AbilityEffect::Action(a) => match a {
            AbilityEffectAction::GrantDurability(g) => TurnStart {
                durability: restored(turn.durability, g, constants.durability_ceiling_spec()),
                ..turn
            },
            AbilityEffectAction::ReduceDurabilityCost(p) => TurnStart {
                step: StepVariables {
                    durability_scale: cap_u32(
                        floor_percent(turn.step.durability_scale as int, p as int),
                    ),
                    ..turn.step
                },
                ..turn
            },
            AbilityEffectAction::IncreaseSynthesisEfficiency(p) => TurnStart {
                step: StepVariables {
                    base_progress: cap_u32(floor_percent(turn.step.base_progress as int, p as int)),
                    ..turn.step
                },
                ..turn
            },
            AbilityEffectAction::IncreaseTouchEfficiency(p) => TurnStart {
                step: StepVariables {
                    base_quality: cap_u32(floor_percent(turn.step.base_quality as int, p as int)),
                    ..turn.step
                },
                ..turn
            },
            AbilityEffectAction::ProgressFloor => TurnStart {
                step: StepVariables { progress_floor: true, ..turn.step },
                ..turn
            },
        },
        AbilityEffect::State(_) => turn,
    }
}

/// The first `upto` effects folded into the turn, in order.
pub open spec fn fold_effects(
    effects: Seq<AbilityEffectTurns>,
    constants: SimulationConstants,
    turn: TurnStart,
    upto: int,
) -> TurnStart
    decreases upto,
{
    if upto <= 0 {
        turn
    } else {
        fold_effect(effects[upto - 1], constants, fold_effects(effects, constants, turn, upto - 1))
    }
}

/// The turn before any effect is folded in.
pub open spec fn plain_step(
    constants: SimulationConstants,
    generator: SimulationRandomnessGenerator,
    steps: Seq<SimulationStep>,
) -> StepVariables {
    let condition = generator.condition_after(last_condition(steps));
    StepVariables {
        condition,
        step_number: step_number_after(steps),
        base_progress: base_progress_of(
            constants.class_level,
            constants.item.level,
            constants.craftmanship,
        ),
        base_quality: base_quality_of(
            constants.item.level,
            constants.class_level,
            constants.control,
            condition,
        ),
        durability_scale: 100,
        progress_floor: false,
    }
}

/// The turn that follows the recorded steps, and the state that it starts
/// with: the condition is drawn after the last one, expired and used-up
/// effects are gone, and the others are aged and folded into the turn.
pub open spec fn next_step(
    constants: SimulationConstants,
    state: CraftState,
    generator: SimulationRandomnessGenerator,
    steps: Seq<SimulationStep>,
) -> (StepVariables, CraftState) {
    let effects = carried_over(state.effects);
    let folded = fold_effects(
        effects,
        constants,
        TurnStart {
            step: plain_step(constants, generator, steps),
            durability: state.remaining_durability,
        },
        effects.len() as int,
    );
    (folded.step, CraftState { remaining_durability: folded.durability, effects, ..state })
}

/// The effects that the next turn starts with.
pub fn carry_over(effects: &Vec<AbilityEffectTurns>) -> (kept: Vec<AbilityEffectTurns>)
    ensures
        kept@ == carried_over(effects@),
{
    let mut kept: Vec<AbilityEffectTurns> = Vec::new();
    let mut i: usize = 0;
    proof {
        assert(effects@.take(0) =~= Seq::<AbilityEffectTurns>::empty());
        assert(Seq::<AbilityEffectTurns>::empty().filter(survival()) =~= Seq::empty()) by {
            reveal(Seq::filter);
        }
    }
    while i < effects.len()
        invariant
            i <= effects.len(),
            kept@ == carried_over(effects@.take(i as int)),
        decreases effects.len() - i,
    {
        let current = effects[i];
        proof {
            assert(effects@.take(i + 1) =~= effects@.take(i as int).push(current));
            effects@.take(i as int).lemma_filter_push(current, survival());
        }
        let limited_left = match current.limit {
            Some(l) => l.uses != 0,
            None => true,
        };
        if current.turns != 0 && limited_left {
            let next = if current.limit.is_none() {
                AbilityEffectTurns { turns: current.turns - 1, ..current }
            } else {
                current
            };
            kept.push(next);
            assert(kept@ =~= carried_over(effects@.take(i + 1)));
        }
        i = i + 1;
    }
    assert(effects@.take(i as int) =~= effects@);
    kept
}

/// Derives the turn that follows the recorded steps and the variables that
/// it starts with.
pub fn next_step_variables(
    constants: &SimulationConstants,
    start_variables: &SimulationVariables,
    random_generator: &SimulationRandomnessGenerator,
    options: &Vec<SimulationStep>,
) -> (r: (StepVariables, SimulationVariables))
    ensures
        r.0 == next_step(*constants, start_variables@, *random_generator, options@).0,
        r.1@ == next_step(*constants, start_variables@, *random_generator, options@).1,
        r.1.lowest_target_quality_steps == start_variables.lowest_target_quality_steps,
        start_variables@.within_limits(*constants) ==> r.1@.within_limits(*constants),
{
    proof {
        if start_variables@.within_limits(*constants) {
            super::limits::lemma_next_step_keeps_limits(
                *constants,
                start_variables@,
                *random_generator,
                options@,
            );
        }
    }
    let last = if options.len() == 0 {
        Condition::Normal
    } else {
        options[options.len() - 1].condition
    };
    let condition = random_generator.get_condition(last);
    let mut step_variables = StepVariables {
        condition,
        step_number: if options.len() >= 255 {
            255
        } else {
            (options.len() + 1) as u8
        },
        base_progress: constants.base_progress(),
        base_quality: next_quality(
            constants.item.level,
            constants.class_level,
            constants.control,
            condition,
        ),
        durability_scale: 100,
        progress_floor: false,
    };
    let effects = carry_over(&start_variables.current_state_turns);
    let mut durability = start_variables.remaining_durability;
    let ghost plain = TurnStart { step: step_variables, durability };
    let mut i: usize = 0;
    while i < effects.len()
        invariant
            i <= effects.len(),
            (TurnStart { step: step_variables, durability }) == fold_effects(
                effects@,
                *constants,
                plain,
                i as int,
            ),
        decreases effects.len() - i,
    {
        match effects[i].effect {
            AbilityEffect::Action(a) => match a {
                AbilityEffectAction::GrantDurability(g) => {
                    durability = restore_durability(durability, g, constants.durability_ceiling());
                },
                AbilityEffectAction::ReduceDurabilityCost(p) => {
                    let scaled = floored_percent(step_variables.durability_scale, p);
                    step_variables.durability_scale = if scaled > u32::MAX as u64 {
                        u32::MAX
                    } else {
                        scaled as u32
                    };
                },
                AbilityEffectAction::IncreaseSynthesisEfficiency(p) => {
                    let scaled = floored_percent(step_variables.base_progress, p);
                    step_variables.base_progress = if scaled > u32::MAX as u64 {
                        u32::MAX
                    } else {
                        scaled as u32
                    };
                },
                AbilityEffectAction::IncreaseTouchEfficiency(p) => {
                    let scaled = floored_percent(step_variables.base_quality, p);
                    step_variables.base_quality = if scaled > u32::MAX as u64 {
                        u32::MAX
                    } else {
                        scaled as u32
                    };
                },
                AbilityEffectAction::ProgressFloor => {
                    step_variables.progress_floor = true;
                },
            },
            AbilityEffect::State(_) => {},
        }
        i = i + 1;
    }
    (
        step_variables,
        SimulationVariables {
            remaining_durability: durability,
            remaining_cp: start_variables.remaining_cp,
            current_progress: start_variables.current_progress,
            current_quality: start_variables.current_quality,
            current_state_turns: effects,
            inner_quiet_stack: start_variables.inner_quiet_stack,
            lowest_target_quality_steps: start_variables.lowest_target_quality_steps,
        },
    )
}

/// Folding effects into a turn changes neither its number nor its
/// condition.
pub proof fn lemma_fold_keeps_turn(
    effects: Seq<AbilityEffectTurns>,
    constants: SimulationConstants,
    turn: TurnStart,
    k: int,
)
    requires
        0 <= k <= effects.len(),
    ensures
        fold_effects(effects, constants, turn, k).step.step_number == turn.step.step_number,
        fold_effects(effects, constants, turn, k).step.condition == turn.step.condition,
    decreases k,
{
    if k > 0 {
        lemma_fold_keeps_turn(effects, constants, turn, k - 1);
    }
}

/// The turn that follows the steps has the next number and the condition
/// that the generator gives after the last one.
pub proof fn lemma_next_step_turn(
    constants: SimulationConstants,
    state: CraftState,
    generator: SimulationRandomnessGenerator,
    steps: Seq<SimulationStep>,
)
    ensures
        next_step(constants, state, generator, steps).0.step_number == step_number_after(steps),
        next_step(constants, state, generator, steps).0.condition == generator.condition_after(
            last_condition(steps),
        ),
{
    let effects = carried_over(state.effects);
    lemma_fold_keeps_turn(
        effects,
        constants,
        TurnStart {
            step: plain_step(constants, generator, steps),
            durability: state.remaining_durability,
        },
        effects.len() as int,
    );
}

} // verus!
