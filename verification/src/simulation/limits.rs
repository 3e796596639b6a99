use vstd::prelude::*;

use super::ability::{
    action_defined, actions_defined, can_afford, execution_status, lists_defined, lists_outcome,
    run_actions, run_all, use_defined, use_result, use_start, AbilityExecutionStatus, ListOutcome,
};
use super::random::SimulationRandomnessGenerator;
use super::state::{CraftState, SimulationConstants, SimulationStep, StepVariables};
use super::turn::{carried_over, fold_effects, next_step, plain_step, TurnStart};
use crate::profile::abilities::{
    list_sound, lists_sound, pays_before, quiet_at, Ability, AbilityAction, AbilityEffectTurns,
    AbilityType, SuccessAction,
};

verus! {

/// In a sound list, run from a state within the crafter's points, the first
/// `k` actions can be executed. They leave the points within the crafter's,
/// not below `cp` while none of them has cost any, and leave inner quiet
/// where the list says so.
pub proof fn lemma_sound_list_prefix(
    actions: Seq<AbilityAction>,
    constants: SimulationConstants,
    start: ListOutcome,
    step: StepVariables,
    may_pay: bool,
    quiet: bool,
    cp: u32,
    k: int,
)
    requires
        list_sound(actions, may_pay, quiet),
        0 <= k <= actions.len(),
        start.state.remaining_cp <= constants.cp,
        may_pay ==> can_afford(actions, cp) && cp <= start.state.remaining_cp,
        quiet ==> start.state.inner_quiet_stack > 0,
    ensures
        run_actions(actions, constants, start, step, k).state.remaining_cp <= constants.cp,
        may_pay && !pays_before(actions, k) ==> cp <= run_actions(
            actions,
            constants,
            start,
            step,
            k,
        ).state.remaining_cp,
        quiet_at(actions, quiet, k) ==> run_actions(
            actions,
            constants,
            start,
            step,
            k,
        ).state.inner_quiet_stack > 0,
        k < actions.len() ==> action_defined(
            actions[k],
            run_actions(actions, constants, start, step, k).state,
        ),
    decreases k,
{
    if k > 0 {
        lemma_sound_list_prefix(actions, constants, start, step, may_pay, quiet, cp, k - 1);
        let before = run_actions(actions, constants, start, step, k - 1);
        let action = actions[k - 1];
        assert(action_defined(action, before.state));
        if action is CostCP {
            assert(pays_before(actions, k));
        } else {
            if pays_before(actions, k) {
                let j = choose|j: int| 0 <= j < k && (#[trigger] actions[j]) is CostCP;
                assert(j < k - 1);
                assert(pays_before(actions, k - 1));
            }
        }
    }
    if k < actions.len() {
        let here = run_actions(actions, constants, start, step, k);
        match actions[k] {
            AbilityAction::CostCP(a) => {
                assert(a <= cp);
            },
            _ => {},
        }
    }
}

/// A sound list can be executed from a state that satisfies what it counts
/// on.
pub proof fn lemma_sound_list_defined(
    actions: Seq<AbilityAction>,
    constants: SimulationConstants,
    start: ListOutcome,
    step: StepVariables,
    may_pay: bool,
    quiet: bool,
    cp: u32,
)
    requires
        list_sound(actions, may_pay, quiet),
        start.state.remaining_cp <= constants.cp,
        may_pay ==> can_afford(actions, cp) && cp <= start.state.remaining_cp,
        quiet ==> start.state.inner_quiet_stack > 0,
    ensures
        actions_defined(actions, constants, start, step),
        run_all(actions, constants, start, step).state.remaining_cp <= constants.cp,
        quiet_at(actions, quiet, actions.len() as int) ==> run_all(
            actions,
            constants,
            start,
            step,
        ).state.inner_quiet_stack > 0,
{
    assert forall|k: int| 0 <= k < actions.len() implies action_defined(
        actions[k],
        (#[trigger] run_actions(actions, constants, start, step, k)).state,
    ) by {
        lemma_sound_list_prefix(actions, constants, start, step, may_pay, quiet, cp, k);
    }
    lemma_sound_list_prefix(
        actions,
        constants,
        start,
        step,
        may_pay,
        quiet,
        cp,
        actions.len() as int,
    );
}

/// A sound pair of lists can be executed wherever the first can be paid.
pub proof fn lemma_sound_lists_defined(
    actions: Seq<AbilityAction>,
    chance: Option<SuccessAction>,
    quiet: bool,
    used: AbilityType,
    constants: SimulationConstants,
    state: CraftState,
    step: StepVariables,
    generator: SimulationRandomnessGenerator,
)
    requires
        lists_sound(actions, chance, quiet),
        state.remaining_cp <= constants.cp,
        can_afford(actions, state.remaining_cp),
        quiet ==> state.inner_quiet_stack > 0,
    ensures
        lists_defined(actions, chance, used, constants, state, step, generator),
{
    let start = use_start(state, used);
    lemma_sound_list_defined(actions, constants, start, step, true, quiet, state.remaining_cp);
    match chance {
        Some(s) => {
            lemma_sound_list_defined(
                s.action@,
                constants,
                run_all(actions, constants, start, step),
                step,
                false,
                quiet_at(actions, quiet, actions.len() as int),
                0,
            );
        },
        None => {},
    }
}

/// A well-formed ability can be used in every state within the crafter's
/// points: where it is available, nothing it spends is missing.
pub proof fn lemma_well_formed_use_defined(
    ability: Ability,
    constants: SimulationConstants,
    state: CraftState,
    step: StepVariables,
    generator: SimulationRandomnessGenerator,
)
    requires
        ability.well_formed(),
        state.remaining_cp <= constants.cp,
    ensures
        use_defined(ability, constants, state, step, generator),
{
    match execution_status(ability, constants, state, step) {
        AbilityExecutionStatus::NotAvailable => {},
        AbilityExecutionStatus::Available => {
            lemma_sound_lists_defined(
                ability.action.action@,
                ability.action.action_success,
                ability.asks_inner_quiet(),
                ability.ability_type,
                constants,
                state,
                step,
                generator,
            );
        },
        AbilityExecutionStatus::ComboAvailable => {
            match ability.combo_action {
                Some(combo) => {
                    lemma_sound_lists_defined(
                        combo.action@,
                        combo.action_success,
                        false,
                        ability.ability_type,
                        constants,
                        state,
                        step,
                        generator,
                    );
                },
                None => {},
            }
        },
    }
}

/// What holds of a list in progress when it started within the limits: the
/// points and the durability are not above theirs; the durability is not
/// negative unless the item broke; and a completed item has its progress.
pub open spec fn outcome_within_limits(
    outcome: ListOutcome,
    constants: SimulationConstants,
    step: StepVariables,
) -> bool {
    &&& outcome.state.remaining_cp <= constants.cp
    &&& outcome.state.remaining_durability <= constants.durability_ceiling_spec()
    &&& outcome.broke || 0 <= outcome.state.remaining_durability
    &&& outcome.completed ==> !step.progress_floor && outcome.state.completed(constants)
}

/// Running actions keeps a list within the limits.
pub proof fn lemma_run_keeps_limits(
    actions: Seq<AbilityAction>,
    constants: SimulationConstants,
    start: ListOutcome,
    step: StepVariables,
    k: int,
)
    requires
        outcome_within_limits(start, constants, step),
        0 <= k <= actions.len(),
    ensures
        outcome_within_limits(run_actions(actions, constants, start, step, k), constants, step),
    decreases k,
{
    if k > 0 {
        lemma_run_keeps_limits(actions, constants, start, step, k - 1);
    }
}

/// Whatever an ability is used on, within the limits, it leaves within the
/// limits, unless it completes the item: after every turn that does not end
/// the craft the durability is between nothing and what the item started
/// with, and the crafting points are not above the crafter's.
pub proof fn lemma_use_keeps_limits(
    ability: Ability,
    constants: SimulationConstants,
    state: CraftState,
    step: StepVariables,
    generator: SimulationRandomnessGenerator,
)
    requires
        state.within_limits(constants),
    ensures
        use_result(ability, constants, state, step, generator) matches Some(r) ==> r.0.completed(
            constants,
        ) || r.0.within_limits(constants),
        use_result(ability, constants, state, step, generator) matches Some(r)
            ==> r.0.remaining_cp <= constants.cp && r.0.remaining_durability
            <= constants.durability_ceiling_spec(),
{
    match execution_status(ability, constants, state, step) {
        AbilityExecutionStatus::NotAvailable => {},
        AbilityExecutionStatus::Available => {
            lemma_lists_keep_limits(
                ability.action.action@,
                ability.action.action_success,
                ability.ability_type,
                constants,
                state,
                step,
                generator,
            );
        },
        AbilityExecutionStatus::ComboAvailable => {
            match ability.combo_action {
                Some(combo) => {
                    lemma_lists_keep_limits(
                        combo.action@,
                        combo.action_success,
                        ability.ability_type,
                        constants,
                        state,
                        step,
                        generator,
                    );
                },
                None => {},
            }
        },
    }
}

/// A list and its chance part keep within the limits.
pub proof fn lemma_lists_keep_limits(
    actions: Seq<AbilityAction>,
    chance: Option<SuccessAction>,
    used: AbilityType,
    constants: SimulationConstants,
    state: CraftState,
    step: StepVariables,
    generator: SimulationRandomnessGenerator,
)
    requires
        state.within_limits(constants),
    ensures
        outcome_within_limits(
            lists_outcome(actions, chance, used, constants, state, step, generator).0,
            constants,
            step,
        ),
{
    let start = use_start(state, used);
    lemma_run_keeps_limits(actions, constants, start, step, actions.len() as int);
    match chance {
        Some(s) => {
            lemma_run_keeps_limits(
                s.action@,
                constants,
                run_all(actions, constants, start, step),
                step,
                s.action@.len() as int,
            );
        },
        None => {},
    }
}

/// Folding effects into a turn keeps the durability between nothing and what
/// the item started with.
pub proof fn lemma_fold_keeps_durability(
    effects: Seq<AbilityEffectTurns>,
    constants: SimulationConstants,
    turn: TurnStart,
    k: int,
)
    requires
        0 <= turn.durability <= constants.durability_ceiling_spec(),
        0 <= k <= effects.len(),
    ensures
        0 <= fold_effects(effects, constants, turn, k).durability
            <= constants.durability_ceiling_spec(),
    decreases k,
{
    if k > 0 {
        lemma_fold_keeps_durability(effects, constants, turn, k - 1);
    }
}

/// The start of a turn keeps a state within the limits.
pub proof fn lemma_next_step_keeps_limits(
    constants: SimulationConstants,
    state: CraftState,
    generator: SimulationRandomnessGenerator,
    steps: Seq<SimulationStep>,
)
    requires
        state.within_limits(constants),
    ensures
        next_step(constants, state, generator, steps).1.within_limits(constants),
        next_step(constants, state, generator, steps).1.current_progress
            == state.current_progress,
        next_step(constants, state, generator, steps).1.current_quality == state.current_quality,
{
    let effects = carried_over(state.effects);
    lemma_fold_keeps_durability(
        effects,
        constants,
        TurnStart {
            step: plain_step(constants, generator, steps),
            durability: state.remaining_durability,
        },
        effects.len() as int,
    );
}

/// A whole turn, from its start to the use of an ability, leaves a state
/// within the limits within the limits, unless the turn completes the item.
pub proof fn lemma_turn_keeps_limits(
    ability: Ability,
    constants: SimulationConstants,
    state: CraftState,
    generator: SimulationRandomnessGenerator,
    steps: Seq<SimulationStep>,
)
    requires
        state.within_limits(constants),
    ensures
        ({
            let turn = next_step(constants, state, generator, steps);
            use_result(ability, constants, turn.1, turn.0, generator) matches Some(r)
                ==> r.0.completed(constants) || r.0.within_limits(constants)
        }),
{
    lemma_next_step_keeps_limits(constants, state, generator, steps);
    let turn = next_step(constants, state, generator, steps);
    lemma_use_keeps_limits(ability, constants, turn.1, turn.0, generator);
}

} // verus!
