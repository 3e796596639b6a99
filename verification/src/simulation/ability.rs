use vstd::prelude::*;

use super::numbers::{
    add_gain, cap_i32, cap_u32, cap_u8, pay_durability, restore_durability, restored,
    round_percent, rounded_percent,
};
use super::random::SimulationRandomnessGenerator;
use super::state::{
    Condition, CraftState, SimulationConstants, SimulationStep, SimulationVariables,
    StepVariables,
};
use crate::profile::abilities::{
    Ability, AbilityAction, AbilityEffect, AbilityEffectLimit, AbilityEffectTurns, AbilityState,
    AbilityType, ComboAction, RequiredState, SuccessAction,
};

verus! {

/// Whether an ability can be used in a turn, and through which of its lists.
#[derive(Debug, Clone, Copy, PartialEq, Eq, Structural)]
pub enum AbilityExecutionStatus {
    NotAvailable,
    Available,
    ComboAvailable,
}

/// What one primitive action did to the item.
#[derive(Debug, Clone, Copy, PartialEq, Eq, Structural)]
pub enum ActionExecutionStatus {
    ItemBroke,
    ItemCompleted,
    ActionCompleted,
}

/// Every cost in crafting points of the list can be paid out of `cp`.
/// Durability costs never stand in the way: they can break the item instead.
pub open spec fn can_afford(actions: Seq<AbilityAction>, cp: u32) -> bool {
    forall|i: int|
        0 <= i < actions.len() ==> ((#[trigger] actions[i]) matches AbilityAction::CostCP(a) ==> a
            <= cp)
}

/// The named state is among the active effects.
pub open spec fn has_state(effects: Seq<AbilityEffectTurns>, state: AbilityState) -> bool {
    exists|i: int| 0 <= i < effects.len() && (#[trigger] effects[i]).effect == AbilityEffect::State(state)
}

/// The precondition of an ability's base list holds in this turn.
pub open spec fn requirement_met(
    required: RequiredState,
    constants: SimulationConstants,
    state: CraftState,
    step: StepVariables,
) -> bool {
    match required {
        RequiredState::Always => true,
        RequiredState::FirstStep => step.step_number == 1,
        RequiredState::FirstStepLevelAdvantage(l) => step.step_number == 1 && constants.class_level
            >= constants.item.level + l,
        RequiredState::ConditionGood => step.condition == Condition::Good || step.condition
            == Condition::Excellent,
        RequiredState::NotAbility(s) => !has_state(state.effects, s),
        RequiredState::InnerQuiet(n) => state.inner_quiet_stack >= n,
    }
}

/// The combo of the ability, where it has one and the state that it asks for
/// is active.
pub open spec fn combo_in_force(ability: Ability, state: CraftState) -> Option<ComboAction> {
    match ability.combo_action {
        Some(combo) => if has_state(state.effects, combo.required_state) {
            Some(combo)
        } else {
            None
        },
        None => None,
    }
}

/// How an ability stands in a turn. While the state of its combo is active
/// only the combo list counts: it is used if its costs can be paid, and the
/// ability is not available otherwise. Without that state the base list is
/// used if its precondition holds and its costs can be paid.
pub open spec fn execution_status(
    ability: Ability,
    constants: SimulationConstants,
    state: CraftState,
    step: StepVariables,
) -> AbilityExecutionStatus {
    match combo_in_force(ability, state) {
        Some(combo) => if can_afford(combo.action@, state.remaining_cp) {
            AbilityExecutionStatus::ComboAvailable
        } else {
            AbilityExecutionStatus::NotAvailable
        },
        None => if requirement_met(ability.required_state, constants, state, step) && can_afford(
            ability.action.action@,
            state.remaining_cp,
        ) {
            AbilityExecutionStatus::Available
        } else {
            AbilityExecutionStatus::NotAvailable
        },
    }
}

/// Whether every cost in crafting points of the list can be paid.
pub fn can_afford_action(actions: &Vec<AbilityAction>, variables: &SimulationVariables) -> (r: bool)
    ensures
        r == can_afford(actions@, variables.remaining_cp),
{
    let mut i: usize = 0;
    while i < actions.len()
        invariant
            i <= actions.len(),
            can_afford(actions@.take(i as int), variables.remaining_cp),
        decreases actions.len() - i,
    {
        if let AbilityAction::CostCP(a) = actions[i] {
            if a > variables.remaining_cp {
                return false;
            }
        }
        assert forall|j: int| 0 <= j < i + 1 implies ((#[trigger] actions@.take(i + 1)[j])
            matches AbilityAction::CostCP(a) ==> a <= variables.remaining_cp) by {
            if j < i {
                assert(actions@.take(i as int)[j] == actions@[j]);
            }
        }
        i = i + 1;
    }
    assert(actions@.take(i as int) =~= actions@);
    true
}

/// Whether the named state is among the active effects.
pub fn has_active_state(effects: &Vec<AbilityEffectTurns>, state: AbilityState) -> (r: bool)
    ensures
        r == has_state(effects@, state),
{
    let mut i: usize = 0;
    while i < effects.len()
        invariant
            i <= effects.len(),
            forall|j: int| 0 <= j < i ==> (#[trigger] effects@[j]).effect != AbilityEffect::State(state),
        decreases effects.len() - i,
    {
        if AbilityEffect::State(state) == effects[i].effect {
            return true;
        }
        i = i + 1;
    }
    false
}

/// How the ability stands in this turn.
pub fn can_execute_ability(
    ability: &Ability,
    constants: &SimulationConstants,
    variables: &SimulationVariables,
    step_variables: &StepVariables,
) -> (r: AbilityExecutionStatus)
    ensures
        r == execution_status(*ability, *constants, variables@, *step_variables),
{
    if let Some(combo) = &ability.combo_action {
        if has_active_state(&variables.current_state_turns, combo.required_state) {
            if !can_afford_action(&combo.action, variables) {
                return AbilityExecutionStatus::NotAvailable;
            }
            return AbilityExecutionStatus::ComboAvailable;
        }
    }
    match ability.required_state {
        RequiredState::Always => {},
        RequiredState::FirstStep => {
            if step_variables.step_number != 1 {
                return AbilityExecutionStatus::NotAvailable;
            }
        },
        RequiredState::FirstStepLevelAdvantage(l) => {
            if step_variables.step_number != 1 {
                return AbilityExecutionStatus::NotAvailable;
            }
            if (constants.class_level as u64) < constants.item.level as u64 + l as u64 {
                return AbilityExecutionStatus::NotAvailable;
            }
        },
        RequiredState::ConditionGood => {
            if step_variables.condition != Condition::Good && step_variables.condition
                != Condition::Excellent {
                return AbilityExecutionStatus::NotAvailable;
            }
        },
        RequiredState::NotAbility(a) => {
            if has_active_state(&variables.current_state_turns, a) {
                return AbilityExecutionStatus::NotAvailable;
            }
        },
        RequiredState::InnerQuiet(a) => {
            if variables.inner_quiet_stack < a as u32 {
                return AbilityExecutionStatus::NotAvailable;
            }
        },
    }
    if !can_afford_action(&ability.action.action, variables) {
        return AbilityExecutionStatus::NotAvailable;
    }
    AbilityExecutionStatus::Available
}

/// `i` is the first place in `effects` that holds `effect`.
pub open spec fn is_first_match(
    effects: Seq<AbilityEffectTurns>,
    effect: AbilityEffect,
    i: int,
) -> bool {
    &&& 0 <= i < effects.len()
    &&& effects[i].effect == effect
    &&& forall|j: int| 0 <= j < i ==> (#[trigger] effects[j]).effect != effect
}

/// The effects after `granted` was granted. Where the same effect is active
/// already, the first such entry gains the turns of `granted`, as far as a
/// `u8` holds them, and keeps its own limit. Otherwise `granted` is added at
/// the end.
pub open spec fn with_effect(effects: Seq<AbilityEffectTurns>, granted: AbilityEffectTurns) -> Seq<
    AbilityEffectTurns,
> {
    if exists|i: int| is_first_match(effects, granted.effect, i) {
        let i = choose|i: int| is_first_match(effects, granted.effect, i);
        effects.update(
            i,
            AbilityEffectTurns { turns: cap_u8(effects[i].turns + granted.turns), ..effects[i] },
        )
    } else {
        effects.push(granted)
    }
}

/// The efficiency, in percent, at which a stack of inner quiet is consumed:
/// 20 for each level of the stack, and 300 at most.
pub open spec fn inner_quiet_percent(stack: u32) -> int {
    if stack * 20 > 300 {
        300
    } else {
        stack * 20
    }
}

/// The durability cost that is charged this turn for a listed cost.
pub open spec fn charged(cost: u32, step: StepVariables) -> int {
    round_percent(cost as int, step.durability_scale as int)
}

/// The action can be executed in this state: a cost in crafting points is
/// covered, and there is inner quiet to consume.
pub open spec fn action_defined(action: AbilityAction, state: CraftState) -> bool {
    match action {
        AbilityAction::CostCP(a) => a <= state.remaining_cp,
        AbilityAction::ConsumeInnerQuiet => state.inner_quiet_stack > 0,
        _ => true,
    }
}

/// What one primitive action makes of a state, and what it reports.
pub open spec fn action_effect(
    action: AbilityAction,
    constants: SimulationConstants,
    state: CraftState,
    step: StepVariables,
) -> (CraftState, ActionExecutionStatus) {
    match action {
        AbilityAction::GrantDurability(a) => (
            CraftState {
                remaining_durability: restored(
                    state.remaining_durability,
                    a,
                    constants.durability_ceiling_spec(),
                ),
                ..state
            },
            ActionExecutionStatus::ActionCompleted,
        ),
        AbilityAction::CostDurability(a) => {
            let rest = cap_i32(state.remaining_durability - charged(a, step));
            (
                CraftState { remaining_durability: rest, ..state },
                if rest <= 0 {
                    ActionExecutionStatus::ItemBroke
                } else {
                    ActionExecutionStatus::ActionCompleted
                },
            )
        },
        AbilityAction::GrantProgress(m) => {
            let reached = cap_u32(
                state.current_progress + round_percent(step.base_progress as int, m as int),
            );
            if reached >= constants.item.required_progress {
                if step.progress_floor {
                    (
                        CraftState {
                            current_progress: cap_u32(constants.item.required_progress - 1),
                            ..state
                        },
                        ActionExecutionStatus::ActionCompleted,
                    )
                } else {
                    (
                        CraftState { current_progress: reached, ..state },
                        ActionExecutionStatus::ItemCompleted,
                    )
                }
            } else {
                (
                    CraftState { current_progress: reached, ..state },
                    ActionExecutionStatus::ActionCompleted,
                )
            }
        },
        AbilityAction::GrantQuality(m) => (
            CraftState {
                current_quality: cap_u32(
                    state.current_quality + round_percent(step.base_quality as int, m as int),
                ),
                ..state
            },
            ActionExecutionStatus::ActionCompleted,
        ),
        AbilityAction::GrantFullQuality => (
            CraftState { current_quality: constants.item.target_quality, ..state },
            ActionExecutionStatus::ActionCompleted,
        ),
        AbilityAction::GrantCP(a) => (
            CraftState {
                remaining_cp: if state.remaining_cp + a > constants.cp {
                    constants.cp
                } else {
                    (state.remaining_cp + a) as u32
                },
                ..state
            },
            ActionExecutionStatus::ActionCompleted,
        ),
        AbilityAction::CostCP(a) => (
            CraftState { remaining_cp: cap_u32(state.remaining_cp - a), ..state },
            ActionExecutionStatus::ActionCompleted,
        ),
        AbilityAction::GrantEffect(e) => (
            CraftState { effects: with_effect(state.effects, e), ..state },
            ActionExecutionStatus::ActionCompleted,
        ),
        AbilityAction::GrantInnerQuiet => (
            CraftState { inner_quiet_stack: cap_u32(state.inner_quiet_stack + 1), ..state },
            ActionExecutionStatus::ActionCompleted,
        ),
        AbilityAction::ConsumeInnerQuiet => (
            CraftState {
                current_quality: cap_u32(
                    state.current_quality + round_percent(
                        step.base_quality as int,
                        inner_quiet_percent(state.inner_quiet_stack),
                    ),
                ),
                inner_quiet_stack: 0,
                ..state
            },
            ActionExecutionStatus::ActionCompleted,
        ),
        AbilityAction::CostDurabilityWithDiscount(d) => {
            if state.remaining_durability >= charged(d.cost, step) {
                let rest = (state.remaining_durability - charged(d.cost, step)) as i32;
                (
                    CraftState { remaining_durability: rest, ..state },
                    if rest == 0 {
                        ActionExecutionStatus::ItemBroke
                    } else {
                        ActionExecutionStatus::ActionCompleted
                    },
                )
            } else {
                let rest = cap_i32(
                    state.remaining_durability - charged(d.cost_if_too_expensive, step),
                );
                (
                    CraftState { remaining_durability: rest, ..state },
                    if rest <= 0 {
                        ActionExecutionStatus::ItemBroke
                    } else {
                        ActionExecutionStatus::ActionCompleted
                    },
                )
            }
        },
    }
}

/// Grants an effect: merges it into the first entry that holds the same
/// effect, or adds it at the end.
pub fn grant_effect(effects: &mut Vec<AbilityEffectTurns>, granted: AbilityEffectTurns)
    ensures
        final(effects)@ == with_effect(old(effects)@, granted),
{
    let mut i: usize = 0;
    while i < effects.len()
        invariant
            i <= effects.len(),
            effects@ == old(effects)@,
            forall|j: int| 0 <= j < i ==> (#[trigger] effects@[j]).effect != granted.effect,
        decreases effects.len() - i,
    {
        let current = effects[i];
        if granted.effect == current.effect {
            let turns: u8 = if current.turns > u8::MAX - granted.turns {
                u8::MAX
            } else {
                current.turns + granted.turns
            };
            assert(is_first_match(effects@, granted.effect, i as int));
            effects.set(i, AbilityEffectTurns { turns, ..current });
            return ;
        }
        i = i + 1;
    }
    effects.push(granted);
}

/// Executes one primitive action on the variables.
pub fn execute_action(
    action: &AbilityAction,
    constants: &SimulationConstants,
    variables: &mut SimulationVariables,
    step_variables: &StepVariables,
) -> (r: ActionExecutionStatus)
    requires
        action_defined(*action, old(variables)@),
    ensures
        final(variables)@ == action_effect(*action, *constants, old(variables)@, *step_variables).0,
        r == action_effect(*action, *constants, old(variables)@, *step_variables).1,
        final(variables).lowest_target_quality_steps == old(
            variables,
        ).lowest_target_quality_steps,
{
    match action {
        AbilityAction::GrantDurability(a) => {
            variables.remaining_durability = restore_durability(
                variables.remaining_durability,
                *a,
                constants.durability_ceiling(),
            );
        },
        AbilityAction::CostDurability(a) => {
            let cost = rounded_percent(*a, step_variables.durability_scale);
            variables.remaining_durability = pay_durability(variables.remaining_durability, cost);
            if variables.remaining_durability <= 0 {
                return ActionExecutionStatus::ItemBroke;
            }
        },
        AbilityAction::GrantProgress(m) => {
            let gain = rounded_percent(step_variables.base_progress, *m);
            variables.current_progress = add_gain(variables.current_progress, gain);
            if variables.current_progress >= constants.item.required_progress {
                if step_variables.progress_floor {
                    variables.current_progress = if constants.item.required_progress == 0 {
                        0
                    } else {
                        constants.item.required_progress - 1
                    };
                } else {
                    return ActionExecutionStatus::ItemCompleted;
                }
            }
        },
        AbilityAction::GrantQuality(m) => {
            let gain = rounded_percent(step_variables.base_quality, *m);
            variables.current_quality = add_gain(variables.current_quality, gain);
        },
        AbilityAction::GrantFullQuality => {
            variables.current_quality = constants.item.target_quality;
        },
        AbilityAction::GrantCP(a) => {
            variables.remaining_cp = if *a as u64 + variables.remaining_cp as u64
                > constants.cp as u64 {
                constants.cp
            } else {
                variables.remaining_cp + *a
            };
        },
        AbilityAction::CostCP(a) => {
            variables.remaining_cp = variables.remaining_cp - *a;
        },
        AbilityAction::GrantEffect(e) => {
            grant_effect(&mut variables.current_state_turns, *e);
        },
        AbilityAction::GrantInnerQuiet => {
            variables.inner_quiet_stack = add_gain(variables.inner_quiet_stack, 1);
        },
        AbilityAction::ConsumeInnerQuiet => {
            let percent: u32 = if variables.inner_quiet_stack > 15 {
                300
            } else {
                variables.inner_quiet_stack * 20
            };
            let gain = rounded_percent(step_variables.base_quality, percent);
            variables.current_quality = add_gain(variables.current_quality, gain);
            variables.inner_quiet_stack = 0;
        },
        AbilityAction::CostDurabilityWithDiscount(d) => {
            let cost = rounded_percent(d.cost, step_variables.durability_scale);
            let cheaper = rounded_percent(d.cost_if_too_expensive, step_variables.durability_scale);
            if variables.remaining_durability >= 0 && variables.remaining_durability as u64
                >= cost {
                variables.remaining_durability = pay_durability(
                    variables.remaining_durability,
                    cost,
                );
                if variables.remaining_durability == 0 {
                    return ActionExecutionStatus::ItemBroke;
                }
            } else {
                variables.remaining_durability = pay_durability(
                    variables.remaining_durability,
                    cheaper,
                );
                if variables.remaining_durability <= 0 {
                    return ActionExecutionStatus::ItemBroke;
                }
            }
        },
    }
    ActionExecutionStatus::ActionCompleted
}

/// Where a list of actions stands: the state it has reached, and whether
/// any action so far has completed or broken the item.
pub struct ListOutcome {
    pub state: CraftState,
    pub completed: bool,
    pub broke: bool,
}

/// The outcome of the first `upto` actions of a list, run in order from
/// `start`. An item that breaks does not stop the list.
pub open spec fn run_actions(
    actions: Seq<AbilityAction>,
    constants: SimulationConstants,
    start: ListOutcome,
    step: StepVariables,
    upto: int,
) -> ListOutcome
    decreases upto,
{
    if upto <= 0 {
        start
    } else {
        let before = run_actions(actions, constants, start, step, upto - 1);
        let after = action_effect(actions[upto - 1], constants, before.state, step);
        ListOutcome {
            state: after.0,
            completed: before.completed || after.1 == ActionExecutionStatus::ItemCompleted,
            broke: before.broke || after.1 == ActionExecutionStatus::ItemBroke,
        }
    }
}

/// The outcome of the whole list.
pub open spec fn run_all(
    actions: Seq<AbilityAction>,
    constants: SimulationConstants,
    start: ListOutcome,
    step: StepVariables,
) -> ListOutcome {
    run_actions(actions, constants, start, step, actions.len() as int)
}

/// Every action of the list can be executed in the state that the actions
/// before it leave.
pub open spec fn actions_defined(
    actions: Seq<AbilityAction>,
    constants: SimulationConstants,
    start: ListOutcome,
    step: StepVariables,
) -> bool {
    forall|k: int|
        0 <= k < actions.len() ==> action_defined(
            actions[k],
            (#[trigger] run_actions(actions, constants, start, step, k)).state,
        )
}

/// An effect after an ability of type `used` was used: a limited effect that
/// applies to the type has one use less.
pub open spec fn use_taken(effect: AbilityEffectTurns, used: AbilityType) -> AbilityEffectTurns {
    match effect.limit {
        Some(l) => if l.apply_to.intersects(used) && l.uses > 0 {
            AbilityEffectTurns {
                limit: Some(AbilityEffectLimit { uses: (l.uses - 1) as u32, ..l }),
                ..effect
            }
        } else {
            effect
        },
        None => effect,
    }
}

/// The state in which the lists of an ability of type `used` start.
pub open spec fn use_start(state: CraftState, used: AbilityType) -> ListOutcome {
    ListOutcome {
        state: CraftState {
            effects: state.effects.map_values(|e: AbilityEffectTurns| use_taken(e, used)),
            ..state
        },
        completed: false,
        broke: false,
    }
}

/// The outcome of a list and of its chance part, which runs only if the
/// generator lets it succeed.
pub open spec fn lists_outcome(
    actions: Seq<AbilityAction>,
    chance: Option<SuccessAction>,
    used: AbilityType,
    constants: SimulationConstants,
    state: CraftState,
    step: StepVariables,
    generator: SimulationRandomnessGenerator,
) -> (ListOutcome, Option<bool>) {
    let main = run_all(actions, constants, use_start(state, used), step);
    match chance {
        Some(s) => if generator.succeeds(s.rate) {
            (run_all(s.action@, constants, main, step), Some(true))
        } else {
            (main, Some(false))
        },
        None => (main, None),
    }
}

/// The list and, where it runs, its chance part can be executed.
pub open spec fn lists_defined(
    actions: Seq<AbilityAction>,
    chance: Option<SuccessAction>,
    used: AbilityType,
    constants: SimulationConstants,
    state: CraftState,
    step: StepVariables,
    generator: SimulationRandomnessGenerator,
) -> bool {
    &&& actions_defined(actions, constants, use_start(state, used), step)
    &&& match chance {
        Some(s) => generator.succeeds(s.rate) ==> actions_defined(
            s.action@,
            constants,
            run_all(actions, constants, use_start(state, used), step),
            step,
        ),
        None => true,
    }
}

/// What the use of a list gives: the new state and the step to record. A
/// broken item gives nothing, unless the item was completed in the same
/// turn: completion wins.
pub open spec fn lists_result(
    actions: Seq<AbilityAction>,
    chance: Option<SuccessAction>,
    ability: Ability,
    constants: SimulationConstants,
    state: CraftState,
    step: StepVariables,
    generator: SimulationRandomnessGenerator,
) -> Option<(CraftState, SimulationStep)> {
    let end = lists_outcome(
        actions,
        chance,
        ability.ability_type,
        constants,
        state,
        step,
        generator,
    );
    if end.0.completed || !end.0.broke {
        Some(
            (
                end.0.state,
                SimulationStep {
                    ability: ability.name,
                    condition: step.condition,
                    action_success: end.1,
                },
            ),
        )
    } else {
        None
    }
}

/// The ability can be used without spending crafting points or inner quiet
/// that are not there.
pub open spec fn use_defined(
    ability: Ability,
    constants: SimulationConstants,
    state: CraftState,
    step: StepVariables,
    generator: SimulationRandomnessGenerator,
) -> bool {
    match execution_status(ability, constants, state, step) {
        AbilityExecutionStatus::NotAvailable => true,
        AbilityExecutionStatus::Available => lists_defined(
            ability.action.action@,
            ability.action.action_success,
            ability.ability_type,
            constants,
            state,
            step,
            generator,
        ),
        AbilityExecutionStatus::ComboAvailable => match ability.combo_action {
            Some(combo) => lists_defined(
                combo.action@,
                combo.action_success,
                ability.ability_type,
                constants,
                state,
                step,
                generator,
            ),
            None => true,
        },
    }
}

/// What the use of an ability gives in a turn: nothing where it is not
/// available or breaks the item, else the new state and the step to record.
pub open spec fn use_result(
    ability: Ability,
    constants: SimulationConstants,
    state: CraftState,
    step: StepVariables,
    generator: SimulationRandomnessGenerator,
) -> Option<(CraftState, SimulationStep)> {
    match execution_status(ability, constants, state, step) {
        AbilityExecutionStatus::NotAvailable => None,
        AbilityExecutionStatus::Available => lists_result(
            ability.action.action@,
            ability.action.action_success,
            ability,
            constants,
            state,
            step,
            generator,
        ),
        AbilityExecutionStatus::ComboAvailable => match ability.combo_action {
            Some(combo) => lists_result(
                combo.action@,
                combo.action_success,
                ability,
                constants,
                state,
                step,
                generator,
            ),
            None => None,
        },
    }
}

/// Runs a list of actions on the variables and adds what it reports to the
/// two flags.
pub fn run_action_list(
    actions: &Vec<AbilityAction>,
    constants: &SimulationConstants,
    variables: SimulationVariables,
    step_variables: &StepVariables,
    completed: bool,
    broke: bool,
) -> (r: (SimulationVariables, bool, bool))
    requires
        actions_defined(
            actions@,
            *constants,
            ListOutcome { state: variables@, completed, broke },
            *step_variables,
        ),
    ensures
        (ListOutcome { state: r.0@, completed: r.1, broke: r.2 }) == run_all(
            actions@,
            *constants,
            ListOutcome { state: variables@, completed, broke },
            *step_variables,
        ),
        r.0.lowest_target_quality_steps == variables.lowest_target_quality_steps,
{
    let ghost start = ListOutcome { state: variables@, completed, broke };
    let mut current = variables;
    let mut completed = completed;
    let mut broke = broke;
    let mut i: usize = 0;
    while i < actions.len()
        invariant
            i <= actions.len(),
            actions_defined(actions@, *constants, start, *step_variables),
            (ListOutcome { state: current@, completed, broke }) == run_actions(
                actions@,
                *constants,
                start,
                *step_variables,
                i as int,
            ),
            current.lowest_target_quality_steps == variables.lowest_target_quality_steps,
        decreases actions.len() - i,
    {
        match execute_action(&actions[i], constants, &mut current, step_variables) {
            ActionExecutionStatus::ItemCompleted => {
                completed = true;
            },
            ActionExecutionStatus::ItemBroke => {
                broke = true;
            },
            ActionExecutionStatus::ActionCompleted => {},
        }
        i = i + 1;
    }
    (current, completed, broke)
}

/// Takes one use from every limited effect that applies to the type.
pub fn take_uses(effects: &mut Vec<AbilityEffectTurns>, used: AbilityType)
    ensures
        final(effects)@ == old(effects)@.map_values(|e: AbilityEffectTurns| use_taken(e, used)),
{
    let mut i: usize = 0;
    while i < effects.len()
        invariant
            i <= effects.len(),
            effects@.len() == old(effects)@.len(),
            forall|j: int| 0 <= j < i ==> effects@[j] == use_taken(old(effects)@[j], used),
            forall|j: int| i <= j < effects@.len() ==> effects@[j] == old(effects)@[j],
        decreases effects.len() - i,
    {
        let current = effects[i];
        if let Some(l) = current.limit {
            if l.apply_to.overlaps(used) && l.uses > 0 {
                effects.set(
                    i,
                    AbilityEffectTurns {
                        limit: Some(AbilityEffectLimit { uses: l.uses - 1, ..l }),
                        ..current
                    },
                );
            }
        }
        i = i + 1;
    }
    assert(effects@ =~= old(effects)@.map_values(|e: AbilityEffectTurns| use_taken(e, used)));
}

/// Uses one list of an ability: takes the uses, runs the list, draws the
/// success where the list has a chance part and runs that part on success.
pub fn use_lists(
    actions: &Vec<AbilityAction>,
    chance: &Option<SuccessAction>,
    ability: &Ability,
    constants: &SimulationConstants,
    variables: &SimulationVariables,
    step_variables: &StepVariables,
    random_generator: &SimulationRandomnessGenerator,
) -> (r: Result<(SimulationVariables, SimulationStep), ()>)
    requires
        lists_defined(
            actions@,
            *chance,
            ability.ability_type,
            *constants,
            variables@,
            *step_variables,
            *random_generator,
        ),
    ensures
        match lists_result(
            actions@,
            *chance,
            *ability,
            *constants,
            variables@,
            *step_variables,
            *random_generator,
        ) {
            Some(expected) => r matches Ok(got) && got.0@ == expected.0 && got.1 == expected.1
                && got.0.lowest_target_quality_steps == variables.lowest_target_quality_steps,
            None => r is Err,
        },
{
    let mut next_variables = variables.duplicate();
    take_uses(&mut next_variables.current_state_turns, ability.ability_type);
    assert(next_variables@ == use_start(variables@, ability.ability_type).state);
    let main = run_action_list(actions, constants, next_variables, step_variables, false, false);
    let mut end = main;
    let mut action_success: Option<bool> = None;
    if let Some(success) = chance {
        if random_generator.random_action_succeess(success.rate) {
            action_success = Some(true);
            end = run_action_list(&success.action, constants, end.0, step_variables, end.1, end.2);
        } else {
            action_success = Some(false);
        }
    }
    if end.1 || !end.2 {
        Ok(
            (
                end.0,
                SimulationStep {
                    ability: ability.name,
                    condition: step_variables.condition,
                    action_success,
                },
            ),
        )
    } else {
        Err(())
    }
}

/// Uses an ability in a turn. An ability that is not available costs
/// nothing, not even a copy of the variables.
pub fn use_ability(
    ability: &Ability,
    constants: &SimulationConstants,
    variables: &SimulationVariables,
    step_variables: &StepVariables,
    random_generator: &SimulationRandomnessGenerator,
) -> (r: Result<(SimulationVariables, SimulationStep), ()>)
    requires
        use_defined(*ability, *constants, variables@, *step_variables, *random_generator),
    ensures
        match use_result(*ability, *constants, variables@, *step_variables, *random_generator) {
            Some(expected) => r matches Ok(got) && got.0@ == expected.0 && got.1 == expected.1
                && got.0.lowest_target_quality_steps == variables.lowest_target_quality_steps,
            None => r is Err,
        },
        variables@.within_limits(*constants) ==> (r matches Ok(got) ==> got.0@.completed(
            *constants,
        ) || got.0@.within_limits(*constants)),
{
    proof {
        if variables@.within_limits(*constants) {
            super::limits::lemma_use_keeps_limits(
                *ability,
                *constants,
                variables@,
                *step_variables,
                *random_generator,
            );
        }
    }
    match can_execute_ability(ability, constants, variables, step_variables) {
        AbilityExecutionStatus::NotAvailable => Err(()),
        AbilityExecutionStatus::Available => use_lists(
            &ability.action.action,
            &ability.action.action_success,
            ability,
            constants,
            variables,
            step_variables,
            random_generator,
        ),
        AbilityExecutionStatus::ComboAvailable => match &ability.combo_action {
            Some(combo) => use_lists(
                &combo.action,
                &combo.action_success,
                ability,
                constants,
                variables,
                step_variables,
                random_generator,
            ),
            None => Err(()),
        },
    }
}

} // verus!
