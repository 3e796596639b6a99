use vstd::prelude::*;

use super::ability::{execution_status, lists_outcome, use_result, AbilityExecutionStatus};
use super::random::{
    ConditionSimulation, RandomActionSuccessChance, SimulationError, SimulationRandomness,
    SimulationRandomnessGenerator,
};
use super::scripts::{
    after_opening, first_generator, lemma_openings_done, lemma_openings_onward,
    lemma_script_ends, lemma_script_onward, opening_scripts, openings_yield, replay_yields,
    replayed, script_yields, simulate_yields,
};
use super::state::{CraftState, RunView, SimulationConstants, SimulationStep, StepVariables};
use super::traversal::{
    after_descent, attempt, candidates_yield, depth_left, descent_yields, find_and_use,
    lemma_candidates_done, lemma_candidates_onward, lemma_descent_draws, lemma_search_begins,
    search_yields, Attempt, Onward, SearchOutcome,
};
use super::turn::{next_step, plain_step};
use crate::profile::abilities::Ability;

verus! {

/// The two generators read no randomness and have the same strategies.
pub open spec fn equally_fixed(
    a: SimulationRandomnessGenerator,
    b: SimulationRandomnessGenerator,
) -> bool {
    &&& a.deterministic()
    &&& a.condition_strategy == b.condition_strategy
    &&& a.action_strategy == b.action_strategy
}

/// The search did not end for want of randomness.
pub open spec fn had_entropy(r: SearchOutcome) -> bool {
    r != Err::<RunView, SimulationError>(SimulationError::EntropyUnavailable)
}

/// Under generators that are equally fixed an ability gives the same.
pub proof fn lemma_fixed_use(
    ability: Ability,
    constants: SimulationConstants,
    state: CraftState,
    step: StepVariables,
    a: SimulationRandomnessGenerator,
    b: SimulationRandomnessGenerator,
)
    requires
        equally_fixed(a, b),
    ensures
        use_result(ability, constants, state, step, a) == use_result(
            ability,
            constants,
            state,
            step,
            b,
        ),
{
    match execution_status(ability, constants, state, step) {
        AbilityExecutionStatus::NotAvailable => {},
        AbilityExecutionStatus::Available => {
            assert(lists_outcome(
                ability.action.action@,
                ability.action.action_success,
                ability.ability_type,
                constants,
                state,
                step,
                a,
            ) == lists_outcome(
                ability.action.action@,
                ability.action.action_success,
                ability.ability_type,
                constants,
                state,
                step,
                b,
            ));
        },
        AbilityExecutionStatus::ComboAvailable => {
            match ability.combo_action {
                Some(combo) => {
                    assert(lists_outcome(
                        combo.action@,
                        combo.action_success,
                        ability.ability_type,
                        constants,
                        state,
                        step,
                        a,
                    ) == lists_outcome(
                        combo.action@,
                        combo.action_success,
                        ability.ability_type,
                        constants,
                        state,
                        step,
                        b,
                    ));
                },
                None => {},
            }
        },
    }
}

/// Under generators that are equally fixed a turn starts the same, and
/// every attempt and every named ability gives the same.
pub proof fn lemma_fixed_turn(
    constants: SimulationConstants,
    start: CraftState,
    a: SimulationRandomnessGenerator,
    b: SimulationRandomnessGenerator,
    steps: Seq<SimulationStep>,
)
    requires
        equally_fixed(a, b),
    ensures
        next_step(constants, start, a, steps) == next_step(constants, start, b, steps),
        forall|i: int, lowest: u8|
            0 <= i < constants.available_abilities@.len() ==> #[trigger] attempt(
                constants,
                start,
                a,
                steps,
                i,
                lowest,
            ) == attempt(constants, start, b, steps, i, lowest),
        forall|name: Seq<char>| #[trigger]
            find_and_use(name, constants, start, a, steps) == find_and_use(
                name,
                constants,
                start,
                b,
                steps,
            ),
{
    assert(plain_step(constants, a, steps) == plain_step(constants, b, steps));
    let turn = next_step(constants, start, a, steps);
    assert forall|ability: Ability|
        use_result(ability, constants, turn.1, turn.0, a) == #[trigger] use_result(
            ability,
            constants,
            turn.1,
            turn.0,
            b,
        ) by {
        lemma_fixed_use(ability, constants, turn.1, turn.0, a, b);
    }
}

/// Under generators that are equally fixed the search of a turn gives one
/// result, and never ends for want of randomness.
pub proof fn lemma_fixed_candidates(
    constants: SimulationConstants,
    start: CraftState,
    a: SimulationRandomnessGenerator,
    b: SimulationRandomnessGenerator,
    steps: Seq<SimulationStep>,
    i: int,
    lowest: u8,
    best: Option<RunView>,
    r1: SearchOutcome,
    r2: SearchOutcome,
)
    requires
        equally_fixed(a, b),
        0 <= i,
        candidates_yield(constants, start, a, steps, i, lowest, best, r1),
        candidates_yield(constants, start, b, steps, i, lowest, best, r2),
    ensures
        r1 == r2,
        had_entropy(r1),
    decreases depth_left(constants, steps), constants.available_abilities@.len() - i,
{
    if i >= constants.available_abilities@.len() {
        lemma_candidates_done(constants, start, a, steps, i, lowest, best, r1);
        lemma_candidates_done(constants, start, b, steps, i, lowest, best, r2);
    } else {
        lemma_fixed_turn(constants, start, a, b, steps);
        let tried = attempt(constants, start, a, steps, i, lowest);
        assert(tried == attempt(constants, start, b, steps, i, lowest));
        let child1 = lemma_candidates_onward(constants, start, a, steps, i, lowest, best, r1);
        let child2 = lemma_candidates_onward(constants, start, b, steps, i, lowest, best, r2);
        let target = constants.item.target_quality;
        match tried {
            Attempt::Passed => {
                lemma_fixed_candidates(
                    constants,
                    start,
                    a,
                    b,
                    steps,
                    i + 1,
                    lowest,
                    best,
                    r1,
                    r2,
                );
            },
            Attempt::Completed(run) => {
                if !run.meets(target) {
                    lemma_fixed_candidates(
                        constants,
                        start,
                        a,
                        b,
                        steps,
                        i + 1,
                        lowest,
                        super::traversal::later_best(best, run, target),
                        r1,
                        r2,
                    );
                }
            },
            Attempt::Open(state, step) => {
                lemma_fixed_descent(
                    constants,
                    state,
                    lowest,
                    a,
                    b,
                    steps.push(step),
                    child1,
                    child2,
                );
                match after_descent(constants, lowest, best, child1) {
                    Onward::Stop(outcome) => {},
                    Onward::Continue(l, kept) => {
                        lemma_fixed_candidates(
                            constants,
                            start,
                            a,
                            b,
                            steps,
                            i + 1,
                            l,
                            kept,
                            r1,
                            r2,
                        );
                    },
                }
            },
        }
    }
}

/// Under generators that are equally fixed the search one step further down
/// gives one result, and never ends for want of randomness.
pub proof fn lemma_fixed_descent(
    constants: SimulationConstants,
    state: CraftState,
    lowest: u8,
    a: SimulationRandomnessGenerator,
    b: SimulationRandomnessGenerator,
    path: Seq<SimulationStep>,
    child1: SearchOutcome,
    child2: SearchOutcome,
)
    requires
        equally_fixed(a, b),
        descent_yields(constants, state, lowest, a, path, child1),
        descent_yields(constants, state, lowest, b, path, child2),
    ensures
        child1 == child2,
        had_entropy(child1),
    decreases depth_left(constants, path), constants.available_abilities@.len() + 2,
{
    let x = lemma_descent_draws(constants, state, lowest, a, path, child1);
    let y = lemma_descent_draws(constants, state, lowest, b, path, child2);
    lemma_fixed_search(
        constants,
        state,
        lowest,
        a.with_randomness(x),
        b.with_randomness(y),
        path,
        child1,
        child2,
    );
}

/// Under generators that are equally fixed the search gives one result, and
/// never ends for want of randomness: nothing is drawn.
pub proof fn lemma_fixed_search(
    constants: SimulationConstants,
    start: CraftState,
    lowest: u8,
    a: SimulationRandomnessGenerator,
    b: SimulationRandomnessGenerator,
    steps: Seq<SimulationStep>,
    r1: SearchOutcome,
    r2: SearchOutcome,
)
    requires
        equally_fixed(a, b),
        search_yields(constants, start, lowest, a, steps, r1),
        search_yields(constants, start, lowest, b, steps, r2),
    ensures
        r1 == r2,
        had_entropy(r1),
    decreases depth_left(constants, steps), constants.available_abilities@.len() + 1,
{
    lemma_search_begins(constants, start, lowest, a, steps, r1);
    lemma_search_begins(constants, start, lowest, b, steps, r2);
    lemma_fixed_candidates(constants, start, a, b, steps, 0, lowest, None, r1, r2);
}

/// Under generators that are equally fixed a script gives one result, and
/// never ends for want of randomness.
pub proof fn lemma_fixed_script(
    constants: SimulationConstants,
    names: Seq<Seq<char>>,
    k: int,
    state: CraftState,
    lowest: u8,
    a: SimulationRandomnessGenerator,
    b: SimulationRandomnessGenerator,
    steps: Seq<SimulationStep>,
    r1: SearchOutcome,
    r2: SearchOutcome,
)
    requires
        equally_fixed(a, b),
        0 <= k,
        script_yields(constants, names, k, state, lowest, a, steps, r1),
        script_yields(constants, names, k, state, lowest, b, steps, r2),
    ensures
        r1 == r2,
        had_entropy(r1),
    decreases names.len() - k,
{
    if k >= names.len() {
        lemma_script_ends(constants, names, k, state, lowest, a, steps, r1);
        lemma_script_ends(constants, names, k, state, lowest, b, steps, r2);
        lemma_fixed_search(constants, state, lowest, a, b, steps, r1, r2);
    } else {
        lemma_fixed_turn(constants, state, a, b, steps);
        let used = find_and_use(names[k], constants, state, a, steps);
        assert(used == find_and_use(names[k], constants, state, b, steps));
        let x = lemma_script_onward(constants, names, k, state, lowest, a, steps, r1);
        let y = lemma_script_onward(constants, names, k, state, lowest, b, steps, r2);
        match used {
            None => {},
            Some(u) => {
                if !u.0.completed(constants) {
                    lemma_fixed_script(
                        constants,
                        names,
                        k + 1,
                        u.0,
                        lowest,
                        a.with_randomness(x),
                        b.with_randomness(y),
                        steps.push(u.1),
                        r1,
                        r2,
                    );
                }
            },
        }
    }
}

/// Under generators that are equally fixed the openings give one result,
/// and never end for want of randomness.
pub proof fn lemma_fixed_openings(
    constants: SimulationConstants,
    a: SimulationRandomnessGenerator,
    b: SimulationRandomnessGenerator,
    scripts: Seq<Seq<Seq<char>>>,
    j: int,
    lowest: u8,
    best: Option<RunView>,
    r1: SearchOutcome,
    r2: SearchOutcome,
)
    requires
        equally_fixed(a, b),
        0 <= j,
        openings_yield(constants, a, scripts, j, lowest, best, r1),
        openings_yield(constants, b, scripts, j, lowest, best, r2),
    ensures
        r1 == r2,
        had_entropy(r1),
    decreases scripts.len() - j,
{
    if j >= scripts.len() {
        lemma_openings_done(constants, a, scripts, j, lowest, best, r1);
        lemma_openings_done(constants, b, scripts, j, lowest, best, r2);
    } else {
        let found1 = lemma_openings_onward(constants, a, scripts, j, lowest, best, r1);
        let found2 = lemma_openings_onward(constants, b, scripts, j, lowest, best, r2);
        lemma_fixed_script(
            constants,
            scripts[j],
            0,
            CraftState::fresh(constants),
            lowest,
            a,
            b,
            Seq::empty(),
            found1,
            found2,
        );
        match after_opening(constants, lowest, best, found1) {
            Onward::Stop(outcome) => {},
            Onward::Continue(l, kept) => {
                lemma_fixed_openings(constants, a, b, scripts, j + 1, l, kept, r1, r2);
            },
        }
    }
}

/// A simulation whose strategies read no randomness gives one result: where
/// the condition is always normal and the success always the same, two runs
/// of the planner on the same craft end the same, and neither ends for want
/// of randomness, because none is drawn.
pub proof fn lemma_fixed_simulation(
    constants: SimulationConstants,
    condition_strategy: ConditionSimulation,
    action_strategy: RandomActionSuccessChance,
    r1: SearchOutcome,
    r2: SearchOutcome,
)
    requires
        condition_strategy == ConditionSimulation::AlwaysNormal,
        action_strategy != RandomActionSuccessChance::Normal,
        simulate_yields(constants, condition_strategy, action_strategy, r1),
        simulate_yields(constants, condition_strategy, action_strategy, r2),
    ensures
        r1 == r2,
        had_entropy(r1),
{
    let x = choose|randomness: SimulationRandomness|
        randomness.fits_first_step(action_strategy) && openings_yield(
            constants,
            #[trigger] first_generator(randomness, condition_strategy, action_strategy),
            opening_scripts(constants),
            0,
            constants.max_steps,
            None,
            r1,
        );
    let y = choose|randomness: SimulationRandomness|
        randomness.fits_first_step(action_strategy) && openings_yield(
            constants,
            #[trigger] first_generator(randomness, condition_strategy, action_strategy),
            opening_scripts(constants),
            0,
            constants.max_steps,
            None,
            r2,
        );
    lemma_fixed_openings(
        constants,
        first_generator(x, condition_strategy, action_strategy),
        first_generator(y, condition_strategy, action_strategy),
        opening_scripts(constants),
        0,
        constants.max_steps,
        None,
        r1,
        r2,
    );
}

/// A replay that searches on under strategies that read no randomness gives
/// one result, and never ends for want of randomness.
pub proof fn lemma_fixed_replay(
    constants: SimulationConstants,
    trace: Seq<SimulationStep>,
    k: int,
    state: CraftState,
    steps: Seq<SimulationStep>,
    condition_strategy: ConditionSimulation,
    action_strategy: RandomActionSuccessChance,
    r1: SearchOutcome,
    r2: SearchOutcome,
)
    requires
        condition_strategy == ConditionSimulation::AlwaysNormal,
        action_strategy != RandomActionSuccessChance::Normal,
        0 <= k,
        replay_yields(constants, trace, k, state, steps, condition_strategy, action_strategy, r1),
        replay_yields(constants, trace, k, state, steps, condition_strategy, action_strategy, r2),
    ensures
        r1 == r2,
        had_entropy(r1),
    decreases trace.len() - k,
{
    reveal(replay_yields);
    if k >= trace.len() {
        let x = choose|randomness: SimulationRandomness|
            randomness.fits(condition_strategy, action_strategy) && search_yields(
                constants,
                state,
                constants.open_step_limit(),
                #[trigger] first_generator(randomness, condition_strategy, action_strategy),
                steps,
                r1,
            );
        let y = choose|randomness: SimulationRandomness|
            randomness.fits(condition_strategy, action_strategy) && search_yields(
                constants,
                state,
                constants.open_step_limit(),
                #[trigger] first_generator(randomness, condition_strategy, action_strategy),
                steps,
                r2,
            );
        lemma_fixed_search(
            constants,
            state,
            constants.open_step_limit(),
            first_generator(x, condition_strategy, action_strategy),
            first_generator(y, condition_strategy, action_strategy),
            steps,
            r1,
            r2,
        );
    } else {
        match replayed(constants, trace, k, state, steps) {
            None => {},
            Some(used) => {
                if !used.0.completed(constants) {
                    lemma_fixed_replay(
                        constants,
                        trace,
                        k + 1,
                        used.0,
                        steps.push(used.1),
                        condition_strategy,
                        action_strategy,
                        r1,
                        r2,
                    );
                }
            },
        }
    }
}

} // verus!
