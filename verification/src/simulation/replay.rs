use vstd::prelude::*;

use super::ability::{execution_status, lists_outcome, use_result, AbilityExecutionStatus};
use super::random::{
    ConditionSimulation, RandomActionSuccessChance, SimulationError, SimulationRandomness,
    SimulationRandomnessGenerator,
};
use super::scripts::{
    after_opening, first_generator, lemma_script_ends, lemma_script_onward, opening_scripts,
    openings_yield,
    replay_generator, replay_yields, replayed, script_yields, simulate_yields,
};
use super::state::{CraftState, RunView, SimulationConstants, SimulationStep};
use super::traversal::{
    after_descent, attempt, candidates_yield, depth_left, descent_yields, find_and_use, has_name,
    is_named, later_best, lemma_candidates_done, lemma_candidates_onward, lemma_descent_draws,
    lemma_search_begins, named_ability, search_yields, Attempt, Onward, SearchOutcome,
};
use super::turn::{lemma_next_step_turn, next_step, plain_step};

verus! {

/// No two abilities of the table have the same name.
pub open spec fn names_distinct(constants: SimulationConstants) -> bool {
    forall|i: int, j: int|
        0 <= i < j < constants.available_abilities@.len() ==> (
        #[trigger] constants.available_abilities@[i]).name@ != (
        #[trigger] constants.available_abilities@[j]).name@
}

/// Whether no two abilities of the table have the same name.
pub fn names_are_distinct(constants: &SimulationConstants) -> (r: bool)
    ensures
        r == names_distinct(*constants),
{
    let abilities = &constants.available_abilities;
    let mut j: usize = 0;
    while j < abilities.len()
        invariant
            j <= abilities@.len(),
            abilities == &constants.available_abilities,
            forall|a: int, b: int|
                0 <= a < b < j ==> (#[trigger] abilities@[a]).name@ != (
                #[trigger] abilities@[b]).name@,
        decreases abilities.len() - j,
    {
        let mut i: usize = 0;
        while i < j
            invariant
                i <= j < abilities@.len(),
                abilities == &constants.available_abilities,
                forall|a: int|
                    0 <= a < i ==> (#[trigger] abilities@[a]).name@ != abilities@[j as int].name@,
            decreases j - i,
        {
            if super::traversal::same_name(abilities[i].name, abilities[j].name) {
                assert(abilities@[i as int].name@ == abilities@[j as int].name@);
                return false;
            }
            i = i + 1;
        }
        j = j + 1;
    }
    true
}

/// The run continues the recorded steps from `state`: replayed one by one
/// under their recorded conditions and successes, its further steps are
/// exactly what the replay records, none but the last completes the item,
/// and the last completes it with the quality and the progress of the run.
pub open spec fn follows(
    constants: SimulationConstants,
    state: CraftState,
    steps: Seq<SimulationStep>,
    run: RunView,
) -> bool
    decreases run.steps.len() - steps.len(),
{
    if steps.len() >= run.steps.len() || run.steps.take(steps.len() as int) != steps {
        false
    } else {
        match replayed(constants, run.steps, steps.len() as int, state, steps) {
            None => false,
            Some(used) => used.1 == run.steps[steps.len() as int] && if used.0.completed(
                constants,
            ) {
                &&& steps.len() + 1 == run.steps.len()
                &&& used.0.current_quality == run.quality
                &&& used.0.current_progress == run.progress
            } else {
                follows(constants, used.0, steps.push(used.1), run)
            },
        }
    }
}

/// The step that the use of an ability recorded plays the same use again:
/// found by its name and used under the recorded condition and success, the
/// ability gives the same state and the same step.
pub proof fn lemma_step_replays(
    constants: SimulationConstants,
    start: CraftState,
    generator: SimulationRandomnessGenerator,
    steps: Seq<SimulationStep>,
    i: int,
    used: (CraftState, SimulationStep),
)
    requires
        0 <= i < constants.available_abilities@.len(),
        is_named(constants, constants.available_abilities@[i].name@, i),
        ({
            let turn = next_step(constants, start, generator, steps);
            use_result(constants.available_abilities@[i], constants, turn.1, turn.0, generator)
                == Some(used)
        }),
    ensures
        find_and_use(used.1.ability@, constants, start, replay_generator(used.1), steps) == Some(
            used,
        ),
{
    let ability = constants.available_abilities@[i];
    let name = ability.name@;
    let turn = next_step(constants, start, generator, steps);
    let again = replay_generator(used.1);
    lemma_next_step_turn(constants, start, generator, steps);
    assert(used.1.ability == ability.name);
    assert(used.1.condition == turn.0.condition);
    assert(has_name(constants, name));
    let chosen = choose|k: int| is_named(constants, name, k);
    assert(chosen == i);
    assert(named_ability(constants, name) == ability);
    assert(plain_step(constants, again, steps) == plain_step(constants, generator, steps));
    assert(next_step(constants, start, again, steps) == turn);
    match execution_status(ability, constants, turn.1, turn.0) {
        AbilityExecutionStatus::NotAvailable => {},
        AbilityExecutionStatus::Available => {
            assert(lists_outcome(
                ability.action.action@,
                ability.action.action_success,
                ability.ability_type,
                constants,
                turn.1,
                turn.0,
                again,
            ) == lists_outcome(
                ability.action.action@,
                ability.action.action_success,
                ability.ability_type,
                constants,
                turn.1,
                turn.0,
                generator,
            ));
        },
        AbilityExecutionStatus::ComboAvailable => {
            match ability.combo_action {
                Some(combo) => {
                    assert(lists_outcome(
                        combo.action@,
                        combo.action_success,
                        ability.ability_type,
                        constants,
                        turn.1,
                        turn.0,
                        again,
                    ) == lists_outcome(
                        combo.action@,
                        combo.action_success,
                        ability.ability_type,
                        constants,
                        turn.1,
                        turn.0,
                        generator,
                    ));
                },
                None => {},
            }
        },
    }
    assert(use_result(ability, constants, turn.1, turn.0, again) == Some(used));
}

/// A step that replays and completes the item makes a run that follows.
pub proof fn lemma_follows_last(
    constants: SimulationConstants,
    state: CraftState,
    steps: Seq<SimulationStep>,
    used: (CraftState, SimulationStep),
)
    requires
        find_and_use(used.1.ability@, constants, state, replay_generator(used.1), steps) == Some(
            used,
        ),
        used.0.completed(constants),
    ensures
        follows(
            constants,
            state,
            steps,
            RunView {
                steps: steps.push(used.1),
                quality: used.0.current_quality,
                progress: used.0.current_progress,
            },
        ),
{
    let run = RunView {
        steps: steps.push(used.1),
        quality: used.0.current_quality,
        progress: used.0.current_progress,
    };
    assert(run.steps.take(steps.len() as int) =~= steps);
    assert(run.steps[steps.len() as int] == used.1);
}

/// A step that replays and leaves the item unfinished, before a run that
/// follows from there, makes a run that follows from here.
pub proof fn lemma_follows_earlier(
    constants: SimulationConstants,
    state: CraftState,
    steps: Seq<SimulationStep>,
    used: (CraftState, SimulationStep),
    run: RunView,
)
    requires
        find_and_use(used.1.ability@, constants, state, replay_generator(used.1), steps) == Some(
            used,
        ),
        !used.0.completed(constants),
        follows(constants, used.0, steps.push(used.1), run),
    ensures
        follows(constants, state, steps, run),
{
    let longer = steps.push(used.1);
    assert(run.steps.take(longer.len() as int) == longer);
    assert(run.steps[steps.len() as int] == longer[steps.len() as int]);
    assert(run.steps.take(steps.len() as int) =~= steps) by {
        assert forall|j: int| 0 <= j < steps.len() implies run.steps[j] == steps[j] by {
            assert(run.steps.take(longer.len() as int)[j] == longer[j]);
        }
    }
}

/// Every run that the search of a turn can give follows the steps behind
/// it, if the best run so far does.
pub proof fn lemma_candidates_follow(
    constants: SimulationConstants,
    start: CraftState,
    generator: SimulationRandomnessGenerator,
    steps: Seq<SimulationStep>,
    i: int,
    lowest: u8,
    best: Option<RunView>,
    run: RunView,
)
    requires
        names_distinct(constants),
        0 <= i,
        best matches Some(b) ==> follows(constants, start, steps, b),
        candidates_yield(constants, start, generator, steps, i, lowest, best, Ok(run)),
    ensures
        follows(constants, start, steps, run),
    decreases depth_left(constants, steps), constants.available_abilities@.len() - i,
{
    let target = constants.item.target_quality;
    if i >= constants.available_abilities@.len() {
        lemma_candidates_done(constants, start, generator, steps, i, lowest, best, Ok(run));
    } else {
        let child = lemma_candidates_onward(
            constants,
            start,
            generator,
            steps,
            i,
            lowest,
            best,
            Ok(run),
        );
        match attempt(constants, start, generator, steps, i, lowest) {
            Attempt::Passed => {
                lemma_candidates_follow(
                    constants,
                    start,
                    generator,
                    steps,
                    i + 1,
                    lowest,
                    best,
                    run,
                );
            },
            Attempt::Completed(done) => {
                lemma_attempt_replays(constants, start, generator, steps, i, lowest);
                if done.meets(target) {
                } else {
                    lemma_candidates_follow(
                        constants,
                        start,
                        generator,
                        steps,
                        i + 1,
                        lowest,
                        later_best(best, done, target),
                        run,
                    );
                }
            },
            Attempt::Open(state, step) => {
                lemma_attempt_replays(constants, start, generator, steps, i, lowest);
                match child {
                    Ok(found) => {
                        lemma_descent_follows(
                            constants,
                            state,
                            lowest,
                            generator,
                            steps.push(step),
                            found,
                        );
                        lemma_follows_earlier(constants, start, steps, (state, step), found);
                        match after_descent(constants, lowest, best, child) {
                            Onward::Stop(outcome) => {},
                            Onward::Continue(l, b) => {
                                lemma_candidates_follow(
                                    constants,
                                    start,
                                    generator,
                                    steps,
                                    i + 1,
                                    l,
                                    b,
                                    run,
                                );
                            },
                        }
                    },
                    Err(SimulationError::NoSequenceFound) => {
                        lemma_candidates_follow(
                            constants,
                            start,
                            generator,
                            steps,
                            i + 1,
                            lowest,
                            best,
                            run,
                        );
                    },
                    Err(SimulationError::EntropyUnavailable) => {},
                }
            },
        }
    }
}

/// What an attempt at an ability used replays: the run that a completing
/// attempt made follows the steps behind it, and the step of an open attempt
/// leads to its state again.
pub proof fn lemma_attempt_replays(
    constants: SimulationConstants,
    start: CraftState,
    generator: SimulationRandomnessGenerator,
    steps: Seq<SimulationStep>,
    i: int,
    lowest: u8,
)
    requires
        names_distinct(constants),
        0 <= i < constants.available_abilities@.len(),
    ensures
        match attempt(constants, start, generator, steps, i, lowest) {
            Attempt::Passed => true,
            Attempt::Completed(done) => follows(constants, start, steps, done),
            Attempt::Open(state, step) => !state.completed(constants) && find_and_use(
                step.ability@,
                constants,
                start,
                replay_generator(step),
                steps,
            ) == Some((state, step)),
        },
{
    let turn = next_step(constants, start, generator, steps);
    let ability = constants.available_abilities@[i];
    assert(is_named(constants, ability.name@, i));
    match attempt(constants, start, generator, steps, i, lowest) {
        Attempt::Passed => {},
        Attempt::Completed(done) => {
            let used = use_result(ability, constants, turn.1, turn.0, generator).unwrap();
            lemma_step_replays(constants, start, generator, steps, i, used);
            lemma_follows_last(constants, start, steps, used);
        },
        Attempt::Open(state, step) => {
            lemma_step_replays(constants, start, generator, steps, i, (state, step));
        },
    }
}

/// Every run that the search one step further down can give follows the
/// steps behind it.
pub proof fn lemma_descent_follows(
    constants: SimulationConstants,
    state: CraftState,
    lowest: u8,
    generator: SimulationRandomnessGenerator,
    path: Seq<SimulationStep>,
    run: RunView,
)
    requires
        names_distinct(constants),
        descent_yields(constants, state, lowest, generator, path, Ok(run)),
    ensures
        follows(constants, state, path, run),
    decreases depth_left(constants, path), constants.available_abilities@.len() + 2,
{
    let randomness = lemma_descent_draws(constants, state, lowest, generator, path, Ok(run));
    lemma_search_follows(
        constants,
        state,
        lowest,
        generator.with_randomness(randomness),
        path,
        run,
    );
}

/// Every run that the search can give follows the steps behind it: replayed
/// from where the search began, its further steps lead to its quality and
/// its progress.
pub proof fn lemma_search_follows(
    constants: SimulationConstants,
    start: CraftState,
    lowest: u8,
    generator: SimulationRandomnessGenerator,
    steps: Seq<SimulationStep>,
    run: RunView,
)
    requires
        names_distinct(constants),
        search_yields(constants, start, lowest, generator, steps, Ok(run)),
    ensures
        follows(constants, start, steps, run),
    decreases depth_left(constants, steps), constants.available_abilities@.len() + 1,
{
    lemma_search_begins(constants, start, lowest, generator, steps, Ok(run));
    lemma_candidates_follow(constants, start, generator, steps, 0, lowest, None, run);
}

/// The step that a scripted ability recorded plays the same use again.
pub proof fn lemma_scripted_step_replays(
    name: Seq<char>,
    constants: SimulationConstants,
    start: CraftState,
    generator: SimulationRandomnessGenerator,
    steps: Seq<SimulationStep>,
    used: (CraftState, SimulationStep),
)
    requires
        find_and_use(name, constants, start, generator, steps) == Some(used),
    ensures
        find_and_use(used.1.ability@, constants, start, replay_generator(used.1), steps) == Some(
            used,
        ),
{
    let i = choose|i: int| is_named(constants, name, i);
    lemma_step_replays(constants, start, generator, steps, i, used);
}

/// Every run that a script can give follows the steps behind it.
pub proof fn lemma_script_follows(
    constants: SimulationConstants,
    names: Seq<Seq<char>>,
    k: int,
    state: CraftState,
    lowest: u8,
    generator: SimulationRandomnessGenerator,
    steps: Seq<SimulationStep>,
    run: RunView,
)
    requires
        names_distinct(constants),
        0 <= k,
        script_yields(constants, names, k, state, lowest, generator, steps, Ok(run)),
    ensures
        follows(constants, state, steps, run),
    decreases names.len() - k,
{
    if k >= names.len() {
        lemma_script_ends(constants, names, k, state, lowest, generator, steps, Ok(run));
        lemma_search_follows(constants, state, lowest, generator, steps, run);
    } else {
        let randomness = lemma_script_onward(
            constants,
            names,
            k,
            state,
            lowest,
            generator,
            steps,
            Ok(run),
        );
        match find_and_use(names[k], constants, state, generator, steps) {
            None => {},
            Some(used) => {
                lemma_scripted_step_replays(names[k], constants, state, generator, steps, used);
                if used.0.completed(constants) {
                    lemma_follows_last(constants, state, steps, used);
                } else {
                    lemma_script_follows(
                        constants,
                        names,
                        k + 1,
                        used.0,
                        lowest,
                        generator.with_randomness(randomness),
                        steps.push(used.1),
                        run,
                    );
                    lemma_follows_earlier(constants, state, steps, used, run);
                }
            },
        }
    }
}

/// Every run that the openings can give follows from a fresh state, if the
/// best run so far does.
pub proof fn lemma_openings_follow(
    constants: SimulationConstants,
    generator: SimulationRandomnessGenerator,
    scripts: Seq<Seq<Seq<char>>>,
    j: int,
    lowest: u8,
    best: Option<RunView>,
    run: RunView,
)
    requires
        names_distinct(constants),
        0 <= j,
        best matches Some(b) ==> follows(constants, CraftState::fresh(constants), Seq::empty(), b),
        openings_yield(constants, generator, scripts, j, lowest, best, Ok(run)),
    ensures
        follows(constants, CraftState::fresh(constants), Seq::empty(), run),
    decreases scripts.len() - j,
{
    reveal(openings_yield);
    let r: SearchOutcome = Ok(run);
    if j >= scripts.len() {
    } else {
        let found = choose|found: SearchOutcome|
            script_yields(
                constants,
                scripts[j],
                0,
                CraftState::fresh(constants),
                lowest,
                generator,
                Seq::empty(),
                found,
            ) && match #[trigger] after_opening(constants, lowest, best, found) {
                Onward::Stop(outcome) => r == outcome,
                Onward::Continue(l, b) => openings_yield(
                    constants,
                    generator,
                    scripts,
                    j + 1,
                    l,
                    b,
                    r,
                ),
            };
        match found {
            Ok(opened) => {
                lemma_script_follows(
                    constants,
                    scripts[j],
                    0,
                    CraftState::fresh(constants),
                    lowest,
                    generator,
                    Seq::empty(),
                    opened,
                );
            },
            _ => {},
        }
        match after_opening(constants, lowest, best, found) {
            Onward::Stop(outcome) => {},
            Onward::Continue(l, b) => {
                lemma_openings_follow(constants, generator, scripts, j + 1, l, b, run);
            },
        }
    }
}

/// Replaying a run that follows the steps behind it gives that run and
/// nothing else.
pub proof fn lemma_follows_replays(
    constants: SimulationConstants,
    state: CraftState,
    steps: Seq<SimulationStep>,
    run: RunView,
    condition_strategy: ConditionSimulation,
    action_strategy: RandomActionSuccessChance,
    r: SearchOutcome,
)
    requires
        follows(constants, state, steps, run),
    ensures
        replay_yields(
            constants,
            run.steps,
            steps.len() as int,
            state,
            steps,
            condition_strategy,
            action_strategy,
            r,
        ) <==> r == Ok::<RunView, SimulationError>(run),
    decreases run.steps.len() - steps.len(),
{
    reveal(replay_yields);
    let k = steps.len() as int;
    let used = replayed(constants, run.steps, k, state, steps).unwrap();
    if used.0.completed(constants) {
        assert(steps.push(used.1) =~= run.steps);
    } else {
        lemma_follows_replays(
            constants,
            used.0,
            steps.push(used.1),
            run,
            condition_strategy,
            action_strategy,
            r,
        );
    }
}

/// Replay reproduces a run: where the names of the table are distinct, a
/// run that a simulation gave, replayed step by step under its recorded
/// conditions and successes, ends in the same steps, the same quality and
/// the same progress, whatever the strategies of the replay and whether or
/// not the run meets the quality target.
pub proof fn lemma_replay_reproduces_run(
    constants: SimulationConstants,
    condition_strategy: ConditionSimulation,
    action_strategy: RandomActionSuccessChance,
    run: RunView,
    replay_condition_strategy: ConditionSimulation,
    replay_action_strategy: RandomActionSuccessChance,
    r: SearchOutcome,
)
    requires
        names_distinct(constants),
        simulate_yields(constants, condition_strategy, action_strategy, Ok(run)),
    ensures
        follows(constants, CraftState::fresh(constants), Seq::empty(), run),
        replay_yields(
            constants,
            run.steps,
            0,
            CraftState::fresh(constants),
            Seq::empty(),
            replay_condition_strategy,
            replay_action_strategy,
            r,
        ) <==> r == Ok::<RunView, SimulationError>(run),
{
    let found: SearchOutcome = Ok(run);
    let randomness = choose|randomness: SimulationRandomness|
        randomness.fits_first_step(action_strategy) && openings_yield(
            constants,
            #[trigger] first_generator(randomness, condition_strategy, action_strategy),
            opening_scripts(constants),
            0,
            constants.max_steps,
            None,
            found,
        );
    lemma_openings_follow(
        constants,
        first_generator(randomness, condition_strategy, action_strategy),
        opening_scripts(constants),
        0,
        constants.max_steps,
        None,
        run,
    );
    lemma_follows_replays(
        constants,
        CraftState::fresh(constants),
        Seq::empty(),
        run,
        replay_condition_strategy,
        replay_action_strategy,
        r,
    );
}

} // verus!
