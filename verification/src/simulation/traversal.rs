use vstd::prelude::*;

use super::ability::{use_ability, use_defined, use_result};
use super::limits::{
    lemma_next_step_keeps_limits, lemma_use_keeps_limits, lemma_well_formed_use_defined,
};
use super::random::{SimulationError, SimulationRandomness, SimulationRandomnessGenerator};
use super::state::{
    copy_steps, Condition, CraftState, RunView, SimulationConstants, SimulationRun, SimulationStep,
    SimulationVariables,
};
use super::turn::{next_step, next_step_variables, step_number_after};
use crate::profile::abilities::{
    Ability, AbilityType, TYPE_SYNTHESIS, TYPE_SYNTHESIS_BUFF, TYPE_TOUCH, TYPE_TOUCH_BUFF,
};

verus! {

/// Whether two names hold the same characters.
pub(crate) fn same_name(a: &str, b: &str) -> (r: bool)
    ensures
        r == (a@ == b@),
{
    let n = a.unicode_len();
    if n != b.unicode_len() {
        return false;
    }
    let mut i: usize = 0;
    while i < n
        invariant
            i <= n,
            n == a@.len(),
            n == b@.len(),
            forall|j: int| 0 <= j < i ==> a@[j] == b@[j],
        decreases n - i,
    {
        if a.get_char(i) != b.get_char(i) {
            return false;
        }
        i = i + 1;
    }
    assert(a@ =~= b@);
    true
}

/// What a search gives: a run, or why there is none.
pub type SearchOutcome = Result<RunView, SimulationError>;

/// The mathematical value of what a search returned.
pub open spec fn outcome_view(r: Result<SimulationRun, SimulationError>) -> SearchOutcome {
    match r {
        Ok(run) => Ok(run@),
        Err(e) => Err(e),
    }
}

/// The mathematical value of the best run so far.
pub open spec fn best_view(best: Option<SimulationRun>) -> Option<RunView> {
    match best {
        Some(run) => Some(run@),
        None => None,
    }
}

/// The best run so far as the outcome of a search.
pub open spec fn outcome_of(best: Option<RunView>) -> SearchOutcome {
    match best {
        Some(run) => Ok(run),
        None => Err(SimulationError::NoSequenceFound),
    }
}

/// The better of the best run so far and a new one; the new one where
/// neither is better.
pub open spec fn later_best(best: Option<RunView>, run: RunView, target_quality: u32) -> Option<
    RunView,
> {
    match best {
        Some(b) => if b.outranks(run, target_quality) {
            Some(b)
        } else {
            Some(run)
        },
        None => Some(run),
    }
}

/// The better of the best run so far and a new one; the one so far where
/// neither is better.
pub open spec fn earlier_best(best: Option<RunView>, run: RunView, target_quality: u32) -> Option<
    RunView,
> {
    match best {
        Some(b) => if run.outranks(b, target_quality) {
            Some(run)
        } else {
            Some(b)
        },
        None => Some(run),
    }
}

/// The step count to beat once `run` is found: the length of `run` if it
/// meets the target and is shorter than `lowest`, else `lowest`.
pub open spec fn lowered(lowest: u8, run: RunView, target_quality: u32) -> u8 {
    if run.meets(target_quality) && run.steps.len() < lowest {
        run.steps.len() as u8
    } else {
        lowest
    }
}

/// The ability is tried in this turn. A poor turn tries everything. Any
/// other turn works on quality while the target is not met, and on progress
/// once it is.
pub open spec fn is_candidate(
    ability_type: AbilityType,
    condition: Condition,
    quality: u32,
    target_quality: u32,
) -> bool {
    condition == Condition::Poor || if quality >= target_quality {
        ability_type.intersects(AbilityType { bits: TYPE_SYNTHESIS | TYPE_SYNTHESIS_BUFF })
    } else {
        ability_type.intersects(AbilityType { bits: TYPE_TOUCH | TYPE_TOUCH_BUFF })
    }
}

/// `i` is the first place of the table that holds an ability of this name.
pub open spec fn is_named(constants: SimulationConstants, name: Seq<char>, i: int) -> bool {
    &&& 0 <= i < constants.available_abilities@.len()
    &&& constants.available_abilities@[i].name@ == name
    &&& forall|j: int| 0 <= j < i ==> (#[trigger] constants.available_abilities@[j]).name@ != name
}

/// The table holds an ability of this name.
pub open spec fn has_name(constants: SimulationConstants, name: Seq<char>) -> bool {
    exists|i: int| is_named(constants, name, i)
}

/// The first ability of this name.
pub open spec fn named_ability(constants: SimulationConstants, name: Seq<char>) -> Ability {
    constants.available_abilities@[choose|i: int| is_named(constants, name, i)]
}

/// The named ability can be used in the turn that follows the steps.
pub open spec fn find_and_use_defined(
    name: Seq<char>,
    constants: SimulationConstants,
    state: CraftState,
    generator: SimulationRandomnessGenerator,
    steps: Seq<SimulationStep>,
) -> bool {
    has_name(constants, name) ==> {
        let turn = next_step(constants, state, generator, steps);
        use_defined(named_ability(constants, name), constants, turn.1, turn.0, generator)
    }
}

/// What the named ability gives in the turn that follows the steps: nothing
/// where the table has no such ability, else what its use gives.
pub open spec fn find_and_use(
    name: Seq<char>,
    constants: SimulationConstants,
    state: CraftState,
    generator: SimulationRandomnessGenerator,
    steps: Seq<SimulationStep>,
) -> Option<(CraftState, SimulationStep)> {
    if has_name(constants, name) {
        let turn = next_step(constants, state, generator, steps);
        use_result(named_ability(constants, name), constants, turn.1, turn.0, generator)
    } else {
        None
    }
}

/// Starts the next turn and uses the first ability of the given name in it.
pub fn find_and_use_ability(
    ability_name: &str,
    constants: &SimulationConstants,
    variables: &SimulationVariables,
    random_generator: &SimulationRandomnessGenerator,
    options: &Vec<SimulationStep>,
) -> (r: Result<(SimulationVariables, SimulationStep), ()>)
    requires
        find_and_use_defined(
            ability_name@,
            *constants,
            variables@,
            *random_generator,
            options@,
        ),
    ensures
        match find_and_use(ability_name@, *constants, variables@, *random_generator, options@) {
            Some(expected) => r matches Ok(got) && got.0@ == expected.0 && got.1 == expected.1
                && got.0.lowest_target_quality_steps == variables.lowest_target_quality_steps,
            None => r is Err,
        },
        variables@.within_limits(*constants) ==> (r matches Ok(got) ==> got.0@.completed(
            *constants,
        ) || got.0@.within_limits(*constants)),
{
    let mut i: usize = 0;
    while i < constants.available_abilities.len()
        invariant
            i <= constants.available_abilities@.len(),
            find_and_use_defined(
                ability_name@,
                *constants,
                variables@,
                *random_generator,
                options@,
            ),
            forall|j: int|
                0 <= j < i ==> (#[trigger] constants.available_abilities@[j]).name@
                    != ability_name@,
        decreases constants.available_abilities.len() - i,
    {
        let ability = &constants.available_abilities[i];
        if same_name(ability.name, ability_name) {
            proof {
                assert(is_named(*constants, ability_name@, i as int));
                let chosen = choose|k: int| is_named(*constants, ability_name@, k);
                assert(chosen == i);
            }
            proof {
                if variables@.within_limits(*constants) {
                    super::limits::lemma_turn_keeps_limits(
                        *ability,
                        *constants,
                        variables@,
                        *random_generator,
                        options@,
                    );
                }
            }
            let (step_variables, next_variables) = next_step_variables(
                constants,
                variables,
                random_generator,
                options,
            );
            return use_ability(
                ability,
                constants,
                &next_variables,
                &step_variables,
                random_generator,
            );
        }
        i = i + 1;
    }
    Err(())
}

/// How many steps the budget leaves after the recorded ones.
pub open spec fn depth_left(constants: SimulationConstants, steps: Seq<SimulationStep>) -> nat {
    if steps.len() >= constants.max_steps {
        0
    } else {
        (constants.max_steps - steps.len()) as nat
    }
}

/// How the search of a turn goes on after a search further down.
pub enum Onward {
    /// The search ends with this outcome.
    Stop(SearchOutcome),
    /// The search goes on to the next ability with this step count to beat
    /// and this best run.
    Continue(u8, Option<RunView>),
}

/// How the search of a turn goes on after the search further down gave
/// `child`. A run that meets the quality target ends the search if it is
/// short enough to be accepted, and lowers the step count to beat if not.
/// Every other run is weighed against the best so far. Where nothing was
/// found the search goes on as it was; where no randomness was to be had it
/// ends.
pub open spec fn after_descent(
    constants: SimulationConstants,
    lowest: u8,
    best: Option<RunView>,
    child: SearchOutcome,
) -> Onward {
    let target = constants.item.target_quality;
    match child {
        Ok(found) => if found.meets(target) && found.steps.len()
            <= constants.accept_first_of_length {
            Onward::Stop(Ok(found))
        } else {
            Onward::Continue(lowered(lowest, found, target), later_best(best, found, target))
        },
        Err(SimulationError::NoSequenceFound) => Onward::Continue(lowest, best),
        Err(SimulationError::EntropyUnavailable) => Onward::Stop(
            Err(SimulationError::EntropyUnavailable),
        ),
    }
}

/// What comes of trying one ability in a turn.
pub enum Attempt {
    /// The search goes on to the next ability.
    Passed,
    /// The ability completed the item in this run.
    Completed(RunView),
    /// The ability left the item unfinished in this state, and the search
    /// goes on below it.
    Open(CraftState, SimulationStep),
}

/// What comes of trying the ability at place `i` of the table in the turn
/// that follows the steps.
///
/// An ability that is no candidate, is not available or breaks the item is
/// passed over. So is one that leaves the item unfinished when the step
/// budget is spent or when one more step could not beat `lowest`.
pub open spec fn attempt(
    constants: SimulationConstants,
    start: CraftState,
    generator: SimulationRandomnessGenerator,
    steps: Seq<SimulationStep>,
    i: int,
    lowest: u8,
) -> Attempt {
    let turn = next_step(constants, start, generator, steps);
    let number = step_number_after(steps);
    let ability = constants.available_abilities@[i];
    if !is_candidate(
        ability.ability_type,
        turn.0.condition,
        turn.1.current_quality,
        constants.item.target_quality,
    ) {
        Attempt::Passed
    } else {
        match use_result(ability, constants, turn.1, turn.0, generator) {
            None => Attempt::Passed,
            Some(used) => if used.0.completed(constants) {
                Attempt::Completed(
                    RunView {
                        steps: steps.push(used.1),
                        quality: used.0.current_quality,
                        progress: used.0.current_progress,
                    },
                )
            } else if number >= constants.max_steps || number + 1 >= lowest {
                Attempt::Passed
            } else {
                Attempt::Open(used.0, used.1)
            },
        }
    }
}

/// The search from a state, with the recorded steps behind it, can end in
/// `r`: the abilities of the table are tried in order in the turn that
/// follows the steps.
pub open spec fn search_yields(
    constants: SimulationConstants,
    start: CraftState,
    lowest: u8,
    generator: SimulationRandomnessGenerator,
    steps: Seq<SimulationStep>,
    r: SearchOutcome,
) -> bool
    decreases depth_left(constants, steps), constants.available_abilities@.len() + 1,
{
    candidates_yield(constants, start, generator, steps, 0, lowest, None, r)
}

/// The search of one turn, with the abilities before `i` tried already, the
/// best run `best` found and the step count `lowest` to beat, can end in `r`.
///
/// A run that completes the item and meets the quality target ends the
/// search at once. Any other run is weighed against the best so far. Below
/// an ability that leaves the item unfinished the search goes on, and what it
/// finds there is weighed in the same way; if it meets the target it lowers
/// the step count to beat, and ends the search at once if it is short enough
/// to be accepted. When no ability is left the best run is the result.
#[verifier::opaque]
pub open spec fn candidates_yield(
    constants: SimulationConstants,
    start: CraftState,
    generator: SimulationRandomnessGenerator,
    steps: Seq<SimulationStep>,
    i: int,
    lowest: u8,
    best: Option<RunView>,
    r: SearchOutcome,
) -> bool
    decreases depth_left(constants, steps), constants.available_abilities@.len() - i,
{
    if i < 0 || i >= constants.available_abilities@.len() {
        r == outcome_of(best)
    } else {
        let target = constants.item.target_quality;
        match attempt(constants, start, generator, steps, i, lowest) {
            Attempt::Passed => candidates_yield(
                constants,
                start,
                generator,
                steps,
                i + 1,
                lowest,
                best,
                r,
            ),
            Attempt::Completed(run) => if run.meets(target) {
                r == Ok::<RunView, SimulationError>(run)
            } else {
                candidates_yield(
                    constants,
                    start,
                    generator,
                    steps,
                    i + 1,
                    lowest,
                    later_best(best, run, target),
                    r,
                )
            },
            Attempt::Open(state, step) => {
                if step_number_after(steps) >= constants.max_steps {
                    false
                } else {
                    exists|child: SearchOutcome|
                        descent_yields(
                            constants,
                            state,
                            lowest,
                            generator,
                            steps.push(step),
                            child,
                        ) && match #[trigger] after_descent(constants, lowest, best, child) {
                            Onward::Stop(outcome) => r == outcome,
                            Onward::Continue(l, b) => candidates_yield(
                                constants,
                                start,
                                generator,
                                steps,
                                i + 1,
                                l,
                                b,
                                r,
                            ),
                        }
                }
            },
        }
    }
}

/// The search one step further down can give `child`: either the strategies
/// read randomness and none could be drawn for the next turn, or the search
/// of that turn, over some randomness that fits the strategies, ends in
/// `child`.
#[verifier::opaque]
pub open spec fn descent_yields(
    constants: SimulationConstants,
    state: CraftState,
    lowest: u8,
    generator: SimulationRandomnessGenerator,
    path: Seq<SimulationStep>,
    child: SearchOutcome,
) -> bool
    decreases depth_left(constants, path), constants.available_abilities@.len() + 2,
{
    ||| generator.reads_randomness() && child == Err::<RunView, SimulationError>(
        SimulationError::EntropyUnavailable,
    )
    ||| exists|randomness: SimulationRandomness|
        generator.draws(randomness) && search_yields(
            constants,
            state,
            lowest,
            #[trigger] generator.with_randomness(randomness),
            path,
            child,
        )
}

/// The search of a turn begins with the first ability, no run found and the
/// step count to beat that it was given.
pub proof fn lemma_search_begins(
    constants: SimulationConstants,
    start: CraftState,
    lowest: u8,
    generator: SimulationRandomnessGenerator,
    steps: Seq<SimulationStep>,
    r: SearchOutcome,
)
    ensures
        search_yields(constants, start, lowest, generator, steps, r) == candidates_yield(
            constants,
            start,
            generator,
            steps,
            0,
            lowest,
            None,
            r,
        ),
{
    reveal(candidates_yield);
}

/// With no ability left the best run is what the search gives.
pub proof fn lemma_no_candidate_left(
    constants: SimulationConstants,
    start: CraftState,
    generator: SimulationRandomnessGenerator,
    steps: Seq<SimulationStep>,
    i: int,
    lowest: u8,
    best: Option<RunView>,
)
    requires
        i >= constants.available_abilities@.len(),
    ensures
        candidates_yield(constants, start, generator, steps, i, lowest, best, outcome_of(best)),
{
    reveal(candidates_yield);
}

/// Past an ability that is passed over the search gives what it gives from
/// the next one on.
pub proof fn lemma_attempt_passed(
    constants: SimulationConstants,
    start: CraftState,
    generator: SimulationRandomnessGenerator,
    steps: Seq<SimulationStep>,
    i: int,
    lowest: u8,
    best: Option<RunView>,
)
    requires
        0 <= i < constants.available_abilities@.len(),
        attempt(constants, start, generator, steps, i, lowest) is Passed,
    ensures
        forall|r: SearchOutcome| #[trigger]
            candidates_yield(constants, start, generator, steps, i + 1, lowest, best, r)
                ==> candidates_yield(constants, start, generator, steps, i, lowest, best, r),
{
    reveal(candidates_yield);
}

/// A run that completes the item ends the search if it meets the target,
/// and is weighed against the best so far if not.
pub proof fn lemma_attempt_completed(
    constants: SimulationConstants,
    start: CraftState,
    generator: SimulationRandomnessGenerator,
    steps: Seq<SimulationStep>,
    i: int,
    lowest: u8,
    best: Option<RunView>,
    run: RunView,
)
    requires
        0 <= i < constants.available_abilities@.len(),
        attempt(constants, start, generator, steps, i, lowest) == Attempt::Completed(run),
    ensures
        run.meets(constants.item.target_quality) ==> candidates_yield(
            constants,
            start,
            generator,
            steps,
            i,
            lowest,
            best,
            Ok(run),
        ),
        !run.meets(constants.item.target_quality) ==> forall|r: SearchOutcome| #[trigger]
            candidates_yield(
                constants,
                start,
                generator,
                steps,
                i + 1,
                lowest,
                later_best(best, run, constants.item.target_quality),
                r,
            ) ==> candidates_yield(constants, start, generator, steps, i, lowest, best, r),
{
    reveal(candidates_yield);
}

/// Where the search below an open attempt ends the search of the turn, the
/// turn gives what was found below.
pub proof fn lemma_descent_stops(
    constants: SimulationConstants,
    start: CraftState,
    generator: SimulationRandomnessGenerator,
    steps: Seq<SimulationStep>,
    i: int,
    lowest: u8,
    best: Option<RunView>,
    state: CraftState,
    step: SimulationStep,
    child: SearchOutcome,
    outcome: SearchOutcome,
)
    requires
        0 <= i < constants.available_abilities@.len(),
        attempt(constants, start, generator, steps, i, lowest) == Attempt::Open(state, step),
        descent_yields(constants, state, lowest, generator, steps.push(step), child),
        after_descent(constants, lowest, best, child) == Onward::Stop(outcome),
    ensures
        candidates_yield(constants, start, generator, steps, i, lowest, best, outcome),
{
    reveal(candidates_yield);
    reveal(descent_yields);
}

/// Where the search of the turn goes on after the search below an open
/// attempt, it gives what it gives from the next ability on.
pub proof fn lemma_descent_continues(
    constants: SimulationConstants,
    start: CraftState,
    generator: SimulationRandomnessGenerator,
    steps: Seq<SimulationStep>,
    i: int,
    lowest: u8,
    best: Option<RunView>,
    state: CraftState,
    step: SimulationStep,
    child: SearchOutcome,
    next_lowest: u8,
    next_best: Option<RunView>,
)
    requires
        0 <= i < constants.available_abilities@.len(),
        attempt(constants, start, generator, steps, i, lowest) == Attempt::Open(state, step),
        descent_yields(constants, state, lowest, generator, steps.push(step), child),
        after_descent(constants, lowest, best, child) == Onward::Continue(next_lowest, next_best),
    ensures
        forall|r: SearchOutcome| #[trigger]
            candidates_yield(constants, start, generator, steps, i + 1, next_lowest, next_best, r)
                ==> candidates_yield(constants, start, generator, steps, i, lowest, best, r),
{
    reveal(candidates_yield);
    reveal(descent_yields);
}

/// What the search of a turn gives from an ability on, it gives in one of
/// the ways in which the attempt at that ability lets the search go on.
pub proof fn lemma_candidates_onward(
    constants: SimulationConstants,
    start: CraftState,
    generator: SimulationRandomnessGenerator,
    steps: Seq<SimulationStep>,
    i: int,
    lowest: u8,
    best: Option<RunView>,
    r: SearchOutcome,
) -> (child: SearchOutcome)
    requires
        0 <= i < constants.available_abilities@.len(),
        candidates_yield(constants, start, generator, steps, i, lowest, best, r),
    ensures
        match attempt(constants, start, generator, steps, i, lowest) {
            Attempt::Passed => candidates_yield(
                constants,
                start,
                generator,
                steps,
                i + 1,
                lowest,
                best,
                r,
            ),
            Attempt::Completed(run) => if run.meets(constants.item.target_quality) {
                r == Ok::<RunView, SimulationError>(run)
            } else {
                candidates_yield(
                    constants,
                    start,
                    generator,
                    steps,
                    i + 1,
                    lowest,
                    later_best(best, run, constants.item.target_quality),
                    r,
                )
            },
            Attempt::Open(state, step) => {
                &&& step_number_after(steps) < constants.max_steps
                &&& descent_yields(constants, state, lowest, generator, steps.push(step), child)
                &&& match after_descent(constants, lowest, best, child) {
                    Onward::Stop(outcome) => r == outcome,
                    Onward::Continue(l, b) => candidates_yield(
                        constants,
                        start,
                        generator,
                        steps,
                        i + 1,
                        l,
                        b,
                        r,
                    ),
                }
            },
        },
{
    reveal(candidates_yield);
    reveal(descent_yields);
    match attempt(constants, start, generator, steps, i, lowest) {
        Attempt::Open(state, step) => {
            choose|child: SearchOutcome|
                descent_yields(constants, state, lowest, generator, steps.push(step), child)
                    && match #[trigger] after_descent(constants, lowest, best, child) {
                    Onward::Stop(outcome) => r == outcome,
                    Onward::Continue(l, b) => candidates_yield(
                        constants,
                        start,
                        generator,
                        steps,
                        i + 1,
                        l,
                        b,
                        r,
                    ),
                }
        },
        _ => r,
    }
}

/// With no ability left the search gives the best run and nothing else.
pub proof fn lemma_candidates_done(
    constants: SimulationConstants,
    start: CraftState,
    generator: SimulationRandomnessGenerator,
    steps: Seq<SimulationStep>,
    i: int,
    lowest: u8,
    best: Option<RunView>,
    r: SearchOutcome,
)
    requires
        i >= constants.available_abilities@.len(),
        candidates_yield(constants, start, generator, steps, i, lowest, best, r),
    ensures
        r == outcome_of(best),
{
    reveal(candidates_yield);
}

/// A descent that gives a run is a search over some fresh draws.
pub proof fn lemma_descent_draws(
    constants: SimulationConstants,
    state: CraftState,
    lowest: u8,
    generator: SimulationRandomnessGenerator,
    path: Seq<SimulationStep>,
    child: SearchOutcome,
) -> (randomness: SimulationRandomness)
    requires
        descent_yields(constants, state, lowest, generator, path, child),
        !generator.reads_randomness() || child != Err::<RunView, SimulationError>(
            SimulationError::EntropyUnavailable,
        ),
    ensures
        generator.draws(randomness),
        search_yields(
            constants,
            state,
            lowest,
            generator.with_randomness(randomness),
            path,
            child,
        ),
{
    reveal(descent_yields);
    choose|randomness: SimulationRandomness|
        generator.draws(randomness) && search_yields(
            constants,
            state,
            lowest,
            #[trigger] generator.with_randomness(randomness),
            path,
            child,
        )
}

/// The search of the next turn over fresh draws is a descent.
pub proof fn lemma_descent(
    constants: SimulationConstants,
    state: CraftState,
    lowest: u8,
    generator: SimulationRandomnessGenerator,
    path: Seq<SimulationStep>,
    randomness: SimulationRandomness,
    child: SearchOutcome,
)
    requires
        generator.draws(randomness),
        search_yields(
            constants,
            state,
            lowest,
            generator.with_randomness(randomness),
            path,
            child,
        ),
    ensures
        descent_yields(constants, state, lowest, generator, path, child),
{
    reveal(descent_yields);
}

/// A draw that fails is a descent that ends for want of randomness.
pub proof fn lemma_descent_without_entropy(
    constants: SimulationConstants,
    state: CraftState,
    lowest: u8,
    generator: SimulationRandomnessGenerator,
    path: Seq<SimulationStep>,
)
    requires
        generator.reads_randomness(),
    ensures
        descent_yields(
            constants,
            state,
            lowest,
            generator,
            path,
            Err(SimulationError::EntropyUnavailable),
        ),
{
    reveal(descent_yields);
}

fn make_run(
    current_options: &Vec<SimulationStep>,
    step: SimulationStep,
    variables: &SimulationVariables,
) -> (run: SimulationRun)
    ensures
        run@ == (RunView {
            steps: current_options@.push(step),
            quality: variables.current_quality,
            progress: variables.current_progress,
        }),
{
    let mut steps = copy_steps(current_options);
    steps.push(step);
    SimulationRun {
        steps,
        quality: variables.current_quality,
        progress: variables.current_progress,
    }
}

fn keep_later_best(best: Option<SimulationRun>, run: SimulationRun, target_quality: u32) -> (r:
    Option<SimulationRun>)
    ensures
        best_view(r) == later_best(best_view(best), run@, target_quality),
{
    match best {
        Some(b) => if b.is_better_than(&run, target_quality) {
            Some(b)
        } else {
            Some(run)
        },
        None => Some(run),
    }
}

fn is_candidate_now(
    ability_type: AbilityType,
    condition: Condition,
    quality: u32,
    target_quality: u32,
) -> (r: bool)
    ensures
        r == is_candidate(ability_type, condition, quality, target_quality),
{
    if condition == Condition::Poor {
        true
    } else if quality >= target_quality {
        ability_type.overlaps(AbilityType::synthesis().union(AbilityType::synthesis_buff()))
    } else {
        ability_type.overlaps(AbilityType::touch().union(AbilityType::touch_buff()))
    }
}

/// Searches depth first for the best run from the given variables, with the
/// recorded steps behind them. The step count to beat is read from the
/// variables.
pub fn traverse_depth_first(
    constants: &SimulationConstants,
    start_variables: &SimulationVariables,
    random_generator: &SimulationRandomnessGenerator,
    current_options: &Vec<SimulationStep>,
) -> (r: Result<SimulationRun, SimulationError>)
    requires
        constants.well_formed(),
        start_variables@.within_limits(*constants),
    ensures
        search_yields(
            *constants,
            start_variables@,
            start_variables.lowest_target_quality_steps,
            *random_generator,
            current_options@,
            outcome_view(r),
        ),
    decreases depth_left(*constants, current_options@),
{
    let (step_variables, variables) = next_step_variables(
        constants,
        start_variables,
        random_generator,
        current_options,
    );
    proof {
        lemma_next_step_keeps_limits(
            *constants,
            start_variables@,
            *random_generator,
            current_options@,
        );
        super::turn::lemma_next_step_turn(
            *constants,
            start_variables@,
            *random_generator,
            current_options@,
        );
    }
    let target = constants.item.target_quality;
    let ghost first = start_variables.lowest_target_quality_steps;
    let mut best: Option<SimulationRun> = None;
    let mut lowest = variables.lowest_target_quality_steps;
    let mut i: usize = 0;
    while i < constants.available_abilities.len()
        invariant
            i <= constants.available_abilities@.len(),
            constants.well_formed(),
            target == constants.item.target_quality,
            variables@.within_limits(*constants),
            step_variables == next_step(
                *constants,
                start_variables@,
                *random_generator,
                current_options@,
            ).0,
            variables@ == next_step(
                *constants,
                start_variables@,
                *random_generator,
                current_options@,
            ).1,
            step_variables.step_number == step_number_after(current_options@),
            first == start_variables.lowest_target_quality_steps,
            forall|r: SearchOutcome| #[trigger]
                candidates_yield(
                    *constants,
                    start_variables@,
                    *random_generator,
                    current_options@,
                    i as int,
                    lowest,
                    best_view(best),
                    r,
                ) ==> candidates_yield(
                    *constants,
                    start_variables@,
                    *random_generator,
                    current_options@,
                    0,
                    first,
                    None,
                    r,
                ),
        decreases constants.available_abilities.len() - i,
    {
        let ability = &constants.available_abilities[i];
        let ghost lowest_before = lowest;
        let ghost best_before = best_view(best);
        let ghost tried = attempt(
            *constants,
            start_variables@,
            *random_generator,
            current_options@,
            i as int,
            lowest,
        );
        let mut used: Option<(SimulationVariables, SimulationStep)> = None;
        if is_candidate_now(
            ability.ability_type,
            step_variables.condition,
            variables.current_quality,
            target,
        ) {
            proof {
                lemma_well_formed_use_defined(
                    *ability,
                    *constants,
                    variables@,
                    step_variables,
                    *random_generator,
                );
                lemma_use_keeps_limits(
                    *ability,
                    *constants,
                    variables@,
                    step_variables,
                    *random_generator,
                );
            }
            match use_ability(ability, constants, &variables, &step_variables, random_generator) {
                Err(_) => {},
                Ok(got) => {
                    used = Some(got);
                },
            }
        }
        match used {
            None => {
                proof {
                    lemma_attempt_passed(
                        *constants,
                        start_variables@,
                        *random_generator,
                        current_options@,
                        i as int,
                        lowest,
                        best_before,
                    );
                }
            },
            Some((next, step)) => {
                let mut next_variables = next;
                next_variables.lowest_target_quality_steps = lowest;
                if next_variables.current_progress >= constants.item.required_progress {
                    let run = make_run(current_options, step, &next_variables);
                    proof {
                        lemma_attempt_completed(
                            *constants,
                            start_variables@,
                            *random_generator,
                            current_options@,
                            i as int,
                            lowest,
                            best_before,
                            run@,
                        );
                    }
                    if run.quality >= target {
                        proof {
                            lemma_search_begins(
                                *constants,
                                start_variables@,
                                first,
                                *random_generator,
                                current_options@,
                                Ok(run@),
                            );
                        }
                        return Ok(run);
                    }
                    best = keep_later_best(best, run, target);
                } else if step_variables.step_number < constants.max_steps
                    && step_variables.step_number + 1 < lowest {
                    let mut next_options = copy_steps(current_options);
                    next_options.push(step);
                    let child = match random_generator.next() {
                        Ok(next_randomness) => {
                            let found = traverse_depth_first(
                                constants,
                                &next_variables,
                                &next_randomness,
                                &next_options,
                            );
                            proof {
                                lemma_descent(
                                    *constants,
                                    next_variables@,
                                    lowest,
                                    *random_generator,
                                    next_options@,
                                    next_randomness.randomness,
                                    outcome_view(found),
                                );
                            }
                            found
                        },
                        Err(e) => {
                            proof {
                                lemma_descent_without_entropy(
                                    *constants,
                                    next_variables@,
                                    lowest,
                                    *random_generator,
                                    next_options@,
                                );
                            }
                            Err(e)
                        },
                    };
                    let ghost below = outcome_view(child);
                    match child {
                        Ok(run) => {
                            if run.quality >= target {
                                if run.steps.len() <= constants.accept_first_of_length as usize {
                                    proof {
                                        lemma_descent_stops(
                                            *constants,
                                            start_variables@,
                                            *random_generator,
                                            current_options@,
                                            i as int,
                                            lowest,
                                            best_before,
                                            next_variables@,
                                            step,
                                            below,
                                            below,
                                        );
                                        lemma_search_begins(
                                            *constants,
                                            start_variables@,
                                            first,
                                            *random_generator,
                                            current_options@,
                                            Ok(run@),
                                        );
                                    }
                                    return Ok(run);
                                }
                                if run.steps.len() < lowest as usize {
                                    lowest = run.steps.len() as u8;
                                }
                            }
                            best = keep_later_best(best, run, target);
                            proof {
                                lemma_descent_continues(
                                    *constants,
                                    start_variables@,
                                    *random_generator,
                                    current_options@,
                                    i as int,
                                    lowest_before,
                                    best_before,
                                    next_variables@,
                                    step,
                                    below,
                                    lowest,
                                    best_view(best),
                                );
                            }
                        },
                        Err(SimulationError::NoSequenceFound) => {
                            proof {
                                lemma_descent_continues(
                                    *constants,
                                    start_variables@,
                                    *random_generator,
                                    current_options@,
                                    i as int,
                                    lowest_before,
                                    best_before,
                                    next_variables@,
                                    step,
                                    below,
                                    lowest,
                                    best_view(best),
                                );
                            }
                        },
                        Err(SimulationError::EntropyUnavailable) => {
                            proof {
                                lemma_descent_stops(
                                    *constants,
                                    start_variables@,
                                    *random_generator,
                                    current_options@,
                                    i as int,
                                    lowest,
                                    best_before,
                                    next_variables@,
                                    step,
                                    below,
                                    below,
                                );
                                lemma_search_begins(
                                    *constants,
                                    start_variables@,
                                    first,
                                    *random_generator,
                                    current_options@,
                                    Err(SimulationError::EntropyUnavailable),
                                );
                            }
                            return Err(SimulationError::EntropyUnavailable);
                        },
                    }
                } else {
                    proof {
                        lemma_attempt_passed(
                            *constants,
                            start_variables@,
                            *random_generator,
                            current_options@,
                            i as int,
                            lowest,
                            best_before,
                        );
                    }
                }
            },
        }
        assert forall|r: SearchOutcome| #[trigger]
            candidates_yield(
                *constants,
                start_variables@,
                *random_generator,
                current_options@,
                i + 1,
                lowest,
                best_view(best),
                r,
            ) implies candidates_yield(
            *constants,
            start_variables@,
            *random_generator,
            current_options@,
            0,
            first,
            None,
            r,
        ) by {
            assert(candidates_yield(
                *constants,
                start_variables@,
                *random_generator,
                current_options@,
                i as int,
                lowest_before,
                best_before,
                r,
            ));
        }
        i = i + 1;
    }
    proof {
        lemma_no_candidate_left(
            *constants,
            start_variables@,
            *random_generator,
            current_options@,
            i as int,
            lowest,
            best_view(best),
        );
        lemma_search_begins(
            *constants,
            start_variables@,
            first,
            *random_generator,
            current_options@,
            outcome_of(best_view(best)),
        );
    }
    match best {
        Some(run) => Ok(run),
        None => Err(SimulationError::NoSequenceFound),
    }
}

} // verus!
