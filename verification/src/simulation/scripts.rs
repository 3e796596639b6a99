use vstd::prelude::*;

use super::limits::{
    lemma_next_step_keeps_limits, lemma_turn_keeps_limits, lemma_well_formed_use_defined,
};
use super::random::{
    strategies_read, ConditionSimulation, RandomActionSuccess, RandomActionSuccessChance,
    RandomCondition, SimulationError, SimulationRandomness, SimulationRandomnessGenerator,
};
use super::state::{
    CraftState, RunView, SimulationConstants, SimulationRun,
    SimulationStep, SimulationVariables,
};
use super::traversal::{
    best_view, earlier_best, find_and_use, find_and_use_ability, find_and_use_defined, has_name,
    is_named, outcome_of, outcome_view, search_yields, traverse_depth_first, Onward, SearchOutcome,
};
use super::turn::next_step;

verus! {

/// The names as sequences of characters.
pub open spec fn name_views(names: Seq<&str>) -> Seq<Seq<char>> {
    names.map_values(|n: &str| n@)
}

/// The run of a craft that has just been completed in `state` along `path`.
pub open spec fn completed_run(path: Seq<SimulationStep>, state: CraftState) -> RunView {
    RunView { steps: path, quality: state.current_quality, progress: state.current_progress }
}

/// What a craft gives that has just been completed in `state` along `path`:
/// its run if the quality target is met, nothing if not.
pub open spec fn finished(
    constants: SimulationConstants,
    path: Seq<SimulationStep>,
    state: CraftState,
) -> SearchOutcome {
    if state.current_quality < constants.item.target_quality {
        Err(SimulationError::NoSequenceFound)
    } else {
        Ok(RunView { steps: path, quality: state.current_quality, progress: state.current_progress })
    }
}

/// Playing the abilities named from place `k` on, one per turn, and
/// searching on from where they end, can give `r`.
///
/// A name that the table does not hold, or an ability that cannot be used,
/// gives nothing. An ability that completes the item ends the script: with
/// the run if the quality target is met, with nothing if not. After every
/// other ability the randomness of the next turn is drawn, and without it
/// the script ends. When the names are used up the search takes over.
#[verifier::opaque]
pub open spec fn script_yields(
    constants: SimulationConstants,
    names: Seq<Seq<char>>,
    k: int,
    state: CraftState,
    lowest: u8,
    generator: SimulationRandomnessGenerator,
    steps: Seq<SimulationStep>,
    r: SearchOutcome,
) -> bool
    decreases names.len() - k,
{
    if k < 0 || k >= names.len() {
        search_yields(constants, state, lowest, generator, steps, r)
    } else {
        match find_and_use(names[k], constants, state, generator, steps) {
            None => r == Err::<RunView, SimulationError>(SimulationError::NoSequenceFound),
            Some(used) => if used.0.completed(constants) {
                r == finished(constants, steps.push(used.1), used.0)
            } else {
                ||| generator.reads_randomness() && r == Err::<RunView, SimulationError>(
                    SimulationError::EntropyUnavailable,
                )
                ||| exists|randomness: SimulationRandomness|
                    generator.draws(randomness) && script_yields(
                        constants,
                        names,
                        k + 1,
                        used.0,
                        lowest,
                        #[trigger] generator.with_randomness(randomness),
                        steps.push(used.1),
                        r,
                    )
            },
        }
    }
}

/// With the names used up the script gives what the search gives.
pub proof fn lemma_script_ends(
    constants: SimulationConstants,
    names: Seq<Seq<char>>,
    k: int,
    state: CraftState,
    lowest: u8,
    generator: SimulationRandomnessGenerator,
    steps: Seq<SimulationStep>,
    r: SearchOutcome,
)
    requires
        k >= names.len(),
    ensures
        script_yields(constants, names, k, state, lowest, generator, steps, r) == search_yields(
            constants,
            state,
            lowest,
            generator,
            steps,
            r,
        ),
{
    reveal(script_yields);
}

/// A scripted ability that ends the script gives its outcome: nothing where
/// it cannot be used, the finished craft where it completes the item, and
/// the want of randomness where the item is unfinished and the strategies
/// read a draw that may fail.
pub proof fn lemma_script_stops(
    constants: SimulationConstants,
    names: Seq<Seq<char>>,
    k: int,
    state: CraftState,
    lowest: u8,
    generator: SimulationRandomnessGenerator,
    steps: Seq<SimulationStep>,
)
    requires
        0 <= k < names.len(),
    ensures
        match find_and_use(names[k], constants, state, generator, steps) {
            None => script_yields(
                constants,
                names,
                k,
                state,
                lowest,
                generator,
                steps,
                Err(SimulationError::NoSequenceFound),
            ),
            Some(used) => if used.0.completed(constants) {
                script_yields(
                    constants,
                    names,
                    k,
                    state,
                    lowest,
                    generator,
                    steps,
                    finished(constants, steps.push(used.1), used.0),
                )
            } else {
                generator.reads_randomness() ==> script_yields(
                    constants,
                    names,
                    k,
                    state,
                    lowest,
                    generator,
                    steps,
                    Err(SimulationError::EntropyUnavailable),
                )
            },
        },
{
    reveal(script_yields);
}

/// After a scripted ability that leaves the item unfinished, and a draw for
/// the next turn, the script gives what it gives from the next name on.
pub proof fn lemma_script_steps(
    constants: SimulationConstants,
    names: Seq<Seq<char>>,
    k: int,
    state: CraftState,
    lowest: u8,
    generator: SimulationRandomnessGenerator,
    steps: Seq<SimulationStep>,
    used: (CraftState, SimulationStep),
    randomness: SimulationRandomness,
)
    requires
        0 <= k < names.len(),
        find_and_use(names[k], constants, state, generator, steps) == Some(used),
        !used.0.completed(constants),
        generator.draws(randomness),
    ensures
        forall|r: SearchOutcome| #[trigger]
            script_yields(
                constants,
                names,
                k + 1,
                used.0,
                lowest,
                generator.with_randomness(randomness),
                steps.push(used.1),
                r,
            ) ==> script_yields(constants, names, k, state, lowest, generator, steps, r),
{
    reveal(script_yields);
}

/// What a script gives from a name on, it gives in one of the ways in which
/// the ability of that name lets it go on.
pub proof fn lemma_script_onward(
    constants: SimulationConstants,
    names: Seq<Seq<char>>,
    k: int,
    state: CraftState,
    lowest: u8,
    generator: SimulationRandomnessGenerator,
    steps: Seq<SimulationStep>,
    r: SearchOutcome,
) -> (randomness: SimulationRandomness)
    requires
        0 <= k < names.len(),
        script_yields(constants, names, k, state, lowest, generator, steps, r),
    ensures
        match find_and_use(names[k], constants, state, generator, steps) {
            None => r == Err::<RunView, SimulationError>(SimulationError::NoSequenceFound),
            Some(used) => if used.0.completed(constants) {
                r == finished(constants, steps.push(used.1), used.0)
            } else {
                ||| generator.reads_randomness() && r == Err::<RunView, SimulationError>(
                    SimulationError::EntropyUnavailable,
                )
                ||| generator.draws(randomness) && script_yields(
                    constants,
                    names,
                    k + 1,
                    used.0,
                    lowest,
                    generator.with_randomness(randomness),
                    steps.push(used.1),
                    r,
                )
            },
        },
{
    reveal(script_yields);
    match find_and_use(names[k], constants, state, generator, steps) {
        Some(used) => {
            choose|randomness: SimulationRandomness|
                generator.draws(randomness) && script_yields(
                    constants,
                    names,
                    k + 1,
                    used.0,
                    lowest,
                    #[trigger] generator.with_randomness(randomness),
                    steps.push(used.1),
                    r,
                )
        },
        None => generator.randomness,
    }
}

/// With a well-formed table every named ability can be used in a state
/// within the limits, and leaves within the limits unless it completes the
/// item.
pub proof fn lemma_find_and_use_within_limits(
    name: Seq<char>,
    constants: SimulationConstants,
    state: CraftState,
    generator: SimulationRandomnessGenerator,
    steps: Seq<SimulationStep>,
)
    requires
        constants.well_formed(),
        state.within_limits(constants),
    ensures
        find_and_use_defined(name, constants, state, generator, steps),
        find_and_use(name, constants, state, generator, steps) matches Some(used)
            ==> used.0.completed(constants) || used.0.within_limits(constants),
{
    if has_name(constants, name) {
        let i = choose|i: int| is_named(constants, name, i);
        let ability = constants.available_abilities@[i];
        assert(ability.well_formed());
        let turn = next_step(constants, state, generator, steps);
        lemma_next_step_keeps_limits(constants, state, generator, steps);
        lemma_well_formed_use_defined(ability, constants, turn.1, turn.0, generator);
        lemma_turn_keeps_limits(ability, constants, state, generator, steps);
    }
}

fn finish(
    constants: &SimulationConstants,
    options: Vec<SimulationStep>,
    variables: &SimulationVariables,
) -> (r: Result<SimulationRun, SimulationError>)
    ensures
        outcome_view(r) == finished(*constants, options@, variables@),
{
    if variables.current_quality < constants.item.target_quality {
        Err(SimulationError::NoSequenceFound)
    } else {
        Ok(
            SimulationRun {
                steps: options,
                quality: variables.current_quality,
                progress: variables.current_progress,
            },
        )
    }
}

/// Plays the named abilities from a fresh state, one per turn, and searches
/// on from where they end, with `lowest_target_quality_steps` as the step
/// count to beat.
pub fn simulate_from_abilities_below(
    ability_names: &[&str],
    constants: &SimulationConstants,
    random_generator: &SimulationRandomnessGenerator,
    lowest_target_quality_steps: u8,
) -> (r: Result<SimulationRun, SimulationError>)
    requires
        constants.well_formed(),
    ensures
        script_yields(
            *constants,
            name_views(ability_names@),
            0,
            CraftState::fresh(*constants),
            lowest_target_quality_steps,
            *random_generator,
            Seq::empty(),
            outcome_view(r),
        ),
{
    let ghost names = name_views(ability_names@);
    let mut options: Vec<SimulationStep> = Vec::new();
    let mut variables = SimulationVariables::new(constants);
    variables.lowest_target_quality_steps = lowest_target_quality_steps;
    let mut generator = *random_generator;
    let mut k: usize = 0;
    while k < ability_names.len()
        invariant
            k <= ability_names@.len(),
            names == name_views(ability_names@),
            constants.well_formed(),
            variables@.within_limits(*constants),
            variables.lowest_target_quality_steps == lowest_target_quality_steps,
            forall|r: SearchOutcome| #[trigger]
                script_yields(
                    *constants,
                    names,
                    k as int,
                    variables@,
                    lowest_target_quality_steps,
                    generator,
                    options@,
                    r,
                ) ==> script_yields(
                    *constants,
                    names,
                    0,
                    CraftState::fresh(*constants),
                    lowest_target_quality_steps,
                    *random_generator,
                    Seq::empty(),
                    r,
                ),
        decreases ability_names.len() - k,
    {
        let name = ability_names[k];
        proof {
            assert(names[k as int] == name@);
            lemma_find_and_use_within_limits(name@, *constants, variables@, generator, options@);
            lemma_script_stops(
                *constants,
                names,
                k as int,
                variables@,
                lowest_target_quality_steps,
                generator,
                options@,
            );
        }
        let ghost state_before = variables@;
        let ghost steps_before = options@;
        match find_and_use_ability(name, constants, &variables, &generator, &options) {
            Err(_) => {
                return Err(SimulationError::NoSequenceFound);
            },
            Ok((next_variables, step)) => {
                variables = next_variables;
                options.push(step);
                if variables.current_progress >= constants.item.required_progress {
                    return finish(constants, options, &variables);
                }
                match generator.next() {
                    Ok(next_generator) => {
                        proof {
                            lemma_script_steps(
                                *constants,
                                names,
                                k as int,
                                state_before,
                                lowest_target_quality_steps,
                                generator,
                                steps_before,
                                (variables@, step),
                                next_generator.randomness,
                            );
                        }
                        generator = next_generator;
                    },
                    Err(e) => {
                        return Err(SimulationError::EntropyUnavailable);
                    },
                }
            },
        }
        k = k + 1;
    }
    let found = traverse_depth_first(constants, &variables, &generator, &options);
    proof {
        lemma_script_ends(
            *constants,
            names,
            k as int,
            variables@,
            lowest_target_quality_steps,
            generator,
            options@,
            outcome_view(found),
        );
    }
    found
}

/// Plays the named abilities from a fresh state, one per turn, and searches
/// on from where they end. The step budget is the step count to beat.
pub fn simulate_from_abilities(
    ability_names: &[&str],
    constants: &SimulationConstants,
    random_generator: &SimulationRandomnessGenerator,
) -> (r: Result<SimulationRun, SimulationError>)
    requires
        constants.well_formed(),
    ensures
        script_yields(
            *constants,
            name_views(ability_names@),
            0,
            CraftState::fresh(*constants),
            constants.max_steps,
            *random_generator,
            Seq::empty(),
            outcome_view(r),
        ),
{
    simulate_from_abilities_below(ability_names, constants, random_generator, constants.max_steps)
}

/// The openings that are tried before the open search, in order: for an
/// item with a quality target, two openings chosen by whether the crafter is
/// ten levels above the item, then four shorter ones; for an item without,
/// two that build progress. The empty opening, which is the open search
/// itself, comes last.
pub open spec fn opening_scripts(constants: SimulationConstants) -> Seq<Seq<Seq<char>>> {
    if constants.item.target_quality > 0 {
        (if constants.class_level >= constants.item.level + 10 {
            seq![
                seq!["Trained Eye"@, "Waste Not II"@, "Groundwork"@],
                seq!["Trained Eye"@, "Groundwork"@],
            ]
        } else {
            seq![
                seq![
                    "Reflect"@,
                    "Manipulation"@,
                    "Waste Not II"@,
                    "Innovation"@,
                    "Preparatory Touch"@,
                    "Preparatory Touch"@,
                    "Preparatory Touch"@,
                    "Preparatory Touch"@,
                    "Preparatory Touch"@,
                    "Great Strides"@,
                    "Byregot's Blessing"@,
                ],
                seq![
                    "Reflect"@,
                    "Waste Not II"@,
                    "Innovation"@,
                    "Preparatory Touch"@,
                    "Preparatory Touch"@,
                    "Preparatory Touch"@,
                ],
            ]
        }) + seq![
            seq!["Reflect"@, "Waste Not II"@, "Innovation"@],
            seq!["Waste Not II"@, "Innovation"@],
            seq!["Reflect"@, "Innovation"@],
            seq!["Waste Not"@, "Basic Touch"@, "Standard Touch"@],
            Seq::<Seq<char>>::empty(),
        ]
    } else {
        seq![
            seq!["Muscle Memory"@, "Manipulation"@, "Waste Not II"@, "Groundwork"@],
            seq!["Muscle Memory"@, "Veneration"@, "Waste Not II"@, "Groundwork"@],
            Seq::<Seq<char>>::empty(),
        ]
    }
}

/// The scripts as sequences of names.
pub open spec fn scripts_view(scripts: Seq<Vec<&'static str>>) -> Seq<Seq<Seq<char>>> {
    scripts.map_values(|v: Vec<&'static str>| name_views(v@))
}

fn names2(a: &'static str, b: &'static str) -> (v: Vec<&'static str>)
    ensures
        name_views(v@) == seq![a@, b@],
{
    let mut v: Vec<&'static str> = Vec::new();
    v.push(a);
    v.push(b);
    assert(name_views(v@) =~= seq![a@, b@]);
    v
}

fn names3(a: &'static str, b: &'static str, c: &'static str) -> (v: Vec<&'static str>)
    ensures
        name_views(v@) == seq![a@, b@, c@],
{
    let mut v: Vec<&'static str> = Vec::new();
    v.push(a);
    v.push(b);
    v.push(c);
    assert(name_views(v@) =~= seq![a@, b@, c@]);
    v
}

fn names4(a: &'static str, b: &'static str, c: &'static str, d: &'static str) -> (v: Vec<
    &'static str,
>)
    ensures
        name_views(v@) == seq![a@, b@, c@, d@],
{
    let mut v: Vec<&'static str> = Vec::new();
    v.push(a);
    v.push(b);
    v.push(c);
    v.push(d);
    assert(name_views(v@) =~= seq![a@, b@, c@, d@]);
    v
}

fn long_quality_opening() -> (v: Vec<&'static str>)
    ensures
        name_views(v@) == seq![
            "Reflect"@,
            "Manipulation"@,
            "Waste Not II"@,
            "Innovation"@,
            "Preparatory Touch"@,
            "Preparatory Touch"@,
            "Preparatory Touch"@,
            "Preparatory Touch"@,
            "Preparatory Touch"@,
            "Great Strides"@,
            "Byregot's Blessing"@,
        ],
{
    let mut v: Vec<&'static str> = Vec::new();
    v.push("Reflect");
    v.push("Manipulation");
    v.push("Waste Not II");
    v.push("Innovation");
    v.push("Preparatory Touch");
    v.push("Preparatory Touch");
    v.push("Preparatory Touch");
    v.push("Preparatory Touch");
    v.push("Preparatory Touch");
    v.push("Great Strides");
    v.push("Byregot's Blessing");
    assert(name_views(v@) =~= seq![
        "Reflect"@,
        "Manipulation"@,
        "Waste Not II"@,
        "Innovation"@,
        "Preparatory Touch"@,
        "Preparatory Touch"@,
        "Preparatory Touch"@,
        "Preparatory Touch"@,
        "Preparatory Touch"@,
        "Great Strides"@,
        "Byregot's Blessing"@,
    ]);
    v
}

fn short_quality_opening() -> (v: Vec<&'static str>)
    ensures
        name_views(v@) == seq![
            "Reflect"@,
            "Waste Not II"@,
            "Innovation"@,
            "Preparatory Touch"@,
            "Preparatory Touch"@,
            "Preparatory Touch"@,
        ],
{
    let mut v: Vec<&'static str> = Vec::new();
    v.push("Reflect");
    v.push("Waste Not II");
    v.push("Innovation");
    v.push("Preparatory Touch");
    v.push("Preparatory Touch");
    v.push("Preparatory Touch");
    assert(name_views(v@) =~= seq![
        "Reflect"@,
        "Waste Not II"@,
        "Innovation"@,
        "Preparatory Touch"@,
        "Preparatory Touch"@,
        "Preparatory Touch"@,
    ]);
    v
}

fn no_names() -> (v: Vec<&'static str>)
    ensures
        name_views(v@) == Seq::<Seq<char>>::empty(),
{
    let v: Vec<&'static str> = Vec::new();
    assert(name_views(v@) =~= Seq::<Seq<char>>::empty());
    v
}

/// Builds the openings for this craft.
pub fn predetermined_starters(constants: &SimulationConstants) -> (scripts: Vec<Vec<&'static str>>)
    ensures
        scripts_view(scripts@) == opening_scripts(*constants),
{
    let mut scripts: Vec<Vec<&'static str>> = Vec::new();
    if constants.item.target_quality > 0 {
        if constants.class_level as u64 >= constants.item.level as u64 + 10 {
            scripts.push(names3("Trained Eye", "Waste Not II", "Groundwork"));
            scripts.push(names2("Trained Eye", "Groundwork"));
        } else {
            scripts.push(long_quality_opening());
            scripts.push(short_quality_opening());
        }
        scripts.push(names3("Reflect", "Waste Not II", "Innovation"));
        scripts.push(names2("Waste Not II", "Innovation"));
        scripts.push(names2("Reflect", "Innovation"));
        scripts.push(names3("Waste Not", "Basic Touch", "Standard Touch"));
    } else {
        scripts.push(names4("Muscle Memory", "Manipulation", "Waste Not II", "Groundwork"));
        scripts.push(names4("Muscle Memory", "Veneration", "Waste Not II", "Groundwork"));
    }
    scripts.push(no_names());
    assert(scripts_view(scripts@) =~= opening_scripts(*constants));
    scripts
}

/// How the run of the openings goes on after one of them gave `found`: any
/// run lowers the step count to beat to its length and is weighed against
/// the best so far; where nothing was found the openings go on as they were;
/// where no randomness was to be had they end.
pub open spec fn after_opening(
    constants: SimulationConstants,
    lowest: u8,
    best: Option<RunView>,
    found: SearchOutcome,
) -> Onward {
    match found {
        Ok(run) => Onward::Continue(
            if run.steps.len() < lowest {
                run.steps.len() as u8
            } else {
                lowest
            },
            earlier_best(best, run, constants.item.target_quality),
        ),
        Err(SimulationError::NoSequenceFound) => Onward::Continue(lowest, best),
        Err(SimulationError::EntropyUnavailable) => Onward::Stop(
            Err(SimulationError::EntropyUnavailable),
        ),
    }
}

/// Trying the openings from place `j` on, each from a fresh state with the
/// same generator, can give `r`, where `best` is the best run of the
/// openings before and `lowest` the step count to beat.
#[verifier::opaque]
pub open spec fn openings_yield(
    constants: SimulationConstants,
    generator: SimulationRandomnessGenerator,
    scripts: Seq<Seq<Seq<char>>>,
    j: int,
    lowest: u8,
    best: Option<RunView>,
    r: SearchOutcome,
) -> bool
    decreases scripts.len() - j,
{
    if j < 0 || j >= scripts.len() {
        r == outcome_of(best)
    } else {
        exists|found: SearchOutcome|
            script_yields(
                constants,
                scripts[j],
                0,
                CraftState::fresh(constants),
                lowest,
                generator,
                Seq::empty(),
                found,
            ) && match #[trigger] after_opening(constants, lowest, best, found) {
                Onward::Stop(outcome) => r == outcome,
                Onward::Continue(l, b) => openings_yield(
                    constants,
                    generator,
                    scripts,
                    j + 1,
                    l,
                    b,
                    r,
                ),
            }
    }
}

/// What the openings give from one of them on, they give in one of the ways
/// in which that opening lets them go on.
pub proof fn lemma_openings_onward(
    constants: SimulationConstants,
    generator: SimulationRandomnessGenerator,
    scripts: Seq<Seq<Seq<char>>>,
    j: int,
    lowest: u8,
    best: Option<RunView>,
    r: SearchOutcome,
) -> (found: SearchOutcome)
    requires
        0 <= j < scripts.len(),
        openings_yield(constants, generator, scripts, j, lowest, best, r),
    ensures
        script_yields(
            constants,
            scripts[j],
            0,
            CraftState::fresh(constants),
            lowest,
            generator,
            Seq::empty(),
            found,
        ),
        match after_opening(constants, lowest, best, found) {
            Onward::Stop(outcome) => r == outcome,
            Onward::Continue(l, b) => openings_yield(constants, generator, scripts, j + 1, l, b, r),
        },
{
    reveal(openings_yield);
    choose|found: SearchOutcome|
        script_yields(
            constants,
            scripts[j],
            0,
            CraftState::fresh(constants),
            lowest,
            generator,
            Seq::empty(),
            found,
        ) && match #[trigger] after_opening(constants, lowest, best, found) {
            Onward::Stop(outcome) => r == outcome,
            Onward::Continue(l, b) => openings_yield(constants, generator, scripts, j + 1, l, b, r),
        }
}

/// With no opening left the openings give the best run and nothing else.
pub proof fn lemma_openings_done(
    constants: SimulationConstants,
    generator: SimulationRandomnessGenerator,
    scripts: Seq<Seq<Seq<char>>>,
    j: int,
    lowest: u8,
    best: Option<RunView>,
    r: SearchOutcome,
)
    requires
        j >= scripts.len(),
        openings_yield(constants, generator, scripts, j, lowest, best, r),
    ensures
        r == outcome_of(best),
{
    reveal(openings_yield);
}

/// With no opening left the best run is what the openings give.
pub proof fn lemma_no_opening_left(
    constants: SimulationConstants,
    generator: SimulationRandomnessGenerator,
    scripts: Seq<Seq<Seq<char>>>,
    j: int,
    lowest: u8,
    best: Option<RunView>,
)
    requires
        j >= scripts.len(),
    ensures
        openings_yield(constants, generator, scripts, j, lowest, best, outcome_of(best)),
{
    reveal(openings_yield);
}

/// An opening that ends the openings gives its outcome.
pub proof fn lemma_opening_stops(
    constants: SimulationConstants,
    generator: SimulationRandomnessGenerator,
    scripts: Seq<Seq<Seq<char>>>,
    j: int,
    lowest: u8,
    best: Option<RunView>,
    found: SearchOutcome,
    outcome: SearchOutcome,
)
    requires
        0 <= j < scripts.len(),
        script_yields(
            constants,
            scripts[j],
            0,
            CraftState::fresh(constants),
            lowest,
            generator,
            Seq::empty(),
            found,
        ),
        after_opening(constants, lowest, best, found) == Onward::Stop(outcome),
    ensures
        openings_yield(constants, generator, scripts, j, lowest, best, outcome),
{
    reveal(openings_yield);
}

/// After an opening that does not end them, the openings give what they
/// give from the next one on.
pub proof fn lemma_opening_continues(
    constants: SimulationConstants,
    generator: SimulationRandomnessGenerator,
    scripts: Seq<Seq<Seq<char>>>,
    j: int,
    lowest: u8,
    best: Option<RunView>,
    found: SearchOutcome,
    next_lowest: u8,
    next_best: Option<RunView>,
)
    requires
        0 <= j < scripts.len(),
        script_yields(
            constants,
            scripts[j],
            0,
            CraftState::fresh(constants),
            lowest,
            generator,
            Seq::empty(),
            found,
        ),
        after_opening(constants, lowest, best, found) == Onward::Continue(next_lowest, next_best),
    ensures
        forall|r: SearchOutcome| #[trigger]
            openings_yield(constants, generator, scripts, j + 1, next_lowest, next_best, r)
                ==> openings_yield(constants, generator, scripts, j, lowest, best, r),
{
    reveal(openings_yield);
}

fn keep_earlier_best(best: Option<SimulationRun>, run: SimulationRun, target_quality: u32) -> (r:
    Option<SimulationRun>)
    ensures
        best_view(r) == earlier_best(best_view(best), run@, target_quality),
{
    match best {
        Some(b) => if run.is_better_than(&b, target_quality) {
            Some(run)
        } else {
            Some(b)
        },
        None => Some(run),
    }
}

/// Tries the openings in order, each followed by the open search, and
/// returns the best run of all. Every run found lowers the step count that
/// the later openings have to beat.
pub fn try_predetermined_starters(
    constants: &SimulationConstants,
    random_generator: &SimulationRandomnessGenerator,
) -> (r: Result<SimulationRun, SimulationError>)
    requires
        constants.well_formed(),
    ensures
        openings_yield(
            *constants,
            *random_generator,
            opening_scripts(*constants),
            0,
            constants.max_steps,
            None,
            outcome_view(r),
        ),
{
    let ability_starts = predetermined_starters(constants);
    let ghost scripts = opening_scripts(*constants);
    let mut best_run: Option<SimulationRun> = None;
    let mut lowest_target_quality_steps = constants.max_steps;
    let mut j: usize = 0;
    while j < ability_starts.len()
        invariant
            j <= ability_starts@.len(),
            constants.well_formed(),
            scripts == opening_scripts(*constants),
            scripts_view(ability_starts@) == scripts,
            forall|r: SearchOutcome| #[trigger]
                openings_yield(
                    *constants,
                    *random_generator,
                    scripts,
                    j as int,
                    lowest_target_quality_steps,
                    best_view(best_run),
                    r,
                ) ==> openings_yield(
                    *constants,
                    *random_generator,
                    scripts,
                    0,
                    constants.max_steps,
                    None,
                    r,
                ),
        decreases ability_starts.len() - j,
    {
        let ghost lowest_before = lowest_target_quality_steps;
        let ghost best_before = best_view(best_run);
        assert(scripts[j as int] == name_views(ability_starts@[j as int]@));
        let found = simulate_from_abilities_below(
            ability_starts[j].as_slice(),
            constants,
            random_generator,
            lowest_target_quality_steps,
        );
        let ghost below = outcome_view(found);
        match found {
            Ok(run) => {
                if run.steps.len() < lowest_target_quality_steps as usize {
                    lowest_target_quality_steps = run.steps.len() as u8;
                }
                best_run = keep_earlier_best(best_run, run, constants.item.target_quality);
                proof {
                    lemma_opening_continues(
                        *constants,
                        *random_generator,
                        scripts,
                        j as int,
                        lowest_before,
                        best_before,
                        below,
                        lowest_target_quality_steps,
                        best_view(best_run),
                    );
                }
            },
            Err(SimulationError::NoSequenceFound) => {
                proof {
                    lemma_opening_continues(
                        *constants,
                        *random_generator,
                        scripts,
                        j as int,
                        lowest_before,
                        best_before,
                        below,
                        lowest_target_quality_steps,
                        best_view(best_run),
                    );
                }
            },
            Err(SimulationError::EntropyUnavailable) => {
                proof {
                    lemma_opening_stops(
                        *constants,
                        *random_generator,
                        scripts,
                        j as int,
                        lowest_before,
                        best_before,
                        below,
                        below,
                    );
                }
                return Err(SimulationError::EntropyUnavailable);
            },
        }
        j = j + 1;
    }
    proof {
        lemma_no_opening_left(
            *constants,
            *random_generator,
            scripts,
            j as int,
            lowest_target_quality_steps,
            best_view(best_run),
        );
    }
    match best_run {
        Some(run) => Ok(run),
        None => Err(SimulationError::NoSequenceFound),
    }
}

/// A simulation under the two strategies can give `r`: either successes are
/// drawn and the system had no randomness for the first, or the openings,
/// tried with the generator of a first turn, give `r`.
pub open spec fn simulate_yields(
    constants: SimulationConstants,
    condition_strategy: ConditionSimulation,
    action_strategy: RandomActionSuccessChance,
    r: SearchOutcome,
) -> bool {
    ||| action_strategy == RandomActionSuccessChance::Normal && r == Err::<
        RunView,
        SimulationError,
    >(SimulationError::EntropyUnavailable)
    ||| exists|randomness: SimulationRandomness|
        randomness.fits_first_step(action_strategy) && openings_yield(
            constants,
            #[trigger] first_generator(randomness, condition_strategy, action_strategy),
            opening_scripts(constants),
            0,
            constants.max_steps,
            None,
            r,
        )
}

/// The generator made of this randomness and these strategies.
pub open spec fn first_generator(
    randomness: SimulationRandomness,
    condition_strategy: ConditionSimulation,
    action_strategy: RandomActionSuccessChance,
) -> SimulationRandomnessGenerator {
    SimulationRandomnessGenerator { randomness, condition_strategy, action_strategy }
}

/// What a simulation gives under strategies that read no randomness: the
/// one outcome that it can give.
pub open spec fn fixed_plan(
    constants: SimulationConstants,
    condition_strategy: ConditionSimulation,
    action_strategy: RandomActionSuccessChance,
) -> SearchOutcome {
    choose|r: SearchOutcome| simulate_yields(constants, condition_strategy, action_strategy, r)
}

/// Plans the craft: the best run that the openings and the open search
/// find under the two strategies. Where the condition is always normal and
/// the success always the same, nothing is drawn: the result is decided by
/// the craft alone and is never the want of randomness.
pub fn simulate(
    constants: &SimulationConstants,
    condition_strategy: ConditionSimulation,
    action_strategy: RandomActionSuccessChance,
) -> (r: Result<SimulationRun, SimulationError>)
    requires
        constants.well_formed(),
    ensures
        simulate_yields(*constants, condition_strategy, action_strategy, outcome_view(r)),
        !strategies_read(condition_strategy, action_strategy) ==> outcome_view(r) == fixed_plan(
            *constants,
            condition_strategy,
            action_strategy,
        ) && outcome_view(r) != Err::<RunView, SimulationError>(
            SimulationError::EntropyUnavailable,
        ),
{
    let found = match SimulationRandomnessGenerator::first_step(
        condition_strategy,
        action_strategy,
    ) {
        Ok(generator) => {
            assert(generator == first_generator(
                generator.randomness,
                condition_strategy,
                action_strategy,
            ));
            try_predetermined_starters(constants, &generator)
        },
        Err(e) => Err(SimulationError::EntropyUnavailable),
    };
    proof {
        assert(simulate_yields(
            *constants,
            condition_strategy,
            action_strategy,
            outcome_view(found),
        ));
        if !strategies_read(condition_strategy, action_strategy) {
            super::determinism::lemma_fixed_simulation(
                *constants,
                condition_strategy,
                action_strategy,
                outcome_view(found),
                fixed_plan(*constants, condition_strategy, action_strategy),
            );
        }
    }
    found
}

/// The success that a recorded step replays: the recorded one, and none
/// where the step had no chance part.
pub open spec fn recorded_success(step: SimulationStep) -> bool {
    match step.action_success {
        Some(b) => b,
        None => false,
    }
}

/// Replaying the recorded steps from place `k` on, each under its recorded
/// condition and success, and searching on from where they end, can give
/// `r`.
///
/// A recorded ability that the table does not hold or that cannot be used
/// gives nothing. A step that completes the item ends the replay with the
/// run that it completes, whether or not that run meets the quality target:
/// a replay gives back what was recorded.
#[verifier::opaque]
pub open spec fn replay_yields(
    constants: SimulationConstants,
    trace: Seq<SimulationStep>,
    k: int,
    state: CraftState,
    steps: Seq<SimulationStep>,
    condition_strategy: ConditionSimulation,
    action_strategy: RandomActionSuccessChance,
    r: SearchOutcome,
) -> bool
    decreases trace.len() - k,
{
    if k < 0 || k >= trace.len() {
        ||| strategies_read(condition_strategy, action_strategy) && r == Err::<
            RunView,
            SimulationError,
        >(SimulationError::EntropyUnavailable)
        ||| exists|randomness: SimulationRandomness|
            randomness.fits(condition_strategy, action_strategy) && search_yields(
                constants,
                state,
                constants.open_step_limit(),
                #[trigger] first_generator(randomness, condition_strategy, action_strategy),
                steps,
                r,
            )
    } else {
        match find_and_use(
            trace[k].ability@,
            constants,
            state,
            SimulationRandomnessGenerator::replaying(trace[k].condition, recorded_success(trace[k])),
            steps,
        ) {
            None => r == Err::<RunView, SimulationError>(SimulationError::NoSequenceFound),
            Some(used) => if used.0.completed(constants) {
                r == Ok::<RunView, SimulationError>(completed_run(steps.push(used.1), used.0))
            } else {
                replay_yields(
                    constants,
                    trace,
                    k + 1,
                    used.0,
                    steps.push(used.1),
                    condition_strategy,
                    action_strategy,
                    r,
                )
            },
        }
    }
}

/// The generator that replays a recorded step.
pub open spec fn replay_generator(step: SimulationStep) -> SimulationRandomnessGenerator {
    SimulationRandomnessGenerator::replaying(step.condition, recorded_success(step))
}

/// What a replayed step gives.
pub open spec fn replayed(
    constants: SimulationConstants,
    trace: Seq<SimulationStep>,
    k: int,
    state: CraftState,
    steps: Seq<SimulationStep>,
) -> Option<(CraftState, SimulationStep)> {
    find_and_use(trace[k].ability@, constants, state, replay_generator(trace[k]), steps)
}

/// A replayed step that ends the replay gives its outcome: nothing where
/// the ability cannot be used, the completed run where it completes the
/// item, whatever its quality. Any other step hands over to the next.
pub proof fn lemma_replay_step(
    constants: SimulationConstants,
    trace: Seq<SimulationStep>,
    k: int,
    state: CraftState,
    steps: Seq<SimulationStep>,
    condition_strategy: ConditionSimulation,
    action_strategy: RandomActionSuccessChance,
)
    requires
        0 <= k < trace.len(),
    ensures
        match replayed(constants, trace, k, state, steps) {
            None => replay_yields(
                constants,
                trace,
                k,
                state,
                steps,
                condition_strategy,
                action_strategy,
                Err(SimulationError::NoSequenceFound),
            ),
            Some(used) => if used.0.completed(constants) {
                replay_yields(
                    constants,
                    trace,
                    k,
                    state,
                    steps,
                    condition_strategy,
                    action_strategy,
                    Ok(completed_run(steps.push(used.1), used.0)),
                )
            } else {
                forall|r: SearchOutcome| #[trigger]
                    replay_yields(
                        constants,
                        trace,
                        k + 1,
                        used.0,
                        steps.push(used.1),
                        condition_strategy,
                        action_strategy,
                        r,
                    ) ==> replay_yields(
                        constants,
                        trace,
                        k,
                        state,
                        steps,
                        condition_strategy,
                        action_strategy,
                        r,
                    )
            },
        },
{
    reveal(replay_yields);
}

/// With the recorded steps used up, the replay gives what the search over
/// fresh draws gives, or ends for want of randomness.
pub proof fn lemma_replay_ends(
    constants: SimulationConstants,
    trace: Seq<SimulationStep>,
    k: int,
    state: CraftState,
    steps: Seq<SimulationStep>,
    condition_strategy: ConditionSimulation,
    action_strategy: RandomActionSuccessChance,
    randomness: SimulationRandomness,
    r: SearchOutcome,
)
    requires
        k >= trace.len(),
        (strategies_read(condition_strategy, action_strategy) && r == Err::<
            RunView,
            SimulationError,
        >(SimulationError::EntropyUnavailable)) || (randomness.fits(
            condition_strategy,
            action_strategy,
        ) && search_yields(
            constants,
            state,
            constants.open_step_limit(),
            first_generator(randomness, condition_strategy, action_strategy),
            steps,
            r,
        )),
    ensures
        replay_yields(constants, trace, k, state, steps, condition_strategy, action_strategy, r),
{
    reveal(replay_yields);
}

/// Replays a run step by step, under the condition and success recorded
/// with each step, and returns the run that the steps complete, whatever its
/// quality. If the steps do not complete the item, it searches on under the
/// two strategies.
pub fn simulate_from_run(
    run: &SimulationRun,
    constants: &SimulationConstants,
    condition_strategy: ConditionSimulation,
    action_strategy: RandomActionSuccessChance,
) -> (r: Result<SimulationRun, SimulationError>)
    requires
        constants.well_formed(),
    ensures
        replay_yields(
            *constants,
            run.steps@,
            0,
            CraftState::fresh(*constants),
            Seq::empty(),
            condition_strategy,
            action_strategy,
            outcome_view(r),
        ),
{
    let mut options: Vec<SimulationStep> = Vec::new();
    let mut variables = SimulationVariables::new(constants);
    let mut k: usize = 0;
    while k < run.steps.len()
        invariant
            k <= run.steps@.len(),
            constants.well_formed(),
            variables@.within_limits(*constants),
            variables.lowest_target_quality_steps == constants.open_step_limit(),
            forall|r: SearchOutcome| #[trigger]
                replay_yields(
                    *constants,
                    run.steps@,
                    k as int,
                    variables@,
                    options@,
                    condition_strategy,
                    action_strategy,
                    r,
                ) ==> replay_yields(
                    *constants,
                    run.steps@,
                    0,
                    CraftState::fresh(*constants),
                    Seq::empty(),
                    condition_strategy,
                    action_strategy,
                    r,
                ),
        decreases run.steps.len() - k,
    {
        let recorded = run.steps[k];
        let success = match recorded.action_success {
            Some(b) => b,
            None => false,
        };
        let generator = SimulationRandomnessGenerator::from_results(recorded.condition, success);
        proof {
            assert(generator == replay_generator(run.steps@[k as int]));
            lemma_replay_step(
                *constants,
                run.steps@,
                k as int,
                variables@,
                options@,
                condition_strategy,
                action_strategy,
            );
            lemma_find_and_use_within_limits(
                recorded.ability@,
                *constants,
                variables@,
                generator,
                options@,
            );
        }
        match find_and_use_ability(recorded.ability, constants, &variables, &generator, &options) {
            Err(_) => {
                return Err(SimulationError::NoSequenceFound);
            },
            Ok((next_variables, step)) => {
                variables = next_variables;
                options.push(step);
                if variables.current_progress >= constants.item.required_progress {
                    return Ok(
                        SimulationRun {
                            steps: options,
                            quality: variables.current_quality,
                            progress: variables.current_progress,
                        },
                    );
                }
            },
        }
        k = k + 1;
    }
    match SimulationRandomnessGenerator::new(condition_strategy, action_strategy) {
        Ok(generator) => {
            assert(generator == first_generator(
                generator.randomness,
                condition_strategy,
                action_strategy,
            ));
            let found = traverse_depth_first(constants, &variables, &generator, &options);
            proof {
                lemma_replay_ends(
                    *constants,
                    run.steps@,
                    k as int,
                    variables@,
                    options@,
                    condition_strategy,
                    action_strategy,
                    generator.randomness,
                    outcome_view(found),
                );
            }
            found
        },
        Err(e) => {
            proof {
                lemma_replay_ends(
                    *constants,
                    run.steps@,
                    k as int,
                    variables@,
                    options@,
                    condition_strategy,
                    action_strategy,
                    SimulationRandomness {
                        condition: RandomCondition::Random(0),
                        action_success: RandomActionSuccess::Random(0),
                    },
                    Err(SimulationError::EntropyUnavailable),
                );
            }
            Err(SimulationError::EntropyUnavailable)
        },
    }
}

} // verus!
