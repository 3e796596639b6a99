use craft_sim::items::ItemStats;
use craft_sim::profile::{
    get_all_abilities, get_all_abilities_at_level, Ability, BuffedCraftingAttributes,
    CraftingAttributes, CraftingClassStats,
};
use craft_sim::simulation::replay::names_are_distinct;
use craft_sim::simulation::scripts::{
    predetermined_starters, simulate, simulate_from_abilities, simulate_from_run,
    try_predetermined_starters,
};
use craft_sim::simulation::traversal::{find_and_use_ability, traverse_depth_first};
use craft_sim::simulation::{
    Condition, ConditionSimulation, RandomActionSuccessChance, SimulationConstants,
    SimulationError, SimulationRandomnessGenerator, SimulationRun, SimulationStep,
    SimulationVariables,
};

fn master_stats() -> CraftingClassStats {
    CraftingClassStats {
        level: 90,
        class_quest_level: 90,
        attributres: BuffedCraftingAttributes::Final(CraftingAttributes {
            cp: 662,
            control: 3556,
            craftmanship: 3226,
        }),
    }
}

fn constants_for(item: ItemStats, abilities: Vec<Ability>) -> SimulationConstants {
    SimulationConstants {
        class_level: 90,
        craftmanship: 3226,
        control: 3556,
        cp: 662,
        available_abilities: abilities,
        item,
        max_steps: 15,
        accept_first_of_length: 8,
    }
}

fn distilled_water() -> ItemStats {
    ItemStats { level: 1, initial_durability: 40, target_quality: 80, required_progress: 9 }
}

fn fixed_generator() -> SimulationRandomnessGenerator {
    SimulationRandomnessGenerator::from_results(Condition::Normal, false)
}

fn names_of(run: &SimulationRun) -> Vec<&'static str> {
    run.steps.iter().map(|s| s.ability).collect()
}

#[test]
fn master_crafter_finishes_distilled_water_in_one_step() {
    let constants = constants_for(distilled_water(), get_all_abilities_at_level(&master_stats()));
    assert!(constants.is_well_formed());
    let run = simulate(
        &constants,
        ConditionSimulation::AlwaysNormal,
        RandomActionSuccessChance::AlwaysFail,
    )
    .unwrap();
    assert!(run.progress >= 9);
    assert_eq!(run.progress, 3700);
    assert_eq!(run.quality, 7162);
    assert_eq!(names_of(&run), vec!["Delicate Synthesis"]);
    assert_eq!(run.steps[0].condition, Condition::Normal);
    assert_eq!(run.steps[0].action_success, None);
}

#[test]
fn simulation_is_repeatable_under_fixed_strategies() {
    let constants = constants_for(distilled_water(), get_all_abilities_at_level(&master_stats()));
    let first = simulate(
        &constants,
        ConditionSimulation::AlwaysNormal,
        RandomActionSuccessChance::AlwaysFail,
    )
    .unwrap();
    let second = simulate(
        &constants,
        ConditionSimulation::AlwaysNormal,
        RandomActionSuccessChance::AlwaysFail,
    )
    .unwrap();
    assert_eq!(names_of(&first), names_of(&second));
    assert_eq!(first.quality, second.quality);
    assert_eq!(first.progress, second.progress);
}

#[test]
fn replaying_a_run_reproduces_quality_and_progress() {
    let item =
        ItemStats { level: 80, initial_durability: 80, target_quality: 2300, required_progress: 1780 };
    let mut constants = constants_for(item, get_all_abilities_at_level(&master_stats()));
    constants.class_level = 80;
    constants.max_steps = 6;
    let run = simulate(
        &constants,
        ConditionSimulation::AlwaysNormal,
        RandomActionSuccessChance::AlwaysSucceed,
    )
    .unwrap();
    assert!(run.progress >= 1780);
    assert!(run.quality >= 2300);
    let replayed = simulate_from_run(
        &run,
        &constants,
        ConditionSimulation::AlwaysNormal,
        RandomActionSuccessChance::AlwaysFail,
    )
    .unwrap();
    assert_eq!(names_of(&replayed), names_of(&run));
    assert_eq!(replayed.quality, run.quality);
    assert_eq!(replayed.progress, run.progress);
}

#[test]
fn replay_follows_the_recorded_condition_and_success() {
    let constants = constants_for(distilled_water(), get_all_abilities());
    let recorded = SimulationRun {
        steps: vec![
            SimulationStep {
                ability: "Hasty Touch",
                condition: Condition::Good,
                action_success: Some(true),
            },
            SimulationStep {
                ability: "Basic Synthesis",
                condition: Condition::Normal,
                action_success: None,
            },
        ],
        quality: 0,
        progress: 0,
    };
    let replayed = simulate_from_run(
        &recorded,
        &constants,
        ConditionSimulation::AlwaysNormal,
        RandomActionSuccessChance::AlwaysFail,
    )
    .unwrap();
    // A good turn doubles the base quality of 7162, and the chance part ran.
    assert_eq!(replayed.quality, 14324);
    assert_eq!(replayed.progress, 4440);
    assert_eq!(replayed.steps.len(), 2);
    assert_eq!(replayed.steps[0].condition, Condition::Good);
    assert_eq!(replayed.steps[0].action_success, Some(true));
}

#[test]
fn scripted_abilities_are_played_in_order() {
    let constants = constants_for(distilled_water(), get_all_abilities_at_level(&master_stats()));
    let run =
        simulate_from_abilities(&["Trained Eye", "Groundwork"], &constants, &fixed_generator())
            .unwrap();
    assert_eq!(names_of(&run), vec!["Trained Eye", "Groundwork"]);
    assert_eq!(run.quality, 80);
    assert_eq!(run.progress, 11100);
}

#[test]
fn scripted_run_below_target_is_no_run() {
    let constants = constants_for(distilled_water(), get_all_abilities_at_level(&master_stats()));
    let r = simulate_from_abilities(&["Basic Synthesis"], &constants, &fixed_generator());
    assert_eq!(r.err(), Some(SimulationError::NoSequenceFound));
}

#[test]
fn unknown_ability_name_is_no_run() {
    let constants = constants_for(distilled_water(), get_all_abilities_at_level(&master_stats()));
    let r = simulate_from_abilities(&["Basic Synthesi"], &constants, &fixed_generator());
    assert_eq!(r.err(), Some(SimulationError::NoSequenceFound));
    let variables = SimulationVariables::new(&constants);
    assert!(find_and_use_ability("basic synthesis", &constants, &variables, &fixed_generator(), &vec![])
        .is_err());
    assert!(find_and_use_ability("Basic Synthesis", &constants, &variables, &fixed_generator(), &vec![])
        .is_ok());
}

#[test]
fn empty_table_finds_nothing() {
    let constants = constants_for(distilled_water(), vec![]);
    let r = simulate(
        &constants,
        ConditionSimulation::AlwaysNormal,
        RandomActionSuccessChance::AlwaysFail,
    );
    assert_eq!(r.err(), Some(SimulationError::NoSequenceFound));
}

#[test]
fn step_budget_of_zero_still_allows_one_finishing_step() {
    let mut constants =
        constants_for(distilled_water(), get_all_abilities_at_level(&master_stats()));
    constants.max_steps = 0;
    let variables = SimulationVariables::new(&constants);
    let run = traverse_depth_first(&constants, &variables, &fixed_generator(), &vec![]).unwrap();
    assert_eq!(names_of(&run), vec!["Delicate Synthesis"]);
}

#[test]
fn search_without_a_finishing_ability_gives_up() {
    let abilities: Vec<Ability> =
        get_all_abilities().into_iter().filter(|a| a.name == "Basic Touch").collect();
    let constants = constants_for(distilled_water(), abilities);
    let variables = SimulationVariables::new(&constants);
    let r = traverse_depth_first(&constants, &variables, &fixed_generator(), &vec![]);
    assert_eq!(r.err(), Some(SimulationError::NoSequenceFound));
}

#[test]
fn openings_depend_on_target_and_level_gap() {
    let high = constants_for(distilled_water(), vec![]);
    let starters = predetermined_starters(&high);
    assert_eq!(starters.len(), 7);
    assert_eq!(starters[0], vec!["Trained Eye", "Waste Not II", "Groundwork"]);
    assert_eq!(starters[1], vec!["Trained Eye", "Groundwork"]);
    assert_eq!(starters[5], vec!["Waste Not", "Basic Touch", "Standard Touch"]);
    assert!(starters[6].is_empty());

    let mut close = constants_for(distilled_water(), vec![]);
    close.class_level = 10;
    let starters = predetermined_starters(&close);
    assert_eq!(starters.len(), 7);
    assert_eq!(starters[0].len(), 11);
    assert_eq!(starters[0][10], "Byregot's Blessing");
    assert_eq!(starters[1].len(), 6);

    let mut plain = constants_for(distilled_water(), vec![]);
    plain.item.target_quality = 0;
    let starters = predetermined_starters(&plain);
    assert_eq!(starters.len(), 3);
    assert_eq!(starters[1], vec!["Muscle Memory", "Veneration", "Waste Not II", "Groundwork"]);
}

#[test]
fn openings_return_the_best_run() {
    let constants = constants_for(distilled_water(), get_all_abilities_at_level(&master_stats()));
    let run = try_predetermined_starters(&constants, &fixed_generator()).unwrap();
    assert_eq!(run.steps.len(), 1);
    assert_eq!(run.quality, 7162);
}

#[test]
fn table_names_are_distinct_until_one_is_repeated() {
    let mut constants = constants_for(distilled_water(), get_all_abilities());
    assert!(names_are_distinct(&constants));
    let again = constants.available_abilities[3].duplicate();
    constants.available_abilities.push(again);
    assert!(!names_are_distinct(&constants));
    assert!(names_are_distinct(&constants_for(distilled_water(), vec![])));
}

#[test]
fn first_step_abilities_need_the_first_turn() {
    let constants = constants_for(distilled_water(), get_all_abilities_at_level(&master_stats()));
    let r = simulate_from_abilities(&["Basic Touch", "Reflect"], &constants, &fixed_generator());
    assert_eq!(r.err(), Some(SimulationError::NoSequenceFound));
}

#[test]
fn random_strategies_give_a_run_that_replays() {
    let item =
        ItemStats { level: 80, initial_durability: 80, target_quality: 2300, required_progress: 1780 };
    let mut constants = constants_for(item, get_all_abilities_at_level(&master_stats()));
    constants.class_level = 82;
    constants.max_steps = 5;
    for _ in 0..3 {
        let found = simulate(
            &constants,
            ConditionSimulation::WeightedRandom,
            RandomActionSuccessChance::Normal,
        );
        match found {
            Ok(run) => {
                assert!(run.progress >= 1780);
                assert!(run.steps.len() <= 5);
                let replayed = simulate_from_run(
                    &run,
                    &constants,
                    ConditionSimulation::WeightedRandom,
                    RandomActionSuccessChance::Normal,
                );
                let replayed = replayed.unwrap();
                assert_eq!(names_of(&replayed), names_of(&run));
                assert_eq!(replayed.quality, run.quality);
                assert_eq!(replayed.progress, run.progress);
            }
            Err(e) => assert_eq!(e, SimulationError::NoSequenceFound),
        }
    }
}

#[test]
fn replaying_a_run_below_the_target_gives_it_back() {
    let constants = constants_for(distilled_water(), get_all_abilities());
    let recorded = SimulationRun {
        steps: vec![SimulationStep {
            ability: "Basic Synthesis",
            condition: Condition::Normal,
            action_success: None,
        }],
        quality: 0,
        progress: 4440,
    };
    let replayed = simulate_from_run(
        &recorded,
        &constants,
        ConditionSimulation::AlwaysNormal,
        RandomActionSuccessChance::AlwaysFail,
    )
    .unwrap();
    assert_eq!(names_of(&replayed), vec!["Basic Synthesis"]);
    assert_eq!(replayed.quality, 0);
    assert_eq!(replayed.progress, 4440);
    assert_eq!(replayed.steps[0].condition, Condition::Normal);
    assert_eq!(replayed.steps[0].action_success, None);
}
