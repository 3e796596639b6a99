use std::cmp::Ordering;

use craft_sim::items::{get_craftable_items_for_class, get_craftable_items_for_class_at_level};
use craft_sim::profile::{
    get_all_abilities, get_all_abilities_at_level, AbilityType, BuffedCraftingAttributes,
    BuiltCraftingAttributes, CraftingAttributes, CraftingClass, CraftingClassStats,
};
use craft_sim::simulation::random::{random_int_from, word_from_bytes};
use craft_sim::simulation::{
    get_random_int, Condition, ConditionSimulation, RandomActionSuccess,
    RandomActionSuccessChance, RandomCondition, SimulationError, SimulationRandomness,
    SimulationRandomnessGenerator, SimulationRun, SimulationStep,
};

fn stats(level: u32, quest: u32) -> CraftingClassStats {
    CraftingClassStats {
        level,
        class_quest_level: quest,
        attributres: BuffedCraftingAttributes::Final(CraftingAttributes {
            cp: 1,
            control: 1,
            craftmanship: 1,
        }),
    }
}

fn run(len: usize, quality: u32) -> SimulationRun {
    SimulationRun {
        steps: vec![
            SimulationStep {
                ability: "Basic Synthesis",
                condition: Condition::Normal,
                action_success: None,
            };
            len
        ],
        quality,
        progress: 10,
    }
}

fn drawn(condition: u32, success: u32) -> SimulationRandomness {
    SimulationRandomness {
        condition: RandomCondition::Random(condition),
        action_success: RandomActionSuccess::Random(success),
    }
}

#[test]
fn item_table_lists_the_alchemist_items() {
    let items = get_craftable_items_for_class(CraftingClass::Alchemist);
    assert_eq!(items.len(), 7);
    assert_eq!(items[0].name, "Distilled Water");
    assert_eq!(items[0].stats.initial_durability, 40);
    assert_eq!(items[0].stats.target_quality, 80);
    assert_eq!(items[0].stats.required_progress, 9);
    assert_eq!(items[5].name, "Maple Wand");
    assert_eq!(items[5].stats.initial_durability, 60);
    assert_eq!(items[6].name, "Wanderer's Campfire");
    assert_eq!(items[6].stats.level, 80);
    assert_eq!(items[6].stats.required_progress, 1780);
    let at_level = get_craftable_items_for_class_at_level(CraftingClass::Alchemist, &stats(1, 1));
    assert_eq!(at_level.len(), 7);
    assert_eq!(at_level[2].name, "Animal Glue");
}

#[test]
fn final_attributes_add_buffs_to_gear() {
    let built = BuffedCraftingAttributes::Built(BuiltCraftingAttributes {
        gear_attributes: CraftingAttributes { cp: 500, control: 3000, craftmanship: 3100 },
        buffs: CraftingAttributes { cp: 62, control: 556, craftmanship: 126 },
    });
    assert_eq!(
        built.final_attributes(),
        CraftingAttributes { cp: 562, control: 3556, craftmanship: 3226 }
    );
    let done = BuffedCraftingAttributes::Final(CraftingAttributes {
        cp: 1,
        control: 2,
        craftmanship: 3,
    });
    assert_eq!(done.final_attributes(), CraftingAttributes { cp: 1, control: 2, craftmanship: 3 });
    let huge = BuffedCraftingAttributes::Built(BuiltCraftingAttributes {
        gear_attributes: CraftingAttributes { cp: u32::MAX, control: 1, craftmanship: 1 },
        buffs: CraftingAttributes { cp: 1, control: 1, craftmanship: 1 },
    });
    assert_eq!(huge.final_attributes().cp, u32::MAX);
}

#[test]
fn ability_table_is_filtered_by_level_and_quest() {
    let all = get_all_abilities();
    assert_eq!(all.len(), 31);
    assert_eq!(all[0].name, "Basic Synthesis");
    assert_eq!(all[30].name, "Trained Finesse");
    assert_eq!(all[24].name, "Groundwork");
    assert_eq!(get_all_abilities_at_level(&stats(90, 90)).len(), 31);
    let without_quest = get_all_abilities_at_level(&stats(90, 1));
    assert_eq!(without_quest.len(), 30);
    assert!(without_quest.iter().all(|a| a.name != "Manipulation"));
    let novice = get_all_abilities_at_level(&stats(9, 1));
    let names: Vec<&str> = novice.iter().map(|a| a.name).collect();
    assert_eq!(
        names,
        vec!["Basic Synthesis", "Basic Touch", "Master's Mend", "Hasty Touch", "Rapid Synthesis"]
    );
    assert!(get_all_abilities_at_level(&stats(0, 0)).is_empty());
}

#[test]
fn ability_types_behave_as_sets() {
    assert!(AbilityType::none().is_empty());
    assert_eq!(AbilityType::buff(), AbilityType::touch_buff().union(AbilityType::synthesis_buff()));
    assert!(AbilityType::buff().overlaps(AbilityType::touch_buff()));
    assert!(!AbilityType::buff().overlaps(AbilityType::touch()));
    assert!(!AbilityType::touch().overlaps(AbilityType::synthesis()));
    let both = AbilityType::touch().union(AbilityType::synthesis());
    assert!(both.overlaps(AbilityType::synthesis()));
    assert_eq!(both.intersection(AbilityType::touch()), AbilityType::touch());
    assert!(both.intersection(AbilityType::buff()).is_empty());
}

#[test]
fn compare_puts_the_target_first_then_length_then_quality() {
    let target = 100;
    // meeting the target beats not meeting it, whatever the length
    assert_eq!(run(9, 100).compare(&run(1, 99), target), Ordering::Greater);
    assert_eq!(run(1, 99).compare(&run(9, 100), target), Ordering::Less);
    // on the same side of the target the shorter run wins
    assert_eq!(run(2, 100).compare(&run(3, 500), target), Ordering::Greater);
    assert_eq!(run(3, 50).compare(&run(2, 10), target), Ordering::Less);
    // with the same length the quality decides
    assert_eq!(run(2, 150).compare(&run(2, 140), target), Ordering::Greater);
    assert_eq!(run(2, 10).compare(&run(2, 20), target), Ordering::Less);
    assert_eq!(run(2, 20).compare(&run(2, 20), target), Ordering::Equal);
    assert!(run(2, 150).is_better_than(&run(2, 140), target));
    assert!(!run(2, 150).is_better_than(&run(2, 150), target));
    assert_eq!(run(3, 7).duplicate().steps.len(), 3);
}

#[test]
fn compare_is_antisymmetric_and_transitive_on_samples() {
    let target = 100;
    let samples =
        [run(1, 50), run(1, 100), run(2, 100), run(2, 120), run(3, 99), run(3, 300), run(1, 50)];
    for a in &samples {
        for b in &samples {
            assert_eq!(a.compare(b, target), b.compare(a, target).reverse());
            for c in &samples {
                if a.compare(b, target) == Ordering::Greater
                    && b.compare(c, target) == Ordering::Greater
                {
                    assert_eq!(a.compare(c, target), Ordering::Greater);
                }
            }
        }
    }
}

#[test]
fn fixed_strategies_ignore_the_draws() {
    for condition in [0, 1, 2_791_728_742, 3_865_470_566, u32::MAX] {
        for success in [0, 1, u32::MAX] {
            let generator = SimulationRandomnessGenerator {
                randomness: drawn(condition, success),
                condition_strategy: ConditionSimulation::AlwaysNormal,
                action_strategy: RandomActionSuccessChance::AlwaysFail,
            };
            for last in
                [Condition::Poor, Condition::Normal, Condition::Good, Condition::Excellent]
            {
                assert_eq!(generator.get_condition(last), Condition::Normal);
            }
            for rate in [0, 50, 100, u32::MAX] {
                assert!(!generator.random_action_succeess(rate));
            }
            let lucky = SimulationRandomnessGenerator {
                action_strategy: RandomActionSuccessChance::AlwaysSucceed,
                ..generator
            };
            assert!(lucky.random_action_succeess(0));
        }
    }
}

#[test]
fn condition_follows_the_draw() {
    let weighted = ConditionSimulation::WeightedRandom;
    // 0.9 * (2^32 - 1) = 3865470565.5
    assert_eq!(
        drawn(3_865_470_566, 0).get_condition(Condition::Normal, weighted),
        Condition::Excellent
    );
    assert_eq!(drawn(3_865_470_565, 0).get_condition(Condition::Normal, weighted), Condition::Good);
    // 0.65 * (2^32 - 1) = 2791728741.75
    assert_eq!(drawn(2_791_728_742, 0).get_condition(Condition::Normal, weighted), Condition::Good);
    assert_eq!(
        drawn(2_791_728_741, 0).get_condition(Condition::Normal, weighted),
        Condition::Normal
    );
    assert_eq!(drawn(0, 0).get_condition(Condition::Normal, weighted), Condition::Normal);
    assert_eq!(drawn(u32::MAX, 0).get_condition(Condition::Excellent, weighted), Condition::Poor);
    assert_eq!(drawn(0, 0).get_condition(Condition::Excellent, weighted), Condition::Poor);
    assert_eq!(drawn(u32::MAX, 0).get_condition(Condition::Good, weighted), Condition::Normal);
    assert_eq!(drawn(u32::MAX, 0).get_condition(Condition::Poor, weighted), Condition::Normal);
    assert_eq!(
        drawn(u32::MAX, 0).get_condition(Condition::Normal, ConditionSimulation::AlwaysNormal),
        Condition::Normal
    );
}

#[test]
fn success_follows_the_draw_and_the_rate() {
    let normal = RandomActionSuccessChance::Normal;
    // half of 2^32 - 1 is 2147483647.5
    assert!(drawn(0, 2_147_483_647).random_action_succeess(50, normal));
    assert!(!drawn(0, 2_147_483_648).random_action_succeess(50, normal));
    assert!(!drawn(0, 0).random_action_succeess(0, normal));
    assert!(drawn(0, 0).random_action_succeess(1, normal));
    assert!(!drawn(0, u32::MAX).random_action_succeess(100, normal));
    assert!(drawn(0, u32::MAX - 1).random_action_succeess(100, normal));
    assert!(drawn(0, u32::MAX).random_action_succeess(101, normal));
    assert!(drawn(0, u32::MAX).random_action_succeess(0, RandomActionSuccessChance::AlwaysSucceed));
    assert!(!drawn(0, 0).random_action_succeess(100, RandomActionSuccessChance::AlwaysFail));
}

#[test]
fn replay_generator_gives_back_what_it_was_made_of() {
    for condition in [Condition::Poor, Condition::Normal, Condition::Good, Condition::Excellent] {
        for success in [false, true] {
            let generator = SimulationRandomnessGenerator::from_results(condition, success);
            assert_eq!(generator.get_condition(Condition::Excellent), condition);
            assert_eq!(generator.get_condition(Condition::Normal), condition);
            assert_eq!(generator.random_action_succeess(0), success);
            assert_eq!(generator.random_action_succeess(100), success);
            let fixed = SimulationRandomness::from_results(condition, success);
            assert_eq!(fixed.condition, RandomCondition::Value(condition));
            assert_eq!(fixed.action_success, RandomActionSuccess::Value(success));
        }
    }
}

#[test]
fn fresh_generators_keep_the_strategies() {
    let first = SimulationRandomnessGenerator::first_step(
        ConditionSimulation::WeightedRandom,
        RandomActionSuccessChance::Normal,
    )
    .unwrap();
    assert_eq!(first.randomness.condition, RandomCondition::Value(Condition::Normal));
    assert!(matches!(first.randomness.action_success, RandomActionSuccess::Random(_)));
    assert_eq!(first.get_condition(Condition::Excellent), Condition::Normal);
    let next = first.next().unwrap();
    assert_eq!(next.condition_strategy, ConditionSimulation::WeightedRandom);
    assert_eq!(next.action_strategy, RandomActionSuccessChance::Normal);
    assert!(matches!(next.randomness.condition, RandomCondition::Random(_)));
    assert!(matches!(next.randomness.action_success, RandomActionSuccess::Random(_)));
    let made = SimulationRandomnessGenerator::new(
        ConditionSimulation::WeightedRandom,
        RandomActionSuccessChance::AlwaysSucceed,
    )
    .unwrap();
    assert_eq!(made.condition_strategy, ConditionSimulation::WeightedRandom);
    assert!(matches!(made.randomness.condition, RandomCondition::Random(_)));
    assert_eq!(made.randomness.action_success, RandomActionSuccess::Value(true));
    let plain = SimulationRandomness::new().unwrap();
    assert!(matches!(plain.action_success, RandomActionSuccess::Random(_)));
    let start = SimulationRandomness::first_step().unwrap();
    assert_eq!(start.condition, RandomCondition::Value(Condition::Normal));
}

#[test]
fn bytes_spell_a_number_most_significant_first() {
    assert_eq!(word_from_bytes([1, 2, 3, 4]), 0x0102_0304);
    assert_eq!(word_from_bytes([0, 0, 0, 0]), 0);
    assert_eq!(word_from_bytes([255, 255, 255, 255]), u32::MAX);
    assert_eq!(word_from_bytes([0, 0, 1, 0]), 256);
}

#[test]
fn random_numbers_are_drawn_from_the_system() {
    let draws: Vec<u32> = (0..8).map(|_| get_random_int().unwrap()).collect();
    assert!(draws.iter().any(|d| *d != draws[0]));
}

#[test]
fn a_draw_becomes_a_number_or_the_news_that_there_is_none() {
    assert_eq!(random_int_from(Ok([1, 2, 3, 4])), Ok(0x0102_0304));
    assert_eq!(random_int_from(Ok([255, 0, 0, 1])), Ok(0xff00_0001));
    assert_eq!(
        random_int_from(Err(getrandom::Error::UNSUPPORTED)),
        Err(SimulationError::EntropyUnavailable)
    );
    assert_eq!(
        random_int_from(Err(getrandom::Error::UNEXPECTED)),
        Err(SimulationError::EntropyUnavailable)
    );
}

#[test]
fn fixed_strategies_draw_nothing() {
    let fixed = SimulationRandomnessGenerator::new(
        ConditionSimulation::AlwaysNormal,
        RandomActionSuccessChance::AlwaysFail,
    )
    .unwrap();
    assert_eq!(fixed.randomness.condition, RandomCondition::Value(Condition::Normal));
    assert_eq!(fixed.randomness.action_success, RandomActionSuccess::Value(false));
    let next = fixed.next().unwrap();
    assert_eq!(next, fixed);
    let first = SimulationRandomnessGenerator::first_step(
        ConditionSimulation::AlwaysNormal,
        RandomActionSuccessChance::AlwaysSucceed,
    )
    .unwrap();
    assert_eq!(first.randomness.condition, RandomCondition::Value(Condition::Normal));
    assert_eq!(first.randomness.action_success, RandomActionSuccess::Value(true));
    assert_eq!(first.next().unwrap(), first);
    let settled = SimulationRandomness::for_strategies(
        ConditionSimulation::AlwaysNormal,
        RandomActionSuccessChance::AlwaysFail,
    )
    .unwrap();
    assert_eq!(settled, SimulationRandomness::from_results(Condition::Normal, false));
    let opening =
        SimulationRandomness::first_step_for(RandomActionSuccessChance::Normal).unwrap();
    assert_eq!(opening.condition, RandomCondition::Value(Condition::Normal));
    assert!(matches!(opening.action_success, RandomActionSuccess::Random(_)));
    let mixed = SimulationRandomness::for_strategies(
        ConditionSimulation::WeightedRandom,
        RandomActionSuccessChance::Normal,
    )
    .unwrap();
    assert!(matches!(mixed.condition, RandomCondition::Random(_)));
    assert!(matches!(mixed.action_success, RandomActionSuccess::Random(_)));
}
