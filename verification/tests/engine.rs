use craft_sim::items::ItemStats;
use craft_sim::profile::{
    get_all_abilities, Ability, AbilityAction, AbilityEffect, AbilityEffectAction,
    AbilityEffectLimit, AbilityEffectTurns, AbilityState, AbilityType, BaseAction, ComboAction,
    DurabilityWithDiscount, RequiredState, SuccessAction,
};
use craft_sim::simulation::ability::{
    can_afford_action, can_execute_ability, execute_action, use_ability, AbilityExecutionStatus,
    ActionExecutionStatus,
};
use craft_sim::simulation::turn::next_step_variables;
use craft_sim::simulation::{
    next_quality, Condition, SimulationConstants, SimulationRandomnessGenerator,
    SimulationStep, SimulationVariables, StepVariables,
};

fn constants() -> SimulationConstants {
    SimulationConstants {
        class_level: 90,
        craftmanship: 3226,
        control: 3556,
        cp: 662,
        available_abilities: get_all_abilities(),
        item: ItemStats {
            level: 80,
            initial_durability: 80,
            target_quality: 2300,
            required_progress: 1780,
        },
        max_steps: 15,
        accept_first_of_length: 8,
    }
}

fn plain_step() -> StepVariables {
    StepVariables {
        condition: Condition::Normal,
        step_number: 1,
        base_progress: 100,
        base_quality: 200,
        durability_scale: 100,
        progress_floor: false,
    }
}

fn ability_named(name: &str) -> Ability {
    get_all_abilities().into_iter().find(|a| a.name == name).unwrap()
}

fn failing() -> SimulationRandomnessGenerator {
    SimulationRandomnessGenerator::from_results(Condition::Normal, false)
}

fn succeeding() -> SimulationRandomnessGenerator {
    SimulationRandomnessGenerator::from_results(Condition::Normal, true)
}

fn state_effect(state: AbilityState, turns: u8) -> AbilityEffectTurns {
    AbilityEffectTurns { effect: AbilityEffect::State(state), limit: None, turns }
}

#[test]
fn base_progress_follows_the_formula() {
    let mut c = constants();
    c.item.level = 1;
    // (1 + 0.05 * 89) * (0.21 * 3226 + 1.6) = 5.45 * 679.06 = 3700.877
    assert_eq!(c.base_progress(), 3700);
    c.class_level = 1;
    // 1 * 679.06
    assert_eq!(c.base_progress(), 679);
    c.item.level = 21;
    // the level gap takes everything
    assert_eq!(c.base_progress(), 0);
    c.item.level = 90;
    assert_eq!(c.base_progress(), 0);
}

#[test]
fn base_quality_follows_the_formula_and_the_condition() {
    // (1 + 0.05 * 89) * (0.36 * 3556 + 34) = 5.45 * 1314.16 = 7162.172
    assert_eq!(next_quality(1, 90, 3556, Condition::Normal), 7162);
    assert_eq!(next_quality(1, 90, 3556, Condition::Poor), 3581);
    assert_eq!(next_quality(1, 90, 3556, Condition::Good), 14324);
    assert_eq!(next_quality(1, 90, 3556, Condition::Excellent), 28648);
    // 1314.16 rounds down to 1314, and a poor turn halves that
    assert_eq!(next_quality(5, 5, 3556, Condition::Normal), 1314);
    assert_eq!(next_quality(5, 5, 3556, Condition::Poor), 657);
    assert_eq!(next_quality(90, 1, 3556, Condition::Excellent), 0);
    assert_eq!(next_quality(0, u32::MAX, u32::MAX, Condition::Excellent), u32::MAX);
}

#[test]
fn new_variables_start_full() {
    let c = constants();
    let v = SimulationVariables::new(&c);
    assert_eq!(v.remaining_durability, 80);
    assert_eq!(v.remaining_cp, 662);
    assert_eq!(v.current_progress, 0);
    assert_eq!(v.current_quality, 0);
    assert!(v.current_state_turns.is_empty());
    assert_eq!(v.inner_quiet_stack, 0);
    assert_eq!(v.lowest_target_quality_steps, 16);
    let copy = v.duplicate();
    assert_eq!(copy.remaining_cp, 662);
}

#[test]
fn inner_quiet_ability_is_not_available_on_an_empty_stack() {
    let c = constants();
    let v = SimulationVariables::new(&c);
    let blessing = ability_named("Byregot's Blessing");
    assert_eq!(
        can_execute_ability(&blessing, &c, &v, &plain_step()),
        AbilityExecutionStatus::NotAvailable
    );
    assert!(use_ability(&blessing, &c, &v, &plain_step(), &failing()).is_err());

    let mut stacked = SimulationVariables::new(&c);
    stacked.inner_quiet_stack = 1;
    assert_eq!(
        can_execute_ability(&blessing, &c, &stacked, &plain_step()),
        AbilityExecutionStatus::Available
    );
    let (after, step) = use_ability(&blessing, &c, &stacked, &plain_step(), &failing()).unwrap();
    // one level of inner quiet is worth 20 percent of the base quality of 200
    assert_eq!(after.current_quality, 40);
    assert_eq!(after.inner_quiet_stack, 0);
    assert_eq!(after.remaining_cp, 662 - 24);
    assert_eq!(step.ability, "Byregot's Blessing");
    assert_eq!(step.action_success, None);
}

#[test]
fn granting_the_same_effect_twice_adds_the_turns() {
    let c = constants();
    let mut v = SimulationVariables::new(&c);
    let grant = AbilityAction::GrantEffect(state_effect(AbilityState::WasteNot, 4));
    assert_eq!(
        execute_action(&grant, &c, &mut v, &plain_step()),
        ActionExecutionStatus::ActionCompleted
    );
    assert_eq!(v.current_state_turns.len(), 1);
    assert_eq!(v.current_state_turns[0].turns, 4);
    let longer = AbilityAction::GrantEffect(state_effect(AbilityState::WasteNot, 8));
    execute_action(&longer, &c, &mut v, &plain_step());
    assert_eq!(v.current_state_turns.len(), 1);
    assert_eq!(v.current_state_turns[0].turns, 12);
    let other = AbilityAction::GrantEffect(state_effect(AbilityState::Observing, 1));
    execute_action(&other, &c, &mut v, &plain_step());
    assert_eq!(v.current_state_turns.len(), 2);
    assert_eq!(v.current_state_turns[0].turns, 12);
    assert_eq!(v.current_state_turns[1].turns, 1);
}

#[test]
fn merged_turns_stop_at_the_largest_count() {
    let c = constants();
    let mut v = SimulationVariables::new(&c);
    let grant = AbilityAction::GrantEffect(state_effect(AbilityState::WasteNot, 200));
    execute_action(&grant, &c, &mut v, &plain_step());
    execute_action(&grant, &c, &mut v, &plain_step());
    assert_eq!(v.current_state_turns[0].turns, 255);
}

#[test]
fn effects_of_different_strength_are_different_effects() {
    let c = constants();
    let mut v = SimulationVariables::new(&c);
    let half = AbilityEffectTurns {
        effect: AbilityEffect::Action(AbilityEffectAction::IncreaseTouchEfficiency(50)),
        limit: None,
        turns: 4,
    };
    let whole = AbilityEffectTurns {
        effect: AbilityEffect::Action(AbilityEffectAction::IncreaseTouchEfficiency(100)),
        limit: None,
        turns: 3,
    };
    execute_action(&AbilityAction::GrantEffect(half), &c, &mut v, &plain_step());
    execute_action(&AbilityAction::GrantEffect(whole), &c, &mut v, &plain_step());
    assert_eq!(v.current_state_turns.len(), 2);
}

#[test]
fn grants_are_rounded_to_the_nearest() {
    let c = constants();
    let mut step = plain_step();
    step.base_progress = 7;
    step.base_quality = 3;
    let mut v = SimulationVariables::new(&c);
    // 120 percent of 7 is 8.4
    execute_action(&AbilityAction::GrantProgress(120), &c, &mut v, &step);
    assert_eq!(v.current_progress, 8);
    // 150 percent of 3 is 4.5
    execute_action(&AbilityAction::GrantQuality(150), &c, &mut v, &step);
    assert_eq!(v.current_quality, 5);
    // 180 percent of 3 is 5.4
    execute_action(&AbilityAction::GrantQuality(180), &c, &mut v, &step);
    assert_eq!(v.current_quality, 10);
    execute_action(&AbilityAction::GrantFullQuality, &c, &mut v, &step);
    assert_eq!(v.current_quality, 2300);
}

#[test]
fn quality_and_progress_stop_at_the_largest_value() {
    let c = constants();
    let mut step = plain_step();
    step.base_quality = u32::MAX;
    let mut v = SimulationVariables::new(&c);
    execute_action(&AbilityAction::GrantQuality(u32::MAX), &c, &mut v, &step);
    assert_eq!(v.current_quality, u32::MAX);
}

#[test]
fn durability_grant_stops_at_the_initial_durability() {
    let c = constants();
    let mut v = SimulationVariables::new(&c);
    v.remaining_durability = 60;
    execute_action(&AbilityAction::GrantDurability(15), &c, &mut v, &plain_step());
    assert_eq!(v.remaining_durability, 75);
    execute_action(&AbilityAction::GrantDurability(30), &c, &mut v, &plain_step());
    assert_eq!(v.remaining_durability, 80);
}

#[test]
fn durability_cost_is_scaled_and_breaks_at_zero() {
    let c = constants();
    let mut step = plain_step();
    step.durability_scale = 50;
    let mut v = SimulationVariables::new(&c);
    v.remaining_durability = 10;
    // half of 5 is 2.5, charged as 3
    assert_eq!(
        execute_action(&AbilityAction::CostDurability(5), &c, &mut v, &step),
        ActionExecutionStatus::ActionCompleted
    );
    assert_eq!(v.remaining_durability, 7);
    assert_eq!(
        execute_action(&AbilityAction::CostDurability(14), &c, &mut v, &step),
        ActionExecutionStatus::ItemBroke
    );
    assert_eq!(v.remaining_durability, 0);
    assert_eq!(
        execute_action(&AbilityAction::CostDurability(20), &c, &mut v, &step),
        ActionExecutionStatus::ItemBroke
    );
    assert_eq!(v.remaining_durability, -10);
}

#[test]
fn discounted_cost_takes_the_lower_price_when_short() {
    let c = constants();
    let action = AbilityAction::CostDurabilityWithDiscount(DurabilityWithDiscount {
        cost: 20,
        cost_if_too_expensive: 10,
    });
    let mut v = SimulationVariables::new(&c);
    v.remaining_durability = 30;
    assert_eq!(
        execute_action(&action, &c, &mut v, &plain_step()),
        ActionExecutionStatus::ActionCompleted
    );
    assert_eq!(v.remaining_durability, 10);
    assert_eq!(
        execute_action(&action, &c, &mut v, &plain_step()),
        ActionExecutionStatus::ItemBroke
    );
    assert_eq!(v.remaining_durability, 0);
    v.remaining_durability = 15;
    assert_eq!(
        execute_action(&action, &c, &mut v, &plain_step()),
        ActionExecutionStatus::ActionCompleted
    );
    assert_eq!(v.remaining_durability, 5);
    v.remaining_durability = 20;
    assert_eq!(
        execute_action(&action, &c, &mut v, &plain_step()),
        ActionExecutionStatus::ItemBroke
    );
}

#[test]
fn crafting_points_are_granted_up_to_the_ceiling_and_spent() {
    let c = constants();
    let mut v = SimulationVariables::new(&c);
    execute_action(&AbilityAction::CostCP(100), &c, &mut v, &plain_step());
    assert_eq!(v.remaining_cp, 562);
    execute_action(&AbilityAction::GrantCP(20), &c, &mut v, &plain_step());
    assert_eq!(v.remaining_cp, 582);
    execute_action(&AbilityAction::GrantCP(500), &c, &mut v, &plain_step());
    assert_eq!(v.remaining_cp, 662);
    assert!(can_afford_action(&vec![AbilityAction::CostCP(662)], &v));
    assert!(!can_afford_action(&vec![AbilityAction::CostCP(663)], &v));
    assert!(can_afford_action(&vec![AbilityAction::CostDurability(1000)], &v));
}

#[test]
fn inner_quiet_is_consumed_at_twenty_percent_a_level_up_to_three_hundred() {
    let c = constants();
    let mut v = SimulationVariables::new(&c);
    execute_action(&AbilityAction::GrantInnerQuiet, &c, &mut v, &plain_step());
    execute_action(&AbilityAction::GrantInnerQuiet, &c, &mut v, &plain_step());
    assert_eq!(v.inner_quiet_stack, 2);
    execute_action(&AbilityAction::ConsumeInnerQuiet, &c, &mut v, &plain_step());
    assert_eq!(v.current_quality, 80);
    assert_eq!(v.inner_quiet_stack, 0);
    v.inner_quiet_stack = 15;
    v.current_quality = 0;
    execute_action(&AbilityAction::ConsumeInnerQuiet, &c, &mut v, &plain_step());
    assert_eq!(v.current_quality, 600);
    v.inner_quiet_stack = 40;
    v.current_quality = 0;
    execute_action(&AbilityAction::ConsumeInnerQuiet, &c, &mut v, &plain_step());
    assert_eq!(v.current_quality, 600);
}

#[test]
fn progress_completes_the_item_unless_the_floor_holds_it() {
    let c = constants();
    let mut step = plain_step();
    step.base_progress = 1000;
    let mut v = SimulationVariables::new(&c);
    assert_eq!(
        execute_action(&AbilityAction::GrantProgress(100), &c, &mut v, &step),
        ActionExecutionStatus::ActionCompleted
    );
    assert_eq!(v.current_progress, 1000);
    let mut floored = step;
    floored.progress_floor = true;
    assert_eq!(
        execute_action(&AbilityAction::GrantProgress(100), &c, &mut v, &floored),
        ActionExecutionStatus::ActionCompleted
    );
    assert_eq!(v.current_progress, 1779);
    assert_eq!(
        execute_action(&AbilityAction::GrantProgress(100), &c, &mut v, &step),
        ActionExecutionStatus::ItemCompleted
    );
    assert_eq!(v.current_progress, 2779);
}

#[test]
fn combo_is_preferred_while_its_state_is_active() {
    let c = constants();
    let standard = ability_named("Standard Touch");
    let mut v = SimulationVariables::new(&c);
    assert_eq!(
        can_execute_ability(&standard, &c, &v, &plain_step()),
        AbilityExecutionStatus::Available
    );
    let (plain, _) = use_ability(&standard, &c, &v, &plain_step(), &failing()).unwrap();
    assert_eq!(plain.remaining_cp, 662 - 32);
    v.current_state_turns.push(state_effect(AbilityState::BasicTouch, 1));
    assert_eq!(
        can_execute_ability(&standard, &c, &v, &plain_step()),
        AbilityExecutionStatus::ComboAvailable
    );
    let (combo, _) = use_ability(&standard, &c, &v, &plain_step(), &failing()).unwrap();
    assert_eq!(combo.remaining_cp, 662 - 18);
    assert_eq!(combo.current_quality, 250);
    // the combo does not fall back on the base list
    v.remaining_cp = 17;
    assert_eq!(
        can_execute_ability(&standard, &c, &v, &plain_step()),
        AbilityExecutionStatus::NotAvailable
    );
}

#[test]
fn preconditions_gate_the_base_list() {
    let c = constants();
    let v = SimulationVariables::new(&c);
    let mut later = plain_step();
    later.step_number = 2;
    let reflect = ability_named("Reflect");
    assert_eq!(
        can_execute_ability(&reflect, &c, &v, &plain_step()),
        AbilityExecutionStatus::Available
    );
    assert_eq!(
        can_execute_ability(&reflect, &c, &v, &later),
        AbilityExecutionStatus::NotAvailable
    );
    let eye = ability_named("Trained Eye");
    assert_eq!(
        can_execute_ability(&eye, &c, &v, &plain_step()),
        AbilityExecutionStatus::Available
    );
    assert_eq!(can_execute_ability(&eye, &c, &v, &later), AbilityExecutionStatus::NotAvailable);
    let mut near = constants();
    near.class_level = 89;
    assert_eq!(
        can_execute_ability(&eye, &near, &v, &plain_step()),
        AbilityExecutionStatus::NotAvailable
    );
    let tricks = ability_named("Tricks of the Trade");
    assert_eq!(
        can_execute_ability(&tricks, &c, &v, &plain_step()),
        AbilityExecutionStatus::NotAvailable
    );
    let mut good = plain_step();
    good.condition = Condition::Good;
    assert_eq!(can_execute_ability(&tricks, &c, &v, &good), AbilityExecutionStatus::Available);
    good.condition = Condition::Excellent;
    assert_eq!(can_execute_ability(&tricks, &c, &v, &good), AbilityExecutionStatus::Available);
    let prudent = ability_named("Prudent Touch");
    assert_eq!(
        can_execute_ability(&prudent, &c, &v, &plain_step()),
        AbilityExecutionStatus::Available
    );
    let mut wasting = SimulationVariables::new(&c);
    wasting.current_state_turns.push(state_effect(AbilityState::WasteNot, 3));
    assert_eq!(
        can_execute_ability(&prudent, &c, &wasting, &plain_step()),
        AbilityExecutionStatus::NotAvailable
    );
    let finesse = ability_named("Trained Finesse");
    let mut quiet = SimulationVariables::new(&c);
    quiet.inner_quiet_stack = 9;
    assert_eq!(
        can_execute_ability(&finesse, &c, &quiet, &plain_step()),
        AbilityExecutionStatus::NotAvailable
    );
    quiet.inner_quiet_stack = 10;
    assert_eq!(
        can_execute_ability(&finesse, &c, &quiet, &plain_step()),
        AbilityExecutionStatus::Available
    );
}

#[test]
fn chance_part_runs_only_on_success() {
    let c = constants();
    let v = SimulationVariables::new(&c);
    let hasty = ability_named("Hasty Touch");
    let (failed, step) = use_ability(&hasty, &c, &v, &plain_step(), &failing()).unwrap();
    assert_eq!(failed.current_quality, 0);
    assert_eq!(failed.remaining_durability, 70);
    assert_eq!(step.action_success, Some(false));
    let (worked, step) = use_ability(&hasty, &c, &v, &plain_step(), &succeeding()).unwrap();
    assert_eq!(worked.current_quality, 200);
    assert_eq!(worked.inner_quiet_stack, 1);
    assert_eq!(step.action_success, Some(true));
    assert_eq!(step.condition, Condition::Normal);
}

#[test]
fn a_broken_item_fails_unless_it_was_completed() {
    let c = constants();
    let mut v = SimulationVariables::new(&c);
    v.remaining_durability = 10;
    let basic = ability_named("Basic Synthesis");
    assert!(use_ability(&basic, &c, &v, &plain_step(), &failing()).is_err());
    let mut strong = plain_step();
    strong.base_progress = 2000;
    let (done, _) = use_ability(&basic, &c, &v, &strong, &failing()).unwrap();
    assert_eq!(done.remaining_durability, 0);
    assert_eq!(done.current_progress, 2400);
    // the variables that were passed in are untouched
    assert_eq!(v.remaining_durability, 10);
    assert_eq!(v.current_progress, 0);
}

#[test]
fn limited_effects_lose_a_use_to_matching_abilities() {
    let c = constants();
    let mut v = SimulationVariables::new(&c);
    v.current_state_turns.push(AbilityEffectTurns {
        effect: AbilityEffect::Action(AbilityEffectAction::IncreaseTouchEfficiency(100)),
        limit: Some(AbilityEffectLimit { apply_to: AbilityType::touch(), uses: 2 }),
        turns: 3,
    });
    let (after_touch, _) =
        use_ability(&ability_named("Basic Touch"), &c, &v, &plain_step(), &failing()).unwrap();
    assert_eq!(after_touch.current_state_turns[0].limit.unwrap().uses, 1);
    let (after_synthesis, _) =
        use_ability(&ability_named("Basic Synthesis"), &c, &v, &plain_step(), &failing())
            .unwrap();
    assert_eq!(after_synthesis.current_state_turns[0].limit.unwrap().uses, 2);
    let (after_both, _) =
        use_ability(&ability_named("Delicate Synthesis"), &c, &v, &plain_step(), &failing())
            .unwrap();
    assert_eq!(after_both.current_state_turns[0].limit.unwrap().uses, 1);
}

#[test]
fn turn_start_purges_ages_and_folds_effects() {
    let c = constants();
    let mut v = SimulationVariables::new(&c);
    v.remaining_durability = 50;
    v.current_state_turns = vec![
        state_effect(AbilityState::WasteNot, 0),
        AbilityEffectTurns {
            effect: AbilityEffect::Action(AbilityEffectAction::ReduceDurabilityCost(50)),
            limit: None,
            turns: 2,
        },
        AbilityEffectTurns {
            effect: AbilityEffect::Action(AbilityEffectAction::IncreaseTouchEfficiency(150)),
            limit: Some(AbilityEffectLimit { apply_to: AbilityType::touch(), uses: 0 }),
            turns: 3,
        },
        AbilityEffectTurns {
            effect: AbilityEffect::Action(AbilityEffectAction::GrantDurability(5)),
            limit: None,
            turns: 1,
        },
        AbilityEffectTurns {
            effect: AbilityEffect::Action(AbilityEffectAction::IncreaseSynthesisEfficiency(50)),
            limit: None,
            turns: 4,
        },
        AbilityEffectTurns {
            effect: AbilityEffect::Action(AbilityEffectAction::ProgressFloor),
            limit: Some(AbilityEffectLimit { apply_to: AbilityType::touch(), uses: 1 }),
            turns: 4,
        },
    ];
    let steps = vec![SimulationStep {
        ability: "Observe",
        condition: Condition::Normal,
        action_success: None,
    }];
    let (step, next) = next_step_variables(&c, &v, &failing(), &steps);
    assert_eq!(step.step_number, 2);
    assert_eq!(step.condition, Condition::Normal);
    assert_eq!(step.durability_scale, 50);
    assert!(step.progress_floor);
    // (1 + 0.05 * 10) * (0.21 * 3226 + 1.6) = 1018.59, halved
    assert_eq!(step.base_progress, 509);
    // (1 + 0.05 * 10) * (0.36 * 3556 + 34) = 1971.24
    assert_eq!(step.base_quality, 1971);
    assert_eq!(next.remaining_durability, 55);
    assert_eq!(next.current_state_turns.len(), 4);
    assert_eq!(next.current_state_turns[0].turns, 1);
    assert_eq!(next.current_state_turns[1].turns, 0);
    assert_eq!(next.current_state_turns[2].turns, 3);
    // a limited effect wears off by use, not by turns
    assert_eq!(next.current_state_turns[3].turns, 4);
    // the variables that were passed in are untouched
    assert_eq!(v.current_state_turns.len(), 6);
    assert_eq!(v.remaining_durability, 50);
}

#[test]
fn durability_scales_multiply() {
    let c = constants();
    let mut v = SimulationVariables::new(&c);
    v.current_state_turns = vec![
        AbilityEffectTurns {
            effect: AbilityEffect::Action(AbilityEffectAction::ReduceDurabilityCost(50)),
            limit: None,
            turns: 2,
        },
        AbilityEffectTurns {
            effect: AbilityEffect::Action(AbilityEffectAction::ReduceDurabilityCost(80)),
            limit: None,
            turns: 2,
        },
    ];
    let (step, _) = next_step_variables(&c, &v, &failing(), &vec![]);
    assert_eq!(step.step_number, 1);
    assert_eq!(step.durability_scale, 40);
}

#[test]
fn states_stay_within_their_limits_turn_after_turn() {
    let c = constants();
    let mut v = SimulationVariables::new(&c);
    let mut steps: Vec<SimulationStep> = vec![];
    for name in ["Manipulation", "Waste Not", "Basic Touch", "Master's Mend", "Tricks of the Trade"]
    {
        let generator = SimulationRandomnessGenerator::from_results(Condition::Good, false);
        let (step, start) = next_step_variables(&c, &v, &generator, &steps);
        assert!(0 <= start.remaining_durability && start.remaining_durability <= 80);
        let (next, record) =
            use_ability(&ability_named(name), &c, &start, &step, &generator).unwrap();
        assert!(0 <= next.remaining_durability && next.remaining_durability <= 80);
        assert!(next.remaining_cp <= 662);
        v = next;
        steps.push(record);
    }
    assert_eq!(steps.len(), 5);
}

#[test]
fn malformed_abilities_are_recognised() {
    for ability in get_all_abilities() {
        assert!(ability.is_well_formed());
    }
    let mut twice = ability_named("Basic Touch");
    twice.action.action.push(AbilityAction::CostCP(1));
    assert!(!twice.is_well_formed());
    let mut unchecked = ability_named("Hasty Touch");
    unchecked.action.action_success =
        Some(SuccessAction { rate: 60, action: vec![AbilityAction::CostCP(1)] });
    assert!(!unchecked.is_well_formed());
    let mut thirsty = ability_named("Basic Touch");
    thirsty.action.action.insert(0, AbilityAction::ConsumeInnerQuiet);
    assert!(!thirsty.is_well_formed());
    let mut fed = ability_named("Basic Touch");
    fed.action.action.push(AbilityAction::ConsumeInnerQuiet);
    assert!(fed.is_well_formed());
    let mut combo = ability_named("Byregot's Blessing");
    combo.combo_action = Some(ComboAction {
        required_state: AbilityState::Observing,
        action_success: None,
        action: vec![AbilityAction::ConsumeInnerQuiet],
    });
    assert!(!combo.is_well_formed());
    let plain = Ability {
        name: "Nothing",
        ability_type: AbilityType::none(),
        required_level: 1,
        required_class_quest: 1,
        required_state: RequiredState::Always,
        action: BaseAction { action_success: None, action: vec![] },
        combo_action: None,
    };
    assert!(plain.is_well_formed());
    assert_eq!(plain.duplicate().name, "Nothing");
}
