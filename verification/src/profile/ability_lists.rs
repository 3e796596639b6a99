use vstd::prelude::*;

use super::abilities::{
    Ability, AbilityAction, AbilityEffect, AbilityEffectAction, AbilityEffectLimit,
    AbilityEffectTurns, AbilityModel, AbilityState, AbilityType, ActionListModel, BaseAction,
    lemma_scanned_well_formed, quiet_at, scan_sound, ComboAction, DurabilityWithDiscount,
    RequiredState, SuccessAction, TYPE_SYNTHESIS, TYPE_SYNTHESIS_BUFF, TYPE_TOUCH,
    TYPE_TOUCH_BUFF,
};
use super::classes::CraftingClassStats;

verus! {

/// Basic Synthesis.
pub open spec fn basic_synthesis() -> AbilityModel {
    AbilityModel {
        name: "Basic Synthesis"@,
        ability_type: AbilityType { bits: TYPE_SYNTHESIS },
        required_level: 1,
        required_class_quest: 1,
        required_state: RequiredState::Always,
        base: ActionListModel {
            action: seq![
                AbilityAction::CostDurability(10),
                AbilityAction::GrantProgress(120),
            ],
            chance: None,
        },
        combo: None,
    }
}

fn make_basic_synthesis() -> (a: Ability)
    ensures
        a@ == basic_synthesis(),
        a.well_formed(),
{
    let mut action: Vec<AbilityAction> = Vec::new();
    action.push(AbilityAction::CostDurability(10));
    action.push(AbilityAction::GrantProgress(120));
    let a = Ability {
        name: "Basic Synthesis",
        ability_type: AbilityType { bits: TYPE_SYNTHESIS },
        required_level: 1,
        required_class_quest: 1,
        required_state: RequiredState::Always,
        action: BaseAction { action_success: None, action },
        combo_action: None,
    };
    proof {
        reveal_with_fuel(scan_sound, 8);
        reveal_with_fuel(quiet_at, 8);
        lemma_scanned_well_formed(a);
        assert(a@.base.action =~= basic_synthesis().base.action);
    }
    a
}

/// Basic Touch.
pub open spec fn basic_touch() -> AbilityModel {
    AbilityModel {
        name: "Basic Touch"@,
        ability_type: AbilityType { bits: TYPE_TOUCH },
        required_level: 5,
        required_class_quest: 1,
        required_state: RequiredState::Always,
        base: ActionListModel {
            action: seq![
                AbilityAction::CostCP(18),
                AbilityAction::CostDurability(10),
                AbilityAction::GrantQuality(100),
                AbilityAction::GrantInnerQuiet,
                AbilityAction::GrantEffect(AbilityEffectTurns { effect: AbilityEffect::State(AbilityState::BasicTouch), limit: None, turns: 1 }),
            ],
            chance: None,
        },
        combo: None,
    }
}

fn make_basic_touch() -> (a: Ability)
    ensures
        a@ == basic_touch(),
        a.well_formed(),
{
    let mut action: Vec<AbilityAction> = Vec::new();
    action.push(AbilityAction::CostCP(18));
    action.push(AbilityAction::CostDurability(10));
    action.push(AbilityAction::GrantQuality(100));
    action.push(AbilityAction::GrantInnerQuiet);
    action.push(AbilityAction::GrantEffect(AbilityEffectTurns { effect: AbilityEffect::State(AbilityState::BasicTouch), limit: None, turns: 1 }));
    let a = Ability {
        name: "Basic Touch",
        ability_type: AbilityType { bits: TYPE_TOUCH },
        required_level: 5,
        required_class_quest: 1,
        required_state: RequiredState::Always,
        action: BaseAction { action_success: None, action },
        combo_action: None,
    };
    proof {
        reveal_with_fuel(scan_sound, 8);
        reveal_with_fuel(quiet_at, 8);
        lemma_scanned_well_formed(a);
        assert(a@.base.action =~= basic_touch().base.action);
    }
    a
}

/// Master's Mend.
pub open spec fn masters_mend() -> AbilityModel {
    AbilityModel {
        name: "Master's Mend"@,
        ability_type: AbilityType { bits: TYPE_TOUCH_BUFF | TYPE_SYNTHESIS_BUFF },
        required_level: 7,
        required_class_quest: 1,
        required_state: RequiredState::Always,
        base: ActionListModel {
            action: seq![
                AbilityAction::CostCP(88),
                AbilityAction::GrantDurability(30),
            ],
            chance: None,
        },
        combo: None,
    }
}

fn make_masters_mend() -> (a: Ability)
    ensures
        a@ == masters_mend(),
        a.well_formed(),
{
    let mut action: Vec<AbilityAction> = Vec::new();
    action.push(AbilityAction::CostCP(88));
    action.push(AbilityAction::GrantDurability(30));
    let a = Ability {
        name: "Master's Mend",
        ability_type: AbilityType { bits: TYPE_TOUCH_BUFF | TYPE_SYNTHESIS_BUFF },
        required_level: 7,
        required_class_quest: 1,
        required_state: RequiredState::Always,
        action: BaseAction { action_success: None, action },
        combo_action: None,
    };
    proof {
        reveal_with_fuel(scan_sound, 8);
        reveal_with_fuel(quiet_at, 8);
        lemma_scanned_well_formed(a);
        assert(a@.base.action =~= masters_mend().base.action);
    }
    a
}

/// Hasty Touch.
pub open spec fn hasty_touch() -> AbilityModel {
    AbilityModel {
        name: "Hasty Touch"@,
        ability_type: AbilityType { bits: TYPE_TOUCH },
        required_level: 9,
        required_class_quest: 1,
        required_state: RequiredState::Always,
        base: ActionListModel {
            action: seq![
                AbilityAction::CostDurability(10),
            ],
            chance: Some((60u32, seq![
                AbilityAction::GrantQuality(100),
                AbilityAction::GrantInnerQuiet,
            ])),
        },
        combo: None,
    }
}

fn make_hasty_touch() -> (a: Ability)
    ensures
        a@ == hasty_touch(),
        a.well_formed(),
{
    let mut action: Vec<AbilityAction> = Vec::new();
    action.push(AbilityAction::CostDurability(10));
    let mut bonus: Vec<AbilityAction> = Vec::new();
    bonus.push(AbilityAction::GrantQuality(100));
    bonus.push(AbilityAction::GrantInnerQuiet);
    let a = Ability {
        name: "Hasty Touch",
        ability_type: AbilityType { bits: TYPE_TOUCH },
        required_level: 9,
        required_class_quest: 1,
        required_state: RequiredState::Always,
        action: BaseAction { action_success: Some(SuccessAction { rate: 60, action: bonus }), action },
        combo_action: None,
    };
    proof {
        reveal_with_fuel(scan_sound, 8);
        reveal_with_fuel(quiet_at, 8);
        lemma_scanned_well_formed(a);
        assert(a@.base.action =~= hasty_touch().base.action);
        assert(a@.base.chance.unwrap().1 =~= hasty_touch().base.chance.unwrap().1);
    }
    a
}

/// Rapid Synthesis.
pub open spec fn rapid_synthesis() -> AbilityModel {
    AbilityModel {
        name: "Rapid Synthesis"@,
        ability_type: AbilityType { bits: TYPE_SYNTHESIS },
        required_level: 9,
        required_class_quest: 1,
        required_state: RequiredState::Always,
        base: ActionListModel {
            action: seq![
                AbilityAction::CostDurability(10),
            ],
            chance: Some((50u32, seq![
                AbilityAction::GrantProgress(250),
            ])),
        },
        combo: None,
    }
}

fn make_rapid_synthesis() -> (a: Ability)
    ensures
        a@ == rapid_synthesis(),
        a.well_formed(),
{
    let mut action: Vec<AbilityAction> = Vec::new();
    action.push(AbilityAction::CostDurability(10));
    let mut bonus: Vec<AbilityAction> = Vec::new();
    bonus.push(AbilityAction::GrantProgress(250));
    let a = Ability {
        name: "Rapid Synthesis",
        ability_type: AbilityType { bits: TYPE_SYNTHESIS },
        required_level: 9,
        required_class_quest: 1,
        required_state: RequiredState::Always,
        action: BaseAction { action_success: Some(SuccessAction { rate: 50, action: bonus }), action },
        combo_action: None,
    };
    proof {
        reveal_with_fuel(scan_sound, 8);
        reveal_with_fuel(quiet_at, 8);
        lemma_scanned_well_formed(a);
        assert(a@.base.action =~= rapid_synthesis().base.action);
        assert(a@.base.chance.unwrap().1 =~= rapid_synthesis().base.chance.unwrap().1);
    }
    a
}

/// Observe.
pub open spec fn observe() -> AbilityModel {
    AbilityModel {
        name: "Observe"@,
        ability_type: AbilityType { bits: TYPE_TOUCH_BUFF | TYPE_SYNTHESIS_BUFF },
        required_level: 13,
        required_class_quest: 1,
        required_state: RequiredState::Always,
        base: ActionListModel {
            action: seq![
                AbilityAction::CostCP(12),
                AbilityAction::GrantEffect(AbilityEffectTurns { effect: AbilityEffect::State(AbilityState::Observing), limit: None, turns: 1 }),
            ],
            chance: None,
        },
        combo: None,
    }
}

fn make_observe() -> (a: Ability)
    ensures
        a@ == observe(),
        a.well_formed(),
{
    let mut action: Vec<AbilityAction> = Vec::new();
    action.push(AbilityAction::CostCP(12));
    action.push(AbilityAction::GrantEffect(AbilityEffectTurns { effect: AbilityEffect::State(AbilityState::Observing), limit: None, turns: 1 }));
    let a = Ability {
        name: "Observe",
        ability_type: AbilityType { bits: TYPE_TOUCH_BUFF | TYPE_SYNTHESIS_BUFF },
        required_level: 13,
        required_class_quest: 1,
        required_state: RequiredState::Always,
        action: BaseAction { action_success: None, action },
        combo_action: None,
    };
    proof {
        reveal_with_fuel(scan_sound, 8);
        reveal_with_fuel(quiet_at, 8);
        lemma_scanned_well_formed(a);
        assert(a@.base.action =~= observe().base.action);
    }
    a
}

/// Tricks of the Trade.
pub open spec fn tricks_of_the_trade() -> AbilityModel {
    AbilityModel {
        name: "Tricks of the Trade"@,
        ability_type: AbilityType { bits: TYPE_TOUCH_BUFF | TYPE_SYNTHESIS_BUFF },
        required_level: 13,
        required_class_quest: 1,
        required_state: RequiredState::ConditionGood,
        base: ActionListModel {
            action: seq![
                AbilityAction::GrantCP(20),
            ],
            chance: None,
        },
        combo: None,
    }
}

fn make_tricks_of_the_trade() -> (a: Ability)
    ensures
        a@ == tricks_of_the_trade(),
        a.well_formed(),
{
    let mut action: Vec<AbilityAction> = Vec::new();
    action.push(AbilityAction::GrantCP(20));
    let a = Ability {
        name: "Tricks of the Trade",
        ability_type: AbilityType { bits: TYPE_TOUCH_BUFF | TYPE_SYNTHESIS_BUFF },
        required_level: 13,
        required_class_quest: 1,
        required_state: RequiredState::ConditionGood,
        action: BaseAction { action_success: None, action },
        combo_action: None,
    };
    proof {
        reveal_with_fuel(scan_sound, 8);
        reveal_with_fuel(quiet_at, 8);
        lemma_scanned_well_formed(a);
        assert(a@.base.action =~= tricks_of_the_trade().base.action);
    }
    a
}

/// Waste Not.
pub open spec fn waste_not() -> AbilityModel {
    AbilityModel {
        name: "Waste Not"@,
        ability_type: AbilityType { bits: TYPE_TOUCH_BUFF | TYPE_SYNTHESIS_BUFF },
        required_level: 15,
        required_class_quest: 1,
        required_state: RequiredState::Always,
        base: ActionListModel {
            action: seq![
                AbilityAction::CostCP(56),
                AbilityAction::CostDurability(10),
                AbilityAction::GrantEffect(AbilityEffectTurns { effect: AbilityEffect::Action(AbilityEffectAction::ReduceDurabilityCost(50)), limit: None, turns: 4 }),
                AbilityAction::GrantEffect(AbilityEffectTurns { effect: AbilityEffect::State(AbilityState::WasteNot), limit: None, turns: 4 }),
            ],
            chance: None,
        },
        combo: None,
    }
}

fn make_waste_not() -> (a: Ability)
    ensures
        a@ == waste_not(),
        a.well_formed(),
{
    let mut action: Vec<AbilityAction> = Vec::new();
    action.push(AbilityAction::CostCP(56));
    action.push(AbilityAction::CostDurability(10));
    action.push(AbilityAction::GrantEffect(AbilityEffectTurns { effect: AbilityEffect::Action(AbilityEffectAction::ReduceDurabilityCost(50)), limit: None, turns: 4 }));
    action.push(AbilityAction::GrantEffect(AbilityEffectTurns { effect: AbilityEffect::State(AbilityState::WasteNot), limit: None, turns: 4 }));
    let a = Ability {
        name: "Waste Not",
        ability_type: AbilityType { bits: TYPE_TOUCH_BUFF | TYPE_SYNTHESIS_BUFF },
        required_level: 15,
        required_class_quest: 1,
        required_state: RequiredState::Always,
        action: BaseAction { action_success: None, action },
        combo_action: None,
    };
    proof {
        reveal_with_fuel(scan_sound, 8);
        reveal_with_fuel(quiet_at, 8);
        lemma_scanned_well_formed(a);
        assert(a@.base.action =~= waste_not().base.action);
    }
    a
}

/// Veneration.
pub open spec fn veneration() -> AbilityModel {
    AbilityModel {
        name: "Veneration"@,
        ability_type: AbilityType { bits: TYPE_SYNTHESIS_BUFF },
        required_level: 15,
        required_class_quest: 1,
        required_state: RequiredState::Always,
        base: ActionListModel {
            action: seq![
                AbilityAction::CostCP(18),
                AbilityAction::CostDurability(10),
                AbilityAction::GrantEffect(AbilityEffectTurns { effect: AbilityEffect::Action(AbilityEffectAction::IncreaseSynthesisEfficiency(50)), limit: None, turns: 4 }),
            ],
            chance: None,
        },
        combo: None,
    }
}

fn make_veneration() -> (a: Ability)
    ensures
        a@ == veneration(),
        a.well_formed(),
{
    let mut action: Vec<AbilityAction> = Vec::new();
    action.push(AbilityAction::CostCP(18));
    action.push(AbilityAction::CostDurability(10));
    action.push(AbilityAction::GrantEffect(AbilityEffectTurns { effect: AbilityEffect::Action(AbilityEffectAction::IncreaseSynthesisEfficiency(50)), limit: None, turns: 4 }));
    let a = Ability {
        name: "Veneration",
        ability_type: AbilityType { bits: TYPE_SYNTHESIS_BUFF },
        required_level: 15,
        required_class_quest: 1,
        required_state: RequiredState::Always,
        action: BaseAction { action_success: None, action },
        combo_action: None,
    };
    proof {
        reveal_with_fuel(scan_sound, 8);
        reveal_with_fuel(quiet_at, 8);
        lemma_scanned_well_formed(a);
        assert(a@.base.action =~= veneration().base.action);
    }
    a
}

/// Standard Touch.
pub open spec fn standard_touch() -> AbilityModel {
    AbilityModel {
        name: "Standard Touch"@,
        ability_type: AbilityType { bits: TYPE_TOUCH },
        required_level: 18,
        required_class_quest: 1,
        required_state: RequiredState::Always,
        base: ActionListModel {
            action: seq![
                AbilityAction::CostCP(32),
                AbilityAction::CostDurability(10),
                AbilityAction::GrantQuality(125),
                AbilityAction::GrantInnerQuiet,
            ],
            chance: None,
        },
        combo: Some(
            (
                AbilityState::BasicTouch,
                ActionListModel { action: seq![
                AbilityAction::CostCP(18),
                AbilityAction::CostDurability(10),
                AbilityAction::GrantQuality(125),
                AbilityAction::GrantInnerQuiet,
            ], chance: None },
            ),
        ),
    }
}

fn make_standard_touch() -> (a: Ability)
    ensures
        a@ == standard_touch(),
        a.well_formed(),
{
    let mut action: Vec<AbilityAction> = Vec::new();
    action.push(AbilityAction::CostCP(32));
    action.push(AbilityAction::CostDurability(10));
    action.push(AbilityAction::GrantQuality(125));
    action.push(AbilityAction::GrantInnerQuiet);
    let mut combo: Vec<AbilityAction> = Vec::new();
    combo.push(AbilityAction::CostCP(18));
    combo.push(AbilityAction::CostDurability(10));
    combo.push(AbilityAction::GrantQuality(125));
    combo.push(AbilityAction::GrantInnerQuiet);
    let a = Ability {
        name: "Standard Touch",
        ability_type: AbilityType { bits: TYPE_TOUCH },
        required_level: 18,
        required_class_quest: 1,
        required_state: RequiredState::Always,
        action: BaseAction { action_success: None, action },
        combo_action: Some(ComboAction { required_state: AbilityState::BasicTouch, action_success: None, action: combo }),
    };
    proof {
        reveal_with_fuel(scan_sound, 8);
        reveal_with_fuel(quiet_at, 8);
        lemma_scanned_well_formed(a);
        assert(a@.base.action =~= standard_touch().base.action);
        assert(a@.combo.unwrap().1.action =~= standard_touch().combo.unwrap().1.action);
    }
    a
}

/// Great Strides.
pub open spec fn great_strides() -> AbilityModel {
    AbilityModel {
        name: "Great Strides"@,
        ability_type: AbilityType { bits: TYPE_TOUCH_BUFF },
        required_level: 21,
        required_class_quest: 1,
        required_state: RequiredState::Always,
        base: ActionListModel {
            action: seq![
                AbilityAction::CostCP(32),
                AbilityAction::CostDurability(10),
                AbilityAction::GrantEffect(AbilityEffectTurns { effect: AbilityEffect::Action(AbilityEffectAction::IncreaseTouchEfficiency(100)), limit: Some(AbilityEffectLimit { apply_to: AbilityType { bits: TYPE_TOUCH }, uses: 1 }), turns: 3 }),
            ],
            chance: None,
        },
        combo: None,
    }
}

fn make_great_strides() -> (a: Ability)
    ensures
        a@ == great_strides(),
        a.well_formed(),
{
    let mut action: Vec<AbilityAction> = Vec::new();
    action.push(AbilityAction::CostCP(32));
    action.push(AbilityAction::CostDurability(10));
    action.push(AbilityAction::GrantEffect(AbilityEffectTurns { effect: AbilityEffect::Action(AbilityEffectAction::IncreaseTouchEfficiency(100)), limit: Some(AbilityEffectLimit { apply_to: AbilityType { bits: TYPE_TOUCH }, uses: 1 }), turns: 3 }));
    let a = Ability {
        name: "Great Strides",
        ability_type: AbilityType { bits: TYPE_TOUCH_BUFF },
        required_level: 21,
        required_class_quest: 1,
        required_state: RequiredState::Always,
        action: BaseAction { action_success: None, action },
        combo_action: None,
    };
    proof {
        reveal_with_fuel(scan_sound, 8);
        reveal_with_fuel(quiet_at, 8);
        lemma_scanned_well_formed(a);
        assert(a@.base.action =~= great_strides().base.action);
    }
    a
}

/// Innovation.
pub open spec fn innovation() -> AbilityModel {
    AbilityModel {
        name: "Innovation"@,
        ability_type: AbilityType { bits: TYPE_TOUCH_BUFF },
        required_level: 26,
        required_class_quest: 1,
        required_state: RequiredState::Always,
        base: ActionListModel {
            action: seq![
                AbilityAction::CostCP(18),
                AbilityAction::CostDurability(10),
                AbilityAction::GrantEffect(AbilityEffectTurns { effect: AbilityEffect::Action(AbilityEffectAction::IncreaseTouchEfficiency(50)), limit: None, turns: 4 }),
            ],
            chance: None,
        },
        combo: None,
    }
}

fn make_innovation() -> (a: Ability)
    ensures
        a@ == innovation(),
        a.well_formed(),
{
    let mut action: Vec<AbilityAction> = Vec::new();
    action.push(AbilityAction::CostCP(18));
    action.push(AbilityAction::CostDurability(10));
    action.push(AbilityAction::GrantEffect(AbilityEffectTurns { effect: AbilityEffect::Action(AbilityEffectAction::IncreaseTouchEfficiency(50)), limit: None, turns: 4 }));
    let a = Ability {
        name: "Innovation",
        ability_type: AbilityType { bits: TYPE_TOUCH_BUFF },
        required_level: 26,
        required_class_quest: 1,
        required_state: RequiredState::Always,
        action: BaseAction { action_success: None, action },
        combo_action: None,
    };
    proof {
        reveal_with_fuel(scan_sound, 8);
        reveal_with_fuel(quiet_at, 8);
        lemma_scanned_well_formed(a);
        assert(a@.base.action =~= innovation().base.action);
    }
    a
}

/// Final Appraisal.
pub open spec fn final_appraisal() -> AbilityModel {
    AbilityModel {
        name: "Final Appraisal"@,
        ability_type: AbilityType { bits: TYPE_TOUCH_BUFF | TYPE_SYNTHESIS_BUFF },
        required_level: 42,
        required_class_quest: 1,
        required_state: RequiredState::Always,
        base: ActionListModel {
            action: seq![
                AbilityAction::CostCP(1),
                AbilityAction::GrantEffect(AbilityEffectTurns { effect: AbilityEffect::Action(AbilityEffectAction::ProgressFloor), limit: Some(AbilityEffectLimit { apply_to: AbilityType { bits: TYPE_TOUCH }, uses: 1 }), turns: 4 }),
            ],
            chance: None,
        },
        combo: None,
    }
}

fn make_final_appraisal() -> (a: Ability)
    ensures
        a@ == final_appraisal(),
        a.well_formed(),
{
    let mut action: Vec<AbilityAction> = Vec::new();
    action.push(AbilityAction::CostCP(1));
    action.push(AbilityAction::GrantEffect(AbilityEffectTurns { effect: AbilityEffect::Action(AbilityEffectAction::ProgressFloor), limit: Some(AbilityEffectLimit { apply_to: AbilityType { bits: TYPE_TOUCH }, uses: 1 }), turns: 4 }));
    let a = Ability {
        name: "Final Appraisal",
        ability_type: AbilityType { bits: TYPE_TOUCH_BUFF | TYPE_SYNTHESIS_BUFF },
        required_level: 42,
        required_class_quest: 1,
        required_state: RequiredState::Always,
        action: BaseAction { action_success: None, action },
        combo_action: None,
    };
    proof {
        reveal_with_fuel(scan_sound, 8);
        reveal_with_fuel(quiet_at, 8);
        lemma_scanned_well_formed(a);
        assert(a@.base.action =~= final_appraisal().base.action);
    }
    a
}

/// Waste Not II.
pub open spec fn waste_not_ii() -> AbilityModel {
    AbilityModel {
        name: "Waste Not II"@,
        ability_type: AbilityType { bits: TYPE_TOUCH_BUFF | TYPE_SYNTHESIS_BUFF },
        required_level: 47,
        required_class_quest: 1,
        required_state: RequiredState::Always,
        base: ActionListModel {
            action: seq![
                AbilityAction::CostCP(98),
                AbilityAction::CostDurability(10),
                AbilityAction::GrantEffect(AbilityEffectTurns { effect: AbilityEffect::Action(AbilityEffectAction::ReduceDurabilityCost(50)), limit: None, turns: 8 }),
                AbilityAction::GrantEffect(AbilityEffectTurns { effect: AbilityEffect::State(AbilityState::WasteNot), limit: None, turns: 8 }),
            ],
            chance: None,
        },
        combo: None,
    }
}

fn make_waste_not_ii() -> (a: Ability)
    ensures
        a@ == waste_not_ii(),
        a.well_formed(),
{
    let mut action: Vec<AbilityAction> = Vec::new();
    action.push(AbilityAction::CostCP(98));
    action.push(AbilityAction::CostDurability(10));
    action.push(AbilityAction::GrantEffect(AbilityEffectTurns { effect: AbilityEffect::Action(AbilityEffectAction::ReduceDurabilityCost(50)), limit: None, turns: 8 }));
    action.push(AbilityAction::GrantEffect(AbilityEffectTurns { effect: AbilityEffect::State(AbilityState::WasteNot), limit: None, turns: 8 }));
    let a = Ability {
        name: "Waste Not II",
        ability_type: AbilityType { bits: TYPE_TOUCH_BUFF | TYPE_SYNTHESIS_BUFF },
        required_level: 47,
        required_class_quest: 1,
        required_state: RequiredState::Always,
        action: BaseAction { action_success: None, action },
        combo_action: None,
    };
    proof {
        reveal_with_fuel(scan_sound, 8);
        reveal_with_fuel(quiet_at, 8);
        lemma_scanned_well_formed(a);
        assert(a@.base.action =~= waste_not_ii().base.action);
    }
    a
}

/// Byregot's Blessing.
pub open spec fn byregots_blessing() -> AbilityModel {
    AbilityModel {
        name: "Byregot's Blessing"@,
        ability_type: AbilityType { bits: TYPE_TOUCH },
        required_level: 50,
        required_class_quest: 1,
        required_state: RequiredState::InnerQuiet(1),
        base: ActionListModel {
            action: seq![
                AbilityAction::CostCP(24),
                AbilityAction::ConsumeInnerQuiet,
            ],
            chance: None,
        },
        combo: None,
    }
}

fn make_byregots_blessing() -> (a: Ability)
    ensures
        a@ == byregots_blessing(),
        a.well_formed(),
{
    let mut action: Vec<AbilityAction> = Vec::new();
    action.push(AbilityAction::CostCP(24));
    action.push(AbilityAction::ConsumeInnerQuiet);
    let a = Ability {
        name: "Byregot's Blessing",
        ability_type: AbilityType { bits: TYPE_TOUCH },
        required_level: 50,
        required_class_quest: 1,
        required_state: RequiredState::InnerQuiet(1),
        action: BaseAction { action_success: None, action },
        combo_action: None,
    };
    proof {
        reveal_with_fuel(scan_sound, 8);
        reveal_with_fuel(quiet_at, 8);
        lemma_scanned_well_formed(a);
        assert(a@.base.action =~= byregots_blessing().base.action);
    }
    a
}

/// Precise Touch.
pub open spec fn precise_touch() -> AbilityModel {
    AbilityModel {
        name: "Precise Touch"@,
        ability_type: AbilityType { bits: TYPE_TOUCH },
        required_level: 53,
        required_class_quest: 1,
        required_state: RequiredState::ConditionGood,
        base: ActionListModel {
            action: seq![
                AbilityAction::CostCP(18),
                AbilityAction::CostDurability(10),
                AbilityAction::GrantQuality(150),
                AbilityAction::GrantInnerQuiet,
                AbilityAction::GrantInnerQuiet,
            ],
            chance: None,
        },
        combo: None,
    }
}

fn make_precise_touch() -> (a: Ability)
    ensures
        a@ == precise_touch(),
        a.well_formed(),
{
    let mut action: Vec<AbilityAction> = Vec::new();
    action.push(AbilityAction::CostCP(18));
    action.push(AbilityAction::CostDurability(10));
    action.push(AbilityAction::GrantQuality(150));
    action.push(AbilityAction::GrantInnerQuiet);
    action.push(AbilityAction::GrantInnerQuiet);
    let a = Ability {
        name: "Precise Touch",
        ability_type: AbilityType { bits: TYPE_TOUCH },
        required_level: 53,
        required_class_quest: 1,
        required_state: RequiredState::ConditionGood,
        action: BaseAction { action_success: None, action },
        combo_action: None,
    };
    proof {
        reveal_with_fuel(scan_sound, 8);
        reveal_with_fuel(quiet_at, 8);
        lemma_scanned_well_formed(a);
        assert(a@.base.action =~= precise_touch().base.action);
    }
    a
}

/// Muscle Memory.
pub open spec fn muscle_memory() -> AbilityModel {
    AbilityModel {
        name: "Muscle Memory"@,
        ability_type: AbilityType { bits: TYPE_SYNTHESIS },
        required_level: 54,
        required_class_quest: 1,
        required_state: RequiredState::FirstStep,
        base: ActionListModel {
            action: seq![
                AbilityAction::CostCP(6),
                AbilityAction::CostDurability(10),
                AbilityAction::GrantProgress(300),
                AbilityAction::GrantEffect(AbilityEffectTurns { effect: AbilityEffect::Action(AbilityEffectAction::IncreaseSynthesisEfficiency(100)), limit: None, turns: 5 }),
            ],
            chance: None,
        },
        combo: None,
    }
}

fn make_muscle_memory() -> (a: Ability)
    ensures
        a@ == muscle_memory(),
        a.well_formed(),
{
    let mut action: Vec<AbilityAction> = Vec::new();
    action.push(AbilityAction::CostCP(6));
    action.push(AbilityAction::CostDurability(10));
    action.push(AbilityAction::GrantProgress(300));
    action.push(AbilityAction::GrantEffect(AbilityEffectTurns { effect: AbilityEffect::Action(AbilityEffectAction::IncreaseSynthesisEfficiency(100)), limit: None, turns: 5 }));
    let a = Ability {
        name: "Muscle Memory",
        ability_type: AbilityType { bits: TYPE_SYNTHESIS },
        required_level: 54,
        required_class_quest: 1,
        required_state: RequiredState::FirstStep,
        action: BaseAction { action_success: None, action },
        combo_action: None,
    };
    proof {
        reveal_with_fuel(scan_sound, 8);
        reveal_with_fuel(quiet_at, 8);
        lemma_scanned_well_formed(a);
        assert(a@.base.action =~= muscle_memory().base.action);
    }
    a
}

/// Careful Synthesis.
pub open spec fn careful_synthesis() -> AbilityModel {
    AbilityModel {
        name: "Careful Synthesis"@,
        ability_type: AbilityType { bits: TYPE_SYNTHESIS },
        required_level: 62,
        required_class_quest: 1,
        required_state: RequiredState::Always,
        base: ActionListModel {
            action: seq![
                AbilityAction::CostCP(7),
                AbilityAction::CostDurability(10),
                AbilityAction::GrantProgress(150),
            ],
            chance: None,
        },
        combo: None,
    }
}

fn make_careful_synthesis() -> (a: Ability)
    ensures
        a@ == careful_synthesis(),
        a.well_formed(),
{
    let mut action: Vec<AbilityAction> = Vec::new();
    action.push(AbilityAction::CostCP(7));
    action.push(AbilityAction::CostDurability(10));
    action.push(AbilityAction::GrantProgress(150));
    let a = Ability {
        name: "Careful Synthesis",
        ability_type: AbilityType { bits: TYPE_SYNTHESIS },
        required_level: 62,
        required_class_quest: 1,
        required_state: RequiredState::Always,
        action: BaseAction { action_success: None, action },
        combo_action: None,
    };
    proof {
        reveal_with_fuel(scan_sound, 8);
        reveal_with_fuel(quiet_at, 8);
        lemma_scanned_well_formed(a);
        assert(a@.base.action =~= careful_synthesis().base.action);
    }
    a
}

/// Manipulation.
pub open spec fn manipulation() -> AbilityModel {
    AbilityModel {
        name: "Manipulation"@,
        ability_type: AbilityType { bits: TYPE_TOUCH_BUFF | TYPE_SYNTHESIS_BUFF },
        required_level: 65,
        required_class_quest: 65,
        required_state: RequiredState::Always,
        base: ActionListModel {
            action: seq![
                AbilityAction::CostCP(96),
                AbilityAction::CostDurability(10),
                AbilityAction::GrantEffect(AbilityEffectTurns { effect: AbilityEffect::Action(AbilityEffectAction::GrantDurability(5)), limit: None, turns: 5 }),
            ],
            chance: None,
        },
        combo: None,
    }
}

fn make_manipulation() -> (a: Ability)
    ensures
        a@ == manipulation(),
        a.well_formed(),
{
    let mut action: Vec<AbilityAction> = Vec::new();
    action.push(AbilityAction::CostCP(96));
    action.push(AbilityAction::CostDurability(10));
    action.push(AbilityAction::GrantEffect(AbilityEffectTurns { effect: AbilityEffect::Action(AbilityEffectAction::GrantDurability(5)), limit: None, turns: 5 }));
    let a = Ability {
        name: "Manipulation",
        ability_type: AbilityType { bits: TYPE_TOUCH_BUFF | TYPE_SYNTHESIS_BUFF },
        required_level: 65,
        required_class_quest: 65,
        required_state: RequiredState::Always,
        action: BaseAction { action_success: None, action },
        combo_action: None,
    };
    proof {
        reveal_with_fuel(scan_sound, 8);
        reveal_with_fuel(quiet_at, 8);
        lemma_scanned_well_formed(a);
        assert(a@.base.action =~= manipulation().base.action);
    }
    a
}

/// Prudent Touch.
pub open spec fn prudent_touch() -> AbilityModel {
    AbilityModel {
        name: "Prudent Touch"@,
        ability_type: AbilityType { bits: TYPE_TOUCH },
        required_level: 66,
        required_class_quest: 1,
        required_state: RequiredState::NotAbility(AbilityState::WasteNot),
        base: ActionListModel {
            action: seq![
                AbilityAction::CostCP(25),
                AbilityAction::CostDurability(10),
                AbilityAction::GrantQuality(100),
                AbilityAction::GrantInnerQuiet,
            ],
            chance: None,
        },
        combo: None,
    }
}

fn make_prudent_touch() -> (a: Ability)
    ensures
        a@ == prudent_touch(),
        a.well_formed(),
{
    let mut action: Vec<AbilityAction> = Vec::new();
    action.push(AbilityAction::CostCP(25));
    action.push(AbilityAction::CostDurability(10));
    action.push(AbilityAction::GrantQuality(100));
    action.push(AbilityAction::GrantInnerQuiet);
    let a = Ability {
        name: "Prudent Touch",
        ability_type: AbilityType { bits: TYPE_TOUCH },
        required_level: 66,
        required_class_quest: 1,
        required_state: RequiredState::NotAbility(AbilityState::WasteNot),
        action: BaseAction { action_success: None, action },
        combo_action: None,
    };
    proof {
        reveal_with_fuel(scan_sound, 8);
        reveal_with_fuel(quiet_at, 8);
        lemma_scanned_well_formed(a);
        assert(a@.base.action =~= prudent_touch().base.action);
    }
    a
}

/// Focused Synthesis.
pub open spec fn focused_synthesis() -> AbilityModel {
    AbilityModel {
        name: "Focused Synthesis"@,
        ability_type: AbilityType { bits: TYPE_SYNTHESIS },
        required_level: 67,
        required_class_quest: 1,
        required_state: RequiredState::Always,
        base: ActionListModel {
            action: seq![
                AbilityAction::CostCP(5),
                AbilityAction::CostDurability(10),
            ],
            chance: Some((50u32, seq![
                AbilityAction::GrantProgress(200),
            ])),
        },
        combo: Some(
            (
                AbilityState::Observing,
                ActionListModel { action: seq![
                AbilityAction::CostCP(5),
                AbilityAction::CostDurability(10),
                AbilityAction::GrantProgress(200),
            ], chance: None },
            ),
        ),
    }
}

fn make_focused_synthesis() -> (a: Ability)
    ensures
        a@ == focused_synthesis(),
        a.well_formed(),
{
    let mut action: Vec<AbilityAction> = Vec::new();
    action.push(AbilityAction::CostCP(5));
    action.push(AbilityAction::CostDurability(10));
    let mut bonus: Vec<AbilityAction> = Vec::new();
    bonus.push(AbilityAction::GrantProgress(200));
    let mut combo: Vec<AbilityAction> = Vec::new();
    combo.push(AbilityAction::CostCP(5));
    combo.push(AbilityAction::CostDurability(10));
    combo.push(AbilityAction::GrantProgress(200));
    let a = Ability {
        name: "Focused Synthesis",
        ability_type: AbilityType { bits: TYPE_SYNTHESIS },
        required_level: 67,
        required_class_quest: 1,
        required_state: RequiredState::Always,
        action: BaseAction { action_success: Some(SuccessAction { rate: 50, action: bonus }), action },
        combo_action: Some(ComboAction { required_state: AbilityState::Observing, action_success: None, action: combo }),
    };
    proof {
        reveal_with_fuel(scan_sound, 8);
        reveal_with_fuel(quiet_at, 8);
        lemma_scanned_well_formed(a);
        assert(a@.base.action =~= focused_synthesis().base.action);
        assert(a@.base.chance.unwrap().1 =~= focused_synthesis().base.chance.unwrap().1);
        assert(a@.combo.unwrap().1.action =~= focused_synthesis().combo.unwrap().1.action);
    }
    a
}

/// Focused Touch.
pub open spec fn focused_touch() -> AbilityModel {
    AbilityModel {
        name: "Focused Touch"@,
        ability_type: AbilityType { bits: TYPE_TOUCH },
        required_level: 68,
        required_class_quest: 1,
        required_state: RequiredState::Always,
        base: ActionListModel {
            action: seq![
                AbilityAction::CostCP(18),
                AbilityAction::CostDurability(10),
            ],
            chance: Some((50u32, seq![
                AbilityAction::GrantQuality(200),
                AbilityAction::GrantInnerQuiet,
            ])),
        },
        combo: Some(
            (
                AbilityState::Observing,
                ActionListModel { action: seq![
                AbilityAction::CostCP(18),
                AbilityAction::CostDurability(10),
                AbilityAction::GrantQuality(200),
                AbilityAction::GrantInnerQuiet,
            ], chance: None },
            ),
        ),
    }
}

fn make_focused_touch() -> (a: Ability)
    ensures
        a@ == focused_touch(),
        a.well_formed(),
{
    let mut action: Vec<AbilityAction> = Vec::new();
    action.push(AbilityAction::CostCP(18));
    action.push(AbilityAction::CostDurability(10));
    let mut bonus: Vec<AbilityAction> = Vec::new();
    bonus.push(AbilityAction::GrantQuality(200));
    bonus.push(AbilityAction::GrantInnerQuiet);
    let mut combo: Vec<AbilityAction> = Vec::new();
    combo.push(AbilityAction::CostCP(18));
    combo.push(AbilityAction::CostDurability(10));
    combo.push(AbilityAction::GrantQuality(200));
    combo.push(AbilityAction::GrantInnerQuiet);
    let a = Ability {
        name: "Focused Touch",
        ability_type: AbilityType { bits: TYPE_TOUCH },
        required_level: 68,
        required_class_quest: 1,
        required_state: RequiredState::Always,
        action: BaseAction { action_success: Some(SuccessAction { rate: 50, action: bonus }), action },
        combo_action: Some(ComboAction { required_state: AbilityState::Observing, action_success: None, action: combo }),
    };
    proof {
        reveal_with_fuel(scan_sound, 8);
        reveal_with_fuel(quiet_at, 8);
        lemma_scanned_well_formed(a);
        assert(a@.base.action =~= focused_touch().base.action);
        assert(a@.base.chance.unwrap().1 =~= focused_touch().base.chance.unwrap().1);
        assert(a@.combo.unwrap().1.action =~= focused_touch().combo.unwrap().1.action);
    }
    a
}

/// Reflect.
pub open spec fn reflect() -> AbilityModel {
    AbilityModel {
        name: "Reflect"@,
        ability_type: AbilityType { bits: TYPE_TOUCH },
        required_level: 69,
        required_class_quest: 1,
        required_state: RequiredState::FirstStep,
        base: ActionListModel {
            action: seq![
                AbilityAction::CostCP(6),
                AbilityAction::CostDurability(10),
                AbilityAction::GrantQuality(100),
                AbilityAction::GrantInnerQuiet,
                AbilityAction::GrantInnerQuiet,
            ],
            chance: None,
        },
        combo: None,
    }
}

fn make_reflect() -> (a: Ability)
    ensures
        a@ == reflect(),
        a.well_formed(),
{
    let mut action: Vec<AbilityAction> = Vec::new();
    action.push(AbilityAction::CostCP(6));
    action.push(AbilityAction::CostDurability(10));
    action.push(AbilityAction::GrantQuality(100));
    action.push(AbilityAction::GrantInnerQuiet);
    action.push(AbilityAction::GrantInnerQuiet);
    let a = Ability {
        name: "Reflect",
        ability_type: AbilityType { bits: TYPE_TOUCH },
        required_level: 69,
        required_class_quest: 1,
        required_state: RequiredState::FirstStep,
        action: BaseAction { action_success: None, action },
        combo_action: None,
    };
    proof {
        reveal_with_fuel(scan_sound, 8);
        reveal_with_fuel(quiet_at, 8);
        lemma_scanned_well_formed(a);
        assert(a@.base.action =~= reflect().base.action);
    }
    a
}

/// Preparatory Touch.
pub open spec fn preparatory_touch() -> AbilityModel {
    AbilityModel {
        name: "Preparatory Touch"@,
        ability_type: AbilityType { bits: TYPE_TOUCH },
        required_level: 71,
        required_class_quest: 1,
        required_state: RequiredState::Always,
        base: ActionListModel {
            action: seq![
                AbilityAction::CostCP(40),
                AbilityAction::CostDurability(20),
                AbilityAction::GrantQuality(200),
                AbilityAction::GrantInnerQuiet,
                AbilityAction::GrantInnerQuiet,
            ],
            chance: None,
        },
        combo: None,
    }
}

fn make_preparatory_touch() -> (a: Ability)
    ensures
        a@ == preparatory_touch(),
        a.well_formed(),
{
    let mut action: Vec<AbilityAction> = Vec::new();
    action.push(AbilityAction::CostCP(40));
    action.push(AbilityAction::CostDurability(20));
    action.push(AbilityAction::GrantQuality(200));
    action.push(AbilityAction::GrantInnerQuiet);
    action.push(AbilityAction::GrantInnerQuiet);
    let a = Ability {
        name: "Preparatory Touch",
        ability_type: AbilityType { bits: TYPE_TOUCH },
        required_level: 71,
        required_class_quest: 1,
        required_state: RequiredState::Always,
        action: BaseAction { action_success: None, action },
        combo_action: None,
    };
    proof {
        reveal_with_fuel(scan_sound, 8);
        reveal_with_fuel(quiet_at, 8);
        lemma_scanned_well_formed(a);
        assert(a@.base.action =~= preparatory_touch().base.action);
    }
    a
}

/// Groundwork.
pub open spec fn groundwork() -> AbilityModel {
    AbilityModel {
        name: "Groundwork"@,
        ability_type: AbilityType { bits: TYPE_SYNTHESIS },
        required_level: 72,
        required_class_quest: 1,
        required_state: RequiredState::Always,
        base: ActionListModel {
            action: seq![
                AbilityAction::CostCP(18),
                AbilityAction::CostDurabilityWithDiscount(DurabilityWithDiscount { cost: 20, cost_if_too_expensive: 10 }),
                AbilityAction::GrantProgress(300),
            ],
            chance: None,
        },
        combo: None,
    }
}

fn make_groundwork() -> (a: Ability)
    ensures
        a@ == groundwork(),
        a.well_formed(),
{
    let mut action: Vec<AbilityAction> = Vec::new();
    action.push(AbilityAction::CostCP(18));
    action.push(AbilityAction::CostDurabilityWithDiscount(DurabilityWithDiscount { cost: 20, cost_if_too_expensive: 10 }));
    action.push(AbilityAction::GrantProgress(300));
    let a = Ability {
        name: "Groundwork",
        ability_type: AbilityType { bits: TYPE_SYNTHESIS },
        required_level: 72,
        required_class_quest: 1,
        required_state: RequiredState::Always,
        action: BaseAction { action_success: None, action },
        combo_action: None,
    };
    proof {
        reveal_with_fuel(scan_sound, 8);
        reveal_with_fuel(quiet_at, 8);
        lemma_scanned_well_formed(a);
        assert(a@.base.action =~= groundwork().base.action);
    }
    a
}

/// Delicate Synthesis.
pub open spec fn delicate_synthesis() -> AbilityModel {
    AbilityModel {
        name: "Delicate Synthesis"@,
        ability_type: AbilityType { bits: TYPE_SYNTHESIS | TYPE_TOUCH },
        required_level: 76,
        required_class_quest: 1,
        required_state: RequiredState::Always,
        base: ActionListModel {
            action: seq![
                AbilityAction::CostCP(32),
                AbilityAction::CostDurability(10),
                AbilityAction::GrantQuality(100),
                AbilityAction::GrantProgress(100),
                AbilityAction::GrantInnerQuiet,
            ],
            chance: None,
        },
        combo: None,
    }
}

fn make_delicate_synthesis() -> (a: Ability)
    ensures
        a@ == delicate_synthesis(),
        a.well_formed(),
{
    let mut action: Vec<AbilityAction> = Vec::new();
    action.push(AbilityAction::CostCP(32));
    action.push(AbilityAction::CostDurability(10));
    action.push(AbilityAction::GrantQuality(100));
    action.push(AbilityAction::GrantProgress(100));
    action.push(AbilityAction::GrantInnerQuiet);
    let a = Ability {
        name: "Delicate Synthesis",
        ability_type: AbilityType { bits: TYPE_SYNTHESIS | TYPE_TOUCH },
        required_level: 76,
        required_class_quest: 1,
        required_state: RequiredState::Always,
        action: BaseAction { action_success: None, action },
        combo_action: None,
    };
    proof {
        reveal_with_fuel(scan_sound, 8);
        reveal_with_fuel(quiet_at, 8);
        lemma_scanned_well_formed(a);
        assert(a@.base.action =~= delicate_synthesis().base.action);
    }
    a
}

/// Intensive Synthesis.
pub open spec fn intensive_synthesis() -> AbilityModel {
    AbilityModel {
        name: "Intensive Synthesis"@,
        ability_type: AbilityType { bits: TYPE_SYNTHESIS },
        required_level: 78,
        required_class_quest: 1,
        required_state: RequiredState::ConditionGood,
        base: ActionListModel {
            action: seq![
                AbilityAction::CostCP(6),
                AbilityAction::CostDurability(10),
                AbilityAction::GrantProgress(400),
            ],
            chance: None,
        },
        combo: None,
    }
}

fn make_intensive_synthesis() -> (a: Ability)
    ensures
        a@ == intensive_synthesis(),
        a.well_formed(),
{
    let mut action: Vec<AbilityAction> = Vec::new();
    action.push(AbilityAction::CostCP(6));
    action.push(AbilityAction::CostDurability(10));
    action.push(AbilityAction::GrantProgress(400));
    let a = Ability {
        name: "Intensive Synthesis",
        ability_type: AbilityType { bits: TYPE_SYNTHESIS },
        required_level: 78,
        required_class_quest: 1,
        required_state: RequiredState::ConditionGood,
        action: BaseAction { action_success: None, action },
        combo_action: None,
    };
    proof {
        reveal_with_fuel(scan_sound, 8);
        reveal_with_fuel(quiet_at, 8);
        lemma_scanned_well_formed(a);
        assert(a@.base.action =~= intensive_synthesis().base.action);
    }
    a
}

/// Trained Eye.
pub open spec fn trained_eye() -> AbilityModel {
    AbilityModel {
        name: "Trained Eye"@,
        ability_type: AbilityType { bits: TYPE_SYNTHESIS },
        required_level: 80,
        required_class_quest: 1,
        required_state: RequiredState::FirstStepLevelAdvantage(10),
        base: ActionListModel {
            action: seq![
                AbilityAction::CostCP(250),
                AbilityAction::CostDurability(10),
                AbilityAction::GrantFullQuality,
            ],
            chance: None,
        },
        combo: None,
    }
}

fn make_trained_eye() -> (a: Ability)
    ensures
        a@ == trained_eye(),
        a.well_formed(),
{
    let mut action: Vec<AbilityAction> = Vec::new();
    action.push(AbilityAction::CostCP(250));
    action.push(AbilityAction::CostDurability(10));
    action.push(AbilityAction::GrantFullQuality);
    let a = Ability {
        name: "Trained Eye",
        ability_type: AbilityType { bits: TYPE_SYNTHESIS },
        required_level: 80,
        required_class_quest: 1,
        required_state: RequiredState::FirstStepLevelAdvantage(10),
        action: BaseAction { action_success: None, action },
        combo_action: None,
    };
    proof {
        reveal_with_fuel(scan_sound, 8);
        reveal_with_fuel(quiet_at, 8);
        lemma_scanned_well_formed(a);
        assert(a@.base.action =~= trained_eye().base.action);
    }
    a
}

/// Advanced Touch.
pub open spec fn advanced_touch() -> AbilityModel {
    AbilityModel {
        name: "Advanced Touch"@,
        ability_type: AbilityType { bits: TYPE_TOUCH },
        required_level: 84,
        required_class_quest: 1,
        required_state: RequiredState::Always,
        base: ActionListModel {
            action: seq![
                AbilityAction::CostCP(46),
                AbilityAction::CostDurability(10),
                AbilityAction::GrantQuality(150),
            ],
            chance: None,
        },
        combo: Some(
            (
                AbilityState::StandardTouch,
                ActionListModel { action: seq![
                AbilityAction::CostCP(18),
                AbilityAction::CostDurability(10),
                AbilityAction::GrantQuality(150),
                AbilityAction::GrantInnerQuiet,
            ], chance: None },
            ),
        ),
    }
}

fn make_advanced_touch() -> (a: Ability)
    ensures
        a@ == advanced_touch(),
        a.well_formed(),
{
    let mut action: Vec<AbilityAction> = Vec::new();
    action.push(AbilityAction::CostCP(46));
    action.push(AbilityAction::CostDurability(10));
    action.push(AbilityAction::GrantQuality(150));
    let mut combo: Vec<AbilityAction> = Vec::new();
    combo.push(AbilityAction::CostCP(18));
    combo.push(AbilityAction::CostDurability(10));
    combo.push(AbilityAction::GrantQuality(150));
    combo.push(AbilityAction::GrantInnerQuiet);
    let a = Ability {
        name: "Advanced Touch",
        ability_type: AbilityType { bits: TYPE_TOUCH },
        required_level: 84,
        required_class_quest: 1,
        required_state: RequiredState::Always,
        action: BaseAction { action_success: None, action },
        combo_action: Some(ComboAction { required_state: AbilityState::StandardTouch, action_success: None, action: combo }),
    };
    proof {
        reveal_with_fuel(scan_sound, 8);
        reveal_with_fuel(quiet_at, 8);
        lemma_scanned_well_formed(a);
        assert(a@.base.action =~= advanced_touch().base.action);
        assert(a@.combo.unwrap().1.action =~= advanced_touch().combo.unwrap().1.action);
    }
    a
}

/// Prudent Synthesis.
pub open spec fn prudent_synthesis() -> AbilityModel {
    AbilityModel {
        name: "Prudent Synthesis"@,
        ability_type: AbilityType { bits: TYPE_SYNTHESIS },
        required_level: 88,
        required_class_quest: 1,
        required_state: RequiredState::NotAbility(AbilityState::WasteNot),
        base: ActionListModel {
            action: seq![
                AbilityAction::CostCP(18),
                AbilityAction::CostDurability(10),
                AbilityAction::GrantProgress(180),
            ],
            chance: None,
        },
        combo: None,
    }
}

fn make_prudent_synthesis() -> (a: Ability)
    ensures
        a@ == prudent_synthesis(),
        a.well_formed(),
{
    let mut action: Vec<AbilityAction> = Vec::new();
    action.push(AbilityAction::CostCP(18));
    action.push(AbilityAction::CostDurability(10));
    action.push(AbilityAction::GrantProgress(180));
    let a = Ability {
        name: "Prudent Synthesis",
        ability_type: AbilityType { bits: TYPE_SYNTHESIS },
        required_level: 88,
        required_class_quest: 1,
        required_state: RequiredState::NotAbility(AbilityState::WasteNot),
        action: BaseAction { action_success: None, action },
        combo_action: None,
    };
    proof {
        reveal_with_fuel(scan_sound, 8);
        reveal_with_fuel(quiet_at, 8);
        lemma_scanned_well_formed(a);
        assert(a@.base.action =~= prudent_synthesis().base.action);
    }
    a
}

/// Trained Finesse.
pub open spec fn trained_finesse() -> AbilityModel {
    AbilityModel {
        name: "Trained Finesse"@,
        ability_type: AbilityType { bits: TYPE_TOUCH },
        required_level: 90,
        required_class_quest: 1,
        required_state: RequiredState::InnerQuiet(10),
        base: ActionListModel {
            action: seq![
                AbilityAction::CostCP(32),
                AbilityAction::GrantQuality(100),
            ],
            chance: None,
        },
        combo: None,
    }
}

fn make_trained_finesse() -> (a: Ability)
    ensures
        a@ == trained_finesse(),
        a.well_formed(),
{
    let mut action: Vec<AbilityAction> = Vec::new();
    action.push(AbilityAction::CostCP(32));
    action.push(AbilityAction::GrantQuality(100));
    let a = Ability {
        name: "Trained Finesse",
        ability_type: AbilityType { bits: TYPE_TOUCH },
        required_level: 90,
        required_class_quest: 1,
        required_state: RequiredState::InnerQuiet(10),
        action: BaseAction { action_success: None, action },
        combo_action: None,
    };
    proof {
        reveal_with_fuel(scan_sound, 8);
        reveal_with_fuel(quiet_at, 8);
        lemma_scanned_well_formed(a);
        assert(a@.base.action =~= trained_finesse().base.action);
    }
    a
}

/// The whole ability table, in the order in which the search tries it.
pub open spec fn catalog() -> Seq<AbilityModel> {
    seq![
        basic_synthesis(),
        basic_touch(),
        masters_mend(),
        hasty_touch(),
        rapid_synthesis(),
        observe(),
        tricks_of_the_trade(),
        waste_not(),
        veneration(),
        standard_touch(),
        great_strides(),
        innovation(),
        final_appraisal(),
        waste_not_ii(),
        byregots_blessing(),
        precise_touch(),
        muscle_memory(),
        careful_synthesis(),
        manipulation(),
        prudent_touch(),
        focused_synthesis(),
        focused_touch(),
        reflect(),
        preparatory_touch(),
        groundwork(),
        delicate_synthesis(),
        intensive_synthesis(),
        trained_eye(),
        advanced_touch(),
        prudent_synthesis(),
        trained_finesse(),
    ]
}

/// The models of the abilities.
pub open spec fn ability_views(abilities: Seq<Ability>) -> Seq<AbilityModel> {
    abilities.map_values(|a: Ability| a@)
}

/// The crafter has the level and the class quest that the ability asks for.
pub open spec fn is_unlocked(stats: CraftingClassStats, ability: AbilityModel) -> bool {
    stats.level >= ability.required_level && stats.class_quest_level
        >= ability.required_class_quest
}

pub open spec fn unlocked_for(stats: CraftingClassStats) -> spec_fn(AbilityModel) -> bool {
    |m: AbilityModel| is_unlocked(stats, m)
}

/// Every ability of the table.
pub fn get_all_abilities() -> (abilities: Vec<Ability>)
    ensures
        ability_views(abilities@) == catalog(),
        forall|i: int| 0 <= i < abilities@.len() ==> (#[trigger] abilities@[i]).well_formed(),
{
    let mut abilities: Vec<Ability> = Vec::new();
    abilities.push(make_basic_synthesis());
    abilities.push(make_basic_touch());
    abilities.push(make_masters_mend());
    abilities.push(make_hasty_touch());
    abilities.push(make_rapid_synthesis());
    abilities.push(make_observe());
    abilities.push(make_tricks_of_the_trade());
    abilities.push(make_waste_not());
    abilities.push(make_veneration());
    abilities.push(make_standard_touch());
    abilities.push(make_great_strides());
    abilities.push(make_innovation());
    abilities.push(make_final_appraisal());
    abilities.push(make_waste_not_ii());
    abilities.push(make_byregots_blessing());
    abilities.push(make_precise_touch());
    abilities.push(make_muscle_memory());
    abilities.push(make_careful_synthesis());
    abilities.push(make_manipulation());
    abilities.push(make_prudent_touch());
    abilities.push(make_focused_synthesis());
    abilities.push(make_focused_touch());
    abilities.push(make_reflect());
    abilities.push(make_preparatory_touch());
    abilities.push(make_groundwork());
    abilities.push(make_delicate_synthesis());
    abilities.push(make_intensive_synthesis());
    abilities.push(make_trained_eye());
    abilities.push(make_advanced_touch());
    abilities.push(make_prudent_synthesis());
    abilities.push(make_trained_finesse());
    assert(ability_views(abilities@) =~= catalog());
    abilities
}

/// The abilities of the table that the crafter has unlocked, in the order
/// of the table.
pub fn get_all_abilities_at_level(stats: &CraftingClassStats) -> (abilities: Vec<Ability>)
    ensures
        ability_views(abilities@) == catalog().filter(unlocked_for(*stats)),
        forall|i: int| 0 <= i < abilities@.len() ==> (#[trigger] abilities@[i]).well_formed(),
{
    let all = get_all_abilities();
    let mut abilities: Vec<Ability> = Vec::new();
    let mut i: usize = 0;
    proof {
        assert(catalog().take(0) =~= Seq::<AbilityModel>::empty());
        assert(Seq::<AbilityModel>::empty().filter(unlocked_for(*stats)) =~= Seq::empty()) by {
            reveal(Seq::filter);
        }
        assert(ability_views(abilities@) =~= Seq::<AbilityModel>::empty());
    }
    while i < all.len()
        invariant
            i <= all@.len(),
            ability_views(all@) == catalog(),
            forall|j: int| 0 <= j < all@.len() ==> (#[trigger] all@[j]).well_formed(),
            ability_views(abilities@) == catalog().take(i as int).filter(unlocked_for(*stats)),
            forall|j: int| 0 <= j < abilities@.len() ==> (#[trigger] abilities@[j]).well_formed(),
        decreases all.len() - i,
    {
        let ability = &all[i];
        proof {
            assert(ability@ == ability_views(all@)[i as int]);
            assert(catalog().take(i + 1) =~= catalog().take(i as int).push(ability@));
            catalog().take(i as int).lemma_filter_push(ability@, unlocked_for(*stats));
        }
        if stats.level >= ability.required_level && stats.class_quest_level
            >= ability.required_class_quest {
            let kept = ability.duplicate();
            let ghost before = abilities@;
            abilities.push(kept);
            assert(ability_views(abilities@) =~= ability_views(before).push(kept@));
        }
        i = i + 1;
    }
    assert(catalog().take(i as int) =~= catalog());
    abilities
}

} // verus!
