use vstd::prelude::*;

verus! {

/// A named flag that an ability leaves behind for later turns.
#[derive(Debug, Copy, Clone, PartialEq, Eq, Structural)]
pub enum AbilityState {
    Observing,
    BasicTouch,
    StandardTouch,
    WasteNot,
}

/// The bit of abilities that add quality.
pub const TYPE_TOUCH: u8 = 1;

/// The bit of abilities that add progress.
pub const TYPE_SYNTHESIS: u8 = 2;

/// The bit of abilities that prepare quality.
pub const TYPE_TOUCH_BUFF: u8 = 4;

/// The bit of abilities that prepare progress.
pub const TYPE_SYNTHESIS_BUFF: u8 = 8;

/// What an ability works on: a set over touch, synthesis, touch buff and
/// synthesis buff, one bit each.
#[derive(Debug, Copy, Clone, PartialEq, Eq, Structural)]
pub struct AbilityType {
    pub bits: u8,
}

impl AbilityType {
    /// The two sets have a member in common.
    pub open spec fn intersects(self, other: AbilityType) -> bool {
        self.bits & other.bits != 0
    }

    /// The empty set.
    pub fn none() -> (r: AbilityType)
        ensures
            r.bits == 0,
    {
        AbilityType { bits: 0 }
    }

    /// Touch alone.
    pub fn touch() -> (r: AbilityType)
        ensures
            r.bits == TYPE_TOUCH,
    {
        AbilityType { bits: TYPE_TOUCH }
    }

    /// Synthesis alone.
    pub fn synthesis() -> (r: AbilityType)
        ensures
            r.bits == TYPE_SYNTHESIS,
    {
        AbilityType { bits: TYPE_SYNTHESIS }
    }

    /// Touch buff alone.
    pub fn touch_buff() -> (r: AbilityType)
        ensures
            r.bits == TYPE_TOUCH_BUFF,
    {
        AbilityType { bits: TYPE_TOUCH_BUFF }
    }

    /// Synthesis buff alone.
    pub fn synthesis_buff() -> (r: AbilityType)
        ensures
            r.bits == TYPE_SYNTHESIS_BUFF,
    {
        AbilityType { bits: TYPE_SYNTHESIS_BUFF }
    }

    /// Both kinds of buff.
    pub fn buff() -> (r: AbilityType)
        ensures
            r.bits == TYPE_TOUCH_BUFF | TYPE_SYNTHESIS_BUFF,
    {
        AbilityType { bits: TYPE_TOUCH_BUFF | TYPE_SYNTHESIS_BUFF }
    }

    /// What is in either set.
    pub fn union(self, other: AbilityType) -> (r: AbilityType)
        ensures
            r.bits == self.bits | other.bits,
    {
        AbilityType { bits: self.bits | other.bits }
    }

    /// What is in both sets.
    pub fn intersection(self, other: AbilityType) -> (r: AbilityType)
        ensures
            r.bits == self.bits & other.bits,
    {
        AbilityType { bits: self.bits & other.bits }
    }

    /// Whether the set has no member.
    pub fn is_empty(self) -> (r: bool)
        ensures
            r == (self.bits == 0),
    {
        self.bits == 0
    }

    /// Whether the two sets have a member in common.
    pub fn overlaps(self, other: AbilityType) -> (r: bool)
        ensures
            r == self.intersects(other),
    {
        (self.bits & other.bits) != 0
    }
}

/// A modifier that an active effect applies at the start of each turn.
/// Scales and efficiencies are whole percentages: 50 halves, 100 keeps, 150
/// adds a half.
#[derive(Debug, Clone, Copy, PartialEq, Eq, Structural)]
pub enum AbilityEffectAction {
    /// Restores this much durability every turn.
    GrantDurability(u32),
    /// Durability costs of the turn are charged at this percentage.
    ReduceDurabilityCost(u32),
    /// The turn's base progress is taken at this percentage.
    IncreaseSynthesisEfficiency(u32),
    /// The turn's base quality is taken at this percentage.
    IncreaseTouchEfficiency(u32),
    /// Progress stops one short of completion.
    ProgressFloor,
}

/// An effect that wears off by use: each ability whose type meets
/// `apply_to` takes one of the `uses`.
#[derive(Debug, Clone, Copy, PartialEq, Eq, Structural)]
pub struct AbilityEffectLimit {
    pub apply_to: AbilityType,
    pub uses: u32,
}

#[derive(Debug, Clone, Copy, PartialEq, Eq, Structural)]
pub enum AbilityEffect {
    Action(AbilityEffectAction),
    State(AbilityState),
}

/// An effect with the turns it has left.
#[derive(Debug, Clone, Copy, PartialEq, Eq, Structural)]
pub struct AbilityEffectTurns {
    pub effect: AbilityEffect,
    pub limit: Option<AbilityEffectLimit>,
    pub turns: u8,
}

/// A durability cost with a lower price for when the full one cannot be paid.
#[derive(Debug, Clone, Copy, PartialEq, Eq, Structural)]
pub struct DurabilityWithDiscount {
    pub cost: u32,
    pub cost_if_too_expensive: u32,
}

/// One primitive step of an ability. Progress and quality grants carry their
/// efficiency as a whole percentage of the turn's base value.
#[derive(Debug, Clone, Copy, PartialEq, Eq, Structural)]
pub enum AbilityAction {
    GrantDurability(u32),
    CostDurability(u32),
    GrantProgress(u32),
    GrantQuality(u32),
    GrantFullQuality,
    GrantCP(u32),
    CostCP(u32),
    GrantEffect(AbilityEffectTurns),
    GrantInnerQuiet,
    ConsumeInnerQuiet,
    CostDurabilityWithDiscount(DurabilityWithDiscount),
}

/// Actions that run only when the turn's success draw says so.
#[derive(Debug, Clone)]
pub struct SuccessAction {
    /// Chance of success in percent.
    pub rate: u32,
    pub action: Vec<AbilityAction>,
}

/// The list that replaces the base list while `required_state` is active.
#[derive(Debug, Clone)]
pub struct ComboAction {
    pub required_state: AbilityState,
    pub action_success: Option<SuccessAction>,
    pub action: Vec<AbilityAction>,
}

#[derive(Debug, Clone)]
pub struct BaseAction {
    pub action_success: Option<SuccessAction>,
    pub action: Vec<AbilityAction>,
}

/// What must hold for the base list of an ability to be usable.
#[derive(Debug, Clone, Copy, PartialEq, Eq, Structural)]
pub enum RequiredState {
    /// Nothing is asked.
    Always,
    FirstStep,
    /// First turn, and the crafter at least this many levels above the item.
    FirstStepLevelAdvantage(u32),
    ConditionGood,
    /// The named state must not be active.
    NotAbility(AbilityState),
    /// The inner-quiet stack must hold at least this much.
    InnerQuiet(u8),
}

#[derive(Debug, Clone)]
pub struct Ability {
    pub name: &'static str,
    pub ability_type: AbilityType,
    pub required_level: u32,
    pub required_class_quest: u32,
    pub required_state: RequiredState,
    pub action: BaseAction,
    pub combo_action: Option<ComboAction>,
}

/// An action before place `k` costs crafting points.
pub open spec fn pays_before(actions: Seq<AbilityAction>, k: int) -> bool {
    exists|j: int| 0 <= j < k && (#[trigger] actions[j]) is CostCP
}

/// The first `k` actions of the list leave some inner quiet for sure, where
/// `quiet` says whether there was some for sure before the list: the last
/// grant or consumption among them decides.
pub open spec fn quiet_at(actions: Seq<AbilityAction>, quiet: bool, k: int) -> bool
    decreases k,
{
    if k <= 0 {
        quiet
    } else {
        match actions[k - 1] {
            AbilityAction::GrantInnerQuiet => true,
            AbilityAction::ConsumeInnerQuiet => false,
            _ => quiet_at(actions, quiet, k - 1),
        }
    }
}

/// The list spends only what the availability check has seen or what the
/// list itself has granted: it costs crafting points at most once, and only
/// where `may_pay` allows it, and it consumes inner quiet only where some is
/// left for sure.
pub open spec fn list_sound(actions: Seq<AbilityAction>, may_pay: bool, quiet: bool) -> bool {
    forall|k: int|
        0 <= k < actions.len() ==> match #[trigger] actions[k] {
            AbilityAction::CostCP(_) => may_pay && !pays_before(actions, k),
            AbilityAction::ConsumeInnerQuiet => quiet_at(actions, quiet, k),
            _ => true,
        }
}

/// The list and its chance part are sound together. The costs of a chance
/// part are not checked before the ability is used, so it must not cost
/// crafting points.
pub open spec fn lists_sound(
    actions: Seq<AbilityAction>,
    chance: Option<SuccessAction>,
    quiet: bool,
) -> bool {
    &&& list_sound(actions, true, quiet)
    &&& match chance {
        Some(s) => list_sound(s.action@, false, quiet_at(actions, quiet, actions.len() as int)),
        None => true,
    }
}

impl Ability {
    /// The precondition of the base list asks for inner quiet.
    pub open spec fn asks_inner_quiet(self) -> bool {
        match self.required_state {
            RequiredState::InnerQuiet(n) => n >= 1,
            _ => false,
        }
    }

    /// Whenever the ability is available, its lists can be executed: the
    /// availability check covers what they spend.
    pub open spec fn well_formed(self) -> bool {
        &&& lists_sound(self.action.action@, self.action.action_success, self.asks_inner_quiet())
        &&& match self.combo_action {
            Some(combo) => lists_sound(combo.action@, combo.action_success, false),
            None => true,
        }
    }
}

/// A list of actions and its chance part, as mathematical values: the chance
/// part is its rate in percent and its actions.
pub struct ActionListModel {
    pub action: Seq<AbilityAction>,
    pub chance: Option<(u32, Seq<AbilityAction>)>,
}

/// An ability as a mathematical value.
pub struct AbilityModel {
    pub name: Seq<char>,
    pub ability_type: AbilityType,
    pub required_level: u32,
    pub required_class_quest: u32,
    pub required_state: RequiredState,
    pub base: ActionListModel,
    pub combo: Option<(AbilityState, ActionListModel)>,
}

/// The chance part as a mathematical value.
pub open spec fn chance_view(chance: Option<SuccessAction>) -> Option<(u32, Seq<AbilityAction>)> {
    match chance {
        Some(s) => Some((s.rate, s.action@)),
        None => None,
    }
}

impl View for Ability {
    type V = AbilityModel;

    open spec fn view(&self) -> AbilityModel {
        AbilityModel {
            name: self.name@,
            ability_type: self.ability_type,
            required_level: self.required_level,
            required_class_quest: self.required_class_quest,
            required_state: self.required_state,
            base: ActionListModel {
                action: self.action.action@,
                chance: chance_view(self.action.action_success),
            },
            combo: match self.combo_action {
                Some(combo) => Some(
                    (
                        combo.required_state,
                        ActionListModel {
                            action: combo.action@,
                            chance: chance_view(combo.action_success),
                        },
                    ),
                ),
                None => None,
            },
        }
    }
}

/// The first `k` actions of the list are sound, each in its place.
pub open spec fn scan_sound(actions: Seq<AbilityAction>, may_pay: bool, quiet: bool, k: int) -> bool
    decreases k,
{
    if k <= 0 {
        true
    } else {
        &&& scan_sound(actions, may_pay, quiet, k - 1)
        &&& match actions[k - 1] {
            AbilityAction::CostCP(_) => may_pay && !pays_before(actions, k - 1),
            AbilityAction::ConsumeInnerQuiet => quiet_at(actions, quiet, k - 1),
            _ => true,
        }
    }
}

/// A list that is sound action by action is sound.
pub proof fn lemma_scan_sound(actions: Seq<AbilityAction>, may_pay: bool, quiet: bool, k: int)
    requires
        0 <= k <= actions.len(),
        scan_sound(actions, may_pay, quiet, k),
    ensures
        forall|j: int|
            0 <= j < k ==> match #[trigger] actions[j] {
                AbilityAction::CostCP(_) => may_pay && !pays_before(actions, j),
                AbilityAction::ConsumeInnerQuiet => quiet_at(actions, quiet, j),
                _ => true,
            },
    decreases k,
{
    if k > 0 {
        lemma_scan_sound(actions, may_pay, quiet, k - 1);
    }
}

/// A list and its chance part are sound action by action.
pub open spec fn lists_scan_sound(
    actions: Seq<AbilityAction>,
    chance: Option<SuccessAction>,
    quiet: bool,
) -> bool {
    &&& scan_sound(actions, true, quiet, actions.len() as int)
    &&& match chance {
        Some(s) => scan_sound(
            s.action@,
            false,
            quiet_at(actions, quiet, actions.len() as int),
            s.action@.len() as int,
        ),
        None => true,
    }
}

/// An ability whose lists are sound action by action is well formed.
pub proof fn lemma_scanned_well_formed(ability: Ability)
    requires
        lists_scan_sound(
            ability.action.action@,
            ability.action.action_success,
            ability.asks_inner_quiet(),
        ),
        match ability.combo_action {
            Some(combo) => lists_scan_sound(combo.action@, combo.action_success, false),
            None => true,
        },
    ensures
        ability.well_formed(),
{
    lemma_scanned_lists_sound(
        ability.action.action@,
        ability.action.action_success,
        ability.asks_inner_quiet(),
    );
    match ability.combo_action {
        Some(combo) => {
            lemma_scanned_lists_sound(combo.action@, combo.action_success, false);
        },
        None => {},
    }
}

/// A list and its chance part that are sound action by action are sound
/// together.
pub proof fn lemma_scanned_lists_sound(
    actions: Seq<AbilityAction>,
    chance: Option<SuccessAction>,
    quiet: bool,
)
    requires
        lists_scan_sound(actions, chance, quiet),
    ensures
        lists_sound(actions, chance, quiet),
{
    lemma_scan_sound(actions, true, quiet, actions.len() as int);
    match chance {
        Some(s) => {
            lemma_scan_sound(
                s.action@,
                false,
                quiet_at(actions, quiet, actions.len() as int),
                s.action@.len() as int,
            );
        },
        None => {},
    }
}

/// A copy of the actions.
pub fn copy_actions(actions: &Vec<AbilityAction>) -> (r: Vec<AbilityAction>)
    ensures
        r@ == actions@,
{
    let mut r: Vec<AbilityAction> = Vec::new();
    let mut i: usize = 0;
    while i < actions.len()
        invariant
            i <= actions.len(),
            r@ == actions@.take(i as int),
        decreases actions.len() - i,
    {
        r.push(actions[i]);
        i = i + 1;
    }
    assert(actions@.take(i as int) =~= actions@);
    r
}

/// A copy of the chance part.
pub fn copy_chance(chance: &Option<SuccessAction>) -> (r: Option<SuccessAction>)
    ensures
        chance_view(r) == chance_view(*chance),
        r matches Some(s) ==> chance matches Some(t) && s.rate == t.rate && s.action@ == t.action@,
        r is None ==> chance is None,
{
    match chance {
        Some(s) => Some(SuccessAction { rate: s.rate, action: copy_actions(&s.action) }),
        None => None,
    }
}

impl Ability {
    /// A copy of the ability.
    pub fn duplicate(&self) -> (r: Ability)
        ensures
            r@ == self@,
            r.name == self.name,
            self.well_formed() ==> r.well_formed(),
    {
        let combo_action = match &self.combo_action {
            Some(combo) => Some(
                ComboAction {
                    required_state: combo.required_state,
                    action_success: copy_chance(&combo.action_success),
                    action: copy_actions(&combo.action),
                },
            ),
            None => None,
        };
        Ability {
            name: self.name,
            ability_type: self.ability_type,
            required_level: self.required_level,
            required_class_quest: self.required_class_quest,
            required_state: self.required_state,
            action: BaseAction {
                action_success: copy_chance(&self.action.action_success),
                action: copy_actions(&self.action.action),
            },
            combo_action,
        }
    }
}

/// Whether the whole list leaves some inner quiet for sure.
pub fn quiet_after(actions: &Vec<AbilityAction>, quiet: bool) -> (r: bool)
    ensures
        r == quiet_at(actions@, quiet, actions@.len() as int),
{
    let mut q = quiet;
    let mut k: usize = 0;
    while k < actions.len()
        invariant
            k <= actions.len(),
            q == quiet_at(actions@, quiet, k as int),
        decreases actions.len() - k,
    {
        match actions[k] {
            AbilityAction::GrantInnerQuiet => {
                q = true;
            },
            AbilityAction::ConsumeInnerQuiet => {
                q = false;
            },
            _ => {},
        }
        k = k + 1;
    }
    q
}

/// Whether the list is sound.
pub fn list_is_sound(actions: &Vec<AbilityAction>, may_pay: bool, quiet: bool) -> (r: bool)
    ensures
        r == list_sound(actions@, may_pay, quiet),
{
    let mut paid = false;
    let mut q = quiet;
    let mut k: usize = 0;
    while k < actions.len()
        invariant
            k <= actions.len(),
            paid == pays_before(actions@, k as int),
            q == quiet_at(actions@, quiet, k as int),
            scan_sound(actions@, may_pay, quiet, k as int),
        decreases actions.len() - k,
    {
        let ghost here = k as int;
        match actions[k] {
            AbilityAction::CostCP(_) => {
                if !may_pay || paid {
                    assert(!list_sound(actions@, may_pay, quiet)) by {
                        assert(actions@[here] is CostCP);
                    }
                    return false;
                }
                paid = true;
                assert(pays_before(actions@, here + 1)) by {
                    assert(actions@[here] is CostCP);
                }
            },
            AbilityAction::GrantInnerQuiet => {
                q = true;
            },
            AbilityAction::ConsumeInnerQuiet => {
                if !q {
                    assert(!list_sound(actions@, may_pay, quiet)) by {
                        assert(actions@[here] is ConsumeInnerQuiet);
                    }
                    return false;
                }
                q = false;
            },
            _ => {},
        }
        proof {
            if !(actions@[here] is CostCP) {
                if pays_before(actions@, here + 1) {
                    let j = choose|j: int| 0 <= j < here + 1 && (#[trigger] actions@[j]) is CostCP;
                    assert(j < here);
                    assert(pays_before(actions@, here));
                }
                if pays_before(actions@, here) {
                    let j = choose|j: int| 0 <= j < here && (#[trigger] actions@[j]) is CostCP;
                    assert(0 <= j < here + 1 && actions@[j] is CostCP);
                }
            }
        }
        k = k + 1;
    }
    proof {
        lemma_scan_sound(actions@, may_pay, quiet, actions@.len() as int);
    }
    true
}

/// Whether the list and its chance part are sound together.
pub fn lists_are_sound(actions: &Vec<AbilityAction>, chance: &Option<SuccessAction>, quiet: bool)
    -> (r: bool)
    ensures
        r == lists_sound(actions@, *chance, quiet),
{
    if !list_is_sound(actions, true, quiet) {
        return false;
    }
    match chance {
        Some(s) => list_is_sound(&s.action, false, quiet_after(actions, quiet)),
        None => true,
    }
}

impl Ability {
    /// Whether the ability is well formed.
    pub fn is_well_formed(&self) -> (r: bool)
        ensures
            r == self.well_formed(),
    {
        let quiet = match self.required_state {
            RequiredState::InnerQuiet(n) => n >= 1,
            _ => false,
        };
        if !lists_are_sound(&self.action.action, &self.action.action_success, quiet) {
            return false;
        }
        match &self.combo_action {
            Some(combo) => lists_are_sound(&combo.action, &combo.action_success, false),
            None => true,
        }
    }
}

} // verus!
