use vstd::prelude::*;

use super::state::Condition;

verus! {

/// Why a simulation gave no run.
#[derive(Debug, Clone, Copy, PartialEq, Eq, Structural)]
pub enum SimulationError {
    /// No sequence of abilities completes the item within the limits.
    NoSequenceFound,
    /// The system gave no random bytes.
    EntropyUnavailable,
}

#[verifier::external_type_specification]
#[verifier::external_body]
pub struct ExEntropyFailure(getrandom::Error);

/// Four bytes from `getrandom::getrandom`, or its error. The bytes come from
/// the system's random source, so nothing is claimed of them, nor of when the
/// call fails.
#[verifier::external_body]
fn system_entropy() -> (r: Result<[u8; 4], getrandom::Error>) {
    let mut buf = [0u8; 4];
    match getrandom::getrandom(&mut buf) {
        Ok(()) => Ok(buf),
        Err(e) => Err(e),
    }
}

/// The number that four bytes spell, the first byte highest.
pub open spec fn word_of(bytes: Seq<u8>) -> int {
    bytes[0] * 0x100_0000 + bytes[1] * 0x1_0000 + bytes[2] * 0x100 + bytes[3]
}

/// The number that four bytes spell, the first byte highest.
pub fn word_from_bytes(bytes: [u8; 4]) -> (r: u32)
    ensures
        r == word_of(bytes@),
{
    (bytes[0] as u32) * 0x100_0000 + (bytes[1] as u32) * 0x1_0000 + (bytes[2] as u32) * 0x100 + (
    bytes[3] as u32)
}

/// A fresh random number, or the news that the system has none to give.
pub fn get_random_int() -> (r: Result<u32, SimulationError>)
    ensures
        r matches Err(e) ==> e == SimulationError::EntropyUnavailable,
{
    random_int_from(system_entropy())
}

/// What a draw from the system makes of a random number: the number that its
/// four bytes spell, or the news that the system had none to give.
pub open spec fn drawn_word(drawn: Result<[u8; 4], getrandom::Error>) -> Result<
    u32,
    SimulationError,
> {
    match drawn {
        Ok(bytes) => Ok(word_of(bytes@) as u32),
        Err(_) => Err(SimulationError::EntropyUnavailable),
    }
}

/// Turns what the system's random source gave into a random number.
pub fn random_int_from(drawn: Result<[u8; 4], getrandom::Error>) -> (r: Result<
    u32,
    SimulationError,
>)
    ensures
        r == drawn_word(drawn),
{
    match drawn {
        Ok(bytes) => Ok(word_from_bytes(bytes)),
        Err(_) => Err(SimulationError::EntropyUnavailable),
    }
}

/// How the success of a chance action is decided.
#[derive(Debug, Clone, Copy, PartialEq, Eq, Structural)]
pub enum RandomActionSuccessChance {
    Normal,
    AlwaysSucceed,
    AlwaysFail,
}

/// How the condition of a turn is decided.
#[derive(Debug, Clone, Copy, PartialEq, Eq, Structural)]
pub enum ConditionSimulation {
    AlwaysNormal,
    WeightedRandom,
}

/// A condition that is either settled or still to be read off a draw.
#[derive(Debug, Clone, Copy, PartialEq, Eq, Structural)]
pub enum RandomCondition {
    Value(Condition),
    Random(u32),
}

/// A success that is either settled or still to be read off a draw.
#[derive(Debug, Clone, Copy, PartialEq, Eq, Structural)]
pub enum RandomActionSuccess {
    Value(bool),
    Random(u32),
}

/// A draw `v` stands for the fraction `v / u32::MAX`. The fraction is at
/// least `hundredths / 100`.
pub open spec fn draw_at_least(v: u32, hundredths: int) -> bool {
    100 * v >= hundredths * u32::MAX
}

/// The fraction of the draw is above `hundredths / 100`.
pub open spec fn draw_above(v: u32, hundredths: int) -> bool {
    100 * v > hundredths * u32::MAX
}

/// The fraction of the draw is below `rate / 100`.
pub open spec fn draw_below(v: u32, rate: u32) -> bool {
    100 * v < rate * u32::MAX
}

/// The condition that follows `last` on the draw `v`: poor after excellent;
/// after normal, excellent from nine tenths up and good above 65 hundredths;
/// normal in every other case.
pub open spec fn drawn_condition(last: Condition, v: u32) -> Condition {
    if last == Condition::Excellent {
        Condition::Poor
    } else if last == Condition::Normal && draw_at_least(v, 90) {
        Condition::Excellent
    } else if last == Condition::Normal && draw_above(v, 65) {
        Condition::Good
    } else {
        Condition::Normal
    }
}

/// One of the two strategies reads a draw.
pub open spec fn strategies_read(
    condition_strategy: ConditionSimulation,
    action_strategy: RandomActionSuccessChance,
) -> bool {
    condition_strategy == ConditionSimulation::WeightedRandom || action_strategy
        == RandomActionSuccessChance::Normal
}

/// The randomness of one turn.
#[derive(Debug, Clone, Copy, PartialEq, Eq, Structural)]
pub struct SimulationRandomness {
    pub condition: RandomCondition,
    pub action_success: RandomActionSuccess,
}

impl SimulationRandomness {
    /// The condition that this randomness gives after `last` under the
    /// strategy.
    pub open spec fn condition_for(self, last: Condition, strategy: ConditionSimulation)
        -> Condition {
        match strategy {
            ConditionSimulation::AlwaysNormal => Condition::Normal,
            ConditionSimulation::WeightedRandom => match self.condition {
                RandomCondition::Value(v) => v,
                RandomCondition::Random(v) => drawn_condition(last, v),
            },
        }
    }

    /// Whether this randomness lets an action with a chance of `rate`
    /// percent succeed under the strategy.
    pub open spec fn success_for(self, rate: u32, strategy: RandomActionSuccessChance) -> bool {
        match strategy {
            RandomActionSuccessChance::Normal => match self.action_success {
                RandomActionSuccess::Value(v) => v,
                RandomActionSuccess::Random(v) => draw_below(v, rate),
            },
            RandomActionSuccessChance::AlwaysSucceed => true,
            RandomActionSuccessChance::AlwaysFail => false,
        }
    }

    /// Both parts are draws.
    pub open spec fn drawn(self) -> bool {
        self.condition is Random && self.action_success is Random
    }

    /// The condition part is what a generator under the strategy holds: a
    /// draw where the strategy reads one, the normal condition where it does
    /// not.
    pub open spec fn condition_fits(self, strategy: ConditionSimulation) -> bool {
        match strategy {
            ConditionSimulation::WeightedRandom => self.condition is Random,
            ConditionSimulation::AlwaysNormal => self.condition == RandomCondition::Value(
                Condition::Normal,
            ),
        }
    }

    /// The success part is what a generator under the strategy holds: a draw
    /// where the strategy reads one, the success that the strategy fixes
    /// where it does not.
    pub open spec fn success_fits(self, strategy: RandomActionSuccessChance) -> bool {
        match strategy {
            RandomActionSuccessChance::Normal => self.action_success is Random,
            RandomActionSuccessChance::AlwaysSucceed => self.action_success
                == RandomActionSuccess::Value(true),
            RandomActionSuccessChance::AlwaysFail => self.action_success
                == RandomActionSuccess::Value(false),
        }
    }

    /// Both parts are what a generator under the two strategies holds.
    pub open spec fn fits(
        self,
        condition_strategy: ConditionSimulation,
        action_strategy: RandomActionSuccessChance,
    ) -> bool {
        self.condition_fits(condition_strategy) && self.success_fits(action_strategy)
    }

    /// The randomness of a first turn under the strategy for successes: the
    /// condition is normal, the success is what the strategy asks for.
    pub open spec fn fits_first_step(self, action_strategy: RandomActionSuccessChance) -> bool {
        &&& self.condition == RandomCondition::Value(Condition::Normal)
        &&& self.success_fits(action_strategy)
    }

    /// The success part for a strategy: drawn only where the strategy reads
    /// it.
    pub fn success_part(strategy: RandomActionSuccessChance) -> (r: Result<
        RandomActionSuccess,
        SimulationError,
    >)
        ensures
            r matches Ok(part) ==> match strategy {
                RandomActionSuccessChance::Normal => part is Random,
                RandomActionSuccessChance::AlwaysSucceed => part == RandomActionSuccess::Value(
                    true,
                ),
                RandomActionSuccessChance::AlwaysFail => part == RandomActionSuccess::Value(false),
            },
            r matches Err(e) ==> e == SimulationError::EntropyUnavailable && strategy
                == RandomActionSuccessChance::Normal,
    {
        match strategy {
            RandomActionSuccessChance::Normal => match get_random_int() {
                Ok(v) => Ok(RandomActionSuccess::Random(v)),
                Err(e) => Err(e),
            },
            RandomActionSuccessChance::AlwaysSucceed => Ok(RandomActionSuccess::Value(true)),
            RandomActionSuccessChance::AlwaysFail => Ok(RandomActionSuccess::Value(false)),
        }
    }

    /// The condition part for a strategy: drawn only where the strategy
    /// reads it.
    pub fn condition_part(strategy: ConditionSimulation) -> (r: Result<
        RandomCondition,
        SimulationError,
    >)
        ensures
            r matches Ok(part) ==> match strategy {
                ConditionSimulation::WeightedRandom => part is Random,
                ConditionSimulation::AlwaysNormal => part == RandomCondition::Value(
                    Condition::Normal,
                ),
            },
            r matches Err(e) ==> e == SimulationError::EntropyUnavailable && strategy
                == ConditionSimulation::WeightedRandom,
    {
        match strategy {
            ConditionSimulation::WeightedRandom => match get_random_int() {
                Ok(v) => Ok(RandomCondition::Random(v)),
                Err(e) => Err(e),
            },
            ConditionSimulation::AlwaysNormal => Ok(RandomCondition::Value(Condition::Normal)),
        }
    }

    /// The randomness of a turn under the two strategies. Only what a
    /// strategy reads is drawn, so strategies that read nothing always get
    /// their randomness.
    pub fn for_strategies(
        condition_strategy: ConditionSimulation,
        action_strategy: RandomActionSuccessChance,
    ) -> (r: Result<SimulationRandomness, SimulationError>)
        ensures
            r matches Ok(x) ==> x.fits(condition_strategy, action_strategy),
            r matches Err(e) ==> e == SimulationError::EntropyUnavailable && strategies_read(
                condition_strategy,
                action_strategy,
            ),
    {
        let condition = match SimulationRandomness::condition_part(condition_strategy) {
            Ok(part) => part,
            Err(e) => {
                return Err(e);
            },
        };
        match SimulationRandomness::success_part(action_strategy) {
            Ok(action_success) => Ok(SimulationRandomness { condition, action_success }),
            Err(e) => Err(e),
        }
    }

    /// The randomness of a first turn under the strategy for successes: the
    /// condition is normal, and the success is drawn only where the strategy
    /// reads it.
    pub fn first_step_for(action_strategy: RandomActionSuccessChance) -> (r: Result<
        SimulationRandomness,
        SimulationError,
    >)
        ensures
            r matches Ok(x) ==> x.fits_first_step(action_strategy),
            r matches Err(e) ==> e == SimulationError::EntropyUnavailable && action_strategy
                == RandomActionSuccessChance::Normal,
    {
        match SimulationRandomness::success_part(action_strategy) {
            Ok(action_success) => Ok(
                SimulationRandomness {
                    condition: RandomCondition::Value(Condition::Normal),
                    action_success,
                },
            ),
            Err(e) => Err(e),
        }
    }

    /// Draws both parts.
    pub fn new() -> (r: Result<SimulationRandomness, SimulationError>)
        ensures
            r matches Ok(x) ==> x.drawn(),
            r matches Err(e) ==> e == SimulationError::EntropyUnavailable,
    {
        let condition = match get_random_int() {
            Ok(v) => v,
            Err(e) => {
                return Err(e);
            },
        };
        let action_success = match get_random_int() {
            Ok(v) => v,
            Err(e) => {
                return Err(e);
            },
        };
        Ok(
            SimulationRandomness {
                condition: RandomCondition::Random(condition),
                action_success: RandomActionSuccess::Random(action_success),
            },
        )
    }

    /// The first turn: its condition is normal, its success is drawn.
    pub fn first_step() -> (r: Result<SimulationRandomness, SimulationError>)
        ensures
            r matches Ok(x) ==> x.condition == RandomCondition::Value(Condition::Normal)
                && x.action_success is Random,
            r matches Err(e) ==> e == SimulationError::EntropyUnavailable,
    {
        match get_random_int() {
            Ok(v) => Ok(
                SimulationRandomness {
                    condition: RandomCondition::Value(Condition::Normal),
                    action_success: RandomActionSuccess::Random(v),
                },
            ),
            Err(e) => Err(e),
        }
    }

    /// A turn whose condition and success are already known.
    pub fn from_results(condition: Condition, action_success: bool) -> (r: SimulationRandomness)
        ensures
            r == (SimulationRandomness {
                condition: RandomCondition::Value(condition),
                action_success: RandomActionSuccess::Value(action_success),
            }),
    {
        SimulationRandomness {
            condition: RandomCondition::Value(condition),
            action_success: RandomActionSuccess::Value(action_success),
        }
    }

    /// The condition of this turn after a turn of condition `last`.
    pub fn get_condition(&self, last: Condition, strategy: ConditionSimulation) -> (r: Condition)
        ensures
            r == self.condition_for(last, strategy),
            strategy == ConditionSimulation::AlwaysNormal ==> r == Condition::Normal,
    {
        match strategy {
            ConditionSimulation::AlwaysNormal => Condition::Normal,
            ConditionSimulation::WeightedRandom => {
                match self.condition {
                    RandomCondition::Value(v) => v,
                    RandomCondition::Random(v) => {
                        let scaled: u64 = 100 * (v as u64);
                        let whole: u64 = u32::MAX as u64;
                        if last == Condition::Excellent {
                            Condition::Poor
                        } else if last == Condition::Normal && scaled >= 90 * whole {
                            Condition::Excellent
                        } else if last == Condition::Normal && scaled > 65 * whole {
                            Condition::Good
                        } else {
                            Condition::Normal
                        }
                    },
                }
            },
        }
    }

    /// Whether an action with a chance of `rate` percent succeeds this turn.
    pub fn random_action_succeess(&self, rate: u32, strategy: RandomActionSuccessChance) -> (r:
        bool)
        ensures
            r == self.success_for(rate, strategy),
            strategy == RandomActionSuccessChance::AlwaysFail ==> !r,
            strategy == RandomActionSuccessChance::AlwaysSucceed ==> r,
    {
        match strategy {
            RandomActionSuccessChance::Normal => match self.action_success {
                RandomActionSuccess::Value(v) => v,
                RandomActionSuccess::Random(v) => {
                    proof {
                        super::numbers::lemma_product_bound(
                            rate as int,
                            u32::MAX as int,
                            u32::MAX as int,
                            u32::MAX as int,
                        );
                        assert(0xffff_ffffint * 0xffff_ffffint <= 0xffff_fffe_0000_0001int)
                            by (nonlinear_arith);
                    }
                    100 * (v as u64) < (rate as u64) * (u32::MAX as u64)
                },
            },
            RandomActionSuccessChance::AlwaysSucceed => true,
            RandomActionSuccessChance::AlwaysFail => false,
        }
    }
}

/// The randomness of one turn together with the strategies that read it.
#[derive(Debug, Clone, Copy, PartialEq, Eq, Structural)]
pub struct SimulationRandomnessGenerator {
    pub randomness: SimulationRandomness,
    pub condition_strategy: ConditionSimulation,
    pub action_strategy: RandomActionSuccessChance,
}

impl SimulationRandomnessGenerator {
    /// The condition that this generator gives after a turn of condition
    /// `last`.
    pub open spec fn condition_after(self, last: Condition) -> Condition {
        self.randomness.condition_for(last, self.condition_strategy)
    }

    /// Whether this generator lets an action with a chance of `rate` percent
    /// succeed.
    pub open spec fn succeeds(self, rate: u32) -> bool {
        self.randomness.success_for(rate, self.action_strategy)
    }

    /// The same strategies over other randomness.
    pub open spec fn with_randomness(self, randomness: SimulationRandomness)
        -> SimulationRandomnessGenerator {
        SimulationRandomnessGenerator {
            randomness,
            condition_strategy: self.condition_strategy,
            action_strategy: self.action_strategy,
        }
    }

    /// Neither strategy reads the randomness.
    pub open spec fn deterministic(self) -> bool {
        &&& self.condition_strategy == ConditionSimulation::AlwaysNormal
        &&& self.action_strategy != RandomActionSuccessChance::Normal
    }

    /// One of the strategies reads the randomness.
    pub open spec fn reads_randomness(self) -> bool {
        strategies_read(self.condition_strategy, self.action_strategy)
    }

    /// The randomness is what the generator of a following turn holds.
    pub open spec fn draws(self, randomness: SimulationRandomness) -> bool {
        randomness.fits(self.condition_strategy, self.action_strategy)
    }

    /// The generator that replays a turn of the given condition and success.
    pub open spec fn replaying(condition: Condition, action_success: bool)
        -> SimulationRandomnessGenerator {
        SimulationRandomnessGenerator {
            randomness: SimulationRandomness {
                condition: RandomCondition::Value(condition),
                action_success: RandomActionSuccess::Value(action_success),
            },
            condition_strategy: ConditionSimulation::WeightedRandom,
            action_strategy: RandomActionSuccessChance::Normal,
        }
    }

    /// A generator under the two strategies. Only what a strategy reads is
    /// drawn, so strategies that read nothing always get their generator.
    pub fn new(
        condition_strategy: ConditionSimulation,
        action_strategy: RandomActionSuccessChance,
    ) -> (r: Result<SimulationRandomnessGenerator, SimulationError>)
        ensures
            r matches Ok(g) ==> g.condition_strategy == condition_strategy && g.action_strategy
                == action_strategy && g.randomness.fits(condition_strategy, action_strategy),
            r matches Err(e) ==> e == SimulationError::EntropyUnavailable && strategies_read(
                condition_strategy,
                action_strategy,
            ),
    {
        match SimulationRandomness::for_strategies(condition_strategy, action_strategy) {
            Ok(randomness) => Ok(
                SimulationRandomnessGenerator { randomness, condition_strategy, action_strategy },
            ),
            Err(e) => Err(e),
        }
    }

    /// The generator of a first turn: its condition is normal, and its
    /// success is drawn only where the strategy reads it.
    pub fn first_step(
        condition_strategy: ConditionSimulation,
        action_strategy: RandomActionSuccessChance,
    ) -> (r: Result<SimulationRandomnessGenerator, SimulationError>)
        ensures
            r matches Ok(g) ==> g.condition_strategy == condition_strategy && g.action_strategy
                == action_strategy && g.randomness.fits_first_step(action_strategy),
            r matches Err(e) ==> e == SimulationError::EntropyUnavailable && action_strategy
                == RandomActionSuccessChance::Normal,
    {
        match SimulationRandomness::first_step_for(action_strategy) {
            Ok(randomness) => Ok(
                SimulationRandomnessGenerator { randomness, condition_strategy, action_strategy },
            ),
            Err(e) => Err(e),
        }
    }

    /// The generator that gives exactly `condition` and `action_success`, so
    /// that a recorded turn can be played again. It is for one turn: what
    /// `next` makes of it draws anew.
    pub fn from_results(condition: Condition, action_success: bool) -> (r:
        SimulationRandomnessGenerator)
        ensures
            r == SimulationRandomnessGenerator::replaying(condition, action_success),
            forall|last: Condition| r.condition_after(last) == condition,
            forall|rate: u32| r.succeeds(rate) == action_success,
    {
        SimulationRandomnessGenerator {
            randomness: SimulationRandomness::from_results(condition, action_success),
            condition_strategy: ConditionSimulation::WeightedRandom,
            action_strategy: RandomActionSuccessChance::Normal,
        }
    }

    /// The generator of the following turn: the same strategies over fresh
    /// randomness. Only what a strategy reads is drawn, so a generator whose
    /// strategies read nothing always has a next one.
    pub fn next(&self) -> (r: Result<SimulationRandomnessGenerator, SimulationError>)
        ensures
            r matches Ok(g) ==> self.draws(g.randomness) && g == self.with_randomness(
                g.randomness,
            ),
            r matches Err(e) ==> e == SimulationError::EntropyUnavailable
                && self.reads_randomness(),
    {
        match SimulationRandomness::for_strategies(self.condition_strategy, self.action_strategy) {
            Ok(randomness) => Ok(
                SimulationRandomnessGenerator {
                    randomness,
                    condition_strategy: self.condition_strategy,
                    action_strategy: self.action_strategy,
                },
            ),
            Err(e) => Err(e),
        }
    }

    /// The condition of this turn after a turn of condition `last`.
    pub fn get_condition(&self, last: Condition) -> (r: Condition)
        ensures
            r == self.condition_after(last),
            self.condition_strategy == ConditionSimulation::AlwaysNormal ==> r
                == Condition::Normal,
    {
        self.randomness.get_condition(last, self.condition_strategy)
    }

    /// Whether an action with a chance of `rate` percent succeeds this turn.
    pub fn random_action_succeess(&self, rate: u32) -> (r: bool)
        ensures
            r == self.succeeds(rate),
            self.action_strategy == RandomActionSuccessChance::AlwaysFail ==> !r,
            self.action_strategy == RandomActionSuccessChance::AlwaysSucceed ==> r,
    {
        self.randomness.random_action_succeess(rate, self.action_strategy)
    }
}

/// Under the strategies that always give a normal condition and always fail,
/// every generator gives a normal condition and no success, whatever its
/// randomness, the last condition and the rate.
pub proof fn lemma_fixed_strategies_ignore_randomness(
    generator: SimulationRandomnessGenerator,
    last: Condition,
    rate: u32,
)
    requires
        generator.condition_strategy == ConditionSimulation::AlwaysNormal,
        generator.action_strategy == RandomActionSuccessChance::AlwaysFail,
    ensures
        generator.condition_after(last) == Condition::Normal,
        !generator.succeeds(rate),
{
}

/// Generators with the same strategies, neither of which reads the
/// randomness, give the same conditions and successes.
pub proof fn lemma_deterministic_generators_agree(
    a: SimulationRandomnessGenerator,
    b: SimulationRandomnessGenerator,
    last: Condition,
    rate: u32,
)
    requires
        a.deterministic(),
        a.condition_strategy == b.condition_strategy,
        a.action_strategy == b.action_strategy,
    ensures
        a.condition_after(last) == b.condition_after(last),
        a.succeeds(rate) == b.succeeds(rate),
{
}

} // verus!
