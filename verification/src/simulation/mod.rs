//! The simulation engine: randomness, craft state, ability execution and the
//! search over ability sequences.

pub mod ability;
pub mod determinism;
pub mod limits;
pub mod numbers;
pub mod random;
pub mod replay;
pub mod scripts;
pub mod state;
pub mod traversal;
pub mod turn;

pub use self::ability::{
    can_afford_action, can_execute_ability, execute_action, use_ability, AbilityExecutionStatus,
    ActionExecutionStatus,
};
pub use self::random::{
    get_random_int, random_int_from, ConditionSimulation, RandomActionSuccess,
    RandomActionSuccessChance, RandomCondition, SimulationError, SimulationRandomness,
    SimulationRandomnessGenerator,
};
pub use self::scripts::{
    simulate, simulate_from_abilities, simulate_from_run, try_predetermined_starters,
};
pub use self::state::{
    next_quality, Condition, CraftState, RunView, SimulationConstants, SimulationRun,
    SimulationStep, SimulationVariables, StepVariables,
};
pub use self::traversal::{find_and_use_ability, traverse_depth_first};
pub use self::turn::next_step_variables;
