pub mod actions;
pub mod builder;
pub mod enums;
pub mod model;
mod random;
pub mod simulation;
pub mod structs;
pub mod tables;

pub use actions::{HeartAndSoul, PrudentTouch};
pub use builder::{SimulationBuilder, SimulationBuilderError};
pub use enums::{ActionType, Buff, CraftingActionEnum, CraftingJob, FailCause, StepState};
pub use simulation::{Simulation, SimulationResult};
pub use structs::{
    ActionResult, BuffTickResult, Craft, CrafterLevels, CrafterStats, CraftingLevel,
    EffectiveBuff,
};
pub mod laws;
pub mod single;
