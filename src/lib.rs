//! A state-machine engine that drives an entity through named states.
//!
//! The engine matches transitions against the current state, turns the
//! outcome of a transition's action into a step result, commits that result
//! to the machine (history, attempt counter, metadata), checks enforcement
//! policies that collect every violation, and projects the machine into a
//! versioned checkpoint from which it can be restored.
//!
//! Running an action's effect is the caller's business: the engine hands out
//! the matched transition and takes the action's outcome back.

pub mod builder;
pub mod checkpoint;
mod clock;
pub mod enforcement;
pub mod guard;
pub mod history;
pub mod machine;
pub mod state;
pub mod transition;

pub use builder::{BuildError, StateMachineBuilder, TransitionBuilder};
pub use checkpoint::{Checkpoint, CheckpointError, MachineMetadata, CHECKPOINT_VERSION};
pub use enforcement::{
    EnforcementBuilder, EnforcementRules, TransitionContext, ViolationError, ViolationStrategy,
};
pub use guard::Guard;
pub use history::{StateHistory, StateTransition};
pub use machine::{StateMachine, StepResult};
pub use state::State;
pub use transition::{Transition, TransitionError, TransitionResult};
