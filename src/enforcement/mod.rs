//! Policy checks on a transition attempt that report every violation at once.

pub mod builder;
pub mod context;
pub mod rules;
pub mod validation;
pub mod violations;

pub use builder::EnforcementBuilder;
pub use context::TransitionContext;
pub use rules::EnforcementRules;
pub use violations::{ViolationError, ViolationStrategy};
