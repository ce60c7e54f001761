//! Core logic of a 2D platformer character controller: a discrete locomotion
//! state machine (Idle/Walk/Run/Jump/Fall) driven by input and physics
//! feedback, a jump arc tracker with a maximum-height budget, an animation
//! selector mapping action states to sprite cycles, and a repeating animation
//! cycle timer.
//!
//! Units: time is measured in milliseconds, distances in thousandths of a
//! pixel, and speeds in pixels per second, so that a per-tick displacement is
//! exactly `speed * dt_ms` thousandths of a pixel.

pub mod animation;
pub mod config;
pub mod jump;
pub mod locomotion;
pub mod state;

pub use animation::AnimationCycle;
pub use animation::AnimationIndices;
pub use animation::CycleSettings;
pub use config::Config;
pub use jump::JumpState;
pub use locomotion::ControllerFeedback;
pub use locomotion::InputState;
pub use locomotion::Player;
pub use locomotion::Translation;
pub use state::ActionState;
pub use state::Facing;
