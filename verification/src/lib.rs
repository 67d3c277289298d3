//! Frame engine core: surface lifecycle, physics pacing and instance mirroring.
//!
//! The engine owns the decisions of a real-time frame loop and none of its
//! devices. A host probes its window, reads its clock, runs the integrator
//! and talks to the GPU; it hands what it found to an [`EngineContext`] and
//! does what the context answers.
//!
//! [`EngineContext`]: context::EngineContext

pub mod animation;
pub mod context;
pub mod events;
pub mod game_entity;
pub mod grid;
pub mod host;
pub mod instance;
pub mod os_logger;
pub mod registry;
pub mod scalar;
pub mod scheduler;
pub mod sprite;
pub mod surface;
pub mod texture;
pub mod vertex_layout;
pub mod world;

pub use crate::game_entity::{
    AnimatorComponent, CircularMovement, Controllable, GameEntity, HorizontalRandomMovement,
    LinearMovement, SinusoidalMovement, SpriteSheetComponent,
};
