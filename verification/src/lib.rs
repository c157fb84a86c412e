//! A grid-based snake game engine: a bounded board with a one-cell wall,
//! a player-controlled snake that grows by eating randomly spawned food,
//! and a small state machine (playing / paused / over) advanced by discrete
//! ticks. The engine is the authoritative model; rendering and input live
//! outside it.

pub mod context;
pub mod rng;

pub use context::Context;
pub use context::GameState;
pub use context::PlayerDirection;
pub use context::Point;
