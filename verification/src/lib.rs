//! Simulation core of a 2D arena-survival game.
//!
//! The core advances a fixed set of per-tick update rules: player motion,
//! enemy steering with local avoidance, projectile motion, cooldown-gated
//! fire control, overlap-driven combat resolution, population-capped
//! spawning, and timed power-ups.  Rendering, input polling and audio are
//! external collaborators: the core consumes already-decoded intents and
//! emits draw-relevant state.
//!
//! All geometry is integer fixed-point: a coordinate holds thousandths of a
//! pixel, a timestamp holds milliseconds.

pub mod bullet;
pub mod combat;
pub mod consts;
pub mod enemy;
pub mod game;
pub mod geom;
pub mod motion;
pub mod player;
pub mod powerup;
mod rng;
pub mod seq_util;
pub mod steer;
pub mod weapons;
