//! Frame-stepped simulation core of a side-scrolling shooter.
//!
//! The playfield is a logical rectangle of width 1.0 and height 1.333; every
//! position, velocity and timer is held in fixed-point micro-units (one unit
//! is a millionth of the playfield width), so the whole simulation is exact
//! integer arithmetic. Rendering, input devices, audio and networking live
//! outside this crate; the simulation consumes plain input flags and random
//! draws and yields the game events of each frame.

pub mod assets;
pub mod bombs;
pub mod collide;
pub mod events;
pub mod explosion;
pub mod fx;
pub mod highscore;
pub mod params;
pub mod player;
pub mod pools;
mod rng;
pub mod sounds;
pub mod state;
pub mod step;
pub mod swarm;

pub use fx::FX_ONE;
