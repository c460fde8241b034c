//! The events one frame of simulation yields, in the order they happened.
//!
//! The simulation never talks to a sound device, a network or a telemetry
//! sink itself: it returns these records and the embedding program forwards
//! them. Positions and times are fixed-point micro-units.

use vstd::prelude::*;

verus! {

/// One game event.
#[derive(Clone, Copy, PartialEq, Eq, Structural, Debug)]
pub enum Event {
    /// The program started.
    Start,
    /// Asset loading finished.
    LoadingDone,
    /// The pause flag was toggled.
    Pause { paused: bool },
    /// A new level was built.
    NewLevel { level: u32, score: u64 },
    /// The player fired a bullet.
    Shot { xpos: i64, score: u64, alien_y: i64 },
    /// A bullet struck an alien.
    Hit { xpos: i64, score: u64, sprite: usize, points: u32, remaining: usize },
    /// A bullet left the playfield without striking anything.
    Miss { xpos: i64, score: u64, remaining: usize },
    /// The swarm touched a margin and started its descent.
    Advance { target_y: i64, remaining: usize },
    /// A bomb struck the player.
    Bombed { xpos: i64, score: u64, remaining: usize, lives: i32 },
    /// The player ran out of lives; the score is final.
    GameOver { xpos: i64, score: u64, remaining: usize, level: u32 },
}

} // verus!
