//! The bomb spawner: a stochastic timer that drops one bomb from a
//! uniformly chosen alive alien.

use vstd::prelude::*;
use crate::assets::IX_BOMB;
use crate::fx::FX_LIMIT;
use crate::params::{ALIEN_MAX, LEVEL_MAX};
use crate::rng;
use crate::state::{wf_alien, wf_bomb, Alien, Bomb, BOMB_EXTRA_TIME, BOMB_MIN_TIME};

verus! {

/// The slack added to the minimum bomb interval: it shrinks as the level
/// rises, so bombs fall more often later in the game.
pub open spec fn bomb_extra(level: int) -> int {
    BOMB_EXTRA_TIME * 4 / (3 + level)
}

/// Draws the next bomb countdown from the interval
/// `[BOMB_MIN_TIME, BOMB_MIN_TIME + bomb_extra(level))`, at a granularity
/// of eight micro-units so the raw draw stays within the exact range of the
/// random source.
pub fn bomb_interval(level: u32) -> (r: i64)
    requires
        level <= LEVEL_MAX,
    ensures
        BOMB_MIN_TIME <= r < BOMB_MIN_TIME + bomb_extra(level as int),
        r < 4_100_000,
{
    let extra: u64 = 10_000_000 / (3 + level as u64);
    proof {
        assert(extra == bomb_extra(level as int));
        assert(extra >= 9) by (nonlinear_arith)
            requires
                extra == 10_000_000 as int / (3 + level as int),
                0 <= level <= 1_000_000,
        ;
        assert(extra <= 10_000_000int / 3) by (nonlinear_arith)
            requires
                extra == 10_000_000 as int / (3 + level as int),
                0 <= level,
        ;
    }
    let steps: u64 = extra / 8;
    proof {
        assert(1 <= steps <= 0x20_0000 && steps * 8 <= extra) by (nonlinear_arith)
            requires
                steps == extra as int / 8,
                9 <= extra <= 3_333_333,
        ;
    }
    let d: usize = rng::gen_range_usize(0, steps as usize);
    proof {
        assert(8 * d < extra) by (nonlinear_arith)
            requires
                0 <= d < steps,
                steps * 8 <= extra,
        ;
    }
    700_000 + 8 * (d as i64)
}

/// Spawns one bomb at a uniformly chosen alive alien's current position, or
/// nothing when no alien is alive.
pub fn spawn_bomb(aliens: &Vec<Alien>) -> (r: Option<Bomb>)
    requires
        aliens@.len() <= ALIEN_MAX,
        forall|k: int| 0 <= k < aliens@.len() ==> wf_alien(#[trigger] aliens@[k]),
    ensures
        match r {
            Some(b) => {
                &&& exists|i: int|
                    0 <= i < aliens@.len() && !(#[trigger] aliens@[i]).dead && b.xpos
                        == aliens@[i].xpos && b.ypos == aliens@[i].ypos
                &&& b.sprite == IX_BOMB
                &&& b.phase == 0
                &&& !b.dead
                &&& wf_bomb(b)
            },
            None => forall|i: int| 0 <= i < aliens@.len() ==> (#[trigger] aliens@[i]).dead,
        },
{
    let mut live: Vec<usize> = Vec::new();
    let n: usize = aliens.len();
    let mut i: usize = 0;
    while i < n
        invariant
            i <= n,
            n == aliens@.len(),
            n <= ALIEN_MAX,
            live@.len() <= i,
            forall|k: int| 0 <= k < aliens@.len() ==> wf_alien(#[trigger] aliens@[k]),
            forall|k: int|
                0 <= k < live@.len() ==> (#[trigger] live@[k]) < n && !aliens@[live@[k] as int].dead,
            live@.len() == 0 ==> forall|k: int| 0 <= k < i ==> (#[trigger] aliens@[k]).dead,
        decreases n - i,
    {
        if !aliens[i].dead {
            live.push(i);
        }
        i = i + 1;
    }
    if live.len() == 0 {
        return None;
    }
    let idx: usize = rng::gen_range_usize(0, live.len());
    let src: usize = live[idx];
    proof {
        assert(!aliens@[src as int].dead && wf_alien(aliens@[src as int]));
    }
    Some(
        Bomb {
            sprite: IX_BOMB,
            xpos: aliens[src].xpos,
            ypos: aliens[src].ypos,
            phase: 0,
            dead: false,
        },
    )
}

} // verus!
