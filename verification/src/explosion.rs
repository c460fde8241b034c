//! Explosion effects: spawned at a hit, they grow to full size, shrink back
//! and die, independent of everything else in the game.

use vstd::prelude::*;
use crate::assets::{IX_EXPLOSION_0, IX_SOUND_EXPLOSION, IX_SOUND_POP_01, SPRITE_COUNT};
use crate::fx::{DT_MAX, FX_LIMIT, FX_ONE};
use crate::rng;

verus! {

/// Phase growth speed: 4.0 per second.
pub const EXPLOSION_SPEED: i64 = 4_000_000;

/// Phase a fresh explosion starts at: 0.2.
pub const EXPLOSION_START_PHASE: i64 = 200_000;

/// One visual effect. `fresh` is consumed once to trigger its sound;
/// `phase` runs a triangle wave from 0.2 up to 1.0 and back down to 0.
#[derive(Clone, Copy)]
pub struct Explosion {
    pub sprite: usize,
    pub xpos: i64,
    pub ypos: i64,
    pub speed: i64,
    pub phase: i64,
    pub sound: usize,
    pub fresh: bool,
    pub growing: bool,
    pub dead: bool,
}

impl Explosion {
    pub open spec fn wf(self) -> bool {
        &&& self.sprite < SPRITE_COUNT
        &&& -FX_LIMIT <= self.xpos <= FX_LIMIT
        &&& -FX_LIMIT <= self.ypos <= FX_LIMIT
        &&& 0 <= self.speed <= 8 * FX_ONE
        &&& 0 <= self.phase <= FX_ONE
        &&& self.sound < 6
    }
}

/// What every freshly spawned explosion looks like, apart from its randomly
/// drawn sprite and sound.
pub open spec fn spawned_at(e: Explosion, xpos: i64, ypos: i64) -> bool {
    &&& e.xpos == xpos
    &&& e.ypos == ypos
    &&& e.speed == EXPLOSION_SPEED
    &&& e.phase == EXPLOSION_START_PHASE
    &&& e.fresh
    &&& e.growing
    &&& !e.dead
}

/// A pop explosion at the given spot, with a randomly chosen explosion
/// sprite and a randomly chosen pop sound.
pub fn new(xpos: i64, ypos: i64) -> (e: Explosion)
    requires
        -FX_LIMIT <= xpos <= FX_LIMIT,
        -FX_LIMIT <= ypos <= FX_LIMIT,
    ensures
        spawned_at(e, xpos, ypos),
        IX_EXPLOSION_0 <= e.sprite < IX_EXPLOSION_0 + 9,
        IX_SOUND_POP_01 <= e.sound < IX_SOUND_POP_01 + 4,
        e.wf(),
{
    let ix: usize = rng::gen_range_usize(0, 9);
    let six: usize = rng::gen_range_usize(0, 4) + IX_SOUND_POP_01;
    Explosion {
        sprite: IX_EXPLOSION_0 + ix,
        xpos,
        ypos,
        speed: EXPLOSION_SPEED,
        phase: EXPLOSION_START_PHASE,
        sound: six,
        fresh: true,
        growing: true,
        dead: false,
    }
}

/// The explosion of the player's own ship: a randomly chosen sprite, but
/// always the big explosion sound.
pub fn new_player(xpos: i64, ypos: i64) -> (e: Explosion)
    requires
        -FX_LIMIT <= xpos <= FX_LIMIT,
        -FX_LIMIT <= ypos <= FX_LIMIT,
    ensures
        spawned_at(e, xpos, ypos),
        IX_EXPLOSION_0 <= e.sprite < IX_EXPLOSION_0 + 9,
        e.sound == IX_SOUND_EXPLOSION,
        e.wf(),
{
    let ix: usize = rng::gen_range_usize(0, 9);
    Explosion {
        sprite: IX_EXPLOSION_0 + ix,
        xpos,
        ypos,
        speed: EXPLOSION_SPEED,
        phase: EXPLOSION_START_PHASE,
        sound: IX_SOUND_EXPLOSION,
        fresh: true,
        growing: true,
        dead: false,
    }
}

/// One frame of the triangle wave: the phase moves by `dt * speed`, up while
/// growing and down while shrinking; it clamps at 1.0 and flips to
/// shrinking, and clamps at 0.0 and dies.
pub open spec fn evolve_spec(e: Explosion, dt: int) -> Explosion {
    let d = dt * e.speed / (FX_ONE as int);
    let p = if e.growing {
        e.phase + d
    } else {
        e.phase - d
    };
    if p > FX_ONE {
        Explosion { phase: FX_ONE, growing: false, ..e }
    } else if p < 0 {
        Explosion { phase: 0, dead: true, ..e }
    } else {
        Explosion { phase: p as i64, ..e }
    }
}

/// Advances one explosion by one frame.
pub fn evolve(dt: i64, x: &mut Explosion)
    requires
        0 <= dt <= DT_MAX,
        old(x).wf(),
    ensures
        *final(x) == evolve_spec(*old(x), dt as int),
        final(x).wf(),
{
    proof {
        assert(0 <= dt * x.speed <= 800_000_000_000) by (nonlinear_arith)
            requires
                0 <= dt <= 100_000,
                0 <= x.speed <= 8_000_000,
        ;
    }
    let d: i64 = dt * x.speed / FX_ONE;
    let p: i64 = if x.growing {
        x.phase + d
    } else {
        x.phase - d
    };
    if p > FX_ONE {
        x.phase = FX_ONE;
        x.growing = false;
    } else if p < 0 {
        x.phase = 0;
        x.dead = true;
    } else {
        x.phase = p;
    }
}

/// Advances every explosion in the pool by one frame.
pub fn evolve_all(v: &mut Vec<Explosion>, dt: i64)
    requires
        0 <= dt <= DT_MAX,
        forall|k: int| 0 <= k < old(v)@.len() ==> (#[trigger] old(v)@[k]).wf(),
    ensures
        final(v)@.len() == old(v)@.len(),
        forall|k: int|
            0 <= k < final(v)@.len() ==> final(v)@[k] == evolve_spec(
                #[trigger] old(v)@[k],
                dt as int,
            ),
        forall|k: int| 0 <= k < final(v)@.len() ==> (#[trigger] final(v)@[k]).wf(),
{
    let n: usize = v.len();
    let mut i: usize = 0;
    while i < n
        invariant
            i <= n,
            n == old(v)@.len(),
            v@.len() == n,
            0 <= dt <= DT_MAX,
            forall|k: int| 0 <= k < n ==> (#[trigger] old(v)@[k]).wf(),
            forall|k: int| i <= k < n ==> v@[k] == old(v)@[k],
            forall|k: int|
                0 <= k < i ==> v@[k] == evolve_spec(#[trigger] old(v)@[k], dt as int),
            forall|k: int| 0 <= k < i ==> (#[trigger] v@[k]).wf(),
        decreases n - i,
    {
        let mut e: Explosion = v[i];
        evolve(dt, &mut e);
        v.set(i, e);
        i = i + 1;
    }
}

} // verus!
