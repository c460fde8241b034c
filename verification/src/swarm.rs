//! The alien swarm controller: swarm-wide displacement, per-alien wiggle
//! phase, boundary-triggered direction changes, and the overshoot correction
//! that keeps the formation rigid across a direction change.

use vstd::prelude::*;
use crate::fx::{fx_clip, fx_shift, floor_sqrt, isqrt_u64, DT_MAX, FX_LIMIT, FX_ONE};
use crate::params::{
    ALIEN_MAX, BOTTOM_Y, DOWN_DISTANCE, HORIZ_SPEED, LEFT_MARGIN, LEVEL_MAX, PHASE_SPEED, PI_FX,
    RIGHT_MARGIN, TWO_PI_FX, VERT_SPEED,
};
use crate::state::{wf_alien, Alien, AlienState};

verus! {

/// Swarm displacement magnitude this frame: the base speed over
/// `3 + alive count`, scaled by the level factor `(level + 4) / 5`, for a
/// frame of `dt`.
pub open spec fn disp_mag(speed: int, dt: int, n: int, level: int) -> int {
    dt * speed * (level + 4) / ((3 + n) * 5 * FX_ONE)
}

/// Signed horizontal swarm displacement this frame.
pub open spec fn swarm_dx(st: AlienState, dt: int, n: int, level: int) -> int {
    match st {
        AlienState::Right => disp_mag(HORIZ_SPEED as int, dt, n, level),
        AlienState::Left => -disp_mag(HORIZ_SPEED as int, dt, n, level),
        _ => 0,
    }
}

/// Signed vertical swarm displacement this frame.
pub open spec fn swarm_dy(st: AlienState, dt: int, n: int, level: int) -> int {
    match st {
        AlienState::DownToRight | AlienState::DownToLeft => disp_mag(
            VERT_SPEED as int,
            dt,
            n,
            level,
        ),
        _ => 0,
    }
}

/// Wiggle-phase advance this frame: slower for larger swarms, so the
/// perceived sway rate stays roughly constant.
pub open spec fn phase_delta(dt: int, n: int) -> int {
    dt * PHASE_SPEED / (2 * FX_ONE + floor_sqrt(n * FX_ONE * FX_ONE))
}

/// A phase advanced by `d` and wrapped back into `[-PI_FX, PI_FX)`.
pub open spec fn wrap_phase(p: int, d: int) -> int {
    if p + d >= PI_FX {
        p + d - TWO_PI_FX
    } else {
        p + d
    }
}

/// One alien after the uniform displacement and phase advance of a frame;
/// an alien pushed past the bottom of the playfield has escaped and is
/// marked dead.
pub open spec fn moved_alien(a: Alien, pd: int, dx: int, dy: int) -> Alien {
    Alien {
        phase: wrap_phase(a.phase as int, pd) as i64,
        xpos: fx_clip(a.xpos + dx) as i64,
        ypos: fx_clip(a.ypos + dy) as i64,
        dead: a.dead || fx_clip(a.ypos + dy) > BOTTOM_Y,
        ..a
    }
}

/// One alien after the overshoot correction of a boundary transition.
pub open spec fn adjusted_alien(a: Alien, ax: int, ay: int) -> Alien {
    Alien { xpos: fx_clip(a.xpos + ax) as i64, ypos: fx_clip(a.ypos + ay) as i64, ..a }
}

/// Largest x reached by any alien after displacing by `dx`, tracked from 0.
pub open spec fn max_moved_x(s: Seq<Alien>, dx: int) -> int
    decreases s.len(),
{
    if s.len() == 0 {
        0
    } else {
        let m = max_moved_x(s.drop_last(), dx);
        let v = fx_clip(s.last().xpos + dx);
        if v > m {
            v
        } else {
            m
        }
    }
}

/// Smallest x reached by any alien after displacing by `dx`, tracked from
/// one playfield width.
pub open spec fn min_moved_x(s: Seq<Alien>, dx: int) -> int
    decreases s.len(),
{
    if s.len() == 0 {
        FX_ONE as int
    } else {
        let m = min_moved_x(s.drop_last(), dx);
        let v = fx_clip(s.last().xpos + dx);
        if v < m {
            v
        } else {
            m
        }
    }
}

/// Largest y reached by any alien after displacing by `dy`, tracked from
/// minus one playfield width.
pub open spec fn max_moved_y(s: Seq<Alien>, dy: int) -> int
    decreases s.len(),
{
    if s.len() == 0 {
        -FX_ONE as int
    } else {
        let m = max_moved_y(s.drop_last(), dy);
        let v = fx_clip(s.last().ypos + dy);
        if v > m {
            v
        } else {
            m
        }
    }
}

/// The boundary rules, applied after displacement: moving right and touching
/// the right margin turns the swarm down-to-left (and the other way round);
/// descending to the target y turns it back horizontal. The last two values
/// are the overshoot correction: the exact excess past the margin (or the
/// target), converted into the orthogonal direction by the speed ratio, so
/// the formation ends the frame exactly at the boundary.
pub open spec fn swarm_transition(st: AlienState, minx: int, maxx: int, maxy: int, ty: int) -> (
    AlienState,
    int,
    int,
    int,
) {
    match st {
        AlienState::Right => if maxx >= RIGHT_MARGIN {
            (
                AlienState::DownToLeft,
                fx_clip(maxy + DOWN_DISTANCE),
                RIGHT_MARGIN - maxx,
                (maxx - RIGHT_MARGIN) * (VERT_SPEED as int) / (HORIZ_SPEED as int),
            )
        } else {
            (AlienState::Right, ty, 0, 0)
        },
        AlienState::Left => if minx <= LEFT_MARGIN {
            (
                AlienState::DownToRight,
                fx_clip(maxy + DOWN_DISTANCE),
                LEFT_MARGIN - minx,
                (LEFT_MARGIN - minx) * (VERT_SPEED as int) / (HORIZ_SPEED as int),
            )
        } else {
            (AlienState::Left, ty, 0, 0)
        },
        AlienState::DownToRight => if maxy >= ty {
            (AlienState::Right, ty, (maxy - ty) * (HORIZ_SPEED as int) / (VERT_SPEED as int), ty - maxy)
        } else {
            (AlienState::DownToRight, ty, 0, 0)
        },
        AlienState::DownToLeft => if maxy >= ty {
            (AlienState::Left, ty, -((maxy - ty) * (HORIZ_SPEED as int) / (VERT_SPEED as int)), ty - maxy)
        } else {
            (AlienState::DownToLeft, ty, 0, 0)
        },
    }
}

/// True when the transition is one of the two horizontal-to-vertical turns,
/// which announce the swarm's advance.
pub open spec fn is_advance(st: AlienState, st2: AlienState) -> bool {
    ||| (st == AlienState::Right && st2 == AlienState::DownToLeft)
    ||| (st == AlienState::Left && st2 == AlienState::DownToRight)
}

/// Displacement magnitude of one frame, executably.
pub fn disp_mag_exec(speed: i64, dt: i64, n: usize, level: u32) -> (r: i64)
    requires
        0 <= speed <= 4 * FX_ONE,
        0 <= dt <= DT_MAX,
        n <= ALIEN_MAX,
        level <= LEVEL_MAX,
    ensures
        r == disp_mag(speed as int, dt as int, n as int, level as int),
        0 <= r <= 0x10_0000_0000,
{
    proof {
        assert(0 <= dt * speed <= 400_000_000_000) by (nonlinear_arith)
            requires
                0 <= dt <= 100_000,
                0 <= speed <= 4_000_000,
        ;
    }
    let a: u64 = (dt as u64) * (speed as u64);
    proof {
        assert(a * ((level as u64) + 4) <= 402_000_000_000_000_000) by (nonlinear_arith)
            requires
                0 <= a <= 400_000_000_000u64,
                0 <= level <= 1_000_000,
        ;
    }
    let num: u64 = a * ((level as u64) + 4);
    let den: u64 = (3 + n as u64) * 5_000_000;
    let r: u64 = num / den;
    proof {
        assert(num / den <= 0x10_0000_0000) by (nonlinear_arith)
            requires
                0 <= num <= 402_000_000_000_000_000u64,
                den >= 15_000_000,
        ;
    }
    r as i64
}

/// Wiggle-phase advance of one frame, executably; always below half a turn.
pub fn phase_delta_exec(dt: i64, n: usize) -> (r: i64)
    requires
        0 <= dt <= DT_MAX,
        n <= ALIEN_MAX,
    ensures
        r == phase_delta(dt as int, n as int),
        0 <= r < PI_FX,
{
    let sq: u64 = isqrt_u64((n as u64) * 1_000_000_000_000);
    proof {
        assert((n as u64) * 1_000_000_000_000 == (n as int) * (FX_ONE as int) * (FX_ONE as int));
    }
    proof {
        assert((sq as int) * (sq as int) <= 50_000_000_000_000 ==> sq <= 7_100_000)
            by (nonlinear_arith);
    }
    let den: u64 = 2 * (FX_ONE as u64) + sq;
    let num: u64 = (dt as u64) * 30_000_000;
    let r: u64 = num / den;
    proof {
        assert(num / den <= 1_500_000) by (nonlinear_arith)
            requires
                0 <= num <= 3_000_000_000_000u64,
                den >= 2_000_000,
        ;
    }
    r as i64
}

} // verus!

verus! {

/// A horizontal excess `m`, converted into the equivalent vertical distance
/// by the ratio of the two base speeds.
pub fn vert_of_horiz(m: i64) -> (r: i64)
    requires
        0 <= m <= FX_LIMIT + 1_000_000,
    ensures
        r == m * (VERT_SPEED as int) / (HORIZ_SPEED as int),
        0 <= r <= 4 * FX_LIMIT + 4_000_000,
{
    proof {
        assert(0 <= m * 4_000_000 <= (FX_LIMIT + 1_000_000) * 4_000_000) by (nonlinear_arith)
            requires
                0 <= m <= FX_LIMIT + 1_000_000,
        ;
    }
    let num: u64 = (m as u64) * 4_000_000;
    let q: u64 = num / 1_000_000;
    proof {
        assert(q == m * (VERT_SPEED as int) / (HORIZ_SPEED as int));
        assert(q <= 4 * FX_LIMIT + 4_000_000) by (nonlinear_arith)
            requires
                q == num as int / 1_000_000int,
                num <= 4_000_000 * (FX_LIMIT + 1_000_000),
        ;
    }
    q as i64
}

/// A vertical excess `m`, converted into the equivalent horizontal distance
/// by the ratio of the two base speeds.
pub fn horiz_of_vert(m: i64) -> (r: i64)
    requires
        0 <= m <= 2 * FX_LIMIT,
    ensures
        r == m * (HORIZ_SPEED as int) / (VERT_SPEED as int),
        0 <= r <= FX_LIMIT,
{
    proof {
        assert(0 <= m * 1_000_000 <= 2 * FX_LIMIT * 1_000_000) by (nonlinear_arith)
            requires
                0 <= m <= 2 * FX_LIMIT,
        ;
    }
    let num: u64 = (m as u64) * 1_000_000;
    let q: u64 = num / 4_000_000;
    proof {
        assert(q == m * (HORIZ_SPEED as int) / (VERT_SPEED as int));
        assert(q <= FX_LIMIT) by (nonlinear_arith)
            requires
                q == num as int / 4_000_000int,
                num <= 2_000_000 * FX_LIMIT,
        ;
    }
    q as i64
}

/// Everything `swarm_step` does to a non-empty pool: every alien takes the
/// same displacement and phase advance, the boundary rules run on the
/// extremes the moved formation reached, and the overshoot correction is
/// applied uniformly.
pub open spec fn swarm_post(
    s: Seq<Alien>,
    st: AlienState,
    ty: int,
    dt: int,
    level: int,
    s2: Seq<Alien>,
    st2: AlienState,
    ty2: int,
) -> bool {
    let n = s.len() as int;
    let pd = phase_delta(dt, n);
    let dx = swarm_dx(st, dt, n, level);
    let dy = swarm_dy(st, dt, n, level);
    let t = swarm_transition(st, min_moved_x(s, dx), max_moved_x(s, dx), max_moved_y(s, dy), ty);
    &&& st2 == t.0
    &&& ty2 == t.1
    &&& s2.len() == s.len()
    &&& forall|i: int|
        0 <= i < s.len() ==> s2[i] == adjusted_alien(moved_alien(s[i], pd, dx, dy), t.2, t.3)
}

/// A whole alien pool after one frame of swarm movement, boundary rules and
/// overshoot correction.
pub open spec fn swarm_moved(s: Seq<Alien>, st: AlienState, ty: int, dt: int, level: int) -> Seq<
    Alien,
> {
    let n = s.len() as int;
    let pd = phase_delta(dt, n);
    let dx = swarm_dx(st, dt, n, level);
    let dy = swarm_dy(st, dt, n, level);
    let t = swarm_transition(st, min_moved_x(s, dx), max_moved_x(s, dx), max_moved_y(s, dy), ty);
    if s.len() == 0 {
        s
    } else {
        Seq::new(s.len(), |i: int| adjusted_alien(moved_alien(s[i], pd, dx, dy), t.2, t.3))
    }
}

/// The movement state and target y after one frame's boundary rules.
pub open spec fn swarm_next(s: Seq<Alien>, st: AlienState, ty: int, dt: int, level: int) -> (
    AlienState,
    int,
) {
    if s.len() == 0 {
        (st, ty)
    } else {
        let n = s.len() as int;
        let dx = swarm_dx(st, dt, n, level);
        let dy = swarm_dy(st, dt, n, level);
        let t = swarm_transition(
            st,
            min_moved_x(s, dx),
            max_moved_x(s, dx),
            max_moved_y(s, dy),
            ty,
        );
        (t.0, t.1)
    }
}

/// One frame of the swarm controller, as a function of the alive aliens,
/// the movement state, the target y and the frame delta alone. Returns the
/// new movement state, the new target y, and whether the swarm advanced
/// (a horizontal-to-vertical turn happened).
pub fn swarm_step(
    aliens: &mut Vec<Alien>,
    st: AlienState,
    target_y: i64,
    dt: i64,
    level: u32,
) -> (r: (AlienState, i64, bool))
    requires
        0 <= dt <= DT_MAX,
        level <= LEVEL_MAX,
        old(aliens)@.len() <= ALIEN_MAX,
        -FX_LIMIT <= target_y <= FX_LIMIT,
        forall|i: int| 0 <= i < old(aliens)@.len() ==> wf_alien(#[trigger] old(aliens)@[i]),
    ensures
        final(aliens)@.len() == old(aliens)@.len(),
        forall|i: int| 0 <= i < final(aliens)@.len() ==> wf_alien(#[trigger] final(aliens)@[i]),
        forall|i: int|
            0 <= i < final(aliens)@.len() ==> (#[trigger] final(aliens)@[i]).sprite == old(
                aliens,
            )@[i].sprite && final(aliens)@[i].points == old(aliens)@[i].points,
        -FX_LIMIT <= r.1 <= FX_LIMIT,
        old(aliens)@.len() == 0 ==> final(aliens)@ =~= old(aliens)@ && r.0 == st && r.1
            == target_y && !r.2,
        old(aliens)@.len() > 0 ==> swarm_post(
            old(aliens)@,
            st,
            target_y as int,
            dt as int,
            level as int,
            final(aliens)@,
            r.0,
            r.1 as int,
        ),
        final(aliens)@ =~= swarm_moved(old(aliens)@, st, target_y as int, dt as int, level as int),
        r.0 == swarm_next(old(aliens)@, st, target_y as int, dt as int, level as int).0,
        r.1 == swarm_next(old(aliens)@, st, target_y as int, dt as int, level as int).1,
        r.2 == is_advance(st, r.0),
{
    let n: usize = aliens.len();
    if n == 0 {
        return (st, target_y, false);
    }
    let pd: i64 = phase_delta_exec(dt, n);
    let hm: i64 = disp_mag_exec(HORIZ_SPEED, dt, n, level);
    let vm: i64 = disp_mag_exec(VERT_SPEED, dt, n, level);
    let dx: i64 = match st {
        AlienState::Right => hm,
        AlienState::Left => -hm,
        _ => 0,
    };
    let dy: i64 = match st {
        AlienState::DownToRight => vm,
        AlienState::DownToLeft => vm,
        _ => 0,
    };
    let mut minx: i64 = FX_ONE;
    let mut maxx: i64 = 0;
    let mut maxy: i64 = -FX_ONE;
    let mut i: usize = 0;
    while i < n
        invariant
            i <= n,
            n == old(aliens)@.len(),
            aliens@.len() == n,
            n <= ALIEN_MAX,
            0 <= dt <= DT_MAX,
            0 <= pd < PI_FX,
            pd == phase_delta(dt as int, n as int),
            dx == swarm_dx(st, dt as int, n as int, level as int),
            dy == swarm_dy(st, dt as int, n as int, level as int),
            -0x10_0000_0000 <= dx <= 0x10_0000_0000,
            0 <= dy <= 0x10_0000_0000,
            forall|k: int| 0 <= k < n ==> wf_alien(#[trigger] old(aliens)@[k]),
            forall|k: int| i <= k < n ==> aliens@[k] == old(aliens)@[k],
            forall|k: int|
                0 <= k < i ==> aliens@[k] == moved_alien(
                    #[trigger] old(aliens)@[k],
                    pd as int,
                    dx as int,
                    dy as int,
                ),
            forall|k: int| 0 <= k < i ==> wf_alien(#[trigger] aliens@[k]),
            minx == min_moved_x(old(aliens)@.take(i as int), dx as int),
            maxx == max_moved_x(old(aliens)@.take(i as int), dx as int),
            maxy == max_moved_y(old(aliens)@.take(i as int), dy as int),
            -FX_LIMIT <= minx <= FX_LIMIT,
            -FX_LIMIT <= maxx <= FX_LIMIT,
            -FX_LIMIT <= maxy <= FX_LIMIT,
        decreases n - i,
    {
        let ghost pre = aliens@;
        let xp: i64 = fx_shift(aliens[i].xpos, dx);
        let yp: i64 = fx_shift(aliens[i].ypos, dy);
        let q: i64 = aliens[i].phase + pd;
        let ph: i64 = if q >= PI_FX {
            q - TWO_PI_FX
        } else {
            q
        };
        let dead2: bool = aliens[i].dead || yp > BOTTOM_Y;
        let spr: usize = aliens[i].sprite;
        let pts: u32 = aliens[i].points;
        aliens.set(
            i,
            Alien { sprite: spr, xpos: xp, ypos: yp, phase: ph, points: pts, dead: dead2 },
        );
        proof {
            assert(aliens@[i as int] == moved_alien(
                old(aliens)@[i as int],
                pd as int,
                dx as int,
                dy as int,
            ));
            assert(old(aliens)@.take(i + 1).drop_last() =~= old(aliens)@.take(i as int));
            assert(old(aliens)@.take(i + 1).last() == old(aliens)@[i as int]);
        }
        if xp > maxx {
            maxx = xp;
        }
        if xp < minx {
            minx = xp;
        }
        if yp > maxy {
            maxy = yp;
        }
        i = i + 1;
    }
    proof {
        assert(old(aliens)@.take(n as int) =~= old(aliens)@);
    }
    let ghost mid = aliens@;

    let mut st2: AlienState = st;
    let mut ty2: i64 = target_y;
    let mut ax: i64 = 0;
    let mut ay: i64 = 0;
    let mut adv: bool = false;
    match st {
        AlienState::Right => {
            if maxx >= RIGHT_MARGIN {
                st2 = AlienState::DownToLeft;
                ty2 = fx_shift(maxy, DOWN_DISTANCE);
                let m: i64 = maxx - RIGHT_MARGIN;
                ax = -m;
                ay = vert_of_horiz(m);
                adv = true;
            }
        },
        AlienState::Left => {
            if minx <= LEFT_MARGIN {
                st2 = AlienState::DownToRight;
                ty2 = fx_shift(maxy, DOWN_DISTANCE);
                let m: i64 = LEFT_MARGIN - minx;
                ax = m;
                ay = vert_of_horiz(m);
                adv = true;
            }
        },
        AlienState::DownToRight => {
            if maxy >= target_y {
                st2 = AlienState::Right;
                let m: i64 = maxy - target_y;
                ax = horiz_of_vert(m);
                ay = -m;
            }
        },
        AlienState::DownToLeft => {
            if maxy >= target_y {
                st2 = AlienState::Left;
                let m: i64 = maxy - target_y;
                ax = -horiz_of_vert(m);
                ay = -m;
            }
        },
    }

    let mut j: usize = 0;
    while j < n
        invariant
            j <= n,
            aliens@.len() == n,
            mid.len() == n,
            -0x4000_0000_0000_0000 <= ax <= 0x4000_0000_0000_0000,
            -0x4000_0000_0000_0000 <= ay <= 0x4000_0000_0000_0000,
            forall|k: int| 0 <= k < n ==> wf_alien(#[trigger] mid[k]),
            forall|k: int| j <= k < n ==> aliens@[k] == mid[k],
            forall|k: int|
                0 <= k < j ==> aliens@[k] == adjusted_alien(#[trigger] mid[k], ax as int, ay as int),
            forall|k: int| 0 <= k < j ==> wf_alien(#[trigger] aliens@[k]),
        decreases n - j,
    {
        proof {
            assert(aliens@[j as int] == mid[j as int]);
            assert(wf_alien(mid[j as int]));
        }
        let xp: i64 = fx_shift(aliens[j].xpos, ax);
        let yp: i64 = fx_shift(aliens[j].ypos, ay);
        let ph: i64 = aliens[j].phase;
        let dead2: bool = aliens[j].dead;
        let spr: usize = aliens[j].sprite;
        let pts: u32 = aliens[j].points;
        aliens.set(
            j,
            Alien { sprite: spr, xpos: xp, ypos: yp, phase: ph, points: pts, dead: dead2 },
        );
        j = j + 1;
    }
    (st2, ty2, adv)
}

} // verus!

verus! {

/// The swarm displacement magnitude is small: under seventy playfield
/// widths even at the level cap and the largest frame delta.
pub proof fn lemma_disp_mag_bound(speed: int, dt: int, n: int, level: int)
    requires
        0 <= speed <= 4 * FX_ONE,
        0 <= dt <= DT_MAX,
        0 <= n,
        0 <= level <= LEVEL_MAX,
    ensures
        0 <= disp_mag(speed, dt, n, level) <= 0x10_0000_0000,
{
    assert(0 <= dt * speed * (level + 4) <= 402_000_000_000_000_000) by (nonlinear_arith)
        requires
            0 <= dt <= 100_000,
            0 <= speed <= 4_000_000,
            0 <= level <= 1_000_000,
    ;
    assert((3 + n) * 5 * FX_ONE >= 15_000_000) by (nonlinear_arith)
        requires
            n >= 0,
    ;
    assert(dt * speed * (level + 4) / ((3 + n) * 5 * FX_ONE) <= 0x10_0000_0000) by (nonlinear_arith)
        requires
            0 <= dt * speed * (level + 4) <= 402_000_000_000_000_000,
            (3 + n) * 5 * FX_ONE >= 15_000_000,
    ;
}

/// Every moved x is accounted for by the tracked maximum.
pub proof fn lemma_max_moved_x_ge(s: Seq<Alien>, dx: int, i: int)
    requires
        0 <= i < s.len(),
    ensures
        fx_clip(s[i].xpos + dx) <= max_moved_x(s, dx),
    decreases s.len(),
{
    if i < s.len() - 1 {
        lemma_max_moved_x_ge(s.drop_last(), dx, i);
    }
}

/// The tracked maximum x stays within the range of the moved values and its
/// starting point.
pub proof fn lemma_max_moved_x_le(s: Seq<Alien>, dx: int, hi: int)
    requires
        hi >= 0,
        forall|k: int| 0 <= k < s.len() ==> fx_clip((#[trigger] s[k]).xpos + dx) <= hi,
    ensures
        0 <= max_moved_x(s, dx) <= hi,
    decreases s.len(),
{
    if s.len() > 0 {
        lemma_max_moved_x_le(s.drop_last(), dx, hi);
    }
}

/// The tracked minimum x stays within the range of the moved values and its
/// starting point.
pub proof fn lemma_min_moved_x_ge(s: Seq<Alien>, dx: int, lo: int)
    requires
        lo <= FX_ONE,
        forall|k: int| 0 <= k < s.len() ==> lo <= fx_clip((#[trigger] s[k]).xpos + dx),
    ensures
        lo <= min_moved_x(s, dx) <= FX_ONE,
    decreases s.len(),
{
    if s.len() > 0 {
        lemma_min_moved_x_ge(s.drop_last(), dx, lo);
    }
}

/// The tracked maximum y stays within the range of the moved values and its
/// starting point.
pub proof fn lemma_max_moved_y_le(s: Seq<Alien>, dy: int, hi: int)
    requires
        hi >= -FX_ONE,
    forall|k: int| 0 <= k < s.len() ==> fx_clip((#[trigger] s[k]).ypos + dy) <= hi,
    ensures
        -FX_ONE <= max_moved_y(s, dy) <= hi,
    decreases s.len(),
{
    if s.len() > 0 {
        lemma_max_moved_y_le(s.drop_last(), dy, hi);
    }
}

/// Formation rigidity: across one whole swarm frame — uniform displacement,
/// boundary transition and overshoot correction — the pairwise x and y
/// offsets between any two aliens are exactly unchanged, whenever the
/// formation sits within the playfield (positions within twice its size).
pub proof fn lemma_formation_rigidity(
    s: Seq<Alien>,
    st: AlienState,
    ty: int,
    dt: int,
    level: int,
    s2: Seq<Alien>,
    st2: AlienState,
    ty2: int,
    i: int,
    j: int,
)
    requires
        swarm_post(s, st, ty, dt, level, s2, st2, ty2),
        0 <= dt <= DT_MAX,
        0 <= level <= LEVEL_MAX,
        0 < s.len() <= ALIEN_MAX,
        0 <= i < s.len(),
        0 <= j < s.len(),
        -2 * FX_ONE <= ty <= 2 * FX_ONE,
        forall|k: int|
            0 <= k < s.len() ==> -2 * FX_ONE <= (#[trigger] s[k]).xpos <= 2 * FX_ONE && -2
                * FX_ONE <= s[k].ypos <= 2 * FX_ONE,
    ensures
        s2[i].xpos - s2[j].xpos == s[i].xpos - s[j].xpos,
        s2[i].ypos - s2[j].ypos == s[i].ypos - s[j].ypos,
{
    let n = s.len() as int;
    let dx = swarm_dx(st, dt, n, level);
    let dy = swarm_dy(st, dt, n, level);
    lemma_disp_mag_bound(HORIZ_SPEED as int, dt, n, level);
    lemma_disp_mag_bound(VERT_SPEED as int, dt, n, level);
    let big = 0x10_0000_0000 + 2 * FX_ONE;
    assert forall|k: int| 0 <= k < s.len() implies fx_clip((#[trigger] s[k]).xpos + dx) == s[k].xpos
        + dx && -big <= fx_clip(s[k].xpos + dx) <= big by {}
    assert forall|k: int| 0 <= k < s.len() implies fx_clip((#[trigger] s[k]).ypos + dy) == s[k].ypos
        + dy && -big <= fx_clip(s[k].ypos + dy) <= big by {}
    lemma_max_moved_x_le(s, dx, big);
    lemma_min_moved_x_ge(s, dx, -big);
    lemma_max_moved_y_le(s, dy, big);
    let minx = min_moved_x(s, dx);
    let maxx = max_moved_x(s, dx);
    let maxy = max_moved_y(s, dy);
    let t = swarm_transition(st, minx, maxx, maxy, ty);
    let ax = t.2;
    let ay = t.3;
    match st {
        AlienState::Right => {
            if maxx >= RIGHT_MARGIN {
                let m = maxx - RIGHT_MARGIN;
                assert(0 <= m * (VERT_SPEED as int) / (HORIZ_SPEED as int) <= 4 * big)
                    by (nonlinear_arith)
                    requires
                        0 <= m <= big,
                        big == 0x10_0000_0000 + 2 * FX_ONE,
                ;
            }
        },
        AlienState::Left => {
            if minx <= LEFT_MARGIN {
                let m = LEFT_MARGIN - minx;
                assert(0 <= m * (VERT_SPEED as int) / (HORIZ_SPEED as int) <= 8 * big)
                    by (nonlinear_arith)
                    requires
                        0 <= m <= big + LEFT_MARGIN,
                        big == 0x10_0000_0000 + 2 * FX_ONE,
                ;
            }
        },
        AlienState::DownToRight => {
            if maxy >= ty {
                let m = maxy - ty;
                assert(0 <= m * (HORIZ_SPEED as int) / (VERT_SPEED as int) <= 3 * big)
                    by (nonlinear_arith)
                    requires
                        0 <= m <= big + 2 * FX_ONE,
                        big == 0x10_0000_0000 + 2 * FX_ONE,
                ;
            }
        },
        AlienState::DownToLeft => {
            if maxy >= ty {
                let m = maxy - ty;
                assert(0 <= m * (HORIZ_SPEED as int) / (VERT_SPEED as int) <= 3 * big)
                    by (nonlinear_arith)
                    requires
                        0 <= m <= big + 2 * FX_ONE,
                        big == 0x10_0000_0000 + 2 * FX_ONE,
                ;
            }
        },
    }
    assert(-3 * big <= ax <= 3 * big);
    assert(-8 * big <= ay <= 8 * big);
    assert(s2[i].xpos == s[i].xpos + dx + ax && s2[i].ypos == s[i].ypos + dy + ay);
    assert(s2[j].xpos == s[j].xpos + dx + ax && s2[j].ypos == s[j].ypos + dy + ay);
}

/// Boundary law: a swarm moving right whose rightmost alien reaches the
/// right margin this frame turns down-to-left, aims its descent at
/// DOWN_DISTANCE below the lowest point the formation reached, and the
/// overshoot correction leaves no alien right of the margin.
pub proof fn lemma_boundary_right(
    s: Seq<Alien>,
    ty: int,
    dt: int,
    level: int,
    s2: Seq<Alien>,
    st2: AlienState,
    ty2: int,
)
    requires
        swarm_post(s, AlienState::Right, ty, dt, level, s2, st2, ty2),
        0 < s.len(),
        max_moved_x(s, swarm_dx(AlienState::Right, dt, s.len() as int, level)) >= RIGHT_MARGIN,
        max_moved_y(s, 0) + DOWN_DISTANCE <= FX_LIMIT,
    ensures
        st2 == AlienState::DownToLeft,
        ty2 == max_moved_y(s, 0) + DOWN_DISTANCE,
        forall|k: int| 0 <= k < s2.len() ==> (#[trigger] s2[k]).xpos <= RIGHT_MARGIN,
{
    let n = s.len() as int;
    let dx = swarm_dx(AlienState::Right, dt, n, level);
    let maxx = max_moved_x(s, dx);
    let maxy = max_moved_y(s, 0);
    assert(swarm_dy(AlienState::Right, dt, n, level) == 0);
    assert(maxy >= -FX_ONE) by {
        lemma_max_moved_y_le(s, 0, FX_LIMIT + FX_LIMIT);
    }
    assert(ty2 == fx_clip(maxy + DOWN_DISTANCE));
    assert forall|k: int| 0 <= k < s2.len() implies (#[trigger] s2[k]).xpos <= RIGHT_MARGIN by {
        lemma_max_moved_x_ge(s, dx, k);
        let moved = fx_clip(s[k].xpos + dx);
        assert(s2[k].xpos == fx_clip(moved + (RIGHT_MARGIN - maxx)));
        assert(moved + (RIGHT_MARGIN - maxx) <= RIGHT_MARGIN);
    }
}

} // verus!
