//! Entity pool upkeep: per-frame movement of bullets and bombs, and the
//! end-of-frame compaction that removes everything marked dead.

use vstd::prelude::*;
use crate::events::Event;
use crate::explosion::Explosion;
use crate::fx::{fx_clip, fx_shift, DT_MAX, FX_LIMIT, FX_ONE};
use crate::params::BOMB_GONE_Y;
use crate::state::{wf_bomb, wf_bullet, Alien, Bomb, Bullet};

verus! {

/// A bullet after one frame: it climbs by its velocity, and dies once its y
/// drops below the top of the playfield.
pub open spec fn moved_bullet(b: Bullet, dt: int) -> Bullet {
    let y2 = fx_clip(b.ypos - dt * b.velocity / (FX_ONE as int));
    Bullet { ypos: y2 as i64, dead: b.dead || y2 < 0, ..b }
}

/// True when this frame is the one in which the bullet left the playfield.
pub open spec fn is_new_miss(b: Bullet, dt: int) -> bool {
    !b.dead && moved_bullet(b, dt).dead
}

/// A whole bullet pool after one frame of movement.
pub open spec fn moved_bullets(s: Seq<Bullet>, dt: int) -> Seq<Bullet> {
    Seq::new(s.len(), |k: int| moved_bullet(s[k], dt))
}

/// The miss events of one bullet pass, in pool order.
pub open spec fn miss_events(s: Seq<Bullet>, dt: int, score: u64, remaining: usize) -> Seq<Event>
    decreases s.len(),
{
    if s.len() == 0 {
        Seq::<Event>::empty()
    } else {
        miss_events(s.drop_last(), dt, score, remaining) + (if is_new_miss(s.last(), dt) {
            seq![Event::Miss { xpos: s.last().xpos, score, remaining }]
        } else {
            Seq::<Event>::empty()
        })
    }
}

/// Moves every bullet one frame up, marks the ones that left the playfield
/// dead, and appends one miss event for each bullet lost this frame.
pub fn evolve_bullets(
    bullets: &mut Vec<Bullet>,
    dt: i64,
    score: u64,
    remaining: usize,
    events: &mut Vec<Event>,
)
    requires
        0 <= dt <= DT_MAX,
        forall|k: int| 0 <= k < old(bullets)@.len() ==> wf_bullet(#[trigger] old(bullets)@[k]),
    ensures
        final(bullets)@.len() == old(bullets)@.len(),
        forall|k: int|
            0 <= k < final(bullets)@.len() ==> final(bullets)@[k] == moved_bullet(
                #[trigger] old(bullets)@[k],
                dt as int,
            ),
        forall|k: int| 0 <= k < final(bullets)@.len() ==> wf_bullet(#[trigger] final(bullets)@[k]),
        final(bullets)@ =~= moved_bullets(old(bullets)@, dt as int),
        final(events)@ =~= old(events)@ + miss_events(old(bullets)@, dt as int, score, remaining),
{
    let n: usize = bullets.len();
    let mut i: usize = 0;
    while i < n
        invariant
            i <= n,
            n == old(bullets)@.len(),
            bullets@.len() == n,
            0 <= dt <= DT_MAX,
            forall|k: int| 0 <= k < n ==> wf_bullet(#[trigger] old(bullets)@[k]),
            forall|k: int| i <= k < n ==> bullets@[k] == old(bullets)@[k],
            forall|k: int|
                0 <= k < i ==> bullets@[k] == moved_bullet(#[trigger] old(bullets)@[k], dt as int),
            forall|k: int| 0 <= k < i ==> wf_bullet(#[trigger] bullets@[k]),
            events@ =~= old(events)@ + miss_events(
                old(bullets)@.take(i as int),
                dt as int,
                score,
                remaining,
            ),
        decreases n - i,
    {
        proof {
            assert(0 <= dt * bullets@[i as int].velocity <= 100_000 * FX_LIMIT)
                by (nonlinear_arith)
                requires
                    0 <= dt <= 100_000,
                    0 <= bullets@[i as int].velocity <= FX_LIMIT,
            ;
        }
        let dyv: i64 = dt * bullets[i].velocity / FX_ONE;
        let y2: i64 = fx_shift(bullets[i].ypos, -dyv);
        let was_dead: bool = bullets[i].dead;
        let mut b: Bullet = bullets[i];
        b.ypos = y2;
        b.dead = was_dead || y2 < 0;
        let miss: bool = !was_dead && b.dead;
        bullets.set(i, b);
        if miss {
            events.push(Event::Miss { xpos: b.xpos, score, remaining });
        }
        proof {
            assert(old(bullets)@.take(i + 1).drop_last() =~= old(bullets)@.take(i as int));
            assert(old(bullets)@.take(i + 1).last() == old(bullets)@[i as int]);
        }
        i = i + 1;
    }
    proof {
        assert(old(bullets)@.take(n as int) =~= old(bullets)@);
        assert(bullets@ =~= moved_bullets(old(bullets)@, dt as int));
    }
}

/// A bomb after one frame: it falls by the bomb speed, and dies once it
/// drops past the bottom of the playfield.
pub open spec fn moved_bomb(b: Bomb, dt: int, speed: int) -> Bomb {
    let y2 = fx_clip(b.ypos + dt * speed / (FX_ONE as int));
    Bomb { ypos: y2 as i64, dead: b.dead || y2 > BOMB_GONE_Y, ..b }
}

/// A whole bomb pool after one frame of falling.
pub open spec fn moved_bombs(s: Seq<Bomb>, dt: int, speed: int) -> Seq<Bomb> {
    Seq::new(s.len(), |k: int| moved_bomb(s[k], dt, speed))
}

/// Moves every bomb one frame down and marks the ones past the bottom dead.
pub fn move_bombs(bombs: &mut Vec<Bomb>, dt: i64, speed: i64)
    requires
        0 <= dt <= DT_MAX,
        0 <= speed <= FX_ONE,
        forall|k: int| 0 <= k < old(bombs)@.len() ==> wf_bomb(#[trigger] old(bombs)@[k]),
    ensures
        final(bombs)@.len() == old(bombs)@.len(),
        forall|k: int|
            0 <= k < final(bombs)@.len() ==> final(bombs)@[k] == moved_bomb(
                #[trigger] old(bombs)@[k],
                dt as int,
                speed as int,
            ),
        forall|k: int| 0 <= k < final(bombs)@.len() ==> wf_bomb(#[trigger] final(bombs)@[k]),
        final(bombs)@ =~= moved_bombs(old(bombs)@, dt as int, speed as int),
    {
    let n: usize = bombs.len();
    proof {
        assert(0 <= dt * speed <= 100_000_000_000 && dt * speed / 1_000_000 <= 100_000)
            by (nonlinear_arith)
            requires
                0 <= dt <= 100_000,
                0 <= speed <= 1_000_000,
        ;
    }
    let dyv: i64 = dt * speed / FX_ONE;
    let mut i: usize = 0;
    while i < n
        invariant
            i <= n,
            n == old(bombs)@.len(),
            bombs@.len() == n,
            0 <= dt <= DT_MAX,
            0 <= speed <= FX_ONE,
            dyv == dt * speed / (FX_ONE as int),
            0 <= dyv <= DT_MAX,
            forall|k: int| 0 <= k < n ==> wf_bomb(#[trigger] old(bombs)@[k]),
            forall|k: int| i <= k < n ==> bombs@[k] == old(bombs)@[k],
            forall|k: int|
                0 <= k < i ==> bombs@[k] == moved_bomb(
                    #[trigger] old(bombs)@[k],
                    dt as int,
                    speed as int,
                ),
            forall|k: int| 0 <= k < i ==> wf_bomb(#[trigger] bombs@[k]),
        decreases n - i,
    {
        let y2: i64 = fx_shift(bombs[i].ypos, dyv);
        let mut b: Bomb = bombs[i];
        b.ypos = y2;
        b.dead = b.dead || y2 > BOMB_GONE_Y;
        bombs.set(i, b);
        i = i + 1;
    }
}

/// Removes the bullets marked dead this frame, keeping pool order.
pub fn compact_bullets(v: &mut Vec<Bullet>)
    ensures
        final(v)@ =~= old(v)@.filter(|b: Bullet| !b.dead),
        forall|k: int| 0 <= k < final(v)@.len() ==> !(#[trigger] final(v)@[k]).dead,
        forall|k: int| 0 <= k < final(v)@.len() ==> old(v)@.contains(#[trigger] final(v)@[k]),
        final(v)@.len() <= old(v)@.len(),
{
    broadcast use vstd::seq_lib::group_filter_ensures;

    let n: usize = v.len();
    let mut out: Vec<Bullet> = Vec::new();
    let mut i: usize = 0;
    while i < n
        invariant
            i <= n,
            v@.len() == n,
            v@ == old(v)@,
            out@ =~= v@.take(i as int).filter(|b: Bullet| !b.dead),
            forall|k: int| 0 <= k < out@.len() ==> v@.contains(#[trigger] out@[k]),
            out@.len() <= i,
        decreases n - i,
    {
        let keep: bool = !v[i].dead;
        proof {
            assert(v@.take(i + 1).drop_last() =~= v@.take(i as int));
            assert(v@.take(i + 1).last() == v@[i as int]);
            reveal_with_fuel(Seq::filter, 2);
        }
        if keep {
            let b: Bullet = v[i];
            out.push(b);
            proof {
                assert(v@[i as int] == out@[out@.len() - 1]);
            }
        }
        i = i + 1;
    }
    proof {
        assert(v@.take(n as int) =~= v@);
    }
    *v = out;
}

/// Removes the aliens marked dead this frame, keeping pool order.
pub fn compact_aliens(v: &mut Vec<Alien>)
    ensures
        final(v)@ =~= old(v)@.filter(|a: Alien| !a.dead),
        forall|k: int| 0 <= k < final(v)@.len() ==> !(#[trigger] final(v)@[k]).dead,
        forall|k: int| 0 <= k < final(v)@.len() ==> old(v)@.contains(#[trigger] final(v)@[k]),
        final(v)@.len() <= old(v)@.len(),
{
    broadcast use vstd::seq_lib::group_filter_ensures;

    let n: usize = v.len();
    let mut out: Vec<Alien> = Vec::new();
    let mut i: usize = 0;
    while i < n
        invariant
            i <= n,
            v@.len() == n,
            v@ == old(v)@,
            out@ =~= v@.take(i as int).filter(|a: Alien| !a.dead),
            forall|k: int| 0 <= k < out@.len() ==> v@.contains(#[trigger] out@[k]),
            out@.len() <= i,
        decreases n - i,
    {
        let keep: bool = !v[i].dead;
        proof {
            assert(v@.take(i + 1).drop_last() =~= v@.take(i as int));
            assert(v@.take(i + 1).last() == v@[i as int]);
            reveal_with_fuel(Seq::filter, 2);
        }
        if keep {
            let a: Alien = v[i];
            out.push(a);
            proof {
                assert(v@[i as int] == out@[out@.len() - 1]);
            }
        }
        i = i + 1;
    }
    proof {
        assert(v@.take(n as int) =~= v@);
    }
    *v = out;
}

/// Removes the bombs marked dead this frame, keeping pool order.
pub fn compact_bombs(v: &mut Vec<Bomb>)
    ensures
        final(v)@ =~= old(v)@.filter(|b: Bomb| !b.dead),
        forall|k: int| 0 <= k < final(v)@.len() ==> !(#[trigger] final(v)@[k]).dead,
        forall|k: int| 0 <= k < final(v)@.len() ==> old(v)@.contains(#[trigger] final(v)@[k]),
        final(v)@.len() <= old(v)@.len(),
{
    broadcast use vstd::seq_lib::group_filter_ensures;

    let n: usize = v.len();
    let mut out: Vec<Bomb> = Vec::new();
    let mut i: usize = 0;
    while i < n
        invariant
            i <= n,
            v@.len() == n,
            v@ == old(v)@,
            out@ =~= v@.take(i as int).filter(|b: Bomb| !b.dead),
            forall|k: int| 0 <= k < out@.len() ==> v@.contains(#[trigger] out@[k]),
            out@.len() <= i,
        decreases n - i,
    {
        let keep: bool = !v[i].dead;
        proof {
            assert(v@.take(i + 1).drop_last() =~= v@.take(i as int));
            assert(v@.take(i + 1).last() == v@[i as int]);
            reveal_with_fuel(Seq::filter, 2);
        }
        if keep {
            let b: Bomb = v[i];
            out.push(b);
            proof {
                assert(v@[i as int] == out@[out@.len() - 1]);
            }
        }
        i = i + 1;
    }
    proof {
        assert(v@.take(n as int) =~= v@);
    }
    *v = out;
}

/// Removes the explosions that finished this frame, keeping pool order.
pub fn compact_explosions(v: &mut Vec<Explosion>)
    ensures
        final(v)@ =~= old(v)@.filter(|e: Explosion| !e.dead),
        forall|k: int| 0 <= k < final(v)@.len() ==> !(#[trigger] final(v)@[k]).dead,
        forall|k: int| 0 <= k < final(v)@.len() ==> old(v)@.contains(#[trigger] final(v)@[k]),
        final(v)@.len() <= old(v)@.len(),
{
    broadcast use vstd::seq_lib::group_filter_ensures;

    let n: usize = v.len();
    let mut out: Vec<Explosion> = Vec::new();
    let mut i: usize = 0;
    while i < n
        invariant
            i <= n,
            v@.len() == n,
            v@ == old(v)@,
            out@ =~= v@.take(i as int).filter(|e: Explosion| !e.dead),
            forall|k: int| 0 <= k < out@.len() ==> v@.contains(#[trigger] out@[k]),
            out@.len() <= i,
        decreases n - i,
    {
        let keep: bool = !v[i].dead;
        proof {
            assert(v@.take(i + 1).drop_last() =~= v@.take(i as int));
            assert(v@.take(i + 1).last() == v@[i as int]);
            reveal_with_fuel(Seq::filter, 2);
        }
        if keep {
            let e: Explosion = v[i];
            out.push(e);
            proof {
                assert(v@[i as int] == out@[out@.len() - 1]);
            }
        }
        i = i + 1;
    }
    proof {
        assert(v@.take(n as int) =~= v@);
    }
    *v = out;
}

} // verus!
