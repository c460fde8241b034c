//! Which sounds one frame asks for: the pacing bassline, and the one-shot
//! effects owed to freshly spawned bullets and explosions. The simulation
//! only picks sound indices; playing them is the embedding program's work.

use vstd::prelude::*;
use crate::assets::IX_SOUND_LASER;
use crate::explosion::Explosion;
use crate::fx::{DT_MAX, FX_LIMIT, FX_ONE};
use crate::params::LEVEL_MAX;
use crate::state::{wf_bullet, Bullet, PlayerState, State};

verus! {

/// Which bassline variant plays: faster with fewer aliens (through the
/// speed ratio) and with higher levels, clamped to the variants available.
pub open spec fn bassline_index_spec(cnt: int, ratio: int, level: int) -> int {
    let v = cnt * ratio / (FX_ONE as int) + level;
    if v < 0 {
        0
    } else if v > cnt - 1 {
        cnt - 1
    } else {
        v
    }
}

/// The bassline choice, executably.
pub fn calc_bassline_index(cnt: usize, ratio: i64, level: u32) -> (r: usize)
    requires
        1 <= cnt <= 1000,
        0 <= ratio <= 2 * FX_ONE,
        level <= LEVEL_MAX,
    ensures
        r == bassline_index_spec(cnt as int, ratio as int, level as int),
        r < cnt,
{
    proof {
        assert(0 <= cnt * ratio <= 2_000_000_000 && cnt * ratio / 1_000_000 <= 2_000)
            by (nonlinear_arith)
            requires
                1 <= cnt <= 1000,
                0 <= ratio <= 2_000_000,
        ;
    }
    let v: u64 = (cnt as u64) * (ratio as u64) / 1_000_000 + (level as u64);
    if v > (cnt as u64) - 1 {
        cnt - 1
    } else {
        v as usize
    }
}

/// The one-shot sounds owed to fresh bullets, in pool order.
pub open spec fn fresh_bullet_sounds(s: Seq<Bullet>) -> Seq<usize>
    decreases s.len(),
{
    if s.len() == 0 {
        Seq::<usize>::empty()
    } else {
        fresh_bullet_sounds(s.drop_last()) + (if s.last().fresh {
            seq![IX_SOUND_LASER]
        } else {
            Seq::<usize>::empty()
        })
    }
}

/// The one-shot sounds owed to fresh explosions, in pool order.
pub open spec fn fresh_explosion_sounds(s: Seq<Explosion>) -> Seq<usize>
    decreases s.len(),
{
    if s.len() == 0 {
        Seq::<usize>::empty()
    } else {
        fresh_explosion_sounds(s.drop_last()) + (if s.last().fresh {
            seq![s.last().sound]
        } else {
            Seq::<usize>::empty()
        })
    }
}

/// True when sound runs at all this frame: not paused and not game over.
pub open spec fn sound_active(s: State) -> bool {
    !s.paused && s.player_state != PlayerState::GameOver
}

/// One frame of the sound pacer: advances the bassline countdown and picks
/// the variant to play when it expires, collects the one-shot sounds of
/// fresh bullets and explosions, and consumes their fresh flags. Returns
/// the bassline to start, if any, and the effect sounds to play.
pub fn update_sounds(dt: i64, st: &mut State, durations: &Vec<i64>) -> (r: (
    Option<usize>,
    Vec<usize>,
))
    requires
        old(st).wf(),
        0 <= dt <= DT_MAX,
        1 <= durations@.len() <= 1000,
        forall|k: int| 0 <= k < durations@.len() ==> 0 <= #[trigger] durations@[k] <= FX_LIMIT,
    ensures
        final(st).wf(),
        !sound_active(*old(st)) ==> *final(st) == *old(st) && r.0 is None && r.1@ =~= Seq::<
            usize,
        >::empty(),
        sound_active(*old(st)) ==> {
            &&& *final(st) == (State {
                bassline_time: final(st).bassline_time,
                bullets: final(st).bullets,
                explosions: final(st).explosions,
                ..*old(st)
            })
            &&& final(st).bullets@.len() == old(st).bullets@.len()
            &&& forall|k: int|
                0 <= k < final(st).bullets@.len() ==> final(st).bullets@[k] == (Bullet {
                    fresh: false,
                    ..old(st).bullets@[k]
                })
            &&& final(st).explosions@.len() == old(st).explosions@.len()
            &&& forall|k: int|
                0 <= k < final(st).explosions@.len() ==> final(st).explosions@[k] == (Explosion {
                    fresh: false,
                    ..old(st).explosions@[k]
                })
            &&& r.1@ =~= fresh_bullet_sounds(old(st).bullets@) + fresh_explosion_sounds(
                old(st).explosions@,
            )
            &&& (old(st).reset_countdown > 0 ==> final(st).bassline_time == 0 && r.0 is None)
            &&& (old(st).reset_countdown <= 0 && old(st).bassline_time - dt > 0
                ==> final(st).bassline_time == old(st).bassline_time - dt && r.0 is None)
            &&& (old(st).reset_countdown <= 0 && old(st).bassline_time - dt <= 0 ==> {
                let ix = bassline_index_spec(
                    durations@.len() as int,
                    old(st).speed_ratio as int,
                    old(st).current_level as int,
                );
                r.0 == Some(ix as usize) && final(st).bassline_time == durations@[ix]
            })
        },
{
    let playing_sound: bool = !st.paused && !matches!(st.player_state, PlayerState::GameOver);
    if !playing_sound {
        return (None, Vec::new());
    }
    let mut bass: Option<usize> = None;
    if st.reset_countdown <= 0 {
        let bt2: i64 = st.bassline_time - dt;
        if bt2 <= 0 {
            let ix: usize = calc_bassline_index(durations.len(), st.speed_ratio, st.current_level);
            st.bassline_time = durations[ix];
            bass = Some(ix);
        } else {
            st.bassline_time = bt2;
        }
    } else {
        st.bassline_time = 0;
    }

    let mut effects: Vec<usize> = Vec::new();
    let ghost mid = *st;
    let nb: usize = st.bullets.len();
    let mut i: usize = 0;
    while i < nb
        invariant
            i <= nb,
            nb == old(st).bullets@.len(),
            st.bullets@.len() == nb,
            *st == (State { bullets: st.bullets, ..mid }),
            forall|k: int| i <= k < nb ==> st.bullets@[k] == old(st).bullets@[k],
            forall|k: int|
                0 <= k < i ==> st.bullets@[k] == (Bullet {
                    fresh: false,
                    ..(#[trigger] old(st).bullets@[k])
                }),
            effects@ =~= fresh_bullet_sounds(old(st).bullets@.take(i as int)),
        decreases nb - i,
    {
        if st.bullets[i].fresh {
            effects.push(IX_SOUND_LASER);
        }
        let mut b: Bullet = st.bullets[i];
        b.fresh = false;
        st.bullets.set(i, b);
        proof {
            assert(old(st).bullets@.take(i + 1).drop_last() =~= old(st).bullets@.take(i as int));
            assert(old(st).bullets@.take(i + 1).last() == old(st).bullets@[i as int]);
        }
        i = i + 1;
    }
    proof {
        assert(old(st).bullets@.take(nb as int) =~= old(st).bullets@);
    }

    let ghost mid2 = *st;
    let ne: usize = st.explosions.len();
    let mut j: usize = 0;
    while j < ne
        invariant
            j <= ne,
            ne == old(st).explosions@.len(),
            st.explosions@.len() == ne,
            *st == (State { explosions: st.explosions, ..mid2 }),
            mid2.bullets@.len() == old(st).bullets@.len(),
            forall|k: int|
                0 <= k < mid2.bullets@.len() ==> mid2.bullets@[k] == (Bullet {
                    fresh: false,
                    ..(#[trigger] old(st).bullets@[k])
                }),
            forall|k: int| j <= k < ne ==> st.explosions@[k] == old(st).explosions@[k],
            forall|k: int|
                0 <= k < j ==> st.explosions@[k] == (Explosion {
                    fresh: false,
                    ..(#[trigger] old(st).explosions@[k])
                }),
            effects@ =~= fresh_bullet_sounds(old(st).bullets@) + fresh_explosion_sounds(
                old(st).explosions@.take(j as int),
            ),
        decreases ne - j,
    {
        if st.explosions[j].fresh {
            effects.push(st.explosions[j].sound);
        }
        let mut e: Explosion = st.explosions[j];
        e.fresh = false;
        st.explosions.set(j, e);
        proof {
            assert(old(st).explosions@.take(j + 1).drop_last() =~= old(st).explosions@.take(
                j as int,
            ));
            assert(old(st).explosions@.take(j + 1).last() == old(st).explosions@[j as int]);
        }
        j = j + 1;
    }
    proof {
        assert(old(st).explosions@.take(ne as int) =~= old(st).explosions@);
        assert forall|k: int| 0 <= k < st.bullets@.len() implies wf_bullet(
            #[trigger] st.bullets@[k],
        ) && !st.bullets@[k].dead by {
            assert(st.bullets@[k] == (Bullet { fresh: false, ..old(st).bullets@[k] }));
            assert(wf_bullet(old(st).bullets@[k]) && !old(st).bullets@[k].dead);
        }
        assert forall|k: int| 0 <= k < st.explosions@.len() implies (
        #[trigger] st.explosions@[k]).wf() && !st.explosions@[k].dead by {
            assert(st.explosions@[k] == (Explosion { fresh: false, ..old(st).explosions@[k] }));
            assert(old(st).explosions@[k].wf() && !old(st).explosions@[k].dead);
        }
    }
    (bass, effects)
}

} // verus!
