//! One frame of the simulation, in the fixed order that keeps outcomes
//! deterministic: pause toggle, level countdown, player input and firing,
//! player life-cycle timers, bullets, swarm, bombs, collisions, compaction,
//! explosion animation, and the restart check. Pausing halts everything but
//! the pause toggle itself and the explosion animation. While the player is
//! exploding or the game is over, the swarm, the bombs and both collision
//! passes are suspended: the suspension rule names the swarm and the bombs,
//! and with neither moving a collision pass could only let a bullet strike a
//! frozen alien, so the whole evolving block rests until the player returns.

use vstd::prelude::*;
use crate::assets::{
    wf_sprites, SpriteSize, IX_BOMB, IX_EXPLOSION_0, IX_PLAYER, IX_SOUND_EXPLOSION,
    IX_SOUND_POP_01,
};
use crate::bombs::{bomb_extra, bomb_interval, spawn_bomb};
use crate::collide::{
    collide_bombs_player, collide_bullets_aliens, collide_upto, first_bomb_hit, HitRec,
};
use crate::events::Event;
use crate::explosion;
use crate::explosion::{evolve_spec, spawned_at, Explosion};
use crate::fx::{fx_clip, sat_add_spec, sat_add_u64, tick_down, DT_MAX, FX_LIMIT, FX_ONE};
use crate::params::{BULLET_START_Y, LEVEL_MAX, PLAYER_Y};
use crate::player::{
    becomes_game_over, fires_now, lifecycle_spec, moved_player, player_input, player_lifecycle,
    Inputs,
};
use crate::pools::{
    compact_aliens, compact_bombs, compact_bullets, compact_explosions, evolve_bullets,
    miss_events, move_bombs, moved_bombs, moved_bullets,
};
use crate::state::{
    reset_level, Alien, Bomb, Bullet, PlayerState, State, BOMB_MIN_TIME, HIT_EXPLODE_TIME,
    LIVES_START, RESET_DELAY,
};
use crate::swarm::{is_advance, swarm_moved, swarm_next, swarm_step};

verus! {

/// Filtering keeps a sequence whole when every element passes.
pub proof fn lemma_filter_all<T>(s: Seq<T>, p: spec_fn(T) -> bool)
    requires
        forall|i: int| 0 <= i < s.len() ==> p(#[trigger] s[i]),
    ensures
        s.filter(p) =~= s,
    decreases s.len(),
{
    reveal_with_fuel(Seq::filter, 2);
    if s.len() > 0 {
        lemma_filter_all(s.drop_last(), p);
    }
}

/// The pace factor handed to the sound pacer: 4 / (3 + alien count).
pub open spec fn speed_ratio_spec(n: int) -> int {
    4 * FX_ONE / (3 + n)
}

/// Whether this frame runs under pause, after the toggle of step one.
pub open spec fn paused_after(s: State, inputs: Inputs) -> bool {
    if inputs.pause_pressed {
        !s.paused
    } else {
        s.paused
    }
}

/// The frame's pause events: one toggle notice when the pause key was
/// pressed.
pub open spec fn pause_events(s: State, inputs: Inputs) -> Seq<Event> {
    if inputs.pause_pressed {
        seq![(Event::Pause { paused: !s.paused })]
    } else {
        Seq::<Event>::empty()
    }
}

/// The score after settling the recorded hits in order, each adding its
/// alien's point value, saturating at the top of the range.
pub open spec fn hits_score(start: u64, hits: Seq<HitRec>) -> u64
    decreases hits.len(),
{
    if hits.len() == 0 {
        start
    } else {
        sat_add_spec(hits_score(start, hits.drop_last()), hits.last().points as u64)
    }
}

/// The hit events owed to the recorded hits, each carrying the running
/// score after its own addition.
pub open spec fn hit_events(start: u64, hits: Seq<HitRec>, remaining: usize) -> Seq<Event>
    decreases hits.len(),
{
    if hits.len() == 0 {
        Seq::<Event>::empty()
    } else {
        hit_events(start, hits.drop_last(), remaining).push(
            (Event::Hit {
                xpos: hits.last().bullet_x,
                score: hits_score(start, hits),
                sprite: hits.last().sprite,
                points: hits.last().points,
                remaining,
            }),
        )
    }
}

/// The bullet pool after the firing step of a frame: a playing player whose
/// cooldown has run out and who holds the trigger appends one fresh bullet
/// just above the ship.
pub open spec fn bullets_after_fire(s: State, dt: int, left: bool, right: bool, fire: bool) -> Seq<
    Bullet,
> {
    if s.player_state == PlayerState::Playing && fires_now(s, fire) {
        s.bullets@.push(
            (Bullet {
                xpos: moved_player(s.player_pos_fr as int, dt, s.player_speed as int, left, right)
                    as i64,
                ypos: BULLET_START_Y,
                velocity: s.fire_velocity,
                fresh: true,
                dead: false,
            }),
        )
    } else {
        s.bullets@
    }
}

/// The deterministic heart of an active frame: the bullets after firing and
/// one frame of flight, the aliens after one frame of swarm movement, and
/// the bullet-alien collision pass over the two.
pub open spec fn frame_hits(
    s: State,
    dt: int,
    left: bool,
    right: bool,
    fire: bool,
    sprites: Seq<SpriteSize>,
) -> (Seq<Bullet>, Seq<Alien>, Seq<HitRec>) {
    let bullets1 = moved_bullets(bullets_after_fire(s, dt, left, right, fire), dt);
    let aliens1 = swarm_moved(
        s.aliens@,
        s.alien_state,
        s.alien_target_y as int,
        dt,
        s.current_level as int,
    );
    collide_upto(bullets1, aliens1, sprites, aliens1.len() as int)
}

/// The state after the frame's cooldown tick, and after the pause toggle.
pub open spec fn cooled(s: State, dt: int, inputs: Inputs) -> State {
    let t = if s.time_to_fire > 0 {
        (s.time_to_fire - dt) as i64
    } else {
        s.time_to_fire
    };
    State { paused: paused_after(s, inputs), time_to_fire: t, ..s }
}

/// The scalar player fields after the frame's player stage: a playing
/// player moves (and maybe starts the firing cooldown); any other state
/// runs the life-cycle machine. The bullet a shot appends is
/// `bullets_after_fire`'s to describe.
pub open spec fn stepped_player(s: State, dt: int, inputs: Inputs) -> State {
    if s.player_state == PlayerState::Playing {
        State {
            player_pos_fr: moved_player(
                s.player_pos_fr as int,
                dt,
                s.player_speed as int,
                inputs.left_held,
                inputs.right_held,
            ) as i64,
            time_to_fire: if fires_now(s, inputs.fire_held) {
                s.firing_duration
            } else {
                s.time_to_fire
            },
            ..s
        }
    } else {
        lifecycle_spec(s, dt)
    }
}

/// The events of the frame's player stage: a shot, or the end of the game.
pub open spec fn player_stage_events(s: State, dt: int, inputs: Inputs, n0: usize) -> Seq<Event> {
    if s.player_state == PlayerState::Playing {
        if fires_now(s, inputs.fire_held) {
            seq![
                (Event::Shot {
                    xpos: stepped_player(s, dt, inputs).player_pos_fr,
                    score: s.score,
                    alien_y: s.alien_target_y,
                }),
            ]
        } else {
            Seq::<Event>::empty()
        }
    } else if becomes_game_over(s, dt) {
        seq![
            (Event::GameOver {
                xpos: s.player_pos_fr,
                score: s.score,
                remaining: n0,
                level: s.current_level,
            }),
        ]
    } else {
        Seq::<Event>::empty()
    }
}

/// An explosion pool after one frame: every phase advanced by the frame
/// delta, finished ones removed.
pub open spec fn explosions_step(s: Seq<Explosion>, dt: int) -> Seq<Explosion> {
    Seq::new(s.len(), |k: int| evolve_spec(s[k], dt)).filter(|e: Explosion| !e.dead)
}

/// Everything the evolving block of a frame does, given the bomb the
/// spawner drew: the swarm's movement and boundary rules, the bomb
/// countdown and fall, both collision passes, the owed explosions and
/// events, and the end-of-frame compaction with its wave-clear rearm. The
/// scalar fields and the alien, bomb and explosion pools are read from
/// `s1`, the state entering the block; the bullet pool (already fired and
/// flown) arrives as `bullets1`. The only free choices are the drawn bomb
/// and the sprite and sound of each new explosion.
#[verifier::opaque]
pub open spec fn evolving_rel(
    s1: State,
    bullets1: Seq<Bullet>,
    dt: int,
    sprites: Seq<SpriteSize>,
    n0: usize,
    spawned: Seq<Bomb>,
    s2: State,
    ev: Seq<Event>,
) -> bool {
    let aliens1 = swarm_moved(
        s1.aliens@,
        s1.alien_state,
        s1.alien_target_y as int,
        dt,
        s1.current_level as int,
    );
    let nx = swarm_next(
        s1.aliens@,
        s1.alien_state,
        s1.alien_target_y as int,
        dt,
        s1.current_level as int,
    );
    let ev3: Seq<Event> = if is_advance(s1.alien_state, nx.0) {
        seq![(Event::Advance { target_y: nx.1 as i64, remaining: n0 })]
    } else {
        Seq::<Event>::empty()
    };
    let ttb1 = fx_clip(s1.time_to_bomb - dt);
    let any_alive = exists|i: int| 0 <= i < aliens1.len() && !(#[trigger] aliens1[i]).dead;
    let spawning = ttb1 <= 0 && any_alive;
    let bombs1 = moved_bombs(s1.bombs@ + spawned, dt, s1.bomb_speed as int);
    let c = collide_upto(bullets1, aliens1, sprites, aliens1.len() as int);
    let score2 = hits_score(s1.score, c.2);
    let rem: usize = if n0 > 0 {
        (n0 - 1) as usize
    } else {
        0
    };
    let ev4 = hit_events(s1.score, c.2, rem);
    let j = first_bomb_hit(
        bombs1,
        s1.player_pos_fr as int,
        sprites[IX_PLAYER as int].f_w as int,
        sprites[IX_PLAYER as int].f_h as int,
        sprites[IX_BOMB as int].f_w as int,
        sprites[IX_BOMB as int].f_h as int,
        0,
    );
    let struck = s1.player_state == PlayerState::Playing && j >= 0;
    let bombs2 = if struck {
        bombs1.update(j, Bomb { dead: true, ..bombs1[j] })
    } else {
        bombs1
    };
    let ev5: Seq<Event> = if struck {
        seq![
            (Event::Bombed {
                xpos: s1.player_pos_fr,
                score: score2,
                remaining: n0,
                lives: s1.lives,
            }),
        ]
    } else {
        Seq::<Event>::empty()
    };
    let aliens2 = c.1.filter(|a: Alien| !a.dead);
    &&& (if spawning {
        &&& spawned.len() == 1
        &&& spawned[0].sprite == IX_BOMB
        &&& spawned[0].phase == 0
        &&& !spawned[0].dead
        &&& exists|i: int|
            0 <= i < aliens1.len() && !(#[trigger] aliens1[i]).dead && spawned[0].xpos
                == aliens1[i].xpos && spawned[0].ypos == aliens1[i].ypos
        &&& BOMB_MIN_TIME <= s2.time_to_bomb < BOMB_MIN_TIME + bomb_extra(
            s1.current_level as int,
        )
    } else {
        &&& spawned.len() == 0
        &&& s2.time_to_bomb == ttb1
    })
    &&& s2.bullets@ =~= c.0.filter(|b: Bullet| !b.dead)
    &&& s2.aliens@ =~= aliens2
    &&& s2.bombs@ =~= bombs2.filter(|b: Bomb| !b.dead)
    &&& s2.score == score2
    &&& s2.lives == s1.lives
    &&& s2.player_pos_fr == s1.player_pos_fr
    &&& s2.time_to_fire == s1.time_to_fire
    &&& s2.player_state == (if struck {
        PlayerState::HitExploding
    } else {
        s1.player_state
    })
    &&& s2.player_hit_timer == (if struck {
        HIT_EXPLODE_TIME as int
    } else {
        s1.player_hit_timer as int
    })
    &&& s2.alien_state == nx.0
    &&& s2.alien_target_y == nx.1
    &&& s2.reset_countdown == (if aliens2.len() == 0 {
        RESET_DELAY as int
    } else {
        s1.reset_countdown as int
    })
    &&& s2.current_level == s1.current_level
    &&& s2.paused == s1.paused
    &&& s2.speed_ratio == s1.speed_ratio
    &&& s2.bassline_time == s1.bassline_time
    &&& s2.bassline_speed == s1.bassline_speed
    &&& s2.player_speed == s1.player_speed
    &&& s2.firing_duration == s1.firing_duration
    &&& s2.fire_velocity == s1.fire_velocity
    &&& s2.bomb_speed == s1.bomb_speed
    &&& s2.explosions@.len() == s1.explosions@.len() + c.2.len() + (if struck {
        1int
    } else {
        0int
    })
    &&& forall|k: int| 0 <= k < s1.explosions@.len() ==> s2.explosions@[k] == s1.explosions@[k]
    &&& forall|k: int|
        0 <= k < c.2.len() ==> spawned_at(
            #[trigger] s2.explosions@[s1.explosions@.len() + k],
            c.2[k].bullet_x,
            c.2[k].bullet_y,
        ) && IX_EXPLOSION_0 <= s2.explosions@[s1.explosions@.len() + k].sprite < IX_EXPLOSION_0 + 9
            && IX_SOUND_POP_01 <= s2.explosions@[s1.explosions@.len() + k].sound < IX_SOUND_POP_01
            + 4
    &&& (struck ==> spawned_at(
        s2.explosions@[s2.explosions@.len() - 1],
        s1.player_pos_fr,
        PLAYER_Y,
    ) && s2.explosions@[s2.explosions@.len() - 1].sound == IX_SOUND_EXPLOSION)
    &&& ev =~= ev3 + ev4 + ev5
}

/// The evolving relation never reads the bullet field of its scalar
/// carrier: two carriers that differ only there agree.
pub proof fn lemma_evolving_rel_bullets_irrelevant(
    a: State,
    b: State,
    bullets1: Seq<Bullet>,
    dt: int,
    sprites: Seq<SpriteSize>,
    n0: usize,
    spawned: Seq<Bomb>,
    s2: State,
    ev: Seq<Event>,
)
    requires
        b == (State { bullets: b.bullets, ..a }),
    ensures
        evolving_rel(a, bullets1, dt, sprites, n0, spawned, s2, ev) == evolving_rel(
            b,
            bullets1,
            dt,
            sprites,
            n0,
            spawned,
            s2,
            ev,
        ),
{
    reveal(evolving_rel);
}

/// Everything one active frame does, given the bomb the spawner drew: the
/// player stage, bullet flight and misses, then -- while the player is
/// playing or respawning -- the whole evolving block. The only free choices
/// are the drawn bomb (its origin among the alive aliens and the new
/// countdown) and the sprite and sound of each new explosion.
#[verifier::opaque]
pub open spec fn active_frame_rel(
    s0: State,
    dt: int,
    inputs: Inputs,
    sprites: Seq<SpriteSize>,
    n0: usize,
    spawned: Seq<Bomb>,
    s2: State,
    ev: Seq<Event>,
) -> bool {
    let p1 = stepped_player(s0, dt, inputs);
    let baf = bullets_after_fire(s0, dt, inputs.left_held, inputs.right_held, inputs.fire_held);
    let bullets1 = moved_bullets(baf, dt);
    let ev12 = player_stage_events(s0, dt, inputs, n0) + miss_events(baf, dt, s0.score, n0);
    let evolving = p1.player_state == PlayerState::Playing || p1.player_state
        == PlayerState::HitRespawning;
    if !evolving {
        &&& spawned.len() == 0
        &&& s2.bullets@ =~= bullets1.filter(|b: Bullet| !b.dead)
        &&& s2.aliens@ =~= s0.aliens@
        &&& s2.bombs@ =~= s0.bombs@
        &&& s2.explosions@ =~= s0.explosions@
        &&& s2 == (State {
            bullets: s2.bullets,
            aliens: s2.aliens,
            bombs: s2.bombs,
            explosions: s2.explosions,
            reset_countdown: s2.reset_countdown,
            ..p1
        })
        &&& s2.reset_countdown == (if s0.aliens@.len() == 0 {
            RESET_DELAY as int
        } else {
            s0.reset_countdown as int
        })
        &&& ev =~= ev12
    } else {
        &&& ev.len() >= ev12.len()
        &&& ev.take(ev12.len() as int) =~= ev12
        &&& evolving_rel(
            p1,
            bullets1,
            dt,
            sprites,
            n0,
            spawned,
            s2,
            ev.skip(ev12.len() as int),
        )
    }
}

/// The whole of an active frame as seen from the step entrypoint: some
/// drawn bomb and some mid-frame state tie the returned events and the
/// final state to the active-frame relation, followed by the explosion
/// animation and the pace update (or, after a game-over restart, by the
/// reinitialization the restart clause pins down).
pub open spec fn frame_outcome(
    s0: State,
    dt: int,
    inputs: Inputs,
    sprites: Seq<SpriteSize>,
    s2: State,
    ev_out: Seq<Event>,
) -> bool {
    exists|spawned: Seq<Bomb>, mid: State, ev: Seq<Event>|
        {
            &&& #[trigger] active_frame_rel(
                cooled(s0, dt, inputs),
                dt,
                inputs,
                sprites,
                s0.aliens@.len() as usize,
                spawned,
                mid,
                ev,
            )
            &&& ev_out =~= pause_events(s0, inputs) + ev
            &&& (!(mid.player_state == PlayerState::GameOver && inputs.restart_pressed) ==> {
                &&& s2 == (State {
                    explosions: s2.explosions,
                    speed_ratio: s2.speed_ratio,
                    ..mid
                })
                &&& s2.explosions@ =~= explosions_step(mid.explosions@, dt)
                &&& s2.speed_ratio == speed_ratio_spec(s0.aliens@.len() as int)
            })
        }
}

/// Settles the recorded bullet-alien hits: each adds its alien's exact
/// point value to the score (saturating only at the top of the integer
/// range), spawns a pop explosion where the bullet struck, and yields a hit
/// event carrying the running score.
pub fn apply_hits(
    hits: &Vec<HitRec>,
    score: &mut u64,
    explosions: &mut Vec<Explosion>,
    events: &mut Vec<Event>,
    remaining: usize,
)
    requires
        forall|k: int|
            0 <= k < hits@.len() ==> -FX_LIMIT <= (#[trigger] hits@[k]).bullet_x <= FX_LIMIT
                && -FX_LIMIT <= hits@[k].bullet_y <= FX_LIMIT,
        forall|k: int|
            0 <= k < old(explosions)@.len() ==> (#[trigger] old(explosions)@[k]).wf() && !old(explosions)@[k].dead,
    ensures
        *final(score) == hits_score(*old(score), hits@),
        *final(score) >= *old(score),
        final(explosions)@.len() == old(explosions)@.len() + hits@.len(),
        forall|k: int|
            0 <= k < old(explosions)@.len() ==> final(explosions)@[k] == old(explosions)@[k],
        forall|k: int|
            0 <= k < hits@.len() ==> spawned_at(
                #[trigger] final(explosions)@[old(explosions)@.len() + k],
                hits@[k].bullet_x,
                hits@[k].bullet_y,
            ) && IX_EXPLOSION_0 <= final(explosions)@[old(explosions)@.len() + k].sprite
                < IX_EXPLOSION_0 + 9 && IX_SOUND_POP_01 <= final(explosions)@[old(explosions)@.len() + k].sound < IX_SOUND_POP_01 + 4,
        forall|k: int|
            0 <= k < final(explosions)@.len() ==> (#[trigger] final(explosions)@[k]).wf() && !final(explosions)@[k].dead,
        final(events)@ =~= old(events)@ + hit_events(*old(score), hits@, remaining),
{
    let nh: usize = hits.len();
    let mut h: usize = 0;
    while h < nh
        invariant
            h <= nh,
            nh == hits@.len(),
            forall|k: int|
                0 <= k < hits@.len() ==> -FX_LIMIT <= (#[trigger] hits@[k]).bullet_x <= FX_LIMIT
                    && -FX_LIMIT <= hits@[k].bullet_y <= FX_LIMIT,
            *score == hits_score(*old(score), hits@.take(h as int)),
            *score >= *old(score),
            explosions@.len() == old(explosions)@.len() + h,
            forall|k: int|
                0 <= k < old(explosions)@.len() ==> explosions@[k] == old(explosions)@[k],
            forall|k: int|
                0 <= k < h ==> spawned_at(
                    #[trigger] explosions@[old(explosions)@.len() + k],
                    hits@[k].bullet_x,
                    hits@[k].bullet_y,
                ) && IX_EXPLOSION_0 <= explosions@[old(explosions)@.len() + k].sprite
                    < IX_EXPLOSION_0 + 9 && IX_SOUND_POP_01 <= explosions@[old(explosions)@.len() + k].sound < IX_SOUND_POP_01 + 4,
            forall|k: int|
                0 <= k < explosions@.len() ==> (#[trigger] explosions@[k]).wf()
                    && !explosions@[k].dead,
            forall|k: int|
                0 <= k < old(explosions)@.len() ==> (#[trigger] old(explosions)@[k]).wf() && !old(explosions)@[k].dead,
            events@ =~= old(events)@ + hit_events(*old(score), hits@.take(h as int), remaining),
        decreases nh - h,
    {
        proof {
            assert(hits@.take(h + 1).drop_last() =~= hits@.take(h as int));
            assert(hits@.take(h + 1).last() == hits@[h as int]);
        }
        *score = sat_add_u64(*score, hits[h].points as u64);
        let e = explosion::new(hits[h].bullet_x, hits[h].bullet_y);
        explosions.push(e);
        events.push(
            Event::Hit {
                xpos: hits[h].bullet_x,
                score: *score,
                sprite: hits[h].sprite,
                points: hits[h].points,
                remaining,
            },
        );
        h = h + 1;
    }
    proof {
        assert(hits@.take(nh as int) =~= hits@);
    }
}

/// The evolving block of an active frame: the swarm, the bomb countdown,
/// spawn and fall, both collision passes, and the end-of-frame compaction
/// with its wave-clear rearm. Runs only while the player is playing or
/// respawning.
#[verifier::rlimit(100)]
#[verifier::spinoff_prover]
fn run_evolving(
    state: &mut State,
    delta_time: i64,
    n0: usize,
    sprites: &Vec<SpriteSize>,
    events: &mut Vec<Event>,
)
    requires
        0 <= delta_time <= DT_MAX,
        old(state).wf_mid(),
        wf_sprites(sprites@),
        old(state).player_state == PlayerState::Playing || old(state).player_state
            == PlayerState::HitRespawning,
    ensures
        final(state).wf(),
        final(state).score >= old(state).score,
        final(state).lives == old(state).lives,
        final(state).current_level == old(state).current_level,
        final(state).paused == old(state).paused,
        exists|spawned: Seq<Bomb>, ev: Seq<Event>|
            #[trigger] evolving_rel(
                *old(state),
                old(state).bullets@,
                delta_time as int,
                sprites@,
                n0,
                spawned,
                *final(state),
                ev,
            ) && final(events)@ =~= old(events)@ + ev,
{
    let ghost s1 = *old(state);
    let ghost dtg: int = delta_time as int;
    let ghost ev_base = events@;
    let ghost mut ev_acc: Seq<Event> = Seq::<Event>::empty();
    let ghost mut spawned_g: Seq<Bomb> = Seq::<Bomb>::empty();

    let moved = swarm_step(
        &mut state.aliens,
        state.alien_state,
        state.alien_target_y,
        delta_time,
        state.current_level,
    );
    state.alien_state = moved.0;
    state.alien_target_y = moved.1;
    proof {
        assert(state.aliens@ =~= swarm_moved(
            s1.aliens@,
            s1.alien_state,
            s1.alien_target_y as int,
            dtg,
            s1.current_level as int,
        ));
    }
    if moved.2 {
        events.push(Event::Advance { target_y: state.alien_target_y, remaining: n0 });
    }
    proof {
        let nx = swarm_next(
            s1.aliens@,
            s1.alien_state,
            s1.alien_target_y as int,
            dtg,
            s1.current_level as int,
        );
        ev_acc = if is_advance(s1.alien_state, nx.0) {
            seq![(Event::Advance { target_y: nx.1 as i64, remaining: n0 })]
        } else {
            Seq::<Event>::empty()
        };
        assert(events@ =~= ev_base + ev_acc);
    }

    state.time_to_bomb = tick_down(state.time_to_bomb, delta_time);
    if state.time_to_bomb <= 0 {
        let drawn = spawn_bomb(&state.aliens);
        match drawn {
            Some(b) => {
                state.bombs.push(b);
                state.time_to_bomb = bomb_interval(state.current_level);
                proof {
                    spawned_g = seq![b];
                }
            },
            None => {},
        }
    }
    proof {
        assert(state.bombs@ =~= s1.bombs@ + spawned_g);
    }
    move_bombs(&mut state.bombs, delta_time, state.bomb_speed);
    proof {
        assert(state.bombs@ =~= moved_bombs(s1.bombs@ + spawned_g, dtg, s1.bomb_speed as int));
    }

    let hits = collide_bullets_aliens(&mut state.bullets, &mut state.aliens, sprites);
    let rem: usize = if n0 > 0 {
        n0 - 1
    } else {
        0
    };
    apply_hits(&hits, &mut state.score, &mut state.explosions, events, rem);
    proof {
        ev_acc = ev_acc + hit_events(s1.score, hits@, rem);
        assert(events@ =~= ev_base + ev_acc);
    }

    let playing: bool = matches!(state.player_state, PlayerState::Playing);
    let struck: bool = collide_bombs_player(
        &mut state.bombs,
        state.player_pos_fr,
        playing,
        sprites,
    );
    if struck {
        state.player_state = PlayerState::HitExploding;
        state.player_hit_timer = HIT_EXPLODE_TIME;
        let e = explosion::new_player(state.player_pos_fr, PLAYER_Y);
        state.explosions.push(e);
        events.push(
            Event::Bombed {
                xpos: state.player_pos_fr,
                score: state.score,
                remaining: n0,
                lives: state.lives,
            },
        );
        proof {
            ev_acc = ev_acc.push(
                (Event::Bombed {
                    xpos: state.player_pos_fr,
                    score: state.score,
                    remaining: n0,
                    lives: state.lives,
                }),
            );
            assert(events@ =~= ev_base + ev_acc);
        }
    }

    let ghost pre_bullets = state.bullets@;
    compact_bullets(&mut state.bullets);
    proof {
        assert forall|k: int| 0 <= k < state.bullets@.len() implies crate::state::wf_bullet(
            #[trigger] state.bullets@[k],
        ) by {
            assert(pre_bullets.contains(state.bullets@[k]));
            let j = choose|j: int| 0 <= j < pre_bullets.len() && pre_bullets[j]
                == state.bullets@[k];
            assert(crate::state::wf_bullet(pre_bullets[j]));
        }
    }
    let ghost pre_aliens = state.aliens@;
    compact_aliens(&mut state.aliens);
    proof {
        assert forall|k: int| 0 <= k < state.aliens@.len() implies crate::state::wf_alien(
            #[trigger] state.aliens@[k],
        ) by {
            assert(pre_aliens.contains(state.aliens@[k]));
            let j = choose|j: int| 0 <= j < pre_aliens.len() && pre_aliens[j] == state.aliens@[k];
            assert(crate::state::wf_alien(pre_aliens[j]));
        }
    }
    let ghost pre_bombs = state.bombs@;
    compact_bombs(&mut state.bombs);
    proof {
        assert forall|k: int| 0 <= k < state.bombs@.len() implies crate::state::wf_bomb(
            #[trigger] state.bombs@[k],
        ) by {
            assert(pre_bombs.contains(state.bombs@[k]));
            let j = choose|j: int| 0 <= j < pre_bombs.len() && pre_bombs[j] == state.bombs@[k];
            assert(crate::state::wf_bomb(pre_bombs[j]));
        }
    }
    if state.aliens.len() == 0 {
        state.reset_countdown = RESET_DELAY;
    }
    proof {
        assert(evolving_rel(s1, s1.bullets@, dtg, sprites@, n0, spawned_g, *state, ev_acc)) by {
            reveal(evolving_rel);
        }
        assert(events@ =~= ev_base + ev_acc);
    }
}

/// The active part of a frame, run when the game is neither paused nor
/// counting down to a level build: player, bullets, swarm, bombs,
/// collisions, and the end-of-frame compaction with its wave-clear check.
/// While the game is over, only the player timer and the bullets in flight
/// still move; the swarm, the bombs and the score stay exactly as they are.
#[verifier::rlimit(100)]
#[verifier::spinoff_prover]
fn run_active_frame(
    state: &mut State,
    delta_time: i64,
    n0: usize,
    sprites: &Vec<SpriteSize>,
    inputs: &Inputs,
    events: &mut Vec<Event>,
)
    requires
        0 <= delta_time <= DT_MAX,
        old(state).wf(),
        wf_sprites(sprites@),
    ensures
        final(state).wf(),
        final(state).score >= old(state).score,
        final(state).lives <= old(state).lives,
        final(state).current_level == old(state).current_level,
        final(state).paused == old(state).paused,
        old(state).player_state == PlayerState::GameOver ==> final(state).aliens@ =~= old(state).aliens@ && final(state).bombs@ =~= old(state).bombs@ && final(state).score == old(state).score && final(state).lives == old(state).lives && final(state).player_state
            == PlayerState::GameOver && final(state).explosions@ =~= old(state).explosions@,
        old(state).player_state == PlayerState::Playing || old(state).player_state
            == PlayerState::HitRespawning ==> {
            let r = frame_hits(
                *old(state),
                delta_time as int,
                inputs.left_held,
                inputs.right_held,
                inputs.fire_held,
                sprites@,
            );
            &&& final(state).bullets@ =~= r.0.filter(|b: Bullet| !b.dead)
            &&& final(state).aliens@ =~= r.1.filter(|a: Alien| !a.dead)
            &&& final(state).score == hits_score(old(state).score, r.2)
        },
        exists|spawned: Seq<Bomb>, ev: Seq<Event>|
            #[trigger] active_frame_rel(
                *old(state),
                delta_time as int,
                *inputs,
                sprites@,
                n0,
                spawned,
                *final(state),
                ev,
            ) && final(events)@ =~= old(events)@ + ev,
{
    let ghost s0 = *old(state);
    let ghost dtg: int = delta_time as int;
    let ghost ev_base = events@;
    let ghost baf = bullets_after_fire(
        s0,
        dtg,
        inputs.left_held,
        inputs.right_held,
        inputs.fire_held,
    );

    if matches!(state.player_state, PlayerState::Playing) {
        player_input(
            state,
            delta_time,
            inputs.left_held,
            inputs.right_held,
            inputs.fire_held,
            events,
        );
    } else {
        let over_now: bool = player_lifecycle(state, delta_time);
        if over_now {
            events.push(
                Event::GameOver {
                    xpos: state.player_pos_fr,
                    score: state.score,
                    remaining: n0,
                    level: state.current_level,
                },
            );
        }
    }
    proof {
        assert(*state == (State { bullets: state.bullets, ..stepped_player(s0, dtg, *inputs) }));
        assert(state.bullets@ =~= baf);
        assert(events@ =~= ev_base + player_stage_events(s0, dtg, *inputs, n0));
    }

    evolve_bullets(&mut state.bullets, delta_time, state.score, n0, events);
    let ghost ev12 = player_stage_events(s0, dtg, *inputs, n0) + miss_events(
        baf,
        dtg,
        s0.score,
        n0,
    );
    proof {
        assert(state.bullets@ =~= moved_bullets(baf, dtg));
        assert(events@ =~= ev_base + ev12);
        assert(*state == (State { bullets: state.bullets, ..stepped_player(s0, dtg, *inputs) }));
    }

    let evolving: bool = matches!(
        state.player_state,
        PlayerState::Playing | PlayerState::HitRespawning,
    );
    if evolving {
        let ghost s1a = *state;
        let ghost pre_ev = events@;
        proof {
            assert(state.wf_mid());
        }
        run_evolving(state, delta_time, n0, sprites, events);
        proof {
            let (sp, evt) = choose|sp: Seq<Bomb>, evt: Seq<Event>|
                #[trigger] evolving_rel(
                    s1a,
                    s1a.bullets@,
                    dtg,
                    sprites@,
                    n0,
                    sp,
                    *state,
                    evt,
                ) && events@ =~= pre_ev + evt;
            lemma_evolving_rel_bullets_irrelevant(
                stepped_player(s0, dtg, *inputs),
                s1a,
                s1a.bullets@,
                dtg,
                sprites@,
                n0,
                sp,
                *state,
                evt,
            );
            let ev_total = ev12 + evt;
            assert(ev_total.take(ev12.len() as int) =~= ev12);
            assert(ev_total.skip(ev12.len() as int) =~= evt);
            assert(active_frame_rel(s0, dtg, *inputs, sprites@, n0, sp, *state, ev_total)) by {
                reveal(active_frame_rel);
            }
            assert(events@ =~= ev_base + ev_total);
            assert({
                let r = frame_hits(
                    s0,
                    dtg,
                    inputs.left_held,
                    inputs.right_held,
                    inputs.fire_held,
                    sprites@,
                );
                &&& state.bullets@ =~= r.0.filter(|b: Bullet| !b.dead)
                &&& state.aliens@ =~= r.1.filter(|a: Alien| !a.dead)
                &&& state.score == hits_score(s0.score, r.2)
            }) by {
                reveal(evolving_rel);
            }
        }
    } else {
        proof {
            lemma_filter_all(state.aliens@, |a: Alien| !a.dead);
            lemma_filter_all(state.bombs@, |b: Bomb| !b.dead);
        }
        let ghost pre_bullets = state.bullets@;
        compact_bullets(&mut state.bullets);
        proof {
            assert forall|k: int| 0 <= k < state.bullets@.len() implies crate::state::wf_bullet(
                #[trigger] state.bullets@[k],
            ) by {
                assert(pre_bullets.contains(state.bullets@[k]));
                let j = choose|j: int| 0 <= j < pre_bullets.len() && pre_bullets[j]
                    == state.bullets@[k];
                assert(crate::state::wf_bullet(pre_bullets[j]));
            }
        }
        compact_aliens(&mut state.aliens);
        compact_bombs(&mut state.bombs);
        if state.aliens.len() == 0 {
            state.reset_countdown = RESET_DELAY;
        }
        proof {
            assert(active_frame_rel(
                s0,
                dtg,
                *inputs,
                sprites@,
                n0,
                Seq::<Bomb>::empty(),
                *state,
                ev12,
            )) by {
                reveal(active_frame_rel);
            }
            assert(events@ =~= ev_base + ev12);
        }
    }
}

/// Advances the whole game by one frame and returns the events the frame
/// produced, in order. The embedding program supplies the clamped frame
/// delta, the sprite size table and the frame's input flags, and forwards
/// the returned events to its sound and telemetry sinks. Lives never drop
/// below zero, and the entity pools are compacted, so every well-formedness
/// guarantee of the state survives every frame.
#[verifier::rlimit(100)]
#[verifier::spinoff_prover]
pub fn update_state(
    delta_time: i64,
    state: &mut State,
    sprites: &Vec<SpriteSize>,
    inputs: &Inputs,
) -> (events: Vec<Event>)
    requires
        0 <= delta_time <= DT_MAX,
        old(state).wf(),
        wf_sprites(sprites@),
    ensures
        final(state).wf(),
        final(state).lives >= 0,
        final(state).paused == paused_after(*old(state), *inputs),
        // a paused frame leaves everything alone but the pause flag and the
        // explosion animation, which still runs by the frame delta
        final(state).paused ==> *final(state) == (State {
            paused: final(state).paused,
            explosions: final(state).explosions,
            ..*old(state)
        }) && final(state).explosions@ =~= explosions_step(
            old(state).explosions@,
            delta_time as int,
        ) && events@ =~= pause_events(*old(state), *inputs),
        !inputs.restart_pressed ==> final(state).score >= old(state).score && final(state).lives
            <= old(state).lives && old(state).current_level <= final(state).current_level <= old(state).current_level + 1,
        // while the level countdown runs, only the countdown and the
        // explosion animation move
        !paused_after(*old(state), *inputs) && !inputs.restart_pressed && old(state).reset_countdown - delta_time > 0 ==> {
            &&& final(state).reset_countdown == old(state).reset_countdown - delta_time
            &&& final(state).aliens@ =~= old(state).aliens@
            &&& final(state).bullets@ =~= old(state).bullets@
            &&& final(state).bombs@ =~= old(state).bombs@
            &&& final(state).explosions@ =~= explosions_step(
                old(state).explosions@,
                delta_time as int,
            )
            &&& final(state).score == old(state).score
            &&& final(state).lives == old(state).lives
            &&& final(state).player_state == old(state).player_state
            &&& events@ =~= pause_events(*old(state), *inputs)
        },
        // a countdown that runs out builds the fixed formation anew and
        // announces the new level
        !paused_after(*old(state), *inputs) && !inputs.restart_pressed && old(state).reset_countdown > 0 && old(state).reset_countdown - delta_time <= 0 ==> {
            &&& final(state).aliens@ =~= crate::state::formation_seq()
            &&& final(state).bullets@.len() == 0
            &&& final(state).bombs@.len() == 0
            &&& final(state).explosions@.len() == 0
            &&& (old(state).current_level < LEVEL_MAX ==> final(state).current_level == old(state).current_level + 1)
            &&& events@ =~= pause_events(*old(state), *inputs) + seq![
                (Event::NewLevel {
                    level: final(state).current_level,
                    score: old(state).score,
                }),
            ]
        },
        // once the game is over, the swarm, the bombs, the score and the
        // lives stay frozen until an explicit restart
        !paused_after(*old(state), *inputs) && !inputs.restart_pressed && old(state).reset_countdown <= 0 && old(state).player_state == PlayerState::GameOver ==> {
            &&& final(state).aliens@ =~= old(state).aliens@
            &&& final(state).bombs@ =~= old(state).bombs@
            &&& final(state).score == old(state).score
            &&& final(state).lives == old(state).lives
            &&& final(state).player_state == PlayerState::GameOver
        },
        // an active frame in full: the player stage, bullet flight and
        // misses, the swarm's boundary rules, the bomb countdown and fall,
        // both collision passes, the owed explosions and events, compaction
        // with its wave-clear rearm, then the explosion animation and the
        // pace update -- pinned up to the random draws
        !paused_after(*old(state), *inputs) && old(state).reset_countdown <= 0 ==> frame_outcome(
            *old(state),
            delta_time as int,
            *inputs,
            sprites@,
            *final(state),
            events@,
        ),
        // an active playing frame's bullets, aliens and score, spelled out
        !paused_after(*old(state), *inputs) && !inputs.restart_pressed && old(state).reset_countdown <= 0 && (old(state).player_state == PlayerState::Playing || old(state).player_state == PlayerState::HitRespawning) ==> {
            let r = frame_hits(
                cooled(*old(state), delta_time as int, *inputs),
                delta_time as int,
                inputs.left_held,
                inputs.right_held,
                inputs.fire_held,
                sprites@,
            );
            &&& final(state).bullets@ =~= r.0.filter(|b: Bullet| !b.dead)
            &&& final(state).aliens@ =~= r.1.filter(|a: Alien| !a.dead)
            &&& final(state).score == hits_score(old(state).score, r.2)
        },
        // a restart while the game is over returns to the initial values and
        // empties every pool
        !paused_after(*old(state), *inputs) && old(state).player_state == PlayerState::GameOver
            && inputs.restart_pressed ==> {
            &&& final(state).score == 0
            &&& final(state).lives == LIVES_START
            &&& final(state).current_level == 0
            &&& final(state).player_state == PlayerState::Playing
            &&& final(state).aliens@.len() == 0
            &&& final(state).bullets@.len() == 0
            &&& final(state).bombs@.len() == 0
            &&& final(state).explosions@.len() == 0
            &&& final(state).reset_countdown == RESET_DELAY
        },
{
    let ghost s0 = *old(state);
    let ghost dtg: int = delta_time as int;
    let mut events: Vec<Event> = Vec::new();
    if inputs.pause_pressed {
        state.paused = !state.paused;
        events.push(Event::Pause { paused: state.paused });
    }
    proof {
        assert(events@ =~= pause_events(s0, *inputs));
    }
    let n0: usize = state.aliens.len();

    let ghost mut mid_g: State = *state;
    let ghost mut spawned_w: Seq<Bomb> = Seq::<Bomb>::empty();
    let ghost mut ev_w: Seq<Event> = Seq::<Event>::empty();
    if !state.paused {
        if state.time_to_fire > 0 {
            state.time_to_fire = state.time_to_fire - delta_time;
        }
        if state.reset_countdown > 0 {
            state.reset_countdown = state.reset_countdown - delta_time;
            if state.reset_countdown <= 0 {
                if state.current_level < LEVEL_MAX {
                    state.current_level = state.current_level + 1;
                }
                reset_level(state);
                events.push(
                    Event::NewLevel { level: state.current_level, score: state.score },
                );
            }
        } else {
            proof {
                assert(*state == cooled(s0, dtg, *inputs));
            }
            let ghost pre_ev = events@;
            run_active_frame(state, delta_time, n0, sprites, inputs, &mut events);
            proof {
                let (sp, ev) = choose|sp: Seq<Bomb>, ev: Seq<Event>|
                    #[trigger] active_frame_rel(
                        cooled(s0, dtg, *inputs),
                        dtg,
                        *inputs,
                        sprites@,
                        n0,
                        sp,
                        *state,
                        ev,
                    ) && events@ =~= pre_ev + ev;
                spawned_w = sp;
                ev_w = ev;
                mid_g = *state;
                assert(events@ =~= pause_events(s0, *inputs) + ev_w);
            }
        }
    }

    let ghost pre_anim = state.explosions@;
    explosion::evolve_all(&mut state.explosions, delta_time);
    proof {
        assert(state.explosions@ =~= Seq::new(
            pre_anim.len(),
            |k: int| evolve_spec(pre_anim[k], dtg),
        ));
    }
    compact_explosions(&mut state.explosions);
    proof {
        assert(state.explosions@ =~= explosions_step(pre_anim, dtg));
    }

    if !state.paused && matches!(state.player_state, PlayerState::GameOver)
        && inputs.restart_pressed {
        state.current_level = 0;
        state.score = 0;
        state.lives = LIVES_START;
        state.reset_countdown = RESET_DELAY;
        state.player_state = PlayerState::Playing;
        state.aliens = Vec::new();
        state.bombs = Vec::new();
        state.bullets = Vec::new();
        state.explosions = Vec::new();
    } else if !state.paused {
        proof {
            assert(4_000_000int / (3 + n0 as int) <= 2_000_000) by (nonlinear_arith)
                requires
                    n0 >= 0,
            ;
        }
        let sr: i64 = 4_000_000 / (3 + n0 as i64);
        state.speed_ratio = sr;
    }
    proof {
        if !paused_after(s0, *inputs) && s0.reset_countdown <= 0 {
            assert(active_frame_rel(
                cooled(s0, dtg, *inputs),
                dtg,
                *inputs,
                sprites@,
                n0,
                spawned_w,
                mid_g,
                ev_w,
            ));
            assert(events@ =~= pause_events(s0, *inputs) + ev_w);
            if !(mid_g.player_state == PlayerState::GameOver && inputs.restart_pressed) {
                assert(*state == (State {
                    explosions: state.explosions,
                    speed_ratio: state.speed_ratio,
                    ..mid_g
                }));
                assert(state.explosions@ =~= explosions_step(mid_g.explosions@, dtg));
                assert(state.speed_ratio == speed_ratio_spec(n0 as int));
            }
            assert(n0 == s0.aliens@.len() as usize);
            assert(active_frame_rel(
                cooled(s0, dtg, *inputs),
                dtg,
                *inputs,
                sprites@,
                s0.aliens@.len() as usize,
                spawned_w,
                mid_g,
                ev_w,
            ));
            assert(frame_outcome(s0, dtg, *inputs, sprites@, *state, events@));
        }
    }
    events
}

} // verus!
