//! The player controller: movement and firing while playing, and the
//! life-cycle machine that runs from a bomb hit through respawn or game
//! over.

use vstd::prelude::*;
use crate::events::Event;
use crate::fx::{fx_clip, DT_MAX, FX_ONE};
use crate::params::{BULLET_START_Y, LEFT_MARGIN, PLAYER_CENTER_X, RIGHT_MARGIN};
use crate::state::{
    Bullet, PlayerState, State, GAME_OVER_TIMEOUT, HIT_RESPAWN_TIME,
};

verus! {

/// The controls the simulation reads each frame: two held movement keys, a
/// held fire trigger, and the pause and restart edges.
#[derive(Clone, Copy)]
pub struct Inputs {
    pub left_held: bool,
    pub right_held: bool,
    pub fire_held: bool,
    pub pause_pressed: bool,
    pub restart_pressed: bool,
}

/// The player's x after one frame of held movement keys, clamped to the
/// margins.
pub open spec fn moved_player(pos: int, dt: int, speed: int, left: bool, right: bool) -> int {
    let d = dt * speed / (FX_ONE as int);
    let p1 = if right {
        pos + d
    } else {
        pos
    };
    let p2 = if left {
        p1 - d
    } else {
        p1
    };
    if p2 < LEFT_MARGIN {
        LEFT_MARGIN as int
    } else if p2 > RIGHT_MARGIN {
        RIGHT_MARGIN as int
    } else {
        p2
    }
}

/// True when holding fire this frame launches a bullet: the cooldown must
/// have run out.
pub open spec fn fires_now(s: State, fire: bool) -> bool {
    fire && s.time_to_fire <= 0
}

/// Moves the player by the held keys and fires when the trigger is held and
/// the cooldown has run out: the new bullet starts just above the ship,
/// carries the firing velocity, and announces itself with a shot event.
/// Runs only while the player is playing.
pub fn player_input(
    state: &mut State,
    dt: i64,
    left: bool,
    right: bool,
    fire: bool,
    events: &mut Vec<Event>,
)
    requires
        old(state).wf(),
        0 <= dt <= DT_MAX,
        old(state).player_state == PlayerState::Playing,
    ensures
        final(state).wf(),
        final(state).player_pos_fr == moved_player(
            old(state).player_pos_fr as int,
            dt as int,
            old(state).player_speed as int,
            left,
            right,
        ),
        fires_now(*old(state), fire) ==> final(state).time_to_fire == old(
            state,
        ).firing_duration && final(state).bullets@ =~= old(state).bullets@.push(
            Bullet {
                xpos: final(state).player_pos_fr,
                ypos: BULLET_START_Y,
                velocity: old(state).fire_velocity,
                fresh: true,
                dead: false,
            },
        ) && final(events)@ =~= old(events)@.push(
            Event::Shot {
                xpos: final(state).player_pos_fr,
                score: old(state).score,
                alien_y: old(state).alien_target_y,
            },
        ),
        !fires_now(*old(state), fire) ==> final(state).time_to_fire == old(state).time_to_fire
            && final(state).bullets@ =~= old(state).bullets@ && final(events)@ =~= old(events)@,
        *final(state) == (State {
            player_pos_fr: final(state).player_pos_fr,
            time_to_fire: final(state).time_to_fire,
            bullets: final(state).bullets,
            ..*old(state)
        }),
{
    proof {
        assert(0 <= dt * state.player_speed <= 100_000_000_000
            && dt * state.player_speed / 1_000_000 <= 100_000) by (nonlinear_arith)
            requires
                0 <= dt <= 100_000,
                0 <= state.player_speed <= 1_000_000,
        ;
    }
    let d: i64 = dt * state.player_speed / FX_ONE;
    let mut p: i64 = state.player_pos_fr;
    if right {
        p = p + d;
    }
    if left {
        p = p - d;
    }
    if p < LEFT_MARGIN {
        p = LEFT_MARGIN;
    } else if p > RIGHT_MARGIN {
        p = RIGHT_MARGIN;
    }
    state.player_pos_fr = p;
    if fire && state.time_to_fire <= 0 {
        state.time_to_fire = state.firing_duration;
        state.bullets.push(
            Bullet {
                xpos: p,
                ypos: BULLET_START_Y,
                velocity: state.fire_velocity,
                fresh: true,
                dead: false,
            },
        );
        events.push(
            Event::Shot { xpos: p, score: state.score, alien_y: state.alien_target_y },
        );
    }
}

/// One frame of the player life-cycle machine. A playing player is left to
/// the input step. An exploding player whose timer runs out respawns at the
/// centre and loses a life while one remains, else the game is over for a
/// fixed timeout and then awaits restart input; a respawning player whose
/// timer runs out plays again.
pub open spec fn lifecycle_spec(s: State, dt: int) -> State {
    match s.player_state {
        PlayerState::Playing => s,
        PlayerState::HitExploding => {
            let t2 = s.player_hit_timer - dt;
            if t2 > 0 {
                State { player_hit_timer: t2 as i64, ..s }
            } else if s.lives > 0 {
                State {
                    lives: (s.lives - 1) as i32,
                    player_state: PlayerState::HitRespawning,
                    player_pos_fr: PLAYER_CENTER_X,
                    player_hit_timer: (t2 + HIT_RESPAWN_TIME) as i64,
                    ..s
                }
            } else {
                State {
                    player_state: PlayerState::GameOver,
                    player_hit_timer: GAME_OVER_TIMEOUT,
                    ..s
                }
            }
        },
        PlayerState::HitRespawning => {
            let t2 = s.player_hit_timer - dt;
            if t2 <= 0 {
                State { player_hit_timer: 0, player_state: PlayerState::Playing, ..s }
            } else {
                State { player_hit_timer: t2 as i64, ..s }
            }
        },
        PlayerState::GameOver => State {
            player_hit_timer: fx_clip(s.player_hit_timer - dt) as i64,
            ..s
        },
    }
}

/// True when this frame is the one in which the game ends: the explosion
/// timer ran out with no life left.
pub open spec fn becomes_game_over(s: State, dt: int) -> bool {
    s.player_state == PlayerState::HitExploding && s.player_hit_timer - dt <= 0 && s.lives <= 0
}

/// Advances the player life-cycle timers by one frame.
pub fn player_lifecycle(state: &mut State, dt: i64) -> (game_over: bool)
    requires
        old(state).wf(),
        0 <= dt <= DT_MAX,
    ensures
        *final(state) == lifecycle_spec(*old(state), dt as int),
        game_over == becomes_game_over(*old(state), dt as int),
        final(state).wf(),
{
    match state.player_state {
        PlayerState::Playing => false,
        PlayerState::HitExploding => {
            let t2: i64 = state.player_hit_timer - dt;
            if t2 > 0 {
                state.player_hit_timer = t2;
                false
            } else if state.lives > 0 {
                state.lives = state.lives - 1;
                state.player_state = PlayerState::HitRespawning;
                state.player_pos_fr = PLAYER_CENTER_X;
                state.player_hit_timer = t2 + HIT_RESPAWN_TIME;
                false
            } else {
                state.player_state = PlayerState::GameOver;
                state.player_hit_timer = GAME_OVER_TIMEOUT;
                true
            }
        },
        PlayerState::HitRespawning => {
            let t2: i64 = state.player_hit_timer - dt;
            if t2 <= 0 {
                state.player_hit_timer = 0;
                state.player_state = PlayerState::Playing;
            } else {
                state.player_hit_timer = t2;
            }
            false
        },
        PlayerState::GameOver => {
            let t2: i64 = state.player_hit_timer - dt;
            state.player_hit_timer = if t2 < -crate::fx::FX_LIMIT {
                -crate::fx::FX_LIMIT
            } else {
                t2
            };
            false
        },
    }
}

/// Life-cycle law: when a hit player's explosion timer runs out, a life is
/// spent and the player respawns while lives remain; with none left the
/// player is done and the lives count stays at zero rather than dropping
/// below it.
pub proof fn lemma_player_lifecycle(s: State, dt: int)
    requires
        s.wf(),
        s.player_state == PlayerState::HitExploding,
        s.player_hit_timer - dt <= 0,
    ensures
        s.lives > 0 ==> lifecycle_spec(s, dt).player_state == PlayerState::HitRespawning
            && lifecycle_spec(s, dt).lives == s.lives - 1,
        s.lives == 0 ==> lifecycle_spec(s, dt).player_state == PlayerState::GameOver
            && lifecycle_spec(s, dt).lives == 0,
        lifecycle_spec(s, dt).lives >= 0,
{
}

} // verus!
