//! The simulation's data model: entity pools, player and swarm state, and
//! the level builder.

use vstd::prelude::*;
use crate::assets;
use crate::explosion::Explosion;
use crate::fx::{FX_LIMIT, FX_ONE};
use crate::params::{ALIEN_MAX, LEVEL_MAX, PI_FX, LEFT_MARGIN, RIGHT_MARGIN, PLAYER_CENTER_X};

verus! {

/// A player shot moving up the playfield. `fresh` is consumed once to
/// trigger the firing sound.
#[derive(Clone, Copy)]
pub struct Bullet {
    pub xpos: i64,
    pub ypos: i64,
    pub velocity: i64,
    pub fresh: bool,
    pub dead: bool,
}

/// One alien of the formation. The sprite index selects immutable metadata
/// used only for collision-box sizing; the point value never changes.
#[derive(Clone, Copy)]
pub struct Alien {
    pub sprite: usize,
    pub xpos: i64,
    pub ypos: i64,
    pub phase: i64,
    pub points: u32,
    pub dead: bool,
}

/// Movement state of the alien swarm.
#[derive(Clone, Copy, PartialEq, Eq, Structural, Debug)]
pub enum AlienState {
    Right,
    Left,
    DownToRight,
    DownToLeft,
}

/// A bomb falling toward the player. The phase is reserved for animation
/// and plays no part in collision.
#[derive(Clone, Copy)]
pub struct Bomb {
    pub sprite: usize,
    pub xpos: i64,
    pub ypos: i64,
    pub phase: i64,
    pub dead: bool,
}

/// Life-cycle state of the player.
#[derive(Clone, Copy, PartialEq, Eq, Structural, Debug)]
pub enum PlayerState {
    Playing,
    HitExploding,
    HitRespawning,
    GameOver,
}

pub const BOMB_MIN_TIME: i64 = 700_000;

pub const BOMB_EXTRA_TIME: i64 = 2_500_000;

pub const HIT_RESPAWN_TIME: i64 = 750_000;

pub const HIT_EXPLODE_TIME: i64 = 750_000;

pub const GAME_OVER_TIMEOUT: i64 = 2_000_000;

/// Countdown run before a level is (re)built.
pub const RESET_DELAY: i64 = 1_200_000;

/// Lives a fresh game starts with.
pub const LIVES_START: i32 = 2;

pub const PLAYER_SPEED: i64 = 300_000;

pub const FIRING_DURATION: i64 = 800_000;

pub const FIRE_VELOCITY: i64 = 1_100_000;

pub const BOMB_SPEED: i64 = 600_000;

pub const TIME_TO_BOMB_START: i64 = 1_000_000;

pub const SPEED_RATIO_START: i64 = 100_000;

pub const BASSLINE_TIME_START: i64 = 100_000;

pub const BASSLINE_SPEED_START: i64 = 1_000_000;

/// The whole game state. It has sole mutation rights over every entity; no
/// entity refers back to it or to another entity.
pub struct State {
    pub reset_countdown: i64,
    pub current_level: u32,
    pub paused: bool,

    pub score: u64,
    pub lives: i32,
    pub player_pos_fr: i64,
    pub time_to_fire: i64,
    pub speed_ratio: i64,
    pub player_state: PlayerState,
    pub player_hit_timer: i64,

    pub alien_state: AlienState,
    pub alien_target_y: i64,
    pub time_to_bomb: i64,

    pub bullets: Vec<Bullet>,
    pub aliens: Vec<Alien>,
    pub explosions: Vec<Explosion>,
    pub bombs: Vec<Bomb>,

    pub bassline_time: i64,
    pub bassline_speed: i64,

    pub player_speed: i64,
    pub firing_duration: i64,
    pub fire_velocity: i64,
    pub bomb_speed: i64,
}

pub open spec fn wf_bullet(b: Bullet) -> bool {
    &&& -FX_LIMIT <= b.xpos <= FX_LIMIT
    &&& -FX_LIMIT <= b.ypos <= FX_LIMIT
    &&& 0 <= b.velocity <= FX_LIMIT
}

pub open spec fn wf_alien(a: Alien) -> bool {
    &&& a.sprite < assets::SPRITE_COUNT
    &&& -FX_LIMIT <= a.xpos <= FX_LIMIT
    &&& -FX_LIMIT <= a.ypos <= FX_LIMIT
    &&& -PI_FX <= a.phase < PI_FX
}

pub open spec fn wf_bomb(b: Bomb) -> bool {
    &&& b.sprite < assets::SPRITE_COUNT
    &&& -FX_LIMIT <= b.xpos <= FX_LIMIT
    &&& -FX_LIMIT <= b.ypos <= FX_LIMIT
}

impl State {
    /// Well-formedness in the middle of a frame: every quantity within
    /// machine-safe range and every entity sound, but bullets marked dead
    /// this frame may still await compaction.
    pub open spec fn wf_mid(self) -> bool {
        &&& -FX_LIMIT <= self.reset_countdown <= FX_LIMIT
        &&& self.current_level <= LEVEL_MAX
        &&& 0 <= self.lives
        &&& LEFT_MARGIN <= self.player_pos_fr <= RIGHT_MARGIN
        &&& -FX_LIMIT <= self.time_to_fire <= FX_LIMIT
        &&& -FX_LIMIT <= self.player_hit_timer <= FX_LIMIT
        &&& -FX_LIMIT <= self.alien_target_y <= FX_LIMIT
        &&& -FX_LIMIT <= self.time_to_bomb <= FX_LIMIT
        &&& -FX_LIMIT <= self.bassline_time <= FX_LIMIT
        &&& 0 <= self.speed_ratio <= 2 * FX_ONE
        &&& 0 <= self.player_speed <= FX_ONE
        &&& 0 <= self.firing_duration <= 2 * FX_ONE
        &&& 0 <= self.fire_velocity <= 2 * FX_ONE
        &&& 0 <= self.bomb_speed <= FX_ONE
        &&& self.aliens@.len() <= ALIEN_MAX
        &&& forall|i: int| 0 <= i < self.bullets@.len() ==> wf_bullet(#[trigger] self.bullets@[i])
        &&& forall|i: int| 0 <= i < self.aliens@.len() ==> wf_alien(#[trigger] self.aliens@[i])
        &&& forall|i: int| 0 <= i < self.bombs@.len() ==> wf_bomb(#[trigger] self.bombs@[i])
        &&& forall|i: int|
            0 <= i < self.explosions@.len() ==> (#[trigger] self.explosions@[i]).wf()
        &&& forall|i: int| 0 <= i < self.aliens@.len() ==> !(#[trigger] self.aliens@[i]).dead
        &&& forall|i: int| 0 <= i < self.bombs@.len() ==> !(#[trigger] self.bombs@[i]).dead
        &&& forall|i: int| 0 <= i < self.explosions@.len() ==> !(#[trigger] self.explosions@[i]).dead
    }

    /// Well-formedness between frames: every quantity within machine-safe
    /// range, every pool compacted (dead entities never outlive the frame
    /// that marked them), and lives never negative.
    pub open spec fn wf(self) -> bool {
        &&& self.wf_mid()
        &&& forall|i: int| 0 <= i < self.bullets@.len() ==> !(#[trigger] self.bullets@[i]).dead
    }
}

/// The state a fresh game starts in: empty pools, two lives, the level
/// countdown already running.
pub fn new_game_state() -> (s: State)
    ensures
        s.wf(),
        s.reset_countdown == RESET_DELAY,
        s.current_level == 0,
        !s.paused,
        s.score == 0,
        s.lives == LIVES_START,
        s.player_pos_fr == PLAYER_CENTER_X,
        s.time_to_fire == 0,
        s.speed_ratio == SPEED_RATIO_START,
        s.player_state == PlayerState::Playing,
        s.player_hit_timer == 0,
        s.alien_state == AlienState::Right,
        s.alien_target_y == 200_000,
        s.time_to_bomb == TIME_TO_BOMB_START,
        s.bullets@.len() == 0,
        s.aliens@.len() == 0,
        s.explosions@.len() == 0,
        s.bombs@.len() == 0,
        s.bassline_time == BASSLINE_TIME_START,
        s.bassline_speed == BASSLINE_SPEED_START,
        s.player_speed == PLAYER_SPEED,
        s.firing_duration == FIRING_DURATION,
        s.fire_velocity == FIRE_VELOCITY,
        s.bomb_speed == BOMB_SPEED,
{
    State {
        reset_countdown: RESET_DELAY,
        current_level: 0,
        paused: false,

        score: 0,
        lives: LIVES_START,
        player_pos_fr: PLAYER_CENTER_X,
        time_to_fire: 0,
        speed_ratio: SPEED_RATIO_START,
        player_state: PlayerState::Playing,
        player_hit_timer: 0,

        alien_state: AlienState::Right,
        alien_target_y: 200_000,
        time_to_bomb: TIME_TO_BOMB_START,

        bullets: Vec::new(),
        aliens: Vec::new(),
        explosions: Vec::new(),
        bombs: Vec::new(),

        bassline_time: BASSLINE_TIME_START,
        bassline_speed: BASSLINE_SPEED_START,

        player_speed: PLAYER_SPEED,
        firing_duration: FIRING_DURATION,
        fire_velocity: FIRE_VELOCITY,
        bomb_speed: BOMB_SPEED,
    }
}

/// One formation row: ten aliens sharing a sprite, a y and a point value,
/// evenly spaced from x = 0.07 with 0.07 spacing.
pub open spec fn row_seq(sprite: usize, ypos: i64, points: u32) -> Seq<Alien> {
    Seq::new(
        10,
        |c: int|
            Alien {
                sprite,
                xpos: (70_000 + 70_000 * c) as i64,
                ypos,
                phase: 0,
                points,
                dead: false,
            },
    )
}

/// The sprite of formation row `r` (row 0 is the top row).
pub open spec fn row_sprite(r: int) -> usize {
    if r == 0 {
        assets::IX_ALIEN_3
    } else if r <= 2 {
        assets::IX_ALIEN_2
    } else {
        assets::IX_ALIEN_1
    }
}

/// The point value of formation row `r`.
pub open spec fn row_points(r: int) -> u32 {
    if r == 0 {
        30
    } else if r <= 2 {
        20
    } else {
        10
    }
}

/// The y of formation row `r`: rows sit 0.1 apart from y = 0.2.
pub open spec fn row_y(r: int) -> i64 {
    (200_000 + 100_000 * r) as i64
}

/// The full fixed formation: 5 rows of 10 aliens.
pub open spec fn formation_seq() -> Seq<Alien> {
    row_seq(row_sprite(0), row_y(0), row_points(0)) + row_seq(
        row_sprite(1),
        row_y(1),
        row_points(1),
    ) + row_seq(row_sprite(2), row_y(2), row_points(2)) + row_seq(
        row_sprite(3),
        row_y(3),
        row_points(3),
    ) + row_seq(row_sprite(4), row_y(4), row_points(4))
}

/// Appends one formation row to the alien pool.
pub fn push_line(aliens: &mut Vec<Alien>, sprite: usize, ypos: i64, points: u32)
    requires
        old(aliens)@.len() <= 100,
        -FX_LIMIT <= ypos <= FX_LIMIT,
    ensures
        final(aliens)@ =~= old(aliens)@ + row_seq(sprite, ypos, points),
{
    let mut ix: u32 = 0;
    while ix < 10
        invariant
            ix <= 10,
            -FX_LIMIT <= ypos <= FX_LIMIT,
            aliens@ =~= old(aliens)@ + row_seq(sprite, ypos, points).take(ix as int),
        decreases 10 - ix,
    {
        aliens.push(
            Alien {
                sprite,
                xpos: 70_000 + 70_000 * (ix as i64),
                ypos,
                phase: 0,
                points,
                dead: false,
            },
        );
        ix = ix + 1;
    }
    assert(row_seq(sprite, ypos, points).take(10) =~= row_seq(sprite, ypos, points));
}

/// Rebuilds the playfield for a new round: pools are cleared, the player
/// recentres, and exactly the fixed 50-alien formation is laid out, whatever
/// the prior state held.
pub fn reset_level(state: &mut State)
    ensures
        final(state).aliens@ =~= formation_seq(),
        final(state).bullets@.len() == 0,
        final(state).explosions@.len() == 0,
        final(state).bombs@.len() == 0,
        final(state).player_pos_fr == PLAYER_CENTER_X,
        final(state).bassline_time == BASSLINE_TIME_START,
        final(state).bassline_speed == BASSLINE_SPEED_START,
        final(state).alien_state == AlienState::Right,
        final(state).alien_target_y == row_y(4),
        final(state).time_to_bomb == TIME_TO_BOMB_START,
        final(state).reset_countdown == old(state).reset_countdown,
        final(state).current_level == old(state).current_level,
        final(state).paused == old(state).paused,
        final(state).score == old(state).score,
        final(state).lives == old(state).lives,
        final(state).time_to_fire == old(state).time_to_fire,
        final(state).speed_ratio == old(state).speed_ratio,
        final(state).player_state == old(state).player_state,
        final(state).player_hit_timer == old(state).player_hit_timer,
        final(state).player_speed == old(state).player_speed,
        final(state).firing_duration == old(state).firing_duration,
        final(state).fire_velocity == old(state).fire_velocity,
        final(state).bomb_speed == old(state).bomb_speed,
        old(state).wf() ==> final(state).wf(),
{
    state.bullets = Vec::new();
    state.aliens = Vec::new();
    state.explosions = Vec::new();
    state.bombs = Vec::new();
    state.player_pos_fr = PLAYER_CENTER_X;

    state.bassline_time = BASSLINE_TIME_START;
    state.bassline_speed = BASSLINE_SPEED_START;

    let mut ypos: i64 = 200_000;

    push_line(&mut state.aliens, assets::IX_ALIEN_3, ypos, 30);
    ypos = ypos + 100_000;
    push_line(&mut state.aliens, assets::IX_ALIEN_2, ypos, 20);
    ypos = ypos + 100_000;
    push_line(&mut state.aliens, assets::IX_ALIEN_2, ypos, 20);
    ypos = ypos + 100_000;
    push_line(&mut state.aliens, assets::IX_ALIEN_1, ypos, 10);
    ypos = ypos + 100_000;
    push_line(&mut state.aliens, assets::IX_ALIEN_1, ypos, 10);

    state.alien_state = AlienState::Right;
    state.alien_target_y = ypos;
    state.time_to_bomb = TIME_TO_BOMB_START;

    proof {
        assert(state.aliens@ =~= formation_seq());
        assert forall|i: int| 0 <= i < state.aliens@.len() implies wf_alien(
            #[trigger] state.aliens@[i],
        ) && !state.aliens@[i].dead by {
            assert(formation_seq().len() == 50);
        }
    }
}

/// Resetting is idempotent: any two states that have just been reset hold
/// the same alien pool, whatever their history was.
pub proof fn lemma_reset_idempotent(s1: State, s2: State)
    requires
        s1.aliens@ =~= formation_seq(),
        s2.aliens@ =~= formation_seq(),
    ensures
        s1.aliens@ =~= s2.aliens@,
        s1.aliens@.len() == 50,
{
}

} // verus!
