use invaders::assets;
use invaders::explosion;
use invaders::fx;
use invaders::highscore::Score;
use invaders::sounds;
use invaders::state;
use invaders::swarm;

#[test]
fn isqrt_exact_values() {
    assert_eq!(fx::isqrt_u64(0), 0);
    assert_eq!(fx::isqrt_u64(1), 1);
    assert_eq!(fx::isqrt_u64(49), 7);
    assert_eq!(fx::isqrt_u64(50), 7);
    assert_eq!(fx::isqrt_u64(50_000_000_000_000), 7_071_067);
}

#[test]
fn shift_clamps_at_the_limits() {
    assert_eq!(fx::fx_shift(10, 20), 30);
    assert_eq!(fx::fx_shift(fx::FX_LIMIT, 1), fx::FX_LIMIT);
    assert_eq!(fx::fx_shift(-fx::FX_LIMIT, -1), -fx::FX_LIMIT);
    assert_eq!(fx::tick_down(100, 40), 60);
    assert_eq!(fx::sat_add_u64(u64::MAX - 1, 5), u64::MAX);
    assert_eq!(fx::sat_add_u64(7, 5), 12);
}

#[test]
fn sprite_sizes_are_screen_fractions() {
    let sizes = assets::standard_sprites();
    assert_eq!(sizes.len(), 15);
    // player: 95 px of a 2400 px screen at scale 1.0
    assert_eq!(sizes[assets::IX_PLAYER].f_w, 39_583);
    assert_eq!(sizes[assets::IX_PLAYER].f_h, 31_250);
    // laser: 9 x 37 px
    assert_eq!(sizes[assets::IX_LASER].f_w, 3_750);
    assert_eq!(sizes[assets::IX_LASER].f_h, 15_416);
    // the red top-row alien: 104 x 84 px at scale 1.3
    assert_eq!(sizes[assets::IX_ALIEN_3].f_w, 56_333);
    assert_eq!(sizes[assets::IX_ALIEN_3].f_h, 45_500);
    // the bomb reuses the laser's pixel size
    assert_eq!(sizes[assets::IX_BOMB].f_w, 3_750);
}

#[test]
fn displacement_magnitude_formula() {
    // dt = 0.1 s, horizontal speed 1.0, 50 aliens, level 1:
    // 0.1 * 1.0 * (1 + 4) / ((3 + 50) * 5) = 0.5 / 265
    let d = swarm::disp_mag_exec(1_000_000, 100_000, 50, 1);
    assert_eq!(d, 500_000_000_000 / 265_000_000);
    assert_eq!(d, 1_886);
    // the vertical base speed is four times as fast
    let v = swarm::disp_mag_exec(4_000_000, 100_000, 50, 1);
    assert_eq!(v, 7_547);
}

#[test]
fn phase_delta_slows_with_bigger_swarms() {
    // dt = 0.1 s, no aliens: 0.1 * 30 / 2 = 1.5 rad
    assert_eq!(swarm::phase_delta_exec(100_000, 0), 1_500_000);
    // 50 aliens: 0.1 * 30 / (2 + sqrt(50))
    let pd = swarm::phase_delta_exec(100_000, 50);
    assert_eq!(pd, 3_000_000_000_000 / (2_000_000 + 7_071_067));
    assert!(pd < 1_500_000);
}

#[test]
fn explosion_triangle_wave() {
    let mut e = explosion::Explosion {
        sprite: assets::IX_EXPLOSION_0,
        xpos: 0,
        ypos: 0,
        speed: explosion::EXPLOSION_SPEED,
        phase: explosion::EXPLOSION_START_PHASE,
        sound: assets::IX_SOUND_POP_01,
        fresh: true,
        growing: true,
        dead: false,
    };
    // 0.1 s at speed 4.0 grows the phase by 0.4: 0.2 -> 0.6
    explosion::evolve(100_000, &mut e);
    assert_eq!(e.phase, 600_000);
    assert!(e.growing && !e.dead);
    // 0.6 -> exactly 1.0; only crossing past 1.0 flips to shrinking
    explosion::evolve(100_000, &mut e);
    assert_eq!(e.phase, 1_000_000);
    assert!(e.growing && !e.dead);
    explosion::evolve(100_000, &mut e);
    assert_eq!(e.phase, 1_000_000);
    assert!(!e.growing && !e.dead);
    // 1.0 -> 0.6 -> 0.2 -> clamp at 0.0 and die
    explosion::evolve(100_000, &mut e);
    explosion::evolve(100_000, &mut e);
    explosion::evolve(100_000, &mut e);
    assert_eq!(e.phase, 0);
    assert!(e.dead);
}

#[test]
fn explosion_spawn_draws_sprite_and_sound_in_range() {
    for _ in 0..50 {
        let e = explosion::new(500_000, 500_000);
        assert!(e.sprite >= assets::IX_EXPLOSION_0 && e.sprite <= assets::IX_EXPLOSION_8);
        assert!(e.sound >= assets::IX_SOUND_POP_01 && e.sound <= assets::IX_SOUND_POP_04);
        assert_eq!(e.xpos, 500_000);
        assert_eq!(e.ypos, 500_000);
        assert_eq!(e.phase, explosion::EXPLOSION_START_PHASE);
        assert!(e.fresh && e.growing && !e.dead);
        let p = explosion::new_player(480_000, 1_270_000);
        assert_eq!(p.sound, assets::IX_SOUND_EXPLOSION);
        assert!(p.sprite >= assets::IX_EXPLOSION_0 && p.sprite <= assets::IX_EXPLOSION_8);
    }
}

#[test]
fn bassline_index_clamps() {
    // 22 variants, ratio 4/(3+50), level 0: 22 * 0.0754.. = 1
    assert_eq!(sounds::calc_bassline_index(22, 4_000_000 / 53, 0), 1);
    // high level pushes past the end and clamps
    assert_eq!(sounds::calc_bassline_index(22, 2_000_000, 100), 21);
    assert_eq!(sounds::calc_bassline_index(22, 0, 0), 0);
}

#[test]
fn score_entry_round_trip() {
    let s = Score::new(String::from("ZAK"), 1530);
    assert_eq!(s.name(), "ZAK");
    assert_eq!(s.score(), 1530);
    let t = Score::new(String::from("ZAK"), 1530);
    assert!(s == t);
}

#[test]
fn borrowed_name_stays_borrowed() {
    let c = assets::b_str("data/playerShip3_blue.png");
    assert_eq!(c.as_ref(), "data/playerShip3_blue.png");
}

#[test]
fn new_game_state_initial_values() {
    let s = state::new_game_state();
    assert_eq!(s.reset_countdown, state::RESET_DELAY);
    assert_eq!(s.current_level, 0);
    assert_eq!(s.score, 0);
    assert_eq!(s.lives, 2);
    assert_eq!(s.player_pos_fr, 480_000);
    assert!(matches!(s.player_state, state::PlayerState::Playing));
    assert!(matches!(s.alien_state, state::AlienState::Right));
    assert_eq!(s.aliens.len(), 0);
    assert_eq!(s.bullets.len(), 0);
    assert_eq!(s.bombs.len(), 0);
    assert_eq!(s.explosions.len(), 0);
}
