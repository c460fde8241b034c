use invaders::assets;
use invaders::events::Event;
use invaders::player::Inputs;
use invaders::state;
use invaders::state::{Alien, Bomb, Bullet, AlienState, PlayerState};
use invaders::step::update_state;
use invaders::swarm::swarm_step;

fn idle() -> Inputs {
    Inputs {
        left_held: false,
        right_held: false,
        fire_held: false,
        pause_pressed: false,
        restart_pressed: false,
    }
}

fn active_state() -> state::State {
    let mut s = state::new_game_state();
    s.reset_countdown = 0;
    s.time_to_bomb = 900_000;
    s
}

fn alien_at(x: i64, y: i64, points: u32) -> Alien {
    Alien { sprite: assets::IX_ALIEN_1, xpos: x, ypos: y, phase: 0, points, dead: false }
}

#[test]
fn lives_and_pools_stay_sane_over_many_frames() {
    let sprites = assets::standard_sprites();
    let mut s = state::new_game_state();
    for n in 0..400u32 {
        let inputs = Inputs {
            left_held: n % 3 == 0,
            right_held: n % 5 == 0,
            fire_held: n % 2 == 0,
            pause_pressed: n % 97 == 0,
            restart_pressed: n % 31 == 0,
        };
        update_state(100_000, &mut s, &sprites, &inputs);
        assert!(s.lives >= 0);
        assert!(s.aliens.len() <= 50);
        assert!(s.player_pos_fr >= 40_000 && s.player_pos_fr <= 960_000);
    }
}

#[test]
fn reset_builds_the_same_fifty_aliens_from_any_state() {
    let mut a = state::new_game_state();
    a.score = 9_999;
    a.bullets.push(Bullet { xpos: 1, ypos: 2, velocity: 3, fresh: true, dead: false });
    a.bombs.push(Bomb { sprite: assets::IX_BOMB, xpos: 4, ypos: 5, phase: 0, dead: false });
    a.aliens.push(alien_at(700_000, 900_000, 10));
    state::reset_level(&mut a);

    let mut b = state::new_game_state();
    b.current_level = 7;
    state::reset_level(&mut b);

    assert_eq!(a.aliens.len(), 50);
    assert_eq!(b.aliens.len(), 50);
    assert_eq!(a.bullets.len(), 0);
    assert_eq!(a.bombs.len(), 0);
    assert_eq!(a.explosions.len(), 0);
    for i in 0..50usize {
        let row = i / 10;
        let col = i % 10;
        assert_eq!(a.aliens[i].xpos, 70_000 + 70_000 * col as i64);
        assert_eq!(a.aliens[i].ypos, 200_000 + 100_000 * row as i64);
        let points = [30u32, 20, 20, 10, 10][row];
        assert_eq!(a.aliens[i].points, points);
        let sprite = [
            assets::IX_ALIEN_3,
            assets::IX_ALIEN_2,
            assets::IX_ALIEN_2,
            assets::IX_ALIEN_1,
            assets::IX_ALIEN_1,
        ][row];
        assert_eq!(a.aliens[i].sprite, sprite);
        assert_eq!(a.aliens[i].xpos, b.aliens[i].xpos);
        assert_eq!(a.aliens[i].ypos, b.aliens[i].ypos);
        assert_eq!(a.aliens[i].points, b.aliens[i].points);
        assert_eq!(a.aliens[i].sprite, b.aliens[i].sprite);
    }
    assert!(matches!(a.alien_state, AlienState::Right));
    assert_eq!(a.alien_target_y, 600_000);
}

#[test]
fn swarm_turns_down_left_at_the_right_margin() {
    // dt = 0.1 s, one-alien... two aliens: dx = 0.1 * (0+4)/((3+2)*5) = 0.016
    let dx = 16_000i64;
    let mut aliens = vec![
        alien_at(960_000 - dx, 300_000, 10),
        alien_at(920_000 - dx, 280_000, 10),
    ];
    let before_offset_x = aliens[0].xpos - aliens[1].xpos;
    let before_offset_y = aliens[0].ypos - aliens[1].ypos;
    let r = swarm_step(&mut aliens, AlienState::Right, 600_000, 100_000, 0);
    // the rightmost alien reaches the margin exactly: turn, aim below the
    // lowest point, and stay inside the margin
    assert!(matches!(r.0, AlienState::DownToLeft));
    assert_eq!(r.1, 300_000 + 40_000);
    assert!(r.2);
    assert_eq!(aliens[0].xpos, 960_000);
    assert!(aliens[0].xpos <= 960_000 && aliens[1].xpos <= 960_000);
    // formation rigidity across the transition
    assert_eq!(aliens[0].xpos - aliens[1].xpos, before_offset_x);
    assert_eq!(aliens[0].ypos - aliens[1].ypos, before_offset_y);
}

#[test]
fn swarm_overshoot_is_traded_for_descent() {
    // one alien 1000 past the margin after displacement: dx = 0.1*4/20 = 0.02
    let mut aliens = vec![alien_at(941_000, 300_000, 10)];
    let r = swarm_step(&mut aliens, AlienState::Right, 600_000, 100_000, 0);
    assert!(matches!(r.0, AlienState::DownToLeft));
    // pulled back to the margin exactly, and moved down by four times the
    // excess (the vertical/horizontal speed ratio)
    assert_eq!(aliens[0].xpos, 960_000);
    assert_eq!(aliens[0].ypos, 300_000 + 4_000);
    assert_eq!(r.1, 340_000);
}

#[test]
fn bullet_and_alien_at_same_spot_collide() {
    let sprites = assets::standard_sprites();
    let mut s = active_state();
    // the swarm will move this alien right by 0.1 * 4 / 20 = 0.02 this frame
    s.aliens.push(alien_at(480_000, 500_000, 10));
    s.bullets.push(
        Bullet { xpos: 500_000, ypos: 500_000, velocity: 0, fresh: false, dead: false },
    );
    let events = update_state(100_000, &mut s, &sprites, &idle());
    // both are gone, the score grew by the alien's exact points, and one
    // explosion sits where the bullet was
    assert_eq!(s.aliens.len(), 0);
    assert_eq!(s.bullets.len(), 0);
    assert_eq!(s.score, 10);
    assert_eq!(s.explosions.len(), 1);
    assert_eq!(s.explosions[0].xpos, 500_000);
    assert_eq!(s.explosions[0].ypos, 500_000);
    assert!(s.explosions[0].sound >= assets::IX_SOUND_POP_01);
    assert!(s.explosions[0].sound <= assets::IX_SOUND_POP_04);
    let mut saw_hit = false;
    for e in events.iter() {
        if let Event::Hit { xpos, score, points, .. } = e {
            saw_hit = true;
            assert_eq!(*xpos, 500_000);
            assert_eq!(*score, 10);
            assert_eq!(*points, 10);
        }
    }
    assert!(saw_hit);
    // clearing the wave starts the level countdown
    assert_eq!(s.reset_countdown, state::RESET_DELAY);
}

#[test]
fn missed_bullet_dies_without_scoring() {
    let sprites = assets::standard_sprites();
    let mut s = active_state();
    s.aliens.push(alien_at(480_000, 200_000, 10));
    s.bullets.push(
        Bullet { xpos: 100_000, ypos: 5_000, velocity: 1_100_000, fresh: false, dead: false },
    );
    let events = update_state(10_000, &mut s, &sprites, &idle());
    assert_eq!(s.bullets.len(), 0);
    assert_eq!(s.score, 0);
    let mut saw_miss = false;
    for e in events.iter() {
        if let Event::Miss { xpos, score, .. } = e {
            saw_miss = true;
            assert_eq!(*xpos, 100_000);
            assert_eq!(*score, 0);
        }
        assert!(!matches!(e, Event::Hit { .. }));
    }
    assert!(saw_miss);
}

#[test]
fn firing_obeys_the_cooldown() {
    let sprites = assets::standard_sprites();
    let mut s = active_state();
    s.aliens.push(alien_at(480_000, 200_000, 10));
    let fire = Inputs { fire_held: true, ..idle() };
    let events = update_state(10_000, &mut s, &sprites, &fire);
    assert_eq!(s.bullets.len(), 1);
    assert_eq!(s.bullets[0].xpos, s.player_pos_fr);
    assert_eq!(s.bullets[0].velocity, state::FIRE_VELOCITY);
    assert!(events.iter().any(|e| matches!(e, Event::Shot { .. })));
    // the cooldown blocks an immediate second shot
    let events2 = update_state(10_000, &mut s, &sprites, &fire);
    assert_eq!(s.bullets.len(), 1);
    assert!(!events2.iter().any(|e| matches!(e, Event::Shot { .. })));
}

#[test]
fn bomb_strike_runs_the_whole_life_cycle() {
    let sprites = assets::standard_sprites();
    let mut s = active_state();
    s.lives = 1;
    s.aliens.push(alien_at(200_000, 200_000, 10));
    s.bombs.push(
        Bomb {
            sprite: assets::IX_BOMB,
            xpos: 480_000,
            ypos: 1_265_000,
            phase: 0,
            dead: false,
        },
    );
    let events = update_state(10_000, &mut s, &sprites, &idle());
    assert!(matches!(s.player_state, PlayerState::HitExploding));
    assert_eq!(s.bombs.len(), 0);
    assert_eq!(s.lives, 1);
    assert_eq!(s.explosions.len(), 1);
    assert_eq!(s.explosions[0].sound, assets::IX_SOUND_EXPLOSION);
    assert!(events.iter().any(|e| matches!(e, Event::Bombed { lives: 1, .. })));

    // the explosion timer runs out: one life is spent and the player respawns
    for _ in 0..20 {
        s.time_to_bomb = 5_000_000;
        update_state(100_000, &mut s, &sprites, &idle());
    }
    assert_eq!(s.lives, 0);
    assert!(matches!(s.player_state, PlayerState::Playing));
    assert_eq!(s.player_pos_fr, 480_000);

    // a second strike with no life left ends the game
    s.bombs.clear();
    s.time_to_bomb = 5_000_000;
    s.bombs.push(
        Bomb {
            sprite: assets::IX_BOMB,
            xpos: 480_000,
            ypos: 1_265_000,
            phase: 0,
            dead: false,
        },
    );
    update_state(10_000, &mut s, &sprites, &idle());
    assert!(matches!(s.player_state, PlayerState::HitExploding));
    let mut saw_game_over = false;
    for _ in 0..10 {
        s.time_to_bomb = 5_000_000;
        let evs = update_state(100_000, &mut s, &sprites, &idle());
        if evs.iter().any(|e| matches!(e, Event::GameOver { .. })) {
            saw_game_over = true;
        }
    }
    assert!(saw_game_over);
    assert!(matches!(s.player_state, PlayerState::GameOver));
    assert_eq!(s.lives, 0);

    // while the game is over nothing evolves: the swarm stays put
    let frozen_x = s.aliens[0].xpos;
    let frozen_y = s.aliens[0].ypos;
    let frozen_score = s.score;
    for _ in 0..5 {
        update_state(100_000, &mut s, &sprites, &idle());
    }
    assert_eq!(s.aliens[0].xpos, frozen_x);
    assert_eq!(s.aliens[0].ypos, frozen_y);
    assert_eq!(s.score, frozen_score);

    // an explicit restart brings everything back to the initial values
    let restart = Inputs { restart_pressed: true, ..idle() };
    update_state(10_000, &mut s, &sprites, &restart);
    assert!(matches!(s.player_state, PlayerState::Playing));
    assert_eq!(s.lives, state::LIVES_START);
    assert_eq!(s.score, 0);
    assert_eq!(s.current_level, 0);
    assert_eq!(s.aliens.len(), 0);
    assert_eq!(s.reset_countdown, state::RESET_DELAY);
}

#[test]
fn pause_freezes_everything_but_explosions() {
    let sprites = assets::standard_sprites();
    let mut s = active_state();
    s.aliens.push(alien_at(480_000, 300_000, 10));
    s.explosions.push(invaders::explosion::new(400_000, 400_000));
    let pause = Inputs { pause_pressed: true, ..idle() };
    let events = update_state(10_000, &mut s, &sprites, &pause);
    assert!(s.paused);
    assert!(events.iter().any(|e| matches!(e, Event::Pause { paused: true })));
    let x = s.aliens[0].xpos;
    let phase_before = s.explosions[0].phase;
    let move_keys = Inputs { right_held: true, fire_held: true, ..idle() };
    update_state(100_000, &mut s, &sprites, &move_keys);
    assert_eq!(s.aliens[0].xpos, x);
    assert_eq!(s.bullets.len(), 0);
    assert_eq!(s.player_pos_fr, 480_000);
    assert!(s.explosions[0].phase > phase_before);
    // toggling again resumes the game
    update_state(10_000, &mut s, &sprites, &pause);
    assert!(!s.paused);
}

#[test]
fn countdown_expiry_builds_the_next_level() {
    let sprites = assets::standard_sprites();
    let mut s = state::new_game_state();
    assert_eq!(s.reset_countdown, 1_200_000);
    let mut saw_new_level = false;
    for _ in 0..13 {
        let evs = update_state(100_000, &mut s, &sprites, &idle());
        for e in evs.iter() {
            if let Event::NewLevel { level, .. } = e {
                saw_new_level = true;
                assert_eq!(*level, 1);
            }
        }
    }
    assert!(saw_new_level);
    assert_eq!(s.current_level, 1);
    assert_eq!(s.aliens.len(), 50);
}

#[test]
fn bomb_spawns_at_an_alive_alien_within_its_window() {
    let sprites = assets::standard_sprites();
    for _ in 0..20 {
        let mut s = active_state();
        s.aliens.push(alien_at(200_000, 200_000, 10));
        s.aliens.push(alien_at(600_000, 300_000, 10));
        s.time_to_bomb = 0;
        update_state(10_000, &mut s, &sprites, &idle());
        assert_eq!(s.bombs.len(), 1);
        // the new countdown is the draw from [0.7, 0.7 + 2.5 * 4 / 3)
        assert!(s.time_to_bomb >= 700_000);
        assert!(s.time_to_bomb < 700_000 + 10_000_000 / 3);
        // the bomb fell from one of the two aliens (which moved this frame)
        let from_first = (s.bombs[0].xpos - s.aliens[0].xpos).abs() < 10_000
            && (s.bombs[0].ypos - s.aliens[0].ypos).abs() < 10_000;
        let from_second = (s.bombs[0].xpos - s.aliens[1].xpos).abs() < 10_000
            && (s.bombs[0].ypos - s.aliens[1].ypos).abs() < 10_000;
        assert!(from_first || from_second);
    }
}

#[test]
fn fresh_sounds_are_collected_once() {
    let mut s = active_state();
    s.bullets.push(
        Bullet { xpos: 480_000, ypos: 900_000, velocity: 1_100_000, fresh: true, dead: false },
    );
    s.explosions.push(invaders::explosion::new(400_000, 400_000));
    s.bassline_time = 5_000;
    let expected_pop = s.explosions[0].sound;
    let durations = vec![4_000_000i64, 3_000_000, 2_000_000];
    let (bass, effects) = invaders::sounds::update_sounds(10_000, &mut s, &durations);
    assert_eq!(effects.len(), 2);
    assert_eq!(effects[0], assets::IX_SOUND_LASER);
    assert_eq!(effects[1], expected_pop);
    assert!(!s.bullets[0].fresh);
    assert!(!s.explosions[0].fresh);
    // the bassline countdown started at 0.1 s and expires at once
    assert!(bass.is_some());
    let ix = bass.unwrap();
    assert_eq!(s.bassline_time, durations[ix]);
    // a second pass owes nothing
    let (_, effects2) = invaders::sounds::update_sounds(10_000, &mut s, &durations);
    assert_eq!(effects2.len(), 0);
}

#[test]
fn empty_swarm_is_guarded() {
    // no aliens: the swarm controller does nothing at all
    let mut aliens: Vec<Alien> = Vec::new();
    let r = swarm_step(&mut aliens, AlienState::Left, 600_000, 100_000, 3);
    assert!(matches!(r.0, AlienState::Left));
    assert_eq!(r.1, 600_000);
    assert!(!r.2);
    assert_eq!(aliens.len(), 0);

    // no alive alien: no bomb can spawn
    assert!(invaders::bombs::spawn_bomb(&aliens).is_none());
    let mut dead = alien_at(500_000, 500_000, 10);
    dead.dead = true;
    aliens.push(dead);
    assert!(invaders::bombs::spawn_bomb(&aliens).is_none());

    // an emptied playfield starts the wave-clear countdown instead of
    // evolving anything
    let sprites = assets::standard_sprites();
    let mut s = active_state();
    update_state(10_000, &mut s, &sprites, &idle());
    assert_eq!(s.reset_countdown, state::RESET_DELAY);
    assert_eq!(s.bombs.len(), 0);
}

#[test]
fn formation_stays_rigid_for_hundreds_of_frames() {
    let sprites = assets::standard_sprites();
    let mut s = state::new_game_state();
    state::reset_level(&mut s);
    s.reset_countdown = 0;
    let mut offsets: Vec<(i64, i64)> = Vec::new();
    for a in s.aliens.iter() {
        offsets.push((a.xpos - s.aliens[0].xpos, a.ypos - s.aliens[0].ypos));
    }
    for _ in 0..300 {
        s.time_to_bomb = 5_000_000;
        update_state(100_000, &mut s, &sprites, &idle());
        assert_eq!(s.aliens.len(), 50);
        for (i, a) in s.aliens.iter().enumerate() {
            assert_eq!(a.xpos - s.aliens[0].xpos, offsets[i].0);
            assert_eq!(a.ypos - s.aliens[0].ypos, offsets[i].1);
        }
    }
    // the swarm did turn at least once in thirty seconds
    assert!(!matches!(s.alien_state, AlienState::Right) || s.aliens[0].ypos > 200_000);
}
