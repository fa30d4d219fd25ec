//! The state machine, the spawner, wave progression, and whole-tick
//! scenarios.

use joust::Enemy;
use joust::EnemyType;
use joust::Joust;
use joust::KeyEvent;
use joust::Player;
use joust::RawKey;
use joust::State;

fn fresh_playing() -> Joust {
    let mut g = Joust::default();
    g.key(KeyEvent::Unicode('z'));
    g
}

#[test]
fn a_fresh_game_sits_on_the_title_screen() {
    let g = Joust::default();
    assert_eq!(g.state, State::TitleScreen);
    assert_eq!(g.wave, 1);
    assert_eq!(g.spawned_enemies, 0);
    assert!(g.enemies.iter().all(|e| e.dead));
    assert!(!g.ui_drawn);
}

#[test]
fn start_key_resets_everything_and_enters_playing() {
    let mut g = Joust::default();
    g.ui_drawn = true;
    g.key(KeyEvent::Unicode('z'));
    assert_eq!(g.state, State::Playing);
    assert!(g.enemies.iter().all(|e| e.dead));
    assert_eq!(g.wave, 1);
    assert_eq!(g.spawned_enemies, 0);
    assert_eq!(g.player, Player::default());
    assert_eq!(g.player.lives, 6);
    assert_eq!((g.player.x, g.player.y), (39, 20));
}

#[test]
fn other_keys_on_the_title_screen_do_nothing() {
    let mut g = Joust::default();
    let before = g;
    g.key(KeyEvent::Unicode('x'));
    assert_eq!(g, before);
    g.key(KeyEvent::RawKey(RawKey::ArrowLeft));
    assert_eq!(g, before);
}

#[test]
fn game_over_screen_replays_or_quits_to_title() {
    let mut g = Joust::default();
    g.state = State::GameOver;
    let mut h = g;
    h.key(KeyEvent::Unicode('q'));
    assert_eq!(h.state, State::TitleScreen);
    assert!(!h.ui_drawn);
    g.key(KeyEvent::Unicode('z'));
    assert_eq!(g.state, State::Playing);
    assert_eq!(g.wave, 1);
}

#[test]
fn arrows_steer_and_x_flaps_during_play() {
    let mut g = fresh_playing();
    g.key(KeyEvent::RawKey(RawKey::ArrowLeft));
    assert_eq!(g.player.dx, -3);
    g.key(KeyEvent::RawKey(RawKey::ArrowRight));
    assert_eq!(g.player.dx, 0);
    g.key(KeyEvent::Unicode('x'));
    assert_eq!(g.player.dy, -10);
}

#[test]
fn spawner_uses_the_first_free_point_and_the_wave_class_order() {
    let mut g = fresh_playing();
    g.try_spawn_enemy();
    assert_eq!(g.spawned_enemies, 1);
    assert!(!g.enemies[0].dead);
    assert_eq!((g.enemies[0].x, g.enemies[0].y), (7, 9));
    assert_eq!(g.enemies[0].etype, EnemyType::Bounder);

    // A second spawn in wave 1 is not owed: the allotment is spent.
    let before = g;
    g.try_spawn_enemy();
    assert_eq!(g, before);

    // Spawn indices 3 and 4 give Hunters, 5 and up ShadowLords.
    g.wave = 9;
    g.spawned_enemies = 3;
    g.try_spawn_enemy();
    assert_eq!(g.enemies[3].etype, EnemyType::Hunter);
    g.spawned_enemies = 5;
    g.try_spawn_enemy();
    assert_eq!(g.enemies[5].etype, EnemyType::ShadowLord);
}

#[test]
fn a_blocked_spawn_point_is_skipped_in_order() {
    let mut g = fresh_playing();
    // A living enemy parked on the first spawn point blocks it.
    g.enemies[9] = Enemy { x: 7, y: 9, dead: false, ..Enemy::default() };
    assert_eq!(g.get_spawn_point(false), Some((74, 9)));
    // The player's own footprint blocks a point for enemies, not for the
    // player itself.
    g.enemies[9].dead = true;
    g.player.x = 5;
    g.player.y = 8;
    assert_eq!(g.get_spawn_point(false), Some((74, 9)));
    assert_eq!(g.get_spawn_point(true), Some((7, 9)));
}

#[test]
fn a_dead_player_respawns_at_a_free_point() {
    let mut g = fresh_playing();
    g.player.dead = true;
    g.player.x = 40;
    g.player.y = 12;
    g.try_respawn_player();
    assert!(!g.player.dead);
    assert_eq!((g.player.x, g.player.y), (7, 9));
}

#[test]
fn the_wave_advances_only_when_every_slot_is_dead() {
    let mut g = fresh_playing();
    g.try_spawn_enemy();
    assert_eq!(g.spawned_enemies, 1);

    // A living enemy holds the wave.
    let before = g;
    g.maybe_advance_wave();
    assert_eq!(g, before);

    // Once every tracked slot is dead, the wave advances and the spawner
    // re-arms.
    g.enemies[0].dead = true;
    g.maybe_advance_wave();
    assert_eq!(g.wave, 2);
    assert_eq!(g.spawned_enemies, 0);

    // With the allotment still unspent, nothing advances even though every
    // slot is dead.
    let before = g;
    g.maybe_advance_wave();
    assert_eq!(g, before);
}

#[test]
fn bounder_directly_above_the_player_dies_within_one_tick() {
    let mut g = fresh_playing();
    // Pretend the wave's one enemy is already spawned, hovering just below
    // the player's footprint with the same column: the player stays
    // strictly higher through all four sub-steps.
    g.spawned_enemies = 1;
    g.enemies[0] = Enemy {
        x: g.player.x,
        y: g.player.y + 2,
        dead: false,
        etype: EnemyType::Bounder,
        ..Enemy::default()
    };
    g.tick();
    assert_eq!(g.state, State::Playing);
    assert!(g.enemies[0].dead);
    assert_eq!(g.player.score, 250);
    assert_eq!(g.player.lives, 6);
}

#[test]
fn last_life_fall_ends_the_session_and_freezes_the_game() {
    let mut g = fresh_playing();
    g.player.lives = 1;
    g.player.x = 30;
    g.player.y = 22;
    g.player.dy = 30;
    g.player.on_ground = false;
    g.tick();
    assert_eq!(g.state, State::GameOver);
    assert_eq!(g.player.lives, 0);
    // No further playing-mode mutation happens until a start event.
    let frozen = g;
    g.tick();
    assert_eq!(g, frozen);
    g.key(KeyEvent::Unicode('w'));
    assert_eq!(g, frozen);
    g.key(KeyEvent::Unicode('z'));
    assert_eq!(g.state, State::Playing);
    assert_eq!(g.player.lives, 6);
}

#[test]
fn ticking_outside_playing_changes_nothing() {
    let mut g = Joust::default();
    let before = g;
    g.tick();
    assert_eq!(g, before);
}

#[test]
fn enemy_think_flaps_when_low_and_steers_toward_the_player() {
    let mut e = Enemy {
        x: 50,
        y: 19,
        dx: 0,
        dy: 0,
        etype: EnemyType::Bounder,
        dead: false,
        on_ground: false,
        ..Enemy::default()
    };
    // Below the altitude threshold: flap, and steer left toward the player.
    e.think(10, 19);
    assert_eq!(e.dy, -15);
    assert_eq!(e.dx, -2);

    // Grounded steering is stronger and the class ceiling clamps.
    let mut h = Enemy {
        x: 10,
        y: 10,
        dx: 24,
        dy: 0,
        etype: EnemyType::Hunter,
        dead: false,
        on_ground: true,
        ..Enemy::default()
    };
    h.think(50, 12);
    assert_eq!(h.dx, 25);
    assert_eq!(h.dy, 0);
}

#[test]
fn airborne_entities_gain_fall_speed_each_tick() {
    let mut g = fresh_playing();
    g.player.x = 30;
    g.player.y = 5;
    g.player.on_ground = false;
    g.tick();
    // The player hangs still and picks up 5 units of fall speed; the tick
    // also spawned the first wave's enemy, which flaps up toward the
    // player and drifts toward the player's column.
    assert_eq!((g.player.x, g.player.y), (30, 5));
    assert_eq!(g.player.dy, 5);
    assert_eq!(g.spawned_enemies, 1);
    assert!(!g.enemies[0].dead);
    assert_eq!((g.enemies[0].x, g.enemies[0].y), (7, 8));
    assert_eq!(g.enemies[0].dx, 2);
    assert_eq!(g.enemies[0].dy, -10);
}

#[test]
fn modular_helpers_wrap_exactly() {
    assert_eq!(joust::safe_add::<10>(7, 5), 2);
    assert_eq!(joust::add1::<10>(9), 0);
    assert_eq!(joust::add1::<10>(3), 4);
    assert_eq!(joust::sub1::<10>(0), 9);
    assert_eq!(joust::sub1::<10>(5), 4);
}
