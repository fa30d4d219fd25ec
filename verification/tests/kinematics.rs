//! Kinematics: wrapping, sub-step samples, landing, reflection, gravity.

use joust::arena::ground_bounding_boxes;
use joust::arena::quarter_offset;
use joust::arena::sat_add;
use joust::wrap_x;
use joust::Enemy;
use joust::Player;

fn grounded_player() -> Player {
    Player { x: 3, y: 9, dx: 0, dy: 0, score: 0, lives: 6, on_ground: true, dead: false }
}

#[test]
fn wrap_is_exact_at_the_boundary() {
    assert_eq!(wrap_x(0), 0);
    assert_eq!(wrap_x(75), 75);
    assert_eq!(wrap_x(76), 0);
    assert_eq!(wrap_x(79), 3);
    assert_eq!(wrap_x(-1), 75);
    assert_eq!(wrap_x(-76), 0);
}

#[test]
fn quarter_offset_truncates_toward_zero() {
    assert_eq!(quarter_offset(15, 1), 0);
    assert_eq!(quarter_offset(15, 4), 1);
    assert_eq!(quarter_offset(-15, 1), 0);
    assert_eq!(quarter_offset(-15, 4), -1);
    assert_eq!(quarter_offset(40, 4), 4);
    assert_eq!(quarter_offset(-40, 4), -4);
}

#[test]
fn saturating_add_sticks_at_the_top() {
    assert_eq!(sat_add(3, 4), 7);
    assert_eq!(sat_add(usize::MAX - 1, 5), usize::MAX);
}

#[test]
fn horizontal_sample_wraps_around_the_right_edge() {
    let mut p = grounded_player();
    p.x = 75;
    p.dx = 40;
    p.on_ground = false;
    p.y = 5;
    let r = p.update_quarter_step(4, ground_bounding_boxes());
    // 75 + 40*4/40 = 79, which wraps to 3.
    assert_eq!(r, Some((3, 5)));
}

#[test]
fn landing_zeroes_a_downward_velocity() {
    let mut p = grounded_player();
    p.on_ground = false;
    p.dy = 5;
    // From row 9 a velocity of 5 samples row 9 again, which stands on the
    // leftmost platform (rows [12,13) under the foot).
    let r = p.update_quarter_step(4, ground_bounding_boxes());
    assert_eq!(r, Some((3, 9)));
    assert!(p.on_ground);
    assert_eq!(p.dy, 0);
}

#[test]
fn ceiling_reflects_an_upward_velocity() {
    let mut p = grounded_player();
    p.x = 30;
    p.y = 0;
    p.dy = -10;
    p.on_ground = false;
    let r = p.update_quarter_step(4, ground_bounding_boxes());
    assert_eq!(r, Some((30, 0)));
    assert_eq!(p.dy, 10);
}

#[test]
fn falling_to_the_hazard_row_spends_a_life_and_tombstones() {
    let mut p = grounded_player();
    p.y = 22;
    p.dy = 30;
    p.on_ground = false;
    let r = p.update_quarter_step(4, ground_bounding_boxes());
    // 22 + 30*4/40 = 25, at or past the hazard row 23.
    assert_eq!(r, Some((3, 25)));
    assert!(p.dead);
    assert_eq!(p.lives, 5);
    assert_eq!((p.x, p.y), (40, 12));
    assert_eq!(p.score, 50);
}

#[test]
fn falling_with_the_last_life_signals_game_over() {
    let mut p = grounded_player();
    p.y = 22;
    p.dy = 30;
    p.lives = 1;
    p.on_ground = false;
    let r = p.update_quarter_step(4, ground_bounding_boxes());
    assert_eq!(r, None);
    assert_eq!(p.lives, 0);
}

#[test]
fn an_enemy_reaching_the_hazard_row_is_tombstoned() {
    let mut e = Enemy { x: 30, y: 22, dy: 30, dead: false, on_ground: false, ..Enemy::default() };
    let r = e.update_quarter_step(4, ground_bounding_boxes());
    assert_eq!(r, None);
    assert!(e.dead);
}

#[test]
fn an_enemy_reflects_off_the_ceiling() {
    let mut e = Enemy { x: 30, y: 0, dy: -15, dead: false, on_ground: false, ..Enemy::default() };
    let r = e.update_quarter_step(4, ground_bounding_boxes());
    assert_eq!(r, Some((30, 0)));
    assert_eq!(e.dy, 15);
}

#[test]
fn gravity_adds_five_up_to_the_terminal_velocity() {
    let mut p = grounded_player();
    p.on_ground = false;
    p.dy = 20;
    p.apply_gravity();
    assert_eq!(p.dy, 25);
    p.apply_gravity();
    assert_eq!(p.dy, 30);
    p.apply_gravity();
    assert_eq!(p.dy, 30);
}

#[test]
fn gravity_leaves_a_grounded_entity_alone() {
    let mut p = grounded_player();
    p.dy = 0;
    p.apply_gravity();
    assert_eq!(p.dy, 0);
}

#[test]
fn player_acceleration_is_stronger_on_foot_and_clamped() {
    let mut p = grounded_player();
    p.accel_left();
    assert_eq!(p.dx, -3);
    p.on_ground = false;
    p.accel_left();
    assert_eq!(p.dx, -5);
    p.dx = -40;
    p.accel_left();
    assert_eq!(p.dx, -40);
    p.dx = 39;
    p.accel_right();
    assert_eq!(p.dx, 41);
    p.accel_right();
    assert_eq!(p.dx, 41);
    p.on_ground = true;
    p.dx = 0;
    p.accel_right();
    assert_eq!(p.dx, 3);
}

#[test]
fn flap_is_an_instant_upward_impulse() {
    let mut p = grounded_player();
    p.flap();
    assert_eq!(p.dy, -10);
}
