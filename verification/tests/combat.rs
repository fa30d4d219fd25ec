//! Combat resolution: the y-comparison tie-break and its outcomes.

use joust::resolve_combat;
use joust::Enemy;
use joust::EnemyType;
use joust::Joust;
use joust::Player;

fn player_at(x: usize, y: usize) -> Player {
    Player { x, y, dx: 5, dy: 0, score: 0, lives: 6, on_ground: false, dead: false }
}

fn enemy_at(x: usize, y: usize, etype: EnemyType) -> Enemy {
    Enemy { x, y, dx: -5, dy: 0, etype, score: 0, lives: 6, on_ground: false, dead: false }
}

#[test]
fn player_above_kills_the_enemy_and_scores_the_class_reward() {
    for (etype, reward) in [
        (EnemyType::Bounder, 250),
        (EnemyType::Hunter, 500),
        (EnemyType::ShadowLord, 1000),
    ] {
        let mut p = player_at(10, 10);
        let mut e = enemy_at(10, 12, etype);
        let game_over = resolve_combat(&mut p, &mut e, 10, 10, 10, 12);
        assert!(!game_over);
        assert!(e.dead);
        assert!(!p.dead);
        assert_eq!(p.score, reward);
        assert_eq!(p.lives, 6);
    }
}

#[test]
fn enemy_above_sends_the_player_down_the_death_path() {
    let mut p = player_at(10, 12);
    let mut e = enemy_at(10, 10, EnemyType::Bounder);
    let game_over = resolve_combat(&mut p, &mut e, 10, 12, 10, 10);
    assert!(!game_over);
    assert!(p.dead);
    assert_eq!(p.lives, 5);
    assert_eq!((p.x, p.y), (40, 12));
    assert!(!e.dead);
}

#[test]
fn enemy_above_with_the_last_life_signals_game_over() {
    let mut p = player_at(10, 12);
    p.lives = 1;
    let mut e = enemy_at(10, 10, EnemyType::Hunter);
    let game_over = resolve_combat(&mut p, &mut e, 10, 12, 10, 10);
    assert!(game_over);
    assert_eq!(p.lives, 0);
    assert!(!e.dead);
}

#[test]
fn equal_height_bounces_both_and_kills_neither() {
    let mut p = player_at(10, 11);
    let mut e = enemy_at(12, 11, EnemyType::Bounder);
    let game_over = resolve_combat(&mut p, &mut e, 10, 11, 12, 11);
    assert!(!game_over);
    assert!(!p.dead);
    assert!(!e.dead);
    assert_eq!(p.dx, -5);
    assert_eq!(e.dx, 5);
    assert_eq!(p.score, 0);
}

#[test]
fn separated_footprints_do_not_fight() {
    let mut p = player_at(10, 10);
    let mut e = enemy_at(20, 10, EnemyType::Bounder);
    let game_over = resolve_combat(&mut p, &mut e, 10, 10, 20, 10);
    assert!(!game_over);
    assert_eq!(p, player_at(10, 10));
    assert_eq!(e, enemy_at(20, 10, EnemyType::Bounder));
}

#[test]
fn overlap_is_half_open_on_both_axes() {
    let g = Joust::default();
    // Touching corners still count: only a strict gap separates.
    assert!(g.do_overlap((0, 0), (3, 2), (3, 2), (6, 4)));
    assert!(!g.do_overlap((0, 0), (3, 2), (4, 0), (7, 2)));
    assert!(!g.do_overlap((0, 0), (3, 2), (0, 3), (3, 5)));
    assert!(g.do_overlap((5, 5), (8, 7), (2, 3), (5, 5)));
}
