//! The steering engine: seek, pairwise avoidance, kill credit and
//! corpse removal.

use grillageddon::game::Game;
use grillageddon::geom::{Vec2, Rect};
use grillageddon::enemy::Enemy;
use grillageddon::steer::enemy_update;

fn fresh_game() -> Game {
    Game::new(800_000, 600_000, 32_000, 32_000, 32_000, 32_000, 8_000, 8_000, 0)
}

fn place_player(g: &mut Game, x: i64, y: i64) {
    g.player.position = Vec2::new(x, y);
    g.player.coll_rect = Rect::new(x, y, g.player.tex_w, g.player.tex_h);
}

#[test]
fn lone_enemy_seeks_player() {
    let mut g = fresh_game();
    place_player(&mut g, 200_000, 100_000);
    g.enemies.push(Enemy::new(Vec2::new(100_000, 100_000), 32_000, 32_000, 10, 0));
    enemy_update(&mut g);
    // The unit seek direction is (1000, 0); the enemy speed is one pixel
    // per tick.
    assert_eq!(g.enemies[0].position, Vec2::new(101_000, 100_000));
    assert_eq!(g.enemies[0].coll_rect.x, 101_000);
    assert_eq!(g.score, 0);
}

#[test]
fn non_overlapping_population_is_pure_seek() {
    // With no overlapping rectangles the avoidance sum contributes
    // nothing: each enemy moves exactly as it would alone.
    let mut g = fresh_game();
    place_player(&mut g, 200_000, 100_000);
    g.enemies.push(Enemy::new(Vec2::new(100_000, 100_000), 32_000, 32_000, 10, 0));
    g.enemies.push(Enemy::new(Vec2::new(500_000, 500_000), 32_000, 32_000, 10, 0));
    enemy_update(&mut g);
    assert_eq!(g.enemies[0].position, Vec2::new(101_000, 100_000));

    let mut solo = fresh_game();
    place_player(&mut solo, 200_000, 100_000);
    solo.enemies.push(Enemy::new(Vec2::new(500_000, 500_000), 32_000, 32_000, 10, 0));
    enemy_update(&mut solo);
    assert_eq!(g.enemies[1].position, solo.enemies[0].position);
}

#[test]
fn overlapping_neighbors_repel() {
    let mut g = fresh_game();
    // Player on the first enemy: its seek vector is zero, so only the
    // repulsion from the overlapping neighbor moves it.
    place_player(&mut g, 100_000, 100_000);
    g.enemies.push(Enemy::new(Vec2::new(100_000, 100_000), 32_000, 32_000, 10, 0));
    g.enemies.push(Enemy::new(Vec2::new(101_000, 100_000), 32_000, 32_000, 10, 0));
    enemy_update(&mut g);
    // Repulsion away from the neighbor one pixel to the right, with
    // inverse-distance weight 1/1 pixel: a full unit step left.
    assert_eq!(g.enemies[0].position, Vec2::new(99_000, 100_000));
    // The second enemy's seek toward the player and its repulsion cancel
    // exactly.
    assert_eq!(g.enemies[1].position, Vec2::new(101_000, 100_000));
}

#[test]
fn dead_enemies_removed_and_credited_once() {
    let mut g = fresh_game();
    place_player(&mut g, 200_000, 100_000);
    g.enemies.push(Enemy::new(Vec2::new(100_000, 100_000), 32_000, 32_000, 10, 0));
    g.enemies.push(Enemy::new(Vec2::new(500_000, 500_000), 32_000, 32_000, 10, 0));
    g.enemies[0].health = 0;
    g.enemies[1].health = -25;
    enemy_update(&mut g);
    assert_eq!(g.enemies.len(), 0);
    assert_eq!(g.score, 10);
    enemy_update(&mut g);
    assert_eq!(g.score, 10);
}
