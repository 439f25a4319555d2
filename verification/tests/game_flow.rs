//! The aggregate: initialization, menu transitions, the spawner, the
//! reset, and whole ticks.

use grillageddon::game::{Game, GameState, MenuChoice, Intents, menu, reset_game, spawn_enemies,
    update};
use grillageddon::geom::Vec2;
use grillageddon::enemy::Enemy;
use grillageddon::bullet::Bullet;

fn fresh_game() -> Game {
    Game::new(800_000, 600_000, 32_000, 32_000, 32_000, 32_000, 8_000, 8_000, 0)
}

fn no_intents() -> Intents {
    Intents {
        move_left: false,
        move_right: false,
        move_up: false,
        move_down: false,
        select_pistol: false,
        select_machine: false,
        select_shotgun: false,
        fire_pressed: false,
        fire_down: false,
        aim: Vec2::new(0, 0),
        escape: false,
    }
}

#[test]
fn new_game_layout() {
    let g = fresh_game();
    assert!(matches!(g.state, GameState::Menu));
    assert_eq!(g.player.position, Vec2::new(400_000, 300_000));
    assert_eq!(g.enemies.len(), 0);
    assert_eq!(g.bullets.len(), 0);
    assert_eq!(g.spawn_point.len(), 4);
    assert_eq!(g.spawn_point[0].pos, Vec2::new(10_000, 10_000));
    assert_eq!(g.spawn_point[1].pos, Vec2::new(750_000, 10_000));
    assert_eq!(g.spawn_point[2].pos, Vec2::new(10_000, 550_000));
    assert_eq!(g.spawn_point[3].pos, Vec2::new(750_000, 550_000));
    assert_eq!(g.spawn_rate, 500);
    assert_eq!(g.score, 0);
    assert!(g.can_get_powerup);
}

#[test]
fn menu_transition_table() {
    let mut g = fresh_game();
    menu(&mut g, MenuChoice::Back);
    assert!(matches!(g.state, GameState::Menu));
    menu(&mut g, MenuChoice::Info);
    assert!(matches!(g.state, GameState::Options));
    menu(&mut g, MenuChoice::Play);
    assert!(matches!(g.state, GameState::Options));
    menu(&mut g, MenuChoice::Back);
    assert!(matches!(g.state, GameState::Menu));
    menu(&mut g, MenuChoice::Play);
    assert!(matches!(g.state, GameState::Play));

    g.state = GameState::Over;
    menu(&mut g, MenuChoice::Play);
    assert!(matches!(g.state, GameState::Over));
    menu(&mut g, MenuChoice::Back);
    assert!(matches!(g.state, GameState::Menu));
}

#[test]
fn spawner_interval_and_location() {
    let mut g = fresh_game();
    g.now = 501;
    spawn_enemies(&mut g);
    assert_eq!(g.enemies.len(), 1);
    assert_eq!(g.last_spawn, 501);
    assert_eq!(g.enemies[0].health, 10);
    let pos = g.enemies[0].position;
    assert!(g.spawn_point.iter().any(|s| s.pos == pos));

    // The interval has just restarted: no second spawn yet.
    spawn_enemies(&mut g);
    assert_eq!(g.enemies.len(), 1);
}

#[test]
fn spawner_population_cap() {
    let mut g = fresh_game();
    for _ in 0..1000 {
        g.enemies.push(Enemy::new(Vec2::new(600_000, 300_000), 32_000, 32_000, 10, 0));
    }
    g.now = 10_000;
    spawn_enemies(&mut g);
    assert_eq!(g.enemies.len(), 1000);
    assert_eq!(g.last_spawn, 0);
}

#[test]
fn reset_restores_run_state() {
    let mut g = fresh_game();
    g.score = 75;
    g.final_score = 75;
    g.player.health = -20;
    g.player.is_dead = true;
    g.enemies.push(Enemy::new(Vec2::new(100_000, 100_000), 32_000, 32_000, 10, 0));
    g.bullets.push(Bullet::new(
        Vec2::new(100_000, 100_000),
        8_000,
        8_000,
        Vec2::new(200_000, 100_000),
        true,
        5_000,
    ));
    reset_game(&mut g);
    assert_eq!(g.score, 0);
    assert_eq!(g.enemies.len(), 0);
    assert_eq!(g.bullets.len(), 0);
    assert!(!g.player.is_dead);
    assert_eq!(g.player.health, 500);
    assert_eq!(g.player.position, Vec2::new(400_000, 300_000));
    // The final-score snapshot survives the reset for the game-over
    // screen.
    assert_eq!(g.final_score, 75);
}

#[test]
fn tick_death_and_reset_sequence() {
    let mut g = fresh_game();
    g.state = GameState::Play;
    g.score = 40;
    g.player.health = 0;

    // The tick that observes exhausted health raises the death flag and
    // snapshots the score.
    let events = update(&mut g, no_intents(), 1);
    assert!(events.died);
    assert!(g.player.is_dead);
    assert_eq!(g.final_score, 40);
    assert!(matches!(g.state, GameState::Play));

    // The next tick performs the full reset, enters the game-over state
    // and ends there: the simulation is frozen, so no pass runs on the
    // freshly reset state.
    let last_spawn_before = g.last_spawn;
    let events = update(&mut g, no_intents(), 5_000);
    assert!(!events.died);
    assert!(!events.fired);
    assert!(!events.enemy_hit);
    assert!(!g.player.is_dead);
    assert!(matches!(g.state, GameState::Over));
    assert_eq!(g.score, 0);
    assert_eq!(g.player.health, 500);
    assert_eq!(g.player.position, Vec2::new(400_000, 300_000));
    assert_eq!(g.enemies.len(), 0);
    assert_eq!(g.bullets.len(), 0);
    // Even with the spawn window wide open, nothing spawned.
    assert_eq!(g.last_spawn, last_spawn_before);
}

#[test]
fn tick_escape_freezes_to_menu() {
    let mut g = fresh_game();
    g.state = GameState::Play;
    let mut intents = no_intents();
    intents.escape = true;
    update(&mut g, intents, 1);
    assert!(matches!(g.state, GameState::Menu));
}

#[test]
fn tick_spawns_after_interval() {
    let mut g = fresh_game();
    g.state = GameState::Play;
    let events = update(&mut g, no_intents(), 501);
    assert!(!events.died);
    assert_eq!(g.enemies.len(), 1);
    assert_eq!(g.now, 501);
}

#[test]
fn tick_purges_projectiles_leaving_arena() {
    // A live projectile either stays inside the arena or is deactivated
    // and purged within the same tick.
    let mut g = fresh_game();
    g.state = GameState::Play;
    g.bullets.push(Bullet::new(
        Vec2::new(799_000, 300_000),
        8_000,
        8_000,
        Vec2::new(900_000, 300_000),
        true,
        7_000,
    ));
    update(&mut g, no_intents(), 1);
    assert_eq!(g.bullets.len(), 0);

    let mut g2 = fresh_game();
    g2.state = GameState::Play;
    g2.bullets.push(Bullet::new(
        Vec2::new(100_000, 300_000),
        8_000,
        8_000,
        Vec2::new(700_000, 300_000),
        true,
        7_000,
    ));
    update(&mut g2, no_intents(), 1);
    assert_eq!(g2.bullets.len(), 1);
    assert!(g2.bullets[0].is_active);
    assert_eq!(g2.bullets[0].position, Vec2::new(107_000, 300_000));
}
