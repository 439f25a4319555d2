//! The collision and combat resolver: contact damage with its cooldown,
//! projectile damage, kill credit.

use grillageddon::game::Game;
use grillageddon::geom::Vec2;
use grillageddon::enemy::Enemy;
use grillageddon::bullet::Bullet;
use grillageddon::combat::{collision_check, damage_enemy};
use grillageddon::steer::enemy_update;
use grillageddon::player::WeaponType;

fn fresh_game() -> Game {
    Game::new(800_000, 600_000, 32_000, 32_000, 32_000, 32_000, 8_000, 8_000, 0)
}

#[test]
fn contact_damage_respects_cooldown() {
    // One touching enemy deals 10 contact damage once; 400 ms later —
    // inside the half-second cooldown — continued overlap deals nothing;
    // once the cooldown has fully elapsed a second hit of 10 lands.
    let mut g = fresh_game();
    let e = Enemy::new(g.player.position, 32_000, 32_000, 10, 0);
    g.enemies.push(e);

    let hit = collision_check(&mut g);
    assert!(hit);
    assert_eq!(g.player.health, 490);
    assert!(!g.enemies[0].can_attack);
    assert_eq!(g.enemies[0].dmg_cd, 0);

    g.now = 400;
    let hit = collision_check(&mut g);
    assert!(!hit);
    assert_eq!(g.player.health, 490);
    assert!(!g.enemies[0].can_attack);

    // Past the cooldown the attack re-arms (in the pass that observes
    // the elapsed interval) and the next overlap deals damage again.
    g.now = 501;
    let hit = collision_check(&mut g);
    assert!(!hit);
    assert!(g.enemies[0].can_attack);
    let hit = collision_check(&mut g);
    assert!(hit);
    assert_eq!(g.player.health, 480);
}

#[test]
fn projectile_damage_and_single_kill_credit() {
    // Three projectiles overlap one enemy in the same tick: its health
    // goes deeply negative, yet the kill reward of 5 is credited exactly
    // once, in the steering pass that also removes the corpse.
    let mut g = fresh_game();
    g.enemies.push(Enemy::new(Vec2::new(100_000, 100_000), 32_000, 32_000, 10, 0));
    for _ in 0..3 {
        g.bullets.push(Bullet::new(
            Vec2::new(105_000, 105_000),
            8_000,
            8_000,
            Vec2::new(200_000, 105_000),
            true,
            7_000,
        ));
    }

    let hit = collision_check(&mut g);
    assert!(hit);
    // Pistol damage is 5 per overlapping projectile.
    assert_eq!(g.enemies[0].health, 10 - 3 * 5);
    // Every struck projectile is deactivated.
    assert!(g.bullets.iter().all(|b| !b.is_active));

    enemy_update(&mut g);
    assert_eq!(g.score, 5);
    assert_eq!(g.enemies.len(), 0);

    // A second steering pass cannot credit the same kill again.
    enemy_update(&mut g);
    assert_eq!(g.score, 5);
}

#[test]
fn machine_gun_damage_penalty() {
    let mut g = fresh_game();
    g.player.weapon_type = WeaponType::Machine;
    g.enemies.push(Enemy::new(Vec2::new(100_000, 100_000), 32_000, 32_000, 10, 0));
    g.bullets.push(Bullet::new(
        Vec2::new(105_000, 105_000),
        8_000,
        8_000,
        Vec2::new(200_000, 105_000),
        true,
        7_000,
    ));
    collision_check(&mut g);
    // The machine gun deals the damage stat minus 2.
    assert_eq!(g.enemies[0].health, 10 - 3);
}

#[test]
fn one_projectile_damages_every_overlapped_enemy() {
    // Overlap is resolved without exclusivity: a single projectile
    // touching two enemies in one tick damages both.
    let mut g = fresh_game();
    g.enemies.push(Enemy::new(Vec2::new(100_000, 100_000), 32_000, 32_000, 10, 0));
    g.enemies.push(Enemy::new(Vec2::new(110_000, 100_000), 32_000, 32_000, 10, 0));
    g.bullets.push(Bullet::new(
        Vec2::new(112_000, 102_000),
        8_000,
        8_000,
        Vec2::new(200_000, 102_000),
        true,
        7_000,
    ));
    collision_check(&mut g);
    assert_eq!(g.enemies[0].health, 5);
    assert_eq!(g.enemies[1].health, 5);
}

#[test]
fn damage_enemy_subtracts() {
    let mut e = Enemy::new(Vec2::new(0, 0), 32_000, 32_000, 10, 0);
    damage_enemy(&mut e, 4);
    assert_eq!(e.health, 6);
    damage_enemy(&mut e, 20);
    assert_eq!(e.health, -14);
}
