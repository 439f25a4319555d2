//! Entity constructors and projectile motion.

use grillageddon::bullet::Bullet;
use grillageddon::enemy::Enemy;
use grillageddon::player::{Player, WeaponType, PowerUpType};
use grillageddon::geom::Vec2;

#[test]
fn bullet_velocity_is_unit_direction() {
    let b = Bullet::new(
        Vec2::new(0, 0),
        8_000,
        8_000,
        Vec2::new(100_000, 0),
        true,
        5_000,
    );
    assert_eq!(b.velocity, Vec2::new(1000, 0));
    assert_eq!(b.position, Vec2::new(0, 0));
    assert_eq!(b.target, Vec2::new(100_000, 0));
    assert!(b.is_active);
    assert_eq!(b.speed, 5_000);
    assert_eq!(b.coll_rect.x, 0);
    assert_eq!(b.coll_rect.w, 8_000);

    let d = Bullet::new(
        Vec2::new(10_000, 20_000),
        8_000,
        8_000,
        Vec2::new(13_000, 24_000),
        true,
        7_000,
    );
    assert_eq!(d.velocity, Vec2::new(600, 800));
}

#[test]
fn bullet_advance_moves_and_culls() {
    let b = Bullet::new(
        Vec2::new(100_000, 100_000),
        8_000,
        8_000,
        Vec2::new(200_000, 100_000),
        true,
        5_000,
    );
    let b1 = b.advanced(800_000, 600_000);
    assert_eq!(b1.position, Vec2::new(105_000, 100_000));
    assert_eq!(b1.coll_rect.x, 105_000);
    assert!(b1.is_active);

    // A projectile about to cross the right edge is deactivated.
    let edge = Bullet::new(
        Vec2::new(799_000, 100_000),
        8_000,
        8_000,
        Vec2::new(900_000, 100_000),
        true,
        7_000,
    );
    let edge1 = edge.advanced(800_000, 600_000);
    assert_eq!(edge1.position.x, 806_000);
    assert!(!edge1.is_active);
}

#[test]
fn enemy_new_fields() {
    let e = Enemy::new(Vec2::new(10_000, 10_000), 32_000, 32_000, 10, 42);
    assert_eq!(e.position, Vec2::new(10_000, 10_000));
    assert_eq!(e.speed, 1000);
    assert_eq!(e.health, 10);
    assert!(e.can_attack);
    assert_eq!(e.dmg_cd, 42);
    assert_eq!(e.coll_rect.w, 32_000);
}

#[test]
fn player_new_baseline() {
    let p = Player::new(Vec2::new(400_000, 300_000), 3_000, 32_000, 32_000, 7);
    assert_eq!(p.health, 500);
    assert_eq!(p.velocity, Vec2::new(0, 0));
    assert_eq!(p.acceleration, 1_000);
    assert_eq!(p.friction, 500);
    assert!(matches!(p.weapon_type, WeaponType::Pistol));
    assert!(matches!(p.power_up, PowerUpType::NoPowerUp));
    assert!(!p.has_power_up);
    assert!(!p.is_dead);
    assert_eq!(p.damage, 5);
    assert_eq!(p.fire_rate, 100);
    assert_eq!(p.shotgun_fire_rate, 900);
    assert_eq!(p.last_shot, 7);
    assert_eq!(p.coll_rect.x, 400_000);
    assert_eq!(p.coll_rect.h, 32_000);
}
