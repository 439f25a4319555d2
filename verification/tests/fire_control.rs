//! Fire-control gates and the shotgun fan.

use grillageddon::game::{Game, Intents};
use grillageddon::geom::Vec2;
use grillageddon::player::WeaponType;
use grillageddon::weapons::bullet_update;

fn fresh_game() -> Game {
    Game::new(800_000, 600_000, 32_000, 32_000, 32_000, 32_000, 8_000, 8_000, 0)
}

fn no_intents() -> Intents {
    Intents {
        move_left: false,
        move_right: false,
        move_up: false,
        move_down: false,
        select_pistol: false,
        select_machine: false,
        select_shotgun: false,
        fire_pressed: false,
        fire_down: false,
        aim: Vec2::new(0, 0),
        escape: false,
    }
}

#[test]
fn pistol_fires_on_press_edge_only() {
    let mut g = fresh_game();
    let mut intents = no_intents();
    intents.aim = Vec2::new(700_000, 316_000);

    // Holding the button without a press edge does nothing for a pistol.
    intents.fire_down = true;
    let fired = bullet_update(&mut g, intents);
    assert!(!fired);
    assert_eq!(g.bullets.len(), 0);

    // A press edge fires exactly one projectile.
    intents.fire_pressed = true;
    let fired = bullet_update(&mut g, intents);
    assert!(fired);
    assert_eq!(g.bullets.len(), 1);
    // The muzzle sits 16 pixels below the player position and the shot
    // flies straight right, advanced once already.
    assert_eq!(g.bullets[0].velocity, Vec2::new(1000, 0));
    assert_eq!(g.bullets[0].position, Vec2::new(405_000, 316_000));
    assert_eq!(g.bullets[0].speed, 5_000);
}

#[test]
fn machine_gun_cooldown_gate() {
    let mut g = fresh_game();
    g.player.weapon_type = WeaponType::Machine;
    let mut intents = no_intents();
    intents.aim = Vec2::new(700_000, 316_000);
    intents.fire_down = true;

    // At the very creation timestamp the interval has not elapsed.
    let fired = bullet_update(&mut g, intents);
    assert!(!fired);
    assert_eq!(g.bullets.len(), 0);

    // Once more than the fire interval has passed, it fires and restarts
    // the interval.
    g.now = 101;
    let fired = bullet_update(&mut g, intents);
    assert!(fired);
    assert_eq!(g.bullets.len(), 1);
    assert_eq!(g.player.last_shot, 101);
    assert_eq!(g.bullets[0].speed, 7_000);

    // Immediately afterwards the interval blocks fire again.
    let fired = bullet_update(&mut g, intents);
    assert!(!fired);
    assert_eq!(g.bullets.len(), 1);
}

#[test]
fn shotgun_fan_angles() {
    // Shotgun fired once toward a target directly right of the muzzle:
    // exactly 3 pellets leave at the scaled equivalents of -10, 0 and
    // +10 degrees (174/985 is tan of the half spread in thousandths).
    let mut g = fresh_game();
    g.player.weapon_type = WeaponType::Shotgun;
    g.now = 1_000;
    let mut intents = no_intents();
    intents.fire_down = true;
    intents.aim = Vec2::new(700_000, 316_000);

    let fired = bullet_update(&mut g, intents);
    assert!(fired);
    assert_eq!(g.bullets.len(), 3);
    assert_eq!(g.player.last_shot, 1_000);

    // Pellet targets are 100 pixels from the muzzle along each rotated
    // direction; the stored velocity renormalizes that offset.
    assert_eq!(g.bullets[0].velocity, Vec2::new(984, -173));
    assert_eq!(g.bullets[1].velocity, Vec2::new(1000, 0));
    assert_eq!(g.bullets[2].velocity, Vec2::new(984, 173));
    assert_eq!(g.bullets[0].target, Vec2::new(498_500, 298_600));
    assert_eq!(g.bullets[1].target, Vec2::new(500_000, 316_000));
    assert_eq!(g.bullets[2].target, Vec2::new(498_500, 333_400));

    // All three left the muzzle and advanced one step.
    assert_eq!(g.bullets[1].position, Vec2::new(407_000, 316_000));
    assert_eq!(g.bullets[0].position, Vec2::new(406_888, 314_789));
    assert_eq!(g.bullets[2].position, Vec2::new(406_888, 317_211));
}

#[test]
fn projectile_cap_refuses_fire() {
    // The projectile population cap is a machine limit: with no room
    // for the largest volley, fire control refuses the shot.
    let mut g = fresh_game();
    let mut intents = no_intents();
    intents.aim = Vec2::new(700_000, 316_000);
    intents.fire_pressed = true;
    for _ in 0..99_998 {
        g.bullets.push(grillageddon::bullet::Bullet::new(
            Vec2::new(100_000, 100_000),
            8_000,
            8_000,
            Vec2::new(200_000, 100_000),
            true,
            1,
        ));
    }
    let fired = bullet_update(&mut g, intents);
    assert!(!fired);
    assert_eq!(g.bullets.len(), 99_998);
}

#[test]
fn coincident_aim_is_guarded() {
    // Aiming exactly at the muzzle would make the direction undefined;
    // fire control refuses to spawn a projectile instead.
    let mut g = fresh_game();
    let mut intents = no_intents();
    intents.fire_pressed = true;
    intents.fire_down = true;
    intents.aim = Vec2::new(400_000, 316_000);

    let fired = bullet_update(&mut g, intents);
    assert!(!fired);
    assert_eq!(g.bullets.len(), 0);

    g.player.weapon_type = WeaponType::Shotgun;
    g.now = 10_000;
    let fired = bullet_update(&mut g, intents);
    assert!(!fired);
    assert_eq!(g.bullets.len(), 0);
    // The interval is not consumed by the refused shot.
    assert_eq!(g.player.last_shot, 0);
}
