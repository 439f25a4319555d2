//! Player movement: acceleration, friction, speed clamp, arena clamp,
//! weapon switching, the death snapshot.

use grillageddon::game::{Game, Intents};
use grillageddon::geom::{Vec2, Rect};
use grillageddon::motion::{player_update, bounds_check};
use grillageddon::player::WeaponType;

fn fresh_game() -> Game {
    Game::new(800_000, 600_000, 32_000, 32_000, 32_000, 32_000, 8_000, 8_000, 0)
}

fn no_intents() -> Intents {
    Intents {
        move_left: false,
        move_right: false,
        move_up: false,
        move_down: false,
        select_pistol: false,
        select_machine: false,
        select_shotgun: false,
        fire_pressed: false,
        fire_down: false,
        aim: Vec2::new(0, 0),
        escape: false,
    }
}

fn place_player(g: &mut Game, x: i64, y: i64) {
    g.player.position = Vec2::new(x, y);
    g.player.coll_rect = Rect::new(x, y, g.player.tex_w, g.player.tex_h);
}

#[test]
fn acceleration_minus_friction_moves_player() {
    let mut g = fresh_game();
    let mut intents = no_intents();
    intents.move_right = true;
    player_update(&mut g, intents);
    // One pixel of acceleration, half a pixel of friction.
    assert_eq!(g.player.velocity, Vec2::new(500, 0));
    assert_eq!(g.player.position, Vec2::new(400_500, 300_000));
    assert_eq!(g.player.coll_rect.x, 400_500);
}

#[test]
fn velocity_clamped_to_max_speed() {
    let mut g = fresh_game();
    g.player.velocity = Vec2::new(2_900, 0);
    let mut intents = no_intents();
    intents.move_right = true;
    player_update(&mut g, intents);
    // 2900 + 1000 clamps to the max speed 3000, friction takes 500.
    assert_eq!(g.player.velocity.x, 2_500);
}

#[test]
fn position_clamped_to_arena() {
    // The position always ends inside [0, arena - footprint].
    let mut g = fresh_game();
    place_player(&mut g, 767_900, 300_000);
    let mut intents = no_intents();
    intents.move_right = true;
    player_update(&mut g, intents);
    assert_eq!(g.player.position.x, 768_000);

    place_player(&mut g, 100, 300_000);
    g.player.velocity = Vec2::new(0, 0);
    let mut intents = no_intents();
    intents.move_left = true;
    player_update(&mut g, intents);
    assert_eq!(g.player.position.x, 0);

    place_player(&mut g, 400_000, 567_950);
    g.player.velocity = Vec2::new(0, 0);
    let mut intents = no_intents();
    intents.move_down = true;
    player_update(&mut g, intents);
    assert_eq!(g.player.position.y, 568_000);
}

#[test]
fn bounds_check_clamps_directly() {
    let mut g = fresh_game();
    place_player(&mut g, 900_000, -5_000);
    bounds_check(&mut g);
    assert_eq!(g.player.position, Vec2::new(768_000, 0));
    assert_eq!(g.player.coll_rect.x, 768_000);
    assert_eq!(g.player.coll_rect.y, 0);
}

#[test]
fn weapon_select_last_key_wins() {
    let mut g = fresh_game();
    let mut intents = no_intents();
    intents.select_machine = true;
    player_update(&mut g, intents);
    assert!(matches!(g.player.weapon_type, WeaponType::Machine));

    let mut intents = no_intents();
    intents.select_machine = true;
    intents.select_shotgun = true;
    player_update(&mut g, intents);
    assert!(matches!(g.player.weapon_type, WeaponType::Shotgun));

    player_update(&mut g, no_intents());
    assert!(matches!(g.player.weapon_type, WeaponType::Shotgun));
}

#[test]
fn death_snapshots_final_score() {
    let mut g = fresh_game();
    g.score = 135;
    g.player.health = 0;
    let died = player_update(&mut g, no_intents());
    assert!(died);
    assert!(g.player.is_dead);
    assert_eq!(g.final_score, 135);

    let mut g2 = fresh_game();
    g2.player.health = 1;
    let died = player_update(&mut g2, no_intents());
    assert!(!died);
    assert!(!g2.player.is_dead);
}
