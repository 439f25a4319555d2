//! The power-up state machine: grant gate, blocking, expiry, exact
//! baseline restoration.

use grillageddon::game::Game;
use grillageddon::player::PowerUpType;
use grillageddon::powerup::player_powerups;

fn fresh_game() -> Game {
    Game::new(800_000, 600_000, 32_000, 32_000, 32_000, 32_000, 8_000, 8_000, 0)
}

#[test]
fn grant_at_score_multiple() {
    let mut g = fresh_game();
    g.score = 50;
    assert!(g.can_get_powerup);
    player_powerups(&mut g);
    assert!(g.player.has_power_up);
    assert!(!g.can_get_powerup);
    assert_eq!(g.power_up_timer, 1);
    match g.player.power_up {
        PowerUpType::FastAttack => {
            assert_eq!(g.player.fire_rate, 50);
            assert_eq!(g.player.shotgun_fire_rate, 450);
            assert_eq!(g.player.damage, 5);
        }
        PowerUpType::QuadDamage => {
            assert_eq!(g.player.fire_rate, 100);
            assert_eq!(g.player.shotgun_fire_rate, 900);
            assert_eq!(g.player.damage, 20);
        }
        PowerUpType::NoPowerUp => panic!("a power-up must be granted at a score multiple"),
    }
}

#[test]
fn no_reroll_while_blocked() {
    // At the next score multiple no new roll occurs while the earlier
    // power-up still blocks eligibility.
    let mut g = fresh_game();
    g.score = 50;
    player_powerups(&mut g);
    let first = g.player.power_up;

    g.score = 100;
    player_powerups(&mut g);
    assert_eq!(g.player.power_up, first);
    assert_eq!(g.power_up_timer, 2);
    assert!(!g.can_get_powerup);
}

#[test]
fn expiry_restores_exact_baseline() {
    let mut g = fresh_game();
    g.score = 50;
    player_powerups(&mut g);
    // Run the effect to the end of its 500-tick life.
    g.power_up_timer = 499;
    g.score = 51;
    player_powerups(&mut g);
    assert!(matches!(g.player.power_up, PowerUpType::NoPowerUp));
    assert!(!g.player.has_power_up);
    assert!(g.can_get_powerup);
    assert_eq!(g.power_up_timer, 0);
    assert_eq!(g.player.fire_rate, 100);
    assert_eq!(g.player.shotgun_fire_rate, 900);
    assert_eq!(g.player.damage, 5);
}

#[test]
fn grant_at_game_start() {
    // Zero is a multiple of the score step: the very first pass of a
    // fresh game already grants a power-up.
    let mut g = fresh_game();
    player_powerups(&mut g);
    assert!(g.player.has_power_up);
    assert!(!g.can_get_powerup);
}

#[test]
fn off_multiple_score_grants_nothing() {
    let mut g = fresh_game();
    g.score = 49;
    player_powerups(&mut g);
    assert!(!g.player.has_power_up);
    assert!(g.can_get_powerup);
    assert_eq!(g.player.damage, 5);
}
