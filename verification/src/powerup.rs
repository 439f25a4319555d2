//! The power-up modifier: a timed stat boost granted at score multiples,
//! with unconditional baseline restoration while no boost is active.

use vstd::prelude::*;
use crate::consts::{
    BASE_FIRE_RATE, BASE_SHOTGUN_FIRE_RATE, FAST_FIRE_RATE, FAST_SHOTGUN_FIRE_RATE, BASE_DAMAGE,
    QUAD_DAMAGE, POWER_UP_DURATION, POWER_UP_SCORE_STEP,
};
use crate::game::Game;
use crate::player::{Player, PowerUpType};
use crate::rng::gen_index;

verus! {

/// A new power-up is rolled when score sits on a multiple of the score
/// step and no earlier power-up blocks eligibility.
pub open spec fn powerup_gate(g: Game) -> bool {
    g.score % (POWER_UP_SCORE_STEP as i64) == 0 && g.can_get_powerup
}

/// One tick of the power-up state machine:
/// - when score eligibility holds, roll one of the two effects and
///   block further rolls;
/// - while an effect is active, advance its timer; at the full duration
///   revert to no effect and reopen eligibility;
/// - finally force the stats implied by the (possibly new) effect, which
///   restores the exact baseline whenever no effect is active.
pub fn player_powerups(game: &mut Game)
    requires
        old(game).wf(),
    ensures
        final(game).wf(),
        *final(game) == (Game {
            player: final(game).player,
            power_up_timer: final(game).power_up_timer,
            can_get_powerup: final(game).can_get_powerup,
            ..*old(game)
        }),
        final(game).player == (Player {
            power_up: final(game).player.power_up,
            has_power_up: final(game).player.has_power_up,
            fire_rate: final(game).player.fire_rate,
            shotgun_fire_rate: final(game).player.shotgun_fire_rate,
            damage: final(game).player.damage,
            ..old(game).player
        }),
        final(game).player.stats_wf(),
        // A roll grants one of the two effects and blocks the next roll.
        powerup_gate(*old(game)) ==> (final(game).player.power_up == PowerUpType::FastAttack
            || final(game).player.power_up == PowerUpType::QuadDamage)
            && final(game).player.has_power_up && !final(game).can_get_powerup
            && final(game).power_up_timer == 1,
        // An effect at the end of its life expires and reopens rolling.
        !powerup_gate(*old(game)) && old(game).player.has_power_up && old(game).power_up_timer + 1
            >= POWER_UP_DURATION ==> final(game).player.power_up == PowerUpType::NoPowerUp
            && !final(game).player.has_power_up && final(game).power_up_timer == 0
            && final(game).can_get_powerup,
        // An effect mid-life only advances its timer.
        !powerup_gate(*old(game)) && old(game).player.has_power_up && old(game).power_up_timer + 1
            < POWER_UP_DURATION ==> final(game).player.power_up == old(game).player.power_up
            && final(game).player.has_power_up && final(game).power_up_timer == old(game).power_up_timer + 1 && !final(game).can_get_powerup,
        // With no effect and no roll, nothing changes.
        !powerup_gate(*old(game)) && !old(game).player.has_power_up ==> final(game).player == old(game).player && final(game).power_up_timer == old(game).power_up_timer && final(game).can_get_powerup == old(game).can_get_powerup,
{
    let rem = (game.score as u64) % (POWER_UP_SCORE_STEP as u64);
    if rem == 0 && game.can_get_powerup {
        let roll = gen_index(2);
        if roll == 0 {
            game.player.has_power_up = true;
            game.player.power_up = PowerUpType::FastAttack;
        } else {
            game.player.has_power_up = true;
            game.player.power_up = PowerUpType::QuadDamage;
        }
        game.can_get_powerup = false;
    }
    if game.player.has_power_up {
        game.power_up_timer = game.power_up_timer + 1;
        if game.power_up_timer >= POWER_UP_DURATION {
            game.player.power_up = PowerUpType::NoPowerUp;
            game.player.has_power_up = false;
            game.power_up_timer = 0;
            game.can_get_powerup = true;
        }
    }
    match game.player.power_up {
        PowerUpType::NoPowerUp => {
            game.player.fire_rate = BASE_FIRE_RATE;
            game.player.shotgun_fire_rate = BASE_SHOTGUN_FIRE_RATE;
            game.player.damage = BASE_DAMAGE;
        },
        PowerUpType::FastAttack => {
            game.player.fire_rate = FAST_FIRE_RATE;
            game.player.shotgun_fire_rate = FAST_SHOTGUN_FIRE_RATE;
        },
        PowerUpType::QuadDamage => {
            game.player.damage = QUAD_DAMAGE;
        },
    }
}

} // verus!
