//! Player movement: intent-driven acceleration, speed clamping, friction,
//! the death check, position integration, and the arena clamp.

use vstd::prelude::*;
use crate::consts::SCALE;
use crate::geom::{Vec2, Rect, clamp_spec, clamp};
use crate::game::{Game, Intents};
use crate::player::{Player, WeaponType};
use crate::powerup::player_powerups;

verus! {

/// One axis of the velocity pipeline: add acceleration per held key,
/// clamp to the maximum speed, then pull toward zero by the friction
/// (which may overshoot past zero when friction exceeds the remaining
/// speed — a quirk of the tuning, kept deliberately).
pub open spec fn axis_step(v: int, acc: int, friction: int, speed: int, neg: bool, pos: bool)
    -> int {
    let accelerated = v + (if neg { -acc } else { 0 }) + (if pos { acc } else { 0 });
    let clamped = clamp_spec(accelerated, -speed, speed);
    if clamped > 0 {
        clamped - friction
    } else if clamped < 0 {
        clamped + friction
    } else {
        clamped
    }
}

/// The weapon the select intents leave in hand; a later-numbered key
/// overrides an earlier one, no key keeps the current weapon.
pub open spec fn selected_weapon(current: WeaponType, intents: Intents) -> WeaponType {
    if intents.select_shotgun {
        WeaponType::Shotgun
    } else if intents.select_machine {
        WeaponType::Machine
    } else if intents.select_pistol {
        WeaponType::Pistol
    } else {
        current
    }
}

/// One axis of the velocity pipeline, executable.
fn axis_update(v: i64, acc: i64, friction: i64, speed: i64, neg: bool, pos: bool) -> (nv: i64)
    requires
        0 <= acc <= SCALE,
        0 <= friction <= SCALE,
        friction <= speed,
        1 <= speed <= 100_000,
        -speed <= v <= speed,
    ensures
        nv == axis_step(v as int, acc as int, friction as int, speed as int, neg, pos),
        -speed <= nv <= speed,
{
    let mut x = v;
    if neg {
        x = x - acc;
    }
    if pos {
        x = x + acc;
    }
    x = clamp(x, -speed, speed);
    if x > 0 {
        x = x - friction;
    } else if x < 0 {
        x = x + friction;
    }
    x
}

/// Clamp the player back into the arena: afterwards the position lies in
/// `[0, arena − footprint]` on each axis, and the collision rectangle
/// tracks it.
pub fn bounds_check(game: &mut Game)
    requires
        old(game).player.tex_w <= old(game).arena_w,
        old(game).player.tex_h <= old(game).arena_h,
        0 < old(game).player.tex_w,
        0 < old(game).player.tex_h,
        -100_000_000 <= old(game).player.position.x <= 100_000_000,
        -100_000_000 <= old(game).player.position.y <= 100_000_000,
        0 < old(game).arena_w <= 2_000_000,
        0 < old(game).arena_h <= 2_000_000,
    ensures
        final(game).player.position.x == clamp_spec(
            old(game).player.position.x as int,
            0,
            old(game).arena_w - old(game).player.tex_w,
        ),
        final(game).player.position.y == clamp_spec(
            old(game).player.position.y as int,
            0,
            old(game).arena_h - old(game).player.tex_h,
        ),
        final(game).player == (Player {
            position: final(game).player.position,
            coll_rect: (Rect {
                x: final(game).player.position.x,
                y: final(game).player.position.y,
                w: old(game).player.tex_w,
                h: old(game).player.tex_h,
            }),
            ..old(game).player
        }),
        *final(game) == (Game { player: final(game).player, ..*old(game) }),
{
    let px = clamp(game.player.position.x, 0, game.arena_w - game.player.tex_w);
    let py = clamp(game.player.position.y, 0, game.arena_h - game.player.tex_h);
    game.player.position = Vec2 { x: px, y: py };
    game.player.coll_rect = Rect { x: px, y: py, w: game.player.tex_w, h: game.player.tex_h };
}

/// The full effect of one player pass from `pre` to `post`: every clause
/// of `player_update`'s contract, reusable where ticks are composed.
pub open spec fn player_update_rel(pre: Game, post: Game, intents: Intents, died: bool) -> bool {
    &&& post.wf()
    &&& died == (pre.player.health <= 0)
    &&& post.player.weapon_type == selected_weapon(pre.player.weapon_type, intents)
    &&& post.player.velocity.x == axis_step(
        pre.player.velocity.x as int,
        pre.player.acceleration as int,
        pre.player.friction as int,
        pre.player.speed as int,
        intents.move_left,
        intents.move_right,
    )
    &&& post.player.velocity.y == axis_step(
        pre.player.velocity.y as int,
        pre.player.acceleration as int,
        pre.player.friction as int,
        pre.player.speed as int,
        intents.move_up,
        intents.move_down,
    )
    // The position is integrated with the fresh velocity, then clamped
    // into the arena on both axes.
    &&& post.player.position.x == clamp_spec(
        pre.player.position.x + post.player.velocity.x,
        0,
        pre.arena_w - pre.player.tex_w,
    )
    &&& post.player.position.y == clamp_spec(
        pre.player.position.y + post.player.velocity.y,
        0,
        pre.arena_h - pre.player.tex_h,
    )
    &&& 0 <= post.player.position.x <= pre.arena_w - pre.player.tex_w
    &&& 0 <= post.player.position.y <= pre.arena_h - pre.player.tex_h
    &&& post.player.coll_rect == (Rect {
        x: post.player.position.x,
        y: post.player.position.y,
        w: pre.player.tex_w,
        h: pre.player.tex_h,
    })
    // Death: the snapshot is taken and the flag raised exactly when
    // health is already exhausted at the check.
    &&& died ==> post.player.is_dead && post.final_score == pre.score
    &&& !died ==> post.player.is_dead == pre.player.is_dead && post.final_score == pre.final_score
    // Health, score and stats pass through untouched by this pass
    // itself; the power-up step sets the stats.
    &&& post.player.health == pre.player.health
    &&& post.score == pre.score
    &&& post.player.stats_wf()
    // The power-up step runs inside this pass, against the unchanged
    // score and eligibility state.
    &&& crate::powerup::powerup_gate(pre) ==> (post.player.power_up
        == crate::player::PowerUpType::FastAttack || post.player.power_up
        == crate::player::PowerUpType::QuadDamage) && post.player.has_power_up
        && !post.can_get_powerup && post.power_up_timer == 1
    &&& !crate::powerup::powerup_gate(pre) && pre.player.has_power_up && pre.power_up_timer + 1
        >= crate::consts::POWER_UP_DURATION ==> post.player.power_up
        == crate::player::PowerUpType::NoPowerUp && !post.player.has_power_up
        && post.power_up_timer == 0 && post.can_get_powerup
    &&& !crate::powerup::powerup_gate(pre) && pre.player.has_power_up && pre.power_up_timer + 1
        < crate::consts::POWER_UP_DURATION ==> post.player.power_up == pre.player.power_up
        && post.player.has_power_up && post.power_up_timer == pre.power_up_timer + 1
        && !post.can_get_powerup
    &&& !crate::powerup::powerup_gate(pre) && !pre.player.has_power_up ==> post.player.power_up
        == crate::player::PowerUpType::NoPowerUp && post.power_up_timer == pre.power_up_timer
        && post.can_get_powerup == pre.can_get_powerup
    // The player's configuration (speeds, friction, footprint, fire
    // stamp) is untouched; only the fields above move.
    &&& post.player == (Player {
        position: post.player.position,
        velocity: post.player.velocity,
        coll_rect: post.player.coll_rect,
        weapon_type: post.player.weapon_type,
        is_dead: post.player.is_dead,
        power_up: post.player.power_up,
        has_power_up: post.player.has_power_up,
        fire_rate: post.player.fire_rate,
        shotgun_fire_rate: post.player.shotgun_fire_rate,
        damage: post.player.damage,
        ..pre.player
    })
    // Nothing else of the aggregate moves in this pass.
    &&& post == (Game {
        player: post.player,
        final_score: post.final_score,
        power_up_timer: post.power_up_timer,
        can_get_powerup: post.can_get_powerup,
        ..pre
    })
}

/// One tick of the player: weapon switching, the velocity pipeline on
/// both axes, the death check with its final-score snapshot, the power-up
/// pass, position integration, and the arena clamp.  Returns whether the
/// death transition fired this tick.
#[verifier::rlimit(60)]
pub fn player_update(game: &mut Game, intents: Intents) -> (died: bool)
    requires
        old(game).wf(),
    ensures
        player_update_rel(*old(game), *final(game), intents, died),
{
    if intents.select_pistol {
        game.player.weapon_type = WeaponType::Pistol;
    }
    if intents.select_machine {
        game.player.weapon_type = WeaponType::Machine;
    }
    if intents.select_shotgun {
        game.player.weapon_type = WeaponType::Shotgun;
    }
    let vx = axis_update(
        game.player.velocity.x,
        game.player.acceleration,
        game.player.friction,
        game.player.speed,
        intents.move_left,
        intents.move_right,
    );
    let vy = axis_update(
        game.player.velocity.y,
        game.player.acceleration,
        game.player.friction,
        game.player.speed,
        intents.move_up,
        intents.move_down,
    );
    game.player.velocity = Vec2 { x: vx, y: vy };
    let died = game.player.health <= 0;
    if died {
        game.final_score = game.score;
        game.player.is_dead = true;
    }
    player_powerups(game);
    game.player.position = Vec2 {
        x: game.player.position.x + game.player.velocity.x,
        y: game.player.position.y + game.player.velocity.y,
    };
    game.player.coll_rect = Rect {
        x: game.player.position.x,
        y: game.player.position.y,
        w: game.player.tex_w,
        h: game.player.tex_h,
    };
    bounds_check(game);
    died
}

} // verus!
