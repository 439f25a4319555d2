//! Tuning constants of the simulation core.
//!
//! Coordinates are fixed-point: one unit is a thousandth of a pixel
//! (`SCALE` units per pixel).  Times are in milliseconds, except the
//! power-up timer, which counts ticks.

use vstd::prelude::*;

verus! {

/// Fixed-point scale: coordinate units per pixel.
pub const SCALE: i64 = 1000;

/// Every position coordinate the engine handles stays within
/// `[-POS_LIMIT, POS_LIMIT]`; enemy steering clamps into this range.
pub const POS_LIMIT: i64 = 10_000_000;

/// Largest supported arena side length (2000 pixels).
pub const ARENA_LIMIT: i64 = 2_000_000;

/// Largest supported footprint side length (1000 pixels).
pub const DIM_LIMIT: i64 = 1_000_000;

/// Largest supported scalar speed (100 pixels per tick).
pub const SPEED_LIMIT: i64 = 100_000;

/// Hard cap on the live enemy population.
pub const MAX_ENEMIES: usize = 1000;

/// Hard cap on the live projectile population (a machine limit: it keeps
/// per-tick damage sums within `i64`; unreachable in ordinary play, since
/// projectiles leave the arena after a bounded number of ticks).
pub const MAX_BULLETS: usize = 100_000;

/// Health subtracted from the player by one enemy contact.
pub const CONTACT_DAMAGE: i64 = 10;

/// Milliseconds before a touching enemy may damage the player again.
pub const ATTACK_COOLDOWN: u64 = 500;

/// Score granted once per enemy whose health crosses to zero or below.
pub const KILL_REWARD: i64 = 5;

/// Health of a freshly spawned enemy.
pub const ENEMY_START_HEALTH: i64 = 10;

/// Distance an enemy covers per tick, in coordinate units (1 pixel).
pub const ENEMY_SPEED: i64 = 1000;

/// Health of a freshly created (or reset) player.
pub const PLAYER_START_HEALTH: i64 = 500;

/// Lowest value player health can hold between ticks: contact damage is
/// only dealt for at most two ticks after health reaches zero, by at most
/// `MAX_ENEMIES` enemies of `CONTACT_DAMAGE` each.
pub const PLAYER_HEALTH_FLOOR: i64 = -19_999;

/// Lowest value enemy health can hold between ticks: an enemy enters the
/// resolver with positive health and each of at most `MAX_BULLETS`
/// projectiles deals at most `QUAD_DAMAGE`.
pub const ENEMY_HEALTH_FLOOR: i64 = -1_999_999;

/// Per-input-press change of one velocity component (1 pixel per tick).
pub const PLAYER_ACCELERATION: i64 = 1000;

/// Per-tick decay of each nonzero velocity component (half a pixel).
pub const PLAYER_FRICTION: i64 = 500;

/// Default player maximum speed (3 pixels per tick).
pub const DEFAULT_PLAYER_SPEED: i64 = 3000;

/// Baseline milliseconds between machine-gun shots.
pub const BASE_FIRE_RATE: u64 = 100;

/// Baseline milliseconds between shotgun triggers.
pub const BASE_SHOTGUN_FIRE_RATE: u64 = 900;

/// Machine-gun interval under the fast-attack power-up (halved baseline).
pub const FAST_FIRE_RATE: u64 = 50;

/// Shotgun interval under the fast-attack power-up (halved baseline).
pub const FAST_SHOTGUN_FIRE_RATE: u64 = 450;

/// Baseline damage stat of the player.
pub const BASE_DAMAGE: i64 = 5;

/// Damage stat under the quad-damage power-up.
pub const QUAD_DAMAGE: i64 = 20;

/// Machine-gun projectiles deal the damage stat lowered by this.
pub const MACHINE_DAMAGE_PENALTY: i64 = 2;

/// Ticks an active power-up lasts.
pub const POWER_UP_DURATION: u64 = 500;

/// A power-up may be granted when score is a multiple of this.
pub const POWER_UP_SCORE_STEP: i64 = 50;

/// Pistol projectile speed (5 pixels per tick).
pub const PISTOL_BULLET_SPEED: i64 = 5000;

/// Machine-gun projectile speed (7 pixels per tick).
pub const MACHINE_BULLET_SPEED: i64 = 7000;

/// Shotgun projectile speed (7 pixels per tick).
pub const SHOTGUN_BULLET_SPEED: i64 = 7000;

/// Projectiles leave the muzzle this far below the player position
/// (16 pixels).
pub const MUZZLE_OFFSET_Y: i64 = 16_000;

/// A shotgun pellet's synthetic target lies this many pixels from the
/// muzzle along the pellet's direction.
pub const SHOTGUN_TARGET_RANGE: i64 = 100;

/// Cosine of half the shotgun spread angle (10 degrees), times `SCALE`.
pub const SPREAD_COS: i64 = 985;

/// Sine of half the shotgun spread angle (10 degrees), times `SCALE`.
pub const SPREAD_SIN: i64 = 174;

/// Milliseconds between enemy spawns.
pub const SPAWN_RATE: u64 = 500;

/// Spawn points sit this far from the arena's low edges (10 pixels).
pub const SPAWN_MARGIN: i64 = 10_000;

/// Spawn points sit this far from the arena's high edges (50 pixels).
pub const SPAWN_INSET: i64 = 50_000;

/// Machine limit on the score a tick may start from, so that one tick's
/// kill rewards cannot overflow (`i64` holds far more).
pub const SCORE_LIMIT: i64 = 1_000_000_000_000;

} // verus!
