//! The player: movement state, combat stats, weapon and power-up state.

use vstd::prelude::*;
use crate::consts::{
    SCALE, POS_LIMIT, DIM_LIMIT, SPEED_LIMIT, PLAYER_START_HEALTH, PLAYER_HEALTH_FLOOR,
    PLAYER_ACCELERATION, PLAYER_FRICTION, BASE_FIRE_RATE, BASE_SHOTGUN_FIRE_RATE,
    FAST_FIRE_RATE, FAST_SHOTGUN_FIRE_RATE, BASE_DAMAGE, QUAD_DAMAGE,
};
use crate::geom::{Vec2, Rect};

verus! {

/// The three weapons, selected by the numbered-key intents.
#[derive(Clone, Copy, PartialEq, Eq, Structural, Debug)]
pub enum WeaponType {
    Pistol,
    Machine,
    Shotgun,
}

/// The power-up in effect, if any.
#[derive(Clone, Copy, PartialEq, Eq, Structural, Debug)]
pub enum PowerUpType {
    NoPowerUp,
    FastAttack,
    QuadDamage,
}

/// The player's mutable combat and movement state.
#[derive(Clone, Copy, PartialEq, Eq, Structural, Debug)]
pub struct Player {
    pub position: Vec2,
    pub velocity: Vec2,
    pub acceleration: i64,
    pub friction: i64,
    pub health: i64,
    pub speed: i64,
    pub tex_w: i64,
    pub tex_h: i64,
    pub coll_rect: Rect,
    pub weapon_type: WeaponType,
    pub last_shot: u64,
    pub fire_rate: u64,
    pub shotgun_fire_rate: u64,
    pub is_dead: bool,
    pub damage: i64,
    pub power_up: PowerUpType,
    pub has_power_up: bool,
}

impl Player {
    /// The weapon stats implied by the current power-up: the fast-attack
    /// power-up halves both fire intervals, quad damage raises the damage
    /// stat, and with no power-up all three hold their baseline.
    pub open spec fn stats_wf(self) -> bool {
        &&& (self.power_up == PowerUpType::NoPowerUp ==> self.fire_rate == BASE_FIRE_RATE
            && self.shotgun_fire_rate == BASE_SHOTGUN_FIRE_RATE && self.damage == BASE_DAMAGE)
        &&& (self.power_up == PowerUpType::FastAttack ==> self.fire_rate == FAST_FIRE_RATE
            && self.shotgun_fire_rate == FAST_SHOTGUN_FIRE_RATE && self.damage == BASE_DAMAGE)
        &&& (self.power_up == PowerUpType::QuadDamage ==> self.fire_rate == BASE_FIRE_RATE
            && self.shotgun_fire_rate == BASE_SHOTGUN_FIRE_RATE && self.damage == QUAD_DAMAGE)
        &&& self.has_power_up == (self.power_up != PowerUpType::NoPowerUp)
    }

    /// Well-formedness between ticks: bounded coordinates and stats, the
    /// collision rectangle glued to the position, the timestamp not ahead
    /// of the clock.
    pub open spec fn wf(self, now: u64) -> bool {
        &&& self.position.in_range()
        &&& 1 <= self.speed <= SPEED_LIMIT
        &&& -self.speed <= self.velocity.x <= self.speed
        &&& -self.speed <= self.velocity.y <= self.speed
        &&& 0 <= self.acceleration <= SCALE
        &&& 0 <= self.friction <= SCALE
        &&& self.friction <= self.speed
        &&& PLAYER_HEALTH_FLOOR <= self.health <= PLAYER_START_HEALTH
        &&& 0 < self.tex_w <= DIM_LIMIT
        &&& 0 < self.tex_h <= DIM_LIMIT
        &&& self.coll_rect == (Rect {
            x: self.position.x,
            y: self.position.y,
            w: self.tex_w,
            h: self.tex_h,
        })
        &&& self.last_shot <= now
        &&& self.stats_wf()
    }

    /// A fresh player: centered by the caller, motionless, baseline stats,
    /// pistol in hand, no power-up.
    pub fn new(position: Vec2, speed: i64, tex_w: i64, tex_h: i64, now: u64) -> (p: Player)
        requires
            position.in_range(),
            PLAYER_FRICTION <= speed <= SPEED_LIMIT,
            0 < tex_w <= DIM_LIMIT,
            0 < tex_h <= DIM_LIMIT,
        ensures
            p.wf(now),
            p.position == position,
            p.velocity == (Vec2 { x: 0, y: 0 }),
            p.acceleration == PLAYER_ACCELERATION,
            p.friction == PLAYER_FRICTION,
            p.health == PLAYER_START_HEALTH,
            p.speed == speed,
            p.tex_w == tex_w,
            p.tex_h == tex_h,
            p.weapon_type == WeaponType::Pistol,
            p.last_shot == now,
            p.fire_rate == BASE_FIRE_RATE,
            p.shotgun_fire_rate == BASE_SHOTGUN_FIRE_RATE,
            !p.is_dead,
            p.damage == BASE_DAMAGE,
            p.power_up == PowerUpType::NoPowerUp,
            !p.has_power_up,
    {
        Player {
            position,
            velocity: Vec2 { x: 0, y: 0 },
            acceleration: PLAYER_ACCELERATION,
            friction: PLAYER_FRICTION,
            health: PLAYER_START_HEALTH,
            speed,
            tex_w,
            tex_h,
            coll_rect: Rect { x: position.x, y: position.y, w: tex_w, h: tex_h },
            weapon_type: WeaponType::Pistol,
            last_shot: now,
            fire_rate: BASE_FIRE_RATE,
            shotgun_fire_rate: BASE_SHOTGUN_FIRE_RATE,
            is_dead: false,
            damage: BASE_DAMAGE,
            power_up: PowerUpType::NoPowerUp,
            has_power_up: false,
        }
    }
}

} // verus!
