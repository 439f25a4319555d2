//! Enemies: position, steering speed, health, and the contact-attack
//! cooldown.

use vstd::prelude::*;
use crate::consts::{
    POS_LIMIT, DIM_LIMIT, SPEED_LIMIT, ENEMY_SPEED, ENEMY_START_HEALTH, ENEMY_HEALTH_FLOOR,
};
use crate::geom::{Vec2, Rect};

verus! {

/// One enemy.  Enemies are value-copyable so that the steering pass can
/// read a whole-population snapshot while a fresh population is written.
#[derive(Clone, Copy, PartialEq, Eq, Structural, Debug)]
pub struct Enemy {
    pub position: Vec2,
    pub speed: i64,
    pub coll_rect: Rect,
    pub health: i64,
    pub dmg_cd: u64,
    pub can_attack: bool,
}

impl Enemy {
    /// Well-formedness between ticks: bounded coordinates, the collision
    /// rectangle glued to the position, health within the engine's range,
    /// the cooldown stamp not ahead of the clock.
    pub open spec fn wf(self, now: u64) -> bool {
        &&& self.position.in_range()
        &&& 1 <= self.speed <= SPEED_LIMIT
        &&& ENEMY_HEALTH_FLOOR <= self.health <= ENEMY_START_HEALTH
        &&& self.coll_rect.wf()
        &&& self.coll_rect.x == self.position.x
        &&& self.coll_rect.y == self.position.y
        &&& self.dmg_cd <= now
    }

    /// A fresh enemy at a spawn point, ready to attack.
    pub fn new(position: Vec2, tex_w: i64, tex_h: i64, health: i64, now: u64) -> (e: Enemy)
        requires
            position.in_range(),
            0 < tex_w <= DIM_LIMIT,
            0 < tex_h <= DIM_LIMIT,
            0 < health <= ENEMY_START_HEALTH,
        ensures
            e.wf(now),
            e.position == position,
            e.speed == ENEMY_SPEED,
            e.coll_rect == (Rect { x: position.x, y: position.y, w: tex_w, h: tex_h }),
            e.health == health,
            e.dmg_cd == now,
            e.can_attack,
    {
        Enemy {
            position,
            speed: ENEMY_SPEED,
            coll_rect: Rect { x: position.x, y: position.y, w: tex_w, h: tex_h },
            health,
            dmg_cd: now,
            can_attack: true,
        }
    }
}

} // verus!
