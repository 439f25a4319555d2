//! Projectiles: spawned toward a target, advanced each tick, deactivated
//! on leaving the arena.

use vstd::prelude::*;
use crate::consts::{SCALE, POS_LIMIT, DIM_LIMIT, SPEED_LIMIT, ARENA_LIMIT};
use crate::geom::{
    Vec2, Rect, sabs, tdiv, unit_x, unit_y, unit_scaled, div_pos, lemma_tdiv_bound,
};

verus! {

/// One projectile.  The velocity is the unit direction from the spawn
/// point toward the target, scaled by `SCALE`; it is computed once at
/// creation and never changes.
#[derive(Clone, Copy, PartialEq, Eq, Structural, Debug)]
pub struct Bullet {
    pub position: Vec2,
    pub coll_rect: Rect,
    pub target: Vec2,
    pub is_active: bool,
    pub velocity: Vec2,
    pub speed: i64,
}

/// Per-axis displacement of a projectile in one tick.
pub open spec fn bullet_step(v: int, speed: int) -> int {
    tdiv(v * speed, SCALE as int)
}

/// A projectile after one tick: the position advances by velocity times
/// speed, the projectile is deactivated once either coordinate leaves
/// `[0, arena]`, and the collision rectangle follows the position.
pub open spec fn advanced_spec(b: Bullet, aw: int, ah: int) -> Bullet {
    let nx = b.position.x + bullet_step(b.velocity.x as int, b.speed as int);
    let ny = b.position.y + bullet_step(b.velocity.y as int, b.speed as int);
    Bullet {
        position: Vec2 { x: nx as i64, y: ny as i64 },
        coll_rect: Rect { x: nx as i64, y: ny as i64, ..b.coll_rect },
        is_active: b.is_active && 0 <= nx <= aw && 0 <= ny <= ah,
        ..b
    }
}

impl Bullet {
    /// Well-formedness between ticks: bounded coordinates, a unit-scaled
    /// velocity whose larger component is at least half of `SCALE`, the
    /// collision rectangle glued to the position, and — while active — a
    /// position inside the arena.
    pub open spec fn wf(self, aw: int, ah: int) -> bool {
        &&& self.position.in_range()
        &&& self.target.in_range()
        &&& -SCALE <= self.velocity.x <= SCALE
        &&& -SCALE <= self.velocity.y <= SCALE
        &&& (sabs(self.velocity.x as int) >= 500 || sabs(self.velocity.y as int) >= 500)
        &&& 1 <= self.speed <= SPEED_LIMIT
        &&& self.coll_rect.wf()
        &&& self.coll_rect.x == self.position.x
        &&& self.coll_rect.y == self.position.y
        &&& (self.is_active ==> 0 <= self.position.x <= aw && 0 <= self.position.y <= ah)
    }

    /// A fresh projectile.  The direction is the normalized vector from
    /// `position` toward `target`; the two points must differ, since the
    /// zero vector has no direction — fire control guards this.
    pub fn new(position: Vec2, tex_w: i64, tex_h: i64, target: Vec2, is_active: bool, speed: i64)
        -> (b: Bullet)
        requires
            position.in_range(),
            target.in_range(),
            !(position.x == target.x && position.y == target.y),
            0 < tex_w <= DIM_LIMIT,
            0 < tex_h <= DIM_LIMIT,
            1 <= speed <= SPEED_LIMIT,
        ensures
            b.position == position,
            b.target == target,
            b.is_active == is_active,
            b.speed == speed,
            b.coll_rect == (Rect { x: position.x, y: position.y, w: tex_w, h: tex_h }),
            b.velocity.x == unit_x(target.x - position.x, target.y - position.y),
            b.velocity.y == unit_y(target.x - position.x, target.y - position.y),
            -SCALE <= b.velocity.x <= SCALE,
            -SCALE <= b.velocity.y <= SCALE,
            sabs(b.velocity.x as int) >= 500 || sabs(b.velocity.y as int) >= 500,
    {
        let dx = target.x - position.x;
        let dy = target.y - position.y;
        let (vx, vy) = unit_scaled(dx, dy);
        Bullet {
            position,
            coll_rect: Rect { x: position.x, y: position.y, w: tex_w, h: tex_h },
            target,
            is_active,
            velocity: Vec2 { x: vx, y: vy },
            speed,
        }
    }

    /// One tick of motion with the deactivation check against the arena.
    pub fn advanced(&self, arena_w: i64, arena_h: i64) -> (b: Bullet)
        requires
            self.position.in_range(),
            -SCALE <= self.velocity.x <= SCALE,
            -SCALE <= self.velocity.y <= SCALE,
            1 <= self.speed <= SPEED_LIMIT,
            0 < arena_w <= ARENA_LIMIT,
            0 < arena_h <= ARENA_LIMIT,
        ensures
            b == advanced_spec(*self, arena_w as int, arena_h as int),
            -POS_LIMIT - SPEED_LIMIT <= b.position.x <= POS_LIMIT + SPEED_LIMIT,
            -POS_LIMIT - SPEED_LIMIT <= b.position.y <= POS_LIMIT + SPEED_LIMIT,
    {
        proof {
            assert(-(100_000i64 * 1000) <= self.velocity.x * self.speed <= 100_000i64 * 1000
                && -(100_000i64 * 1000) <= self.velocity.y * self.speed <= 100_000i64 * 1000)
                by (nonlinear_arith)
                requires
                    -1000 <= self.velocity.x <= 1000,
                    -1000 <= self.velocity.y <= 1000,
                    1 <= self.speed <= 100_000,
            ;
            lemma_tdiv_bound(self.velocity.x * self.speed, SCALE as int, SPEED_LIMIT as int);
            lemma_tdiv_bound(self.velocity.y * self.speed, SCALE as int, SPEED_LIMIT as int);
        }
        let sx = div_pos(self.velocity.x * self.speed, SCALE);
        let sy = div_pos(self.velocity.y * self.speed, SCALE);
        let nx = self.position.x + sx;
        let ny = self.position.y + sy;
        let active = self.is_active && 0 <= nx && nx <= arena_w && 0 <= ny && ny <= arena_h;
        Bullet {
            position: Vec2 { x: nx, y: ny },
            coll_rect: Rect { x: nx, y: ny, ..self.coll_rect },
            is_active: active,
            ..*self
        }
    }
}

} // verus!
