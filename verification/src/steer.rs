//! The steering and avoidance engine: every tick each enemy seeks the
//! player and is repelled by overlapping neighbors with inverse-distance
//! weight, evaluated against a snapshot of the population taken before
//! any enemy moves.  The same pass credits the kill reward once per dead
//! enemy and removes the dead from the live set.

use vstd::prelude::*;
use crate::consts::{SCALE, POS_LIMIT, KILL_REWARD, SCORE_LIMIT, MAX_ENEMIES};
use crate::geom::{
    Vec2, Rect, tdiv, clamp_spec, clamp, unit_x, unit_y, vlen, unit_scaled, vec_len, div_pos,
    overlaps_spec, lemma_unit_props,
};
use crate::game::Game;
use crate::enemy::Enemy;
use crate::seq_util::lemma_filter_push;

verus! {

/// X component of the seek direction: the unit vector from the enemy
/// toward the player, zero when the two coincide.
pub open spec fn seek_x(e: Enemy, ppos: Vec2) -> int {
    let dx = ppos.x - e.position.x;
    let dy = ppos.y - e.position.y;
    if dx == 0 && dy == 0 {
        0
    } else {
        unit_x(dx, dy)
    }
}

/// Y component of the seek direction.
pub open spec fn seek_y(e: Enemy, ppos: Vec2) -> int {
    let dx = ppos.x - e.position.x;
    let dy = ppos.y - e.position.y;
    if dx == 0 && dy == 0 {
        0
    } else {
        unit_y(dx, dy)
    }
}

/// X component of the repulsion one overlapping neighbor contributes:
/// the unit vector away from the neighbor, divided by the distance
/// (inverse-distance weighting); zero without overlap or at distance
/// zero.
pub open spec fn avoid_term_x(e: Enemy, o: Enemy) -> int {
    let ax = e.position.x - o.position.x;
    let ay = e.position.y - o.position.y;
    if overlaps_spec(e.coll_rect, o.coll_rect) && !(ax == 0 && ay == 0) {
        tdiv(unit_x(ax, ay) * (SCALE as int), vlen(ax, ay))
    } else {
        0
    }
}

/// Y component of the same repulsion.
pub open spec fn avoid_term_y(e: Enemy, o: Enemy) -> int {
    let ax = e.position.x - o.position.x;
    let ay = e.position.y - o.position.y;
    if overlaps_spec(e.coll_rect, o.coll_rect) && !(ax == 0 && ay == 0) {
        tdiv(unit_y(ax, ay) * (SCALE as int), vlen(ax, ay))
    } else {
        0
    }
}

/// Sum of the repulsion terms over the first `n` snapshot entries.
pub open spec fn avoid_sum_x(e: Enemy, all: Seq<Enemy>, n: int) -> int
    decreases n,
{
    if n <= 0 {
        0
    } else {
        avoid_sum_x(e, all, n - 1) + avoid_term_x(e, all[n - 1])
    }
}

/// Y component of the repulsion sum.
pub open spec fn avoid_sum_y(e: Enemy, all: Seq<Enemy>, n: int) -> int
    decreases n,
{
    if n <= 0 {
        0
    } else {
        avoid_sum_y(e, all, n - 1) + avoid_term_y(e, all[n - 1])
    }
}

/// With no overlapping rectangles among distinct positions, no repulsion
/// term contributes.
pub proof fn lemma_avoid_sum_zero(e: Enemy, all: Seq<Enemy>, n: int)
    requires
        n <= all.len(),
        forall|k: int|
            0 <= k < all.len() ==> !overlaps_spec(e.coll_rect, (#[trigger] all[k]).coll_rect)
                || all[k].position == e.position,
    ensures
        avoid_sum_x(e, all, n) == 0,
        avoid_sum_y(e, all, n) == 0,
    decreases n,
{
    if n > 0 {
        lemma_avoid_sum_zero(e, all, n - 1);
    }
}

/// An enemy after one steering step against the snapshot `all`: the seek
/// and repulsion vectors add up un-renormalized, are scaled by the
/// enemy's speed, and move the position, which is then clamped into the
/// engine's supported coordinate range; the collision rectangle follows.
pub open spec fn moved_enemy(e: Enemy, all: Seq<Enemy>, ppos: Vec2) -> Enemy {
    let sx = seek_x(e, ppos) + avoid_sum_x(e, all, all.len() as int);
    let sy = seek_y(e, ppos) + avoid_sum_y(e, all, all.len() as int);
    let nx = clamp_spec(e.position.x + tdiv(sx * e.speed, SCALE as int), -POS_LIMIT as int, POS_LIMIT as int);
    let ny = clamp_spec(e.position.y + tdiv(sy * e.speed, SCALE as int), -POS_LIMIT as int, POS_LIMIT as int);
    Enemy {
        position: Vec2 { x: nx as i64, y: ny as i64 },
        coll_rect: Rect { x: nx as i64, y: ny as i64, ..e.coll_rect },
        ..e
    }
}

/// How many of the first `n` snapshot entries are dead (health at or
/// below zero) at the start of the pass.
pub open spec fn dead_count(all: Seq<Enemy>, n: int) -> int
    decreases n,
{
    if n <= 0 {
        0
    } else {
        dead_count(all, n - 1) + if all[n - 1].health <= 0 {
            1int
        } else {
            0int
        }
    }
}

/// Steering on a population with no overlapping rectangles reduces to
/// pure seek: the repulsion sum vanishes, and the enemy moves by its
/// seek direction alone (scaled by its speed and clamped to the
/// supported range).  Neighbors at the enemy's exact position are
/// allowed; they contribute nothing either, as the enemy itself always
/// stands in the snapshot.
pub proof fn lemma_steering_pure_seek(e: Enemy, all: Seq<Enemy>, ppos: Vec2)
    requires
        forall|k: int|
            0 <= k < all.len() ==> !overlaps_spec(e.coll_rect, (#[trigger] all[k]).coll_rect)
                || all[k].position == e.position,
    ensures
        moved_enemy(e, all, ppos).position.x == clamp_spec(
            e.position.x + tdiv(seek_x(e, ppos) * e.speed, SCALE as int),
            -POS_LIMIT as int,
            POS_LIMIT as int,
        ),
        moved_enemy(e, all, ppos).position.y == clamp_spec(
            e.position.y + tdiv(seek_y(e, ppos) * e.speed, SCALE as int),
            -POS_LIMIT as int,
            POS_LIMIT as int,
        ),
{
    lemma_avoid_sum_zero(e, all, all.len() as int);
}

/// Whether `x` is the moved version of some live entry of the snapshot.
pub open spec fn from_live_enemy(x: Enemy, all: Seq<Enemy>, ppos: Vec2) -> bool {
    exists|j: int|
        0 <= j < all.len() && (#[trigger] all[j]).health > 0 && x == moved_enemy(all[j], all, ppos)
}

/// The full effect of one steering pass from `pre` to `post`: every
/// clause of `enemy_update`'s contract, reusable where ticks are
/// composed.
pub open spec fn enemy_update_rel(pre: Game, post: Game) -> bool {
    &&& post.wf()
    &&& post.score == pre.score + KILL_REWARD * dead_count(
        pre.enemies@,
        pre.enemies@.len() as int,
    )
    &&& post.enemies@ == pre.enemies@.map_values(
        |e: Enemy| moved_enemy(e, pre.enemies@, pre.player.position),
    ).filter(|e: Enemy| e.health > 0)
    &&& forall|i: int| 0 <= i < post.enemies@.len() ==> (#[trigger] post.enemies@[i]).health > 0
    &&& forall|i: int|
        0 <= i < post.enemies@.len() ==> from_live_enemy(
            #[trigger] post.enemies@[i],
            pre.enemies@,
            pre.player.position,
        )
    &&& post == (Game { enemies: post.enemies, score: post.score, ..pre })
}

/// One tick of the steering engine.  Every enemy is advanced by its
/// steering vector against the start-of-tick snapshot; the kill reward
/// is credited exactly once per enemy whose health is at or below zero,
/// and those enemies are removed from the live set, order preserved.
#[verifier::rlimit(80)]
pub fn enemy_update(game: &mut Game)
    requires
        old(game).wf(),
        old(game).score + KILL_REWARD * old(game).enemies@.len() <= SCORE_LIMIT,
    ensures
        enemy_update_rel(*old(game), *final(game)),
{
    let ghost all = game.enemies@;
    let ghost f = |e: Enemy| moved_enemy(e, all, old(game).player.position);
    let ghost p = |e: Enemy| e.health > 0;
    let ppos = game.player.position;
    let n = game.enemies.len();
    let mut res: Vec<Enemy> = Vec::new();
    let mut dead: i64 = 0;
    let mut i: usize = 0;
    proof {
        reveal(Seq::filter);
        assert(all.take(0) =~= Seq::<Enemy>::empty());
        assert(all.take(0).map_values(f) =~= Seq::<Enemy>::empty());
        assert(all.take(0).map_values(f).filter(p) =~= Seq::<Enemy>::empty());
    }
    while i < n
        invariant
            n == all.len() <= MAX_ENEMIES,
            game.enemies@ == all,
            ppos == old(game).player.position,
            ppos.in_range(),
            f == (|e: Enemy| moved_enemy(e, all, old(game).player.position)),
            p == (|e: Enemy| e.health > 0),
            forall|k: int| 0 <= k < n ==> (#[trigger] all[k]).wf(old(game).now),
            i <= n,
            res@ == all.take(i as int).map_values(f).filter(p),
            res@.len() <= i,
            forall|k: int| 0 <= k < res@.len() ==> (#[trigger] res@[k]).health > 0,
            forall|k: int|
                0 <= k < res@.len() ==> from_live_enemy(
                    #[trigger] res@[k],
                    all,
                    old(game).player.position,
                ),
            forall|k: int| 0 <= k < res@.len() ==> (#[trigger] res@[k]).wf(old(game).now),
            dead == dead_count(all, i as int),
            0 <= dead <= i,
        decreases n - i,
    {
        let e = game.enemies[i];
        let dx = ppos.x - e.position.x;
        let dy = ppos.y - e.position.y;
        let (kx, ky): (i64, i64) = if dx == 0 && dy == 0 {
            (0, 0)
        } else {
            unit_scaled(dx, dy)
        };
        let mut sx: i64 = kx;
        let mut sy: i64 = ky;
        let mut j: usize = 0;
        while j < n
            invariant
                n == all.len() <= MAX_ENEMIES,
                game.enemies@ == all,
                forall|k: int| 0 <= k < n ==> (#[trigger] all[k]).wf(old(game).now),
                0 <= (i as int) < n,
                e == all[i as int],
                e.position.in_range(),
                e.coll_rect.wf(),
                -1000 <= kx <= 1000,
                -1000 <= ky <= 1000,
                j <= n,
                sx == kx + avoid_sum_x(e, all, j as int),
                sy == ky + avoid_sum_y(e, all, j as int),
                -1000 - (j as int) * 1_000_000 <= sx <= 1000 + (j as int) * 1_000_000,
                -1000 - (j as int) * 1_000_000 <= sy <= 1000 + (j as int) * 1_000_000,
            decreases n - j,
        {
            let o = game.enemies[j];
            if e.coll_rect.overlaps(&o.coll_rect) {
                let ax = e.position.x - o.position.x;
                let ay = e.position.y - o.position.y;
                if !(ax == 0 && ay == 0) {
                    let (ux, uy) = unit_scaled(ax, ay);
                    let ad = vec_len(ax, ay);
                    proof {
                        lemma_unit_props(ax as int, ay as int);
                    }
                    let tx = div_pos(ux * SCALE, ad as i64);
                    let ty = div_pos(uy * SCALE, ad as i64);
                    sx = sx + tx;
                    sy = sy + ty;
                }
            }
            j = j + 1;
        }
        // Scale by the enemy's speed and move, clamping into the
        // supported coordinate range.
        proof {
            assert(-(1_000_001_000i64 * 100_000) <= sx * e.speed <= 1_000_001_000i64 * 100_000
                && -(1_000_001_000i64 * 100_000) <= sy * e.speed <= 1_000_001_000i64 * 100_000)
                by (nonlinear_arith)
                requires
                    -1_000_001_000 <= sx <= 1_000_001_000,
                    -1_000_001_000 <= sy <= 1_000_001_000,
                    1 <= e.speed <= 100_000,
            ;
        }
        let mx = div_pos(sx * e.speed, SCALE);
        let my = div_pos(sy * e.speed, SCALE);
        let nx = clamp(e.position.x + mx, -POS_LIMIT, POS_LIMIT);
        let ny = clamp(e.position.y + my, -POS_LIMIT, POS_LIMIT);
        if e.health <= 0 {
            dead = dead + 1;
        }
        let moved = Enemy {
            position: Vec2 { x: nx, y: ny },
            coll_rect: Rect { x: nx, y: ny, ..e.coll_rect },
            ..e
        };
        proof {
            assert(moved == moved_enemy(e, all, old(game).player.position));
            let prev = all.take(i as int).map_values(f);
            assert(all.take(i + 1 as int) =~= all.take(i as int).push(e));
            assert(all.take(i as int).push(e).map_values(f) =~= prev.push(f(e)));
            lemma_filter_push(prev, f(e), p);
            if moved.health > 0 {
                assert(all[i as int].health > 0 && moved == moved_enemy(
                    all[i as int],
                    all,
                    old(game).player.position,
                ));
                assert(from_live_enemy(moved, all, old(game).player.position));
            }
        }
        if moved.health > 0 {
            res.push(moved);
        }
        i = i + 1;
    }
    proof {
        assert(all.take(n as int) =~= all);
    }
    game.score = game.score + KILL_REWARD * dead;
    game.enemies = res;
}

} // verus!
