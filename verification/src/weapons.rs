//! Fire control and projectile motion: per-weapon cooldown gates, the
//! shotgun's three-pellet fan, one integration step for every live
//! projectile, and retirement of projectiles that left the arena.

use vstd::prelude::*;
use crate::consts::{
    SCALE, MAX_BULLETS, PISTOL_BULLET_SPEED, MACHINE_BULLET_SPEED, SHOTGUN_BULLET_SPEED,
    MUZZLE_OFFSET_Y, SHOTGUN_TARGET_RANGE, SPREAD_COS, SPREAD_SIN,
};
use crate::geom::{
    Vec2, Rect, unit_x, unit_y, rot_x, rot_y, unit_scaled, rotate_scaled, sabs,
    lemma_rot_keeps_direction,
};
use vstd::arithmetic::div_mod::lemma_div_by_multiple;
use crate::game::{Game, Intents};
use crate::player::{Player, WeaponType};
use crate::bullet::{Bullet, advanced_spec};
use crate::seq_util::lemma_filter_push;

verus! {

/// The muzzle: projectiles leave slightly below the player position.
pub open spec fn muzzle_spec(p: Player) -> Vec2 {
    Vec2 { x: p.position.x, y: (p.position.y + MUZZLE_OFFSET_Y) as i64 }
}

/// Room for the largest volley under the projectile cap (a machine
/// limit, see `MAX_BULLETS`).
pub open spec fn bullet_room(g: Game) -> bool {
    g.bullets@.len() + 3 <= MAX_BULLETS
}

/// The pistol fires on the press edge alone — one projectile per
/// discrete press — and only at a target distinct from the muzzle.
pub open spec fn pistol_gate(g: Game, intents: Intents) -> bool {
    &&& g.player.weapon_type == WeaponType::Pistol
    &&& intents.fire_pressed
    &&& intents.aim != muzzle_spec(g.player)
    &&& bullet_room(g)
}

/// The machine gun fires while held, gated by its fire interval.
pub open spec fn machine_gate(g: Game, intents: Intents) -> bool {
    &&& g.player.weapon_type == WeaponType::Machine
    &&& intents.fire_down
    &&& g.now - g.player.last_shot > g.player.fire_rate
    &&& intents.aim != muzzle_spec(g.player)
    &&& bullet_room(g)
}

/// The shotgun fires while held, gated by its own interval.
pub open spec fn shotgun_gate(g: Game, intents: Intents) -> bool {
    &&& g.player.weapon_type == WeaponType::Shotgun
    &&& intents.fire_down
    &&& g.now - g.player.last_shot > g.player.shotgun_fire_rate
    &&& intents.aim != muzzle_spec(g.player)
    &&& bullet_room(g)
}

/// The projectile a fire event creates, before its first motion step.
pub open spec fn spawned_bullet(muz: Vec2, target: Vec2, w: i64, h: i64, speed: i64) -> Bullet {
    Bullet {
        position: muz,
        coll_rect: Rect { x: muz.x, y: muz.y, w, h },
        target,
        is_active: true,
        velocity: Vec2 {
            x: unit_x(target.x - muz.x, target.y - muz.y) as i64,
            y: unit_y(target.x - muz.x, target.y - muz.y) as i64,
        },
        speed,
    }
}

/// A shotgun pellet's synthetic target: the aim direction rotated by the
/// angle whose scaled cosine and sine are `c` and `s`, scaled out to the
/// pellet range from the muzzle.
pub open spec fn pellet_target(g: Game, intents: Intents, c: int, s: int) -> Vec2 {
    let muz = muzzle_spec(g.player);
    let ux = unit_x(intents.aim.x - muz.x, intents.aim.y - muz.y);
    let uy = unit_y(intents.aim.x - muz.x, intents.aim.y - muz.y);
    Vec2 {
        x: (muz.x + rot_x(ux, uy, c, s) * SHOTGUN_TARGET_RANGE) as i64,
        y: (muz.y + rot_y(ux, uy, c, s) * SHOTGUN_TARGET_RANGE) as i64,
    }
}

/// The projectiles one tick's fire event adds: none without a fire
/// intent or past a gate, one straight shot for pistol and machine gun,
/// and the shotgun's fan of three — the aim direction rotated by minus
/// half the spread, zero, and plus half the spread.
pub open spec fn fired_seq(g: Game, intents: Intents) -> Seq<Bullet> {
    let muz = muzzle_spec(g.player);
    match g.player.weapon_type {
        WeaponType::Pistol => if pistol_gate(g, intents) {
            seq![spawned_bullet(muz, intents.aim, g.bullet_w, g.bullet_h, PISTOL_BULLET_SPEED)]
        } else {
            Seq::empty()
        },
        WeaponType::Machine => if machine_gate(g, intents) {
            seq![spawned_bullet(muz, intents.aim, g.bullet_w, g.bullet_h, MACHINE_BULLET_SPEED)]
        } else {
            Seq::empty()
        },
        WeaponType::Shotgun => if shotgun_gate(g, intents) {
            seq![
                spawned_bullet(
                    muz,
                    pellet_target(g, intents, SPREAD_COS as int, -SPREAD_SIN as int),
                    g.bullet_w,
                    g.bullet_h,
                    SHOTGUN_BULLET_SPEED,
                ),
                spawned_bullet(
                    muz,
                    pellet_target(g, intents, SCALE as int, 0),
                    g.bullet_w,
                    g.bullet_h,
                    SHOTGUN_BULLET_SPEED,
                ),
                spawned_bullet(
                    muz,
                    pellet_target(g, intents, SPREAD_COS as int, SPREAD_SIN as int),
                    g.bullet_w,
                    g.bullet_h,
                    SHOTGUN_BULLET_SPEED,
                ),
            ]
        } else {
            Seq::empty()
        },
    }
}

/// What must hold of any projectile entering the motion step: bounded
/// coordinates, a unit-scaled velocity with a large component, the
/// collision rectangle glued to the position.
pub open spec fn flight_wf(b: Bullet) -> bool {
    &&& b.position.in_range()
    &&& b.target.in_range()
    &&& -SCALE <= b.velocity.x <= SCALE
    &&& -SCALE <= b.velocity.y <= SCALE
    &&& (sabs(b.velocity.x as int) >= 500 || sabs(b.velocity.y as int) >= 500)
    &&& 1 <= b.speed <= 100_000
    &&& b.coll_rect.wf()
    &&& b.coll_rect.x == b.position.x
    &&& b.coll_rect.y == b.position.y
}

/// Rotating by the zero angle changes nothing.
pub proof fn lemma_rot_identity(ux: int, uy: int)
    ensures
        rot_x(ux, uy, SCALE as int, 0) == ux,
        rot_y(ux, uy, SCALE as int, 0) == uy,
{
    if ux >= 0 {
        lemma_div_by_multiple(ux, 1000);
    } else {
        lemma_div_by_multiple(-ux, 1000);
    }
    if uy >= 0 {
        lemma_div_by_multiple(uy, 1000);
    } else {
        lemma_div_by_multiple(-uy, 1000);
    }
}

/// The full effect of one fire-control-and-motion pass from `pre` to
/// `post`: every clause of `bullet_update`'s contract, reusable where
/// ticks are composed.
pub open spec fn bullet_update_rel(pre: Game, post: Game, intents: Intents, fired: bool) -> bool {
    &&& post.wf()
    &&& post.bullets@ == (pre.bullets@ + fired_seq(pre, intents)).map_values(
        |b: Bullet| advanced_spec(b, pre.arena_w as int, pre.arena_h as int),
    ).filter(|b: Bullet| b.is_active)
    &&& forall|j: int|
        0 <= j < post.bullets@.len() ==> (#[trigger] post.bullets@[j]).is_active && 0
            <= post.bullets@[j].position.x <= pre.arena_w && 0 <= post.bullets@[j].position.y
            <= pre.arena_h
    &&& fired == (fired_seq(pre, intents).len() > 0)
    &&& (machine_gate(pre, intents) || shotgun_gate(pre, intents)) ==> post.player.last_shot
        == pre.now
    &&& !(machine_gate(pre, intents) || shotgun_gate(pre, intents)) ==> post.player.last_shot
        == pre.player.last_shot
    &&& post.player == (Player { last_shot: post.player.last_shot, ..pre.player })
    &&& post == (Game { bullets: post.bullets, player: post.player, ..pre })
}

/// One tick of fire control and projectile motion.  The gated fire event
/// appends its projectiles; every projectile (the fresh ones included)
/// then advances one step and is deactivated if it left the arena; the
/// inactive ones are removed, order preserved.  The machine gun and the
/// shotgun restart their intervals on a successful fire.  Returns
/// whether a shot was fired, for the audio collaborator.
#[verifier::rlimit(100)]
pub fn bullet_update(game: &mut Game, intents: Intents) -> (fired: bool)
    requires
        old(game).wf(),
        0 <= old(game).player.position.x <= old(game).arena_w,
        0 <= old(game).player.position.y <= old(game).arena_h,
        intents.aim.in_range(),
    ensures
        bullet_update_rel(*old(game), *final(game), intents, fired),
{
    let ghost added = fired_seq(*old(game), intents);
    let aw = game.arena_w;
    let ah = game.arena_h;
    let muz = Vec2 { x: game.player.position.x, y: game.player.position.y + MUZZLE_OFFSET_Y };
    proof {
        assert(muz == muzzle_spec(old(game).player));
    }
    let mut fired = false;

    // Copy the live projectiles into the working set.
    let n0 = game.bullets.len();
    let mut work: Vec<Bullet> = Vec::new();
    let mut i: usize = 0;
    while i < n0
        invariant
            n0 == game.bullets@.len(),
            game.bullets@ == old(game).bullets@,
            i <= n0,
            work@ == game.bullets@.take(i as int),
        decreases n0 - i,
    {
        let b = game.bullets[i];
        work.push(b);
        proof {
            assert(game.bullets@.take(i + 1 as int) =~= game.bullets@.take(i as int).push(b));
        }
        i = i + 1;
    }
    proof {
        assert(game.bullets@.take(n0 as int) =~= game.bullets@);
    }

    // Fire control: append this tick's projectiles.
    let room = game.bullets.len() <= MAX_BULLETS - 3;
    match game.player.weapon_type {
        WeaponType::Pistol => {
            if intents.fire_pressed && !(intents.aim.x == muz.x && intents.aim.y == muz.y)
                && room {
                let b = Bullet::new(
                    muz,
                    game.bullet_w,
                    game.bullet_h,
                    intents.aim,
                    true,
                    PISTOL_BULLET_SPEED,
                );
                work.push(b);
                fired = true;
            }
        },
        WeaponType::Machine => {
            if intents.fire_down && game.now - game.player.last_shot > game.player.fire_rate
                && !(intents.aim.x == muz.x && intents.aim.y == muz.y) && room {
                let b = Bullet::new(
                    muz,
                    game.bullet_w,
                    game.bullet_h,
                    intents.aim,
                    true,
                    MACHINE_BULLET_SPEED,
                );
                work.push(b);
                game.player.last_shot = game.now;
                fired = true;
            }
        },
        WeaponType::Shotgun => {
            if intents.fire_down && game.now - game.player.last_shot
                > game.player.shotgun_fire_rate && !(intents.aim.x == muz.x && intents.aim.y
                == muz.y) && room {
                let (ux, uy) = unit_scaled(intents.aim.x - muz.x, intents.aim.y - muz.y);
                let rot_l = rotate_scaled(ux, uy, SPREAD_COS, -SPREAD_SIN);
                let rot_m = rotate_scaled(ux, uy, SCALE, 0);
                let rot_r = rotate_scaled(ux, uy, SPREAD_COS, SPREAD_SIN);
                proof {
                    lemma_rot_keeps_direction(ux as int, uy as int, SPREAD_COS as int, -SPREAD_SIN as int);
                    lemma_rot_keeps_direction(ux as int, uy as int, SPREAD_COS as int, SPREAD_SIN as int);
                    lemma_rot_identity(ux as int, uy as int);
                }
                let t_l = Vec2 {
                    x: muz.x + rot_l.0 * SHOTGUN_TARGET_RANGE,
                    y: muz.y + rot_l.1 * SHOTGUN_TARGET_RANGE,
                };
                let t_m = Vec2 {
                    x: muz.x + rot_m.0 * SHOTGUN_TARGET_RANGE,
                    y: muz.y + rot_m.1 * SHOTGUN_TARGET_RANGE,
                };
                let t_r = Vec2 {
                    x: muz.x + rot_r.0 * SHOTGUN_TARGET_RANGE,
                    y: muz.y + rot_r.1 * SHOTGUN_TARGET_RANGE,
                };
                proof {
                    assert(t_l == pellet_target(*old(game), intents, SPREAD_COS as int, -SPREAD_SIN as int));
                    assert(t_m == pellet_target(*old(game), intents, SCALE as int, 0));
                    assert(t_r == pellet_target(*old(game), intents, SPREAD_COS as int, SPREAD_SIN as int));
                }
                let b_l = Bullet::new(
                    muz,
                    game.bullet_w,
                    game.bullet_h,
                    t_l,
                    true,
                    SHOTGUN_BULLET_SPEED,
                );
                work.push(b_l);
                let b_m = Bullet::new(
                    muz,
                    game.bullet_w,
                    game.bullet_h,
                    t_m,
                    true,
                    SHOTGUN_BULLET_SPEED,
                );
                work.push(b_m);
                let b_r = Bullet::new(
                    muz,
                    game.bullet_w,
                    game.bullet_h,
                    t_r,
                    true,
                    SHOTGUN_BULLET_SPEED,
                );
                work.push(b_r);
                game.player.last_shot = game.now;
                fired = true;
            }
        },
    }
    proof {
        assert(work@ =~= old(game).bullets@ + added);
        assert(muz.in_range());
        assert forall|k: int| 0 <= k < work@.len() implies flight_wf(#[trigger] work@[k]) by {
            if k < old(game).bullets@.len() {
                assert(old(game).bullets@[k].wf(
                    old(game).arena_w as int,
                    old(game).arena_h as int,
                ));
            }
        }
    }

    // Advance every projectile one step, deactivate those that left the
    // arena, and keep only the active ones.
    let ghost f = |b: Bullet| advanced_spec(b, old(game).arena_w as int, old(game).arena_h as int);
    let ghost pr = |b: Bullet| b.is_active;
    let m = work.len();
    let mut res: Vec<Bullet> = Vec::new();
    proof {
        reveal(Seq::filter);
        assert(work@.take(0) =~= Seq::<Bullet>::empty());
        assert(work@.take(0).map_values(f) =~= Seq::<Bullet>::empty());
        assert(work@.take(0).map_values(f).filter(pr) =~= Seq::<Bullet>::empty());
    }
    let mut j: usize = 0;
    while j < m
        invariant
            m == work@.len() <= MAX_BULLETS,
            aw == old(game).arena_w,
            ah == old(game).arena_h,
            0 < aw <= 2_000_000,
            0 < ah <= 2_000_000,
            f == (|b: Bullet| advanced_spec(
                b,
                old(game).arena_w as int,
                old(game).arena_h as int,
            )),
            pr == (|b: Bullet| b.is_active),
            forall|k: int| 0 <= k < m ==> flight_wf(#[trigger] work@[k]),
            j <= m,
            res@ == work@.take(j as int).map_values(f).filter(pr),
            res@.len() <= j,
            forall|k: int|
                0 <= k < res@.len() ==> (#[trigger] res@[k]).is_active && 0 <= res@[k].position.x
                    <= aw && 0 <= res@[k].position.y <= ah,
            forall|k: int|
                0 <= k < res@.len() ==> (#[trigger] res@[k]).wf(aw as int, ah as int),
        decreases m - j,
    {
        let b = work[j];
        let nb = b.advanced(aw, ah);
        proof {
            let prev = work@.take(j as int).map_values(f);
            assert(work@.take(j + 1 as int) =~= work@.take(j as int).push(b));
            assert(work@.take(j as int).push(b).map_values(f) =~= prev.push(f(b)));
            lemma_filter_push(prev, f(b), pr);
        }
        if nb.is_active {
            res.push(nb);
        }
        j = j + 1;
    }
    proof {
        assert(work@.take(m as int) =~= work@);
    }
    game.bullets = res;
    fired
}

} // verus!
