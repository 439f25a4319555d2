//! The collision and combat resolver: projectile-enemy overlap damage and
//! enemy-player contact damage with its per-enemy re-attack cooldown.

use vstd::prelude::*;
use crate::consts::{ATTACK_COOLDOWN, CONTACT_DAMAGE, MACHINE_DAMAGE_PENALTY, MAX_BULLETS};
use crate::geom::{Rect, overlaps_spec};
use crate::game::Game;
use crate::player::{Player, WeaponType};
use crate::enemy::Enemy;
use crate::bullet::Bullet;

verus! {

/// The damage one projectile deals under the current weapon: the machine
/// gun trades a damage penalty for its rate, the other weapons deal the
/// damage stat unchanged.
pub open spec fn weapon_damage(p: Player) -> int {
    match p.weapon_type {
        WeaponType::Pistol => p.damage as int,
        WeaponType::Machine => p.damage - MACHINE_DAMAGE_PENALTY,
        WeaponType::Shotgun => p.damage as int,
    }
}

/// How many of the first `n` projectiles overlap the enemy's rectangle.
/// Deactivated projectiles still count within the same resolver pass, as
/// a single projectile may damage several enemies in one tick.
pub open spec fn overlap_count(e: Enemy, bullets: Seq<Bullet>, n: int) -> int
    decreases n,
{
    if n <= 0 {
        0
    } else {
        overlap_count(e, bullets, n - 1) + if overlaps_spec(e.coll_rect, bullets[n - 1].coll_rect) {
            1int
        } else {
            0int
        }
    }
}

/// The overlap count is positive exactly when some projectile among the
/// first `n` overlaps the enemy.
pub proof fn lemma_overlap_count_pos(e: Enemy, bullets: Seq<Bullet>, n: int)
    requires
        n <= bullets.len(),
    ensures
        overlap_count(e, bullets, n) > 0 <==> exists|j: int|
            0 <= j < n && overlaps_spec(e.coll_rect, (#[trigger] bullets[j]).coll_rect),
    decreases n,
{
    if n > 0 {
        lemma_overlap_count_pos(e, bullets, n - 1);
        lemma_overlap_count_bounds(e, bullets, n - 1);
    }
}

/// The overlap count stays between 0 and `n`.
pub proof fn lemma_overlap_count_bounds(e: Enemy, bullets: Seq<Bullet>, n: int)
    requires
        n <= bullets.len(),
    ensures
        0 <= overlap_count(e, bullets, n) <= if n <= 0 {
            0int
        } else {
            n
        },
    decreases n,
{
    if n > 0 {
        lemma_overlap_count_bounds(e, bullets, n - 1);
    }
}

/// An enemy after the projectile pass: its health drops by the weapon
/// damage once per overlapping projectile.
pub open spec fn damaged_enemy(e: Enemy, bullets: Seq<Bullet>, dmg: int) -> Enemy {
    Enemy { health: (e.health - dmg * overlap_count(e, bullets, bullets.len() as int)) as i64, ..e }
}

/// Whether any of the enemies overlaps the projectile, deactivating it.
pub open spec fn hit_by_any(b: Bullet, enemies: Seq<Enemy>) -> bool {
    exists|i: int|
        0 <= i < enemies.len() && overlaps_spec((#[trigger] enemies[i]).coll_rect, b.coll_rect)
}

/// Whether any projectile hit any enemy this pass.
pub open spec fn any_bullet_hit(enemies: Seq<Enemy>, bullets: Seq<Bullet>) -> bool {
    exists|j: int| 0 <= j < bullets.len() && hit_by_any(#[trigger] bullets[j], enemies)
}

/// An enemy after the contact pass: a touching enemy that may attack
/// spends its attack and stamps the cooldown; afterwards, an enemy whose
/// cooldown has fully elapsed regains its attack.
pub open spec fn contact_step(e: Enemy, prect: Rect, now: u64) -> Enemy {
    let touched = overlaps_spec(e.coll_rect, prect) && e.can_attack;
    let e1 = if touched {
        Enemy { can_attack: false, dmg_cd: now, ..e }
    } else {
        e
    };
    if !e1.can_attack && now - e1.dmg_cd > ATTACK_COOLDOWN {
        Enemy { can_attack: true, ..e1 }
    } else {
        e1
    }
}

/// How many of the first `n` enemies land a contact hit on the player
/// this pass: those overlapping the player's rectangle with their attack
/// available.
pub open spec fn contact_count(enemies: Seq<Enemy>, prect: Rect, n: int) -> int
    decreases n,
{
    if n <= 0 {
        0
    } else {
        contact_count(enemies, prect, n - 1) + if overlaps_spec(enemies[n - 1].coll_rect, prect)
            && enemies[n - 1].can_attack {
            1int
        } else {
            0int
        }
    }
}

/// The contact count stays between 0 and `n`.
pub proof fn lemma_contact_count_bounds(enemies: Seq<Enemy>, prect: Rect, n: int)
    requires
        n <= enemies.len(),
    ensures
        0 <= contact_count(enemies, prect, n) <= if n <= 0 {
            0int
        } else {
            n
        },
    decreases n,
{
    if n > 0 {
        lemma_contact_count_bounds(enemies, prect, n - 1);
    }
}

/// Apply damage to one enemy.
pub fn damage_enemy(enemy: &mut Enemy, dmg: i64)
    requires
        -10_000_000 <= old(enemy).health <= 10_000_000,
        -10_000_000 <= dmg <= 10_000_000,
    ensures
        *final(enemy) == (Enemy { health: (old(enemy).health - dmg) as i64, ..*old(enemy) }),
{
    enemy.health = enemy.health - dmg;
}

/// The full effect of one resolver pass from `pre` to `post`: every
/// clause of `collision_check`'s contract, reusable where ticks are
/// composed.
pub open spec fn collision_rel(pre: Game, post: Game, hit: bool) -> bool {
    &&& post.wf()
    &&& post.enemies@.len() == pre.enemies@.len()
    &&& forall|i: int|
        0 <= i < pre.enemies@.len() ==> post.enemies@[i] == contact_step(
            damaged_enemy(#[trigger] pre.enemies@[i], pre.bullets@, weapon_damage(pre.player)),
            pre.player.coll_rect,
            pre.now,
        )
    &&& post.bullets@.len() == pre.bullets@.len()
    &&& forall|j: int|
        0 <= j < pre.bullets@.len() ==> post.bullets@[j] == (Bullet {
            is_active: pre.bullets@[j].is_active && !hit_by_any(
                #[trigger] pre.bullets@[j],
                pre.enemies@,
            ),
            ..pre.bullets@[j]
        })
    &&& post.player == (Player {
        health: (pre.player.health - CONTACT_DAMAGE * contact_count(
            pre.enemies@,
            pre.player.coll_rect,
            pre.enemies@.len() as int,
        )) as i64,
        ..pre.player
    })
    &&& hit == (any_bullet_hit(pre.enemies@, pre.bullets@) || contact_count(
        pre.enemies@,
        pre.player.coll_rect,
        pre.enemies@.len() as int,
    ) > 0)
    &&& post == (Game {
        enemies: post.enemies,
        bullets: post.bullets,
        player: post.player,
        ..pre
    })
}

/// The two overlap passes of one tick.  Every (enemy, projectile) overlap
/// deals the weapon damage to the enemy and deactivates the projectile —
/// without exclusivity, so one projectile may damage several enemies in
/// the same tick.  Every enemy touching the player with its attack
/// available deals the fixed contact damage once and enters its cooldown;
/// enemies whose cooldown has elapsed regain the attack.  Returns whether
/// anything was hit, for the audio collaborator.
#[verifier::rlimit(80)]
pub fn collision_check(game: &mut Game) -> (hit: bool)
    requires
        old(game).wf(),
        forall|i: int| 0 <= i < old(game).enemies@.len() ==> (#[trigger] old(game).enemies@[i]).health >= 1,
        old(game).player.health > 0 || old(game).player.is_dead,
        old(game).player.health >= -9_999,
    ensures
        collision_rel(*old(game), *final(game), hit),
{
    let ghost old_enemies = game.enemies@;
    let ghost old_bullets = game.bullets@;
    let ghost orig_player = game.player;
    let wd: i64 = match game.player.weapon_type {
        WeaponType::Pistol => game.player.damage,
        WeaponType::Machine => game.player.damage - MACHINE_DAMAGE_PENALTY,
        WeaponType::Shotgun => game.player.damage,
    };
    let mut hit = false;

    // Projectile pass over the enemies: count overlaps, apply damage.
    let n = game.enemies.len();
    let m = game.bullets.len();
    let mut new_enemies: Vec<Enemy> = Vec::new();
    let mut i: usize = 0;
    while i < n
        invariant
            n == old_enemies.len(),
            m == old_bullets.len() <= MAX_BULLETS,
            game.enemies@ == old_enemies,
            game.bullets@ == old_bullets,
            wd == weapon_damage(orig_player),
            0 <= wd <= 20,
            i <= n,
            new_enemies@.len() == i,
            forall|k: int|
                0 <= k < i ==> new_enemies@[k] == damaged_enemy(
                    #[trigger] old_enemies[k],
                    old_bullets,
                    wd as int,
                ),
            forall|k: int| 0 <= k < n ==> (#[trigger] old_enemies[k]).health >= 1,
            forall|k: int| 0 <= k < n ==> (#[trigger] old_enemies[k]).coll_rect.wf(),
            forall|k: int| 0 <= k < m ==> (#[trigger] old_bullets[k]).coll_rect.wf(),
            hit == exists|k: int|
                0 <= k < i && overlap_count(#[trigger] old_enemies[k], old_bullets, m as int) > 0,
        decreases n - i,
    {
        let e = game.enemies[i];
        let mut cnt: i64 = 0;
        let mut j: usize = 0;
        while j < m
            invariant
                m == old_bullets.len() <= MAX_BULLETS,
                game.bullets@ == old_bullets,
                j <= m,
                e.coll_rect.wf(),
                forall|k: int| 0 <= k < m ==> (#[trigger] old_bullets[k]).coll_rect.wf(),
                cnt == overlap_count(e, old_bullets, j as int),
                0 <= cnt <= j,
            decreases m - j,
        {
            if e.coll_rect.overlaps(&game.bullets[j].coll_rect) {
                cnt = cnt + 1;
            }
            j = j + 1;
        }
        if cnt > 0 {
            hit = true;
        }
        proof {
            lemma_overlap_count_bounds(e, old_bullets, m as int);
            assert(-(20i64 * 100_000) <= wd * cnt <= 20i64 * 100_000) by (nonlinear_arith)
                requires
                    0 <= wd <= 20,
                    0 <= cnt <= 100_000,
            ;
        }
        let dmg_total = wd * cnt;
        new_enemies.push(Enemy { health: e.health - dmg_total, ..e });
        i = i + 1;
    }

    // Projectile pass over the projectiles: deactivate each one an enemy
    // overlaps.
    let mut new_bullets: Vec<Bullet> = Vec::new();
    let mut j: usize = 0;
    while j < m
        invariant
            n == old_enemies.len(),
            m == old_bullets.len(),
            game.enemies@ == old_enemies,
            game.bullets@ == old_bullets,
            j <= m,
            new_bullets@.len() == j,
            forall|k: int| 0 <= k < n ==> (#[trigger] old_enemies[k]).coll_rect.wf(),
            forall|k: int| 0 <= k < m ==> (#[trigger] old_bullets[k]).coll_rect.wf(),
            forall|k: int|
                0 <= k < j ==> new_bullets@[k] == (Bullet {
                    is_active: old_bullets[k].is_active && !hit_by_any(
                        #[trigger] old_bullets[k],
                        old_enemies,
                    ),
                    ..old_bullets[k]
                }),
        decreases m - j,
    {
        let b = game.bullets[j];
        let mut struck = false;
        let mut i2: usize = 0;
        while i2 < n
            invariant
                n == old_enemies.len(),
                game.enemies@ == old_enemies,
                i2 <= n,
                b.coll_rect.wf(),
                forall|k: int| 0 <= k < n ==> (#[trigger] old_enemies[k]).coll_rect.wf(),
                struck == exists|k: int|
                    0 <= k < i2 && overlaps_spec((#[trigger] old_enemies[k]).coll_rect, b.coll_rect),
            decreases n - i2,
        {
            if game.enemies[i2].coll_rect.overlaps(&b.coll_rect) {
                struck = true;
            }
            i2 = i2 + 1;
        }
        new_bullets.push(Bullet { is_active: b.is_active && !struck, ..b });
        j = j + 1;
    }

    game.bullets = new_bullets;

    // Contact pass: spend available attacks of touching enemies, advance
    // cooldowns, land the contact damage on the player.
    let prect = game.player.coll_rect;
    let now = game.now;
    proof {
        assert(prect.wf());
    }
    let mut final_enemies: Vec<Enemy> = Vec::new();
    let mut cc: i64 = 0;
    let mut i3: usize = 0;
    while i3 < n
        invariant
            n == old_enemies.len() <= 1000,
            new_enemies@.len() == n,
            prect == orig_player.coll_rect,
            forall|k: int|
                0 <= k < n ==> new_enemies@[k] == damaged_enemy(
                    #[trigger] old_enemies[k],
                    old_bullets,
                    wd as int,
                ),
            forall|k: int| 0 <= k < n ==> (#[trigger] old_enemies[k]).dmg_cd <= now,
            forall|k: int| 0 <= k < n ==> (#[trigger] old_enemies[k]).coll_rect.wf(),
            prect.wf(),
            i3 <= n,
            final_enemies@.len() == i3,
            forall|k: int|
                0 <= k < i3 ==> final_enemies@[k] == contact_step(
                    damaged_enemy(#[trigger] old_enemies[k], old_bullets, wd as int),
                    prect,
                    now,
                ),
            cc == contact_count(old_enemies, prect, i3 as int),
            0 <= cc <= i3,
        decreases n - i3,
    {
        let mut e = new_enemies[i3];
        proof {
            assert(e.coll_rect == old_enemies[i3 as int].coll_rect);
            assert(e.can_attack == old_enemies[i3 as int].can_attack);
        }
        if e.coll_rect.overlaps(&prect) && e.can_attack {
            cc = cc + 1;
            e.can_attack = false;
            e.dmg_cd = now;
        }
        if !e.can_attack && now - e.dmg_cd > ATTACK_COOLDOWN {
            e.can_attack = true;
        }
        final_enemies.push(e);
        i3 = i3 + 1;
    }
    if cc > 0 {
        hit = true;
    }
    proof {
        lemma_contact_count_bounds(old_enemies, prect, n as int);
        // The per-enemy and per-projectile views of "something was struck"
        // agree.
        if exists|k: int|
            0 <= k < n && overlap_count(#[trigger] old_enemies[k], old_bullets, m as int) > 0 {
            let k = choose|k: int|
                0 <= k < n && overlap_count(#[trigger] old_enemies[k], old_bullets, m as int) > 0;
            lemma_overlap_count_pos(old_enemies[k], old_bullets, m as int);
            let j = choose|j: int|
                0 <= j < m && overlaps_spec(old_enemies[k].coll_rect, (#[trigger] old_bullets[j]).coll_rect);
            assert(hit_by_any(old_bullets[j], old_enemies));
            assert(any_bullet_hit(old_enemies, old_bullets));
        }
        if any_bullet_hit(old_enemies, old_bullets) {
            let j = choose|j: int| 0 <= j < m && hit_by_any(#[trigger] old_bullets[j], old_enemies);
            let k = choose|k: int|
                0 <= k < n && overlaps_spec((#[trigger] old_enemies[k]).coll_rect, old_bullets[j].coll_rect);
            lemma_overlap_count_pos(old_enemies[k], old_bullets, m as int);
        }
    }
    game.player.health = game.player.health - CONTACT_DAMAGE * cc;
    game.enemies = final_enemies;
    proof {
        assert forall|k: int|
            0 <= k < m implies (#[trigger] game.bullets@[k]).wf(
            game.arena_w as int,
            game.arena_h as int,
        ) by {
            assert(old_bullets[k].wf(old(game).arena_w as int, old(game).arena_h as int));
        }
        assert forall|k: int| 0 <= k < n implies (#[trigger] game.enemies@[k]).wf(game.now) by {
            lemma_overlap_count_bounds(old_enemies[k], old_bullets, m as int);
            assert(0 <= wd * overlap_count(old_enemies[k], old_bullets, m as int)
                <= 20 * 100_000) by (nonlinear_arith)
                requires
                    0 <= wd <= 20,
                    0 <= overlap_count(old_enemies[k], old_bullets, m as int) <= 100_000,
            ;
            assert(old_enemies[k].wf(old(game).now));
        }
    }
    hit
}

} // verus!
