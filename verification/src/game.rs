//! The top-level aggregate owning all simulation state, plus the
//! state-machine transitions, the reset, and the enemy spawner.

use vstd::prelude::*;
use crate::consts::{
    ARENA_LIMIT, DIM_LIMIT, MAX_ENEMIES, MAX_BULLETS, ENEMY_SPEED, ENEMY_START_HEALTH,
    PLAYER_START_HEALTH, DEFAULT_PLAYER_SPEED, SPAWN_RATE, SPAWN_MARGIN, SPAWN_INSET,
    POWER_UP_DURATION, SCORE_LIMIT, KILL_REWARD,
};
use crate::geom::{Vec2, Rect, tdiv, div_pos};
use crate::player::Player;
use crate::enemy::Enemy;
use crate::bullet::Bullet;
use crate::rng::gen_index;

verus! {

/// The top-level mode the application is in; only `Play` runs simulation
/// ticks.
#[derive(Clone, Copy, PartialEq, Eq, Structural, Debug)]
pub enum GameState {
    Menu,
    Play,
    Options,
    Over,
}

/// Fire-and-forget audio event vocabulary emitted toward the audio
/// collaborator; the core never waits on audio state.
#[derive(Clone, Copy, PartialEq, Eq, Structural, Debug)]
pub enum SoundType {
    MenuClick,
    PistolShot,
    EnemyHit,
    MenuMusic,
    PlayerDie,
}

/// A click on one of the menu widgets, already decoded by the UI layer.
#[derive(Clone, Copy, PartialEq, Eq, Structural, Debug)]
pub enum MenuChoice {
    Play,
    Info,
    Back,
}

/// A fixed enemy entry location; read-only after initialization.
#[derive(Clone, Copy, PartialEq, Eq, Structural, Debug)]
pub struct SpawnPoint {
    pub pos: Vec2,
}

impl SpawnPoint {
    pub fn new(pos: Vec2) -> (s: SpawnPoint)
        ensures
            s.pos == pos,
    {
        SpawnPoint { pos }
    }
}

/// The per-tick input intents, already decoded and debounced: held
/// movement keys, weapon-select edges, fire edge and fire hold for the
/// mouse button, and the current pointer position as the aim target.
#[derive(Clone, Copy, PartialEq, Eq, Structural, Debug)]
pub struct Intents {
    pub move_left: bool,
    pub move_right: bool,
    pub move_up: bool,
    pub move_down: bool,
    pub select_pistol: bool,
    pub select_machine: bool,
    pub select_shotgun: bool,
    pub fire_pressed: bool,
    pub fire_down: bool,
    pub aim: Vec2,
    pub escape: bool,
}

/// Audio events one tick produced.
#[derive(Clone, Copy, PartialEq, Eq, Structural, Debug)]
pub struct TickEvents {
    pub fired: bool,
    pub enemy_hit: bool,
    pub died: bool,
}

/// All mutable simulation state, owned by the single cooperative loop.
pub struct Game {
    pub state: GameState,
    pub player: Player,
    pub enemies: Vec<Enemy>,
    pub bullets: Vec<Bullet>,
    pub spawn_point: Vec<SpawnPoint>,
    pub last_spawn: u64,
    pub spawn_rate: u64,
    pub score: i64,
    pub final_score: i64,
    pub power_up_timer: u64,
    pub can_get_powerup: bool,
    pub arena_w: i64,
    pub arena_h: i64,
    pub enemy_w: i64,
    pub enemy_h: i64,
    pub bullet_w: i64,
    pub bullet_h: i64,
    pub now: u64,
}

impl Game {
    /// Well-formedness between ticks.
    pub open spec fn wf(self) -> bool {
        &&& 0 < self.arena_w <= ARENA_LIMIT
        &&& 0 < self.arena_h <= ARENA_LIMIT
        &&& 0 < self.enemy_w <= DIM_LIMIT
        &&& 0 < self.enemy_h <= DIM_LIMIT
        &&& 0 < self.bullet_w <= DIM_LIMIT
        &&& 0 < self.bullet_h <= DIM_LIMIT
        &&& self.player.wf(self.now)
        &&& self.player.tex_w <= self.arena_w
        &&& self.player.tex_h <= self.arena_h
        // Contact damage stops at most two ticks after health crosses zero.
        &&& (!self.player.is_dead && self.player.health <= 0 ==> self.player.health >= -9_999)
        &&& self.enemies@.len() <= MAX_ENEMIES
        &&& (forall|i: int| 0 <= i < self.enemies@.len() ==> (#[trigger] self.enemies@[i]).wf(self.now))
        &&& self.bullets@.len() <= MAX_BULLETS
        &&& (forall|j: int|
            0 <= j < self.bullets@.len() ==> (#[trigger] self.bullets@[j]).wf(
                self.arena_w as int,
                self.arena_h as int,
            ))
        &&& 1 <= self.spawn_point@.len() <= 16
        &&& (forall|k: int|
            0 <= k < self.spawn_point@.len() ==> (#[trigger] self.spawn_point@[k]).pos.in_range())
        &&& self.last_spawn <= self.now
        &&& 0 <= self.score <= SCORE_LIMIT
        &&& 0 <= self.final_score <= SCORE_LIMIT
        &&& self.power_up_timer <= POWER_UP_DURATION
        &&& (!self.player.has_power_up ==> self.power_up_timer == 0)
        &&& self.can_get_powerup == !self.player.has_power_up
    }

    /// A fresh game: menu state, a centered player, no enemies or
    /// projectiles, one spawn point near each arena corner.  The caller
    /// supplies the arena size and the opaque texture footprints.
    pub fn new(
        arena_w: i64,
        arena_h: i64,
        player_w: i64,
        player_h: i64,
        enemy_w: i64,
        enemy_h: i64,
        bullet_w: i64,
        bullet_h: i64,
        now: u64,
    ) -> (g: Game)
        requires
            0 < arena_w <= ARENA_LIMIT,
            0 < arena_h <= ARENA_LIMIT,
            0 < player_w <= DIM_LIMIT,
            0 < player_h <= DIM_LIMIT,
            player_w <= arena_w,
            player_h <= arena_h,
            0 < enemy_w <= DIM_LIMIT,
            0 < enemy_h <= DIM_LIMIT,
            0 < bullet_w <= DIM_LIMIT,
            0 < bullet_h <= DIM_LIMIT,
        ensures
            g.wf(),
            g.state == GameState::Menu,
            g.player.position == (Vec2 {
                x: tdiv(arena_w as int, 2) as i64,
                y: tdiv(arena_h as int, 2) as i64,
            }),
            g.player.velocity == (Vec2 { x: 0, y: 0 }),
            g.player.health == PLAYER_START_HEALTH,
            g.player.speed == DEFAULT_PLAYER_SPEED,
            g.player.tex_w == player_w,
            g.player.tex_h == player_h,
            g.player.weapon_type == crate::player::WeaponType::Pistol,
            g.player.power_up == crate::player::PowerUpType::NoPowerUp,
            !g.player.is_dead,
            g.player.last_shot == now,
            g.enemies@ =~= Seq::<Enemy>::empty(),
            g.bullets@ =~= Seq::<Bullet>::empty(),
            g.spawn_point@.len() == 4,
            g.spawn_point@[0].pos == (Vec2 { x: SPAWN_MARGIN, y: SPAWN_MARGIN }),
            g.spawn_point@[1].pos == (Vec2 { x: (arena_w - SPAWN_INSET) as i64, y: SPAWN_MARGIN }),
            g.spawn_point@[2].pos == (Vec2 { x: SPAWN_MARGIN, y: (arena_h - SPAWN_INSET) as i64 }),
            g.spawn_point@[3].pos == (Vec2 { x: (arena_w - SPAWN_INSET) as i64, y: (arena_h - SPAWN_INSET) as i64 }),
            g.last_spawn == now,
            g.spawn_rate == SPAWN_RATE,
            g.score == 0,
            g.final_score == 0,
            g.power_up_timer == 0,
            g.can_get_powerup,
            g.arena_w == arena_w,
            g.arena_h == arena_h,
            g.enemy_w == enemy_w,
            g.enemy_h == enemy_h,
            g.bullet_w == bullet_w,
            g.bullet_h == bullet_h,
            g.now == now,
    {
        let cx = div_pos(arena_w, 2);
        let cy = div_pos(arena_h, 2);
        let player = Player::new(
            Vec2 { x: cx, y: cy },
            DEFAULT_PLAYER_SPEED,
            player_w,
            player_h,
            now,
        );
        let mut spawn_point: Vec<SpawnPoint> = Vec::new();
        spawn_point.push(SpawnPoint { pos: Vec2 { x: SPAWN_MARGIN, y: SPAWN_MARGIN } });
        spawn_point.push(SpawnPoint { pos: Vec2 { x: arena_w - SPAWN_INSET, y: SPAWN_MARGIN } });
        spawn_point.push(SpawnPoint { pos: Vec2 { x: SPAWN_MARGIN, y: arena_h - SPAWN_INSET } });
        spawn_point.push(
            SpawnPoint { pos: Vec2 { x: arena_w - SPAWN_INSET, y: arena_h - SPAWN_INSET } },
        );
        Game {
            state: GameState::Menu,
            player,
            enemies: Vec::new(),
            bullets: Vec::new(),
            spawn_point,
            last_spawn: now,
            spawn_rate: SPAWN_RATE,
            score: 0,
            final_score: 0,
            power_up_timer: 0,
            can_get_powerup: true,
            arena_w,
            arena_h,
            enemy_w,
            enemy_h,
            bullet_w,
            bullet_h,
            now,
        }
    }
}

/// The menu transition table: `Play` and `Info` leave the menu for the
/// play and options screens, `Back` returns to the menu from the options
/// and game-over screens.  Any other combination changes nothing.
pub open spec fn menu_next(state: GameState, choice: MenuChoice) -> GameState {
    match (state, choice) {
        (GameState::Menu, MenuChoice::Play) => GameState::Play,
        (GameState::Menu, MenuChoice::Info) => GameState::Options,
        (GameState::Options, MenuChoice::Back) => GameState::Menu,
        (GameState::Over, MenuChoice::Back) => GameState::Menu,
        _ => state,
    }
}

/// Apply one decoded menu click to the state machine.
pub fn menu(game: &mut Game, choice: MenuChoice)
    ensures
        final(game).state == menu_next(old(game).state, choice),
        *final(game) == (Game { state: final(game).state, ..*old(game) }),
{
    match (game.state, choice) {
        (GameState::Menu, MenuChoice::Play) => {
            game.state = GameState::Play;
        },
        (GameState::Menu, MenuChoice::Info) => {
            game.state = GameState::Options;
        },
        (GameState::Options, MenuChoice::Back) => {
            game.state = GameState::Menu;
        },
        (GameState::Over, MenuChoice::Back) => {
            game.state = GameState::Menu;
        },
        _ => {},
    }
}

/// Restore the state a death invalidated: empty populations, zero score,
/// full health, the player back at the arena center.  The final-score
/// snapshot and the power-up state survive the reset.
pub fn reset_game(game: &mut Game)
    requires
        old(game).wf(),
    ensures
        final(game).wf(),
        final(game).score == 0,
        final(game).bullets@ =~= Seq::<Bullet>::empty(),
        final(game).enemies@ =~= Seq::<Enemy>::empty(),
        !final(game).player.is_dead,
        final(game).player.health == PLAYER_START_HEALTH,
        final(game).player.position == (Vec2 {
            x: tdiv(old(game).arena_w as int, 2) as i64,
            y: tdiv(old(game).arena_h as int, 2) as i64,
        }),
        final(game).player == (Player {
            is_dead: false,
            health: PLAYER_START_HEALTH,
            position: final(game).player.position,
            coll_rect: (Rect {
                x: final(game).player.position.x,
                y: final(game).player.position.y,
                w: old(game).player.tex_w,
                h: old(game).player.tex_h,
            }),
            ..old(game).player
        }),
        *final(game) == (Game {
            score: 0,
            bullets: final(game).bullets,
            enemies: final(game).enemies,
            player: final(game).player,
            ..*old(game)
        }),
{
    let cx = div_pos(game.arena_w, 2);
    let cy = div_pos(game.arena_h, 2);
    game.score = 0;
    game.bullets = Vec::new();
    game.enemies = Vec::new();
    game.player.is_dead = false;
    game.player.health = PLAYER_START_HEALTH;
    game.player.position = Vec2 { x: cx, y: cy };
    game.player.coll_rect = Rect { x: cx, y: cy, w: game.player.tex_w, h: game.player.tex_h };
}

/// The state a tick works on: the clock advanced to `now` and the
/// escape transition applied.
pub open spec fn tick_entry(g: Game, intents: Intents, now: u64) -> Game {
    Game {
        now,
        state: if intents.escape {
            GameState::Menu
        } else {
            g.state
        },
        ..g
    }
}

/// One simulation tick.  A tick entered with the player dead performs
/// the full reset, enters the game-over state and ends there: no
/// simulation pass runs once that state is entered.  A tick entered
/// alive runs the five passes in their fixed order — spawner, player
/// update, fire control and projectile motion, enemy steering, combat
/// resolver — and the contract pins their composition: there are
/// intermediate states threaded through the passes' exact relations,
/// with the returned audio events equal to the passes' results.
#[verifier::rlimit(100)]
pub fn update(game: &mut Game, intents: Intents, now: u64) -> (events: TickEvents)
    requires
        old(game).wf(),
        now >= old(game).now,
        intents.aim.in_range(),
        old(game).score + KILL_REWARD * (MAX_ENEMIES as int) <= SCORE_LIMIT,
    ensures
        final(game).wf(),
        final(game).now == now,
        // State transitions: death outranks escape; otherwise escape
        // freezes the simulation into the menu from the next frame on.
        old(game).player.is_dead ==> final(game).state == GameState::Over,
        !old(game).player.is_dead && intents.escape ==> final(game).state == GameState::Menu,
        !old(game).player.is_dead && !intents.escape ==> final(game).state == old(game).state,
        // A tick entered dead is exactly the reset: empty populations,
        // zero score, the player healed and re-centered, no events, and
        // everything else untouched.
        old(game).player.is_dead ==> final(game).score == 0 && final(game).enemies@
            == Seq::<Enemy>::empty() && final(game).bullets@ == Seq::<Bullet>::empty() && final(game).player == (Player {
            is_dead: false,
            health: PLAYER_START_HEALTH,
            position: (Vec2 {
                x: tdiv(old(game).arena_w as int, 2) as i64,
                y: tdiv(old(game).arena_h as int, 2) as i64,
            }),
            coll_rect: (Rect {
                x: tdiv(old(game).arena_w as int, 2) as i64,
                y: tdiv(old(game).arena_h as int, 2) as i64,
                w: old(game).player.tex_w,
                h: old(game).player.tex_h,
            }),
            ..old(game).player
        }) && final(game).last_spawn == old(game).last_spawn && final(game).final_score == old(game).final_score && final(game).power_up_timer == old(game).power_up_timer && final(game).can_get_powerup == old(game).can_get_powerup && events == (TickEvents {
            fired: false,
            enemy_hit: false,
            died: false,
        }),
        // A tick entered alive is the composition of the five passes on
        // the entry state, each step bound by that pass's exact
        // relation, with the audio events equal to the passes' results.
        !old(game).player.is_dead ==> (exists|g1: Game, g2: Game, g3: Game, g4: Game|
            #![trigger crate::motion::player_update_rel(g1, g2, intents, events.died),
                crate::steer::enemy_update_rel(g3, g4)]
            {
                &&& spawn_rel(tick_entry(*old(game), intents, now), g1)
                &&& crate::motion::player_update_rel(g1, g2, intents, events.died)
                &&& crate::weapons::bullet_update_rel(g2, g3, intents, events.fired)
                &&& crate::steer::enemy_update_rel(g3, g4)
                &&& crate::combat::collision_rel(g4, *final(game), events.enemy_hit)
            }),
        // The player-died event fires exactly when health was exhausted
        // at this tick's check.
        events.died == (!old(game).player.is_dead && old(game).player.health <= 0),
        events.died ==> final(game).player.is_dead && final(game).final_score == old(game).score,
        // A live tick ends with the player clamped into the arena (a
        // death tick re-centers instead).
        !old(game).player.is_dead ==> 0 <= final(game).player.position.x <= old(game).arena_w
            - old(game).player.tex_w && 0 <= final(game).player.position.y <= old(game).arena_h
            - old(game).player.tex_h,
        // Live projectiles stay inside the arena; the rest were purged.
        forall|j: int|
            0 <= j < final(game).bullets@.len() ==> ((#[trigger] final(game).bullets@[j]).is_active
                ==> 0 <= final(game).bullets@[j].position.x <= final(game).arena_w && 0 <= final(game).bullets@[j].position.y <= final(game).arena_h),
        // The population grows by at most the one spawn.
        final(game).enemies@.len() <= old(game).enemies@.len() + 1,
        // On a live tick the spawner's interval restarts exactly when
        // its interval-and-population window was open.
        !old(game).player.is_dead && now - old(game).last_spawn > old(game).spawn_rate && old(game).enemies@.len() < MAX_ENEMIES ==> final(game).last_spawn == now,
        !old(game).player.is_dead && now - old(game).last_spawn <= old(game).spawn_rate ==> final(game).last_spawn == old(game).last_spawn,
        // The read-only configuration never moves.
        final(game).spawn_point == old(game).spawn_point,
        final(game).spawn_rate == old(game).spawn_rate,
        final(game).arena_w == old(game).arena_w,
        final(game).arena_h == old(game).arena_h,
        final(game).enemy_w == old(game).enemy_w,
        final(game).enemy_h == old(game).enemy_h,
        final(game).bullet_w == old(game).bullet_w,
        final(game).bullet_h == old(game).bullet_h,
{
    game.now = now;
    proof {
        // Advancing the clock keeps every stored timestamp behind it.
        assert(game.wf());
    }
    if intents.escape {
        game.state = GameState::Menu;
    }
    if game.player.is_dead {
        // Once the game-over state is entered the simulation freezes:
        // the death tick ends at the reset.
        reset_game(game);
        game.state = GameState::Over;
        return TickEvents { fired: false, enemy_hit: false, died: false };
    }
    let ghost entry = *game;
    spawn_enemies(game);
    let ghost s1 = *game;
    let died = crate::motion::player_update(game, intents);
    let ghost s2 = *game;
    let fired = crate::weapons::bullet_update(game, intents);
    let ghost s3 = *game;
    crate::steer::enemy_update(game);
    let ghost s4 = *game;
    let hit = crate::combat::collision_check(game);
    let events = TickEvents { fired, enemy_hit: hit, died };
    proof {
        assert(entry == tick_entry(*old(game), intents, now));
        assert(spawn_rel(entry, s1));
        assert(crate::motion::player_update_rel(s1, s2, intents, events.died));
        assert(crate::weapons::bullet_update_rel(s2, s3, intents, events.fired));
        assert(crate::steer::enemy_update_rel(s3, s4));
        assert(crate::combat::collision_rel(s4, *game, events.enemy_hit));
    }
    events
}

/// The enemy a spawn at point `k` would create.
pub open spec fn spawned_enemy(g: Game, k: int) -> Enemy {
    Enemy {
        position: g.spawn_point@[k].pos,
        speed: ENEMY_SPEED,
        coll_rect: Rect {
            x: g.spawn_point@[k].pos.x,
            y: g.spawn_point@[k].pos.y,
            w: g.enemy_w,
            h: g.enemy_h,
        },
        health: ENEMY_START_HEALTH,
        dmg_cd: g.now,
        can_attack: true,
    }
}

/// The spawner's interval-and-population gate.
pub open spec fn spawn_gate(g: Game) -> bool {
    g.now - g.last_spawn > g.spawn_rate && g.enemies@.len() < MAX_ENEMIES
}

/// The full effect of one spawner pass from `pre` to `post`: every
/// clause of `spawn_enemies`' contract, reusable where ticks are
/// composed.  Which spawn point the uniform draw picked stays open.
pub open spec fn spawn_rel(pre: Game, post: Game) -> bool {
    &&& post.wf()
    &&& spawn_gate(pre) ==> (exists|k: int|
        0 <= k < pre.spawn_point@.len() && post.enemies@ == pre.enemies@.push(
            spawned_enemy(pre, k),
        )) && post.last_spawn == pre.now
    &&& !spawn_gate(pre) ==> post.enemies@ == pre.enemies@ && post.last_spawn == pre.last_spawn
    &&& post == (Game { enemies: post.enemies, last_spawn: post.last_spawn, ..pre })
}

/// Time-gated, population-capped enemy creation: when the interval has
/// elapsed and the cap leaves room, one enemy appears at a uniformly
/// chosen spawn point and the interval restarts.
pub fn spawn_enemies(game: &mut Game)
    requires
        old(game).wf(),
    ensures
        spawn_rel(*old(game), *final(game)),
{
    let spawn_timer = game.now;
    if spawn_timer - game.last_spawn > game.spawn_rate && game.enemies.len() < MAX_ENEMIES {
        let k = gen_index(game.spawn_point.len() as u64) as usize;
        let pos = game.spawn_point[k].pos;
        let e = Enemy::new(pos, game.enemy_w, game.enemy_h, ENEMY_START_HEALTH, game.now);
        game.enemies.push(e);
        game.last_spawn = spawn_timer;
        proof {
            assert(game.enemies@ == old(game).enemies@.push(spawned_enemy(*old(game), k as int)));
        }
    }
}

} // verus!
