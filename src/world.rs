use vstd::prelude::*;
use crate::collision::{
    after_contact, handle_enemy_projectile_collision, handle_player_enemy_collision, health_minus, resolve,
    strike_count,
};
use crate::config::{Config, GameConfig};
use crate::enemy::{
    advanced, alive, despawn_dead_enemy, enemy_step, fresh_enemies, orbs_of_dead, sample_spawn_point, spawn_count,
    spawn_enemies, timers_ticked, update_enemy_attack_timer, update_enemy_transform, wave_len, Enemy,
};
use crate::geometry::{Point, UNIT};
use crate::player::{handle_player_input, handle_player_xp, MoveKeys, Player, StatBonus};
use crate::random::random_below;
use crate::state::{successor, GameState, RESTART_DELAY};
use crate::weapon::{
    flight, handle_weapon_input, ready, timer_plus, unit_bounded, update_projectiles, update_weapon_transform,
    Projectile, ProjectileDirection, Weapon, WeaponTimer,
};
use crate::xp_ball::{collected, handle_player_pickup_xp, uncollected, xp_plus, XPBall};

verus! {

/// The pointer's position in world position units, if the pointer is over the world.
#[derive(Clone, Copy, Debug, PartialEq, Eq, Structural)]
pub struct CursorPosition(pub Option<Point>);

/// What the outside world hands the simulation for one tick: elapsed milliseconds, the
/// movement keys held, whether the attack button is held, and the pointer in world
/// position units, if there is one.
#[derive(Clone, Copy, Debug, PartialEq, Eq, Structural)]
pub struct TickInput {
    pub dt: u64,
    pub keys: MoveKeys,
    pub attack: bool,
    pub cursor: CursorPosition,
}

/// Half-width of the world, in position units.
pub open spec fn world_w(cfg: &Config) -> int {
    cfg.game.world_width * UNIT
}

/// Half-height of the world, in position units.
pub open spec fn world_h(cfg: &Config) -> int {
    cfg.game.world_height * UNIT
}

/// The whole simulation: the phase, the player and weapon, and every enemy, projectile
/// and orb. `spawn_timer` and `restart_timer` are in milliseconds.
pub struct World {
    pub state: GameState,
    pub player: Option<Player>,
    pub weapon: Option<Weapon>,
    pub enemies: Vec<Enemy>,
    pub projectiles: Vec<Projectile>,
    pub xp_balls: Vec<XPBall>,
    pub spawn_timer: u64,
    pub restart_timer: u64,
}

/// The world as values: the phase, the player and weapon, the entity sequences and the timers.
pub struct WorldView {
    pub state: GameState,
    pub player: Option<Player>,
    pub weapon: Option<Weapon>,
    pub enemies: Seq<Enemy>,
    pub projectiles: Seq<Projectile>,
    pub xp_balls: Seq<XPBall>,
    pub spawn_timer: u64,
    pub restart_timer: u64,
}

impl View for World {
    type V = WorldView;

    open spec fn view(&self) -> WorldView {
        WorldView {
            state: self.state,
            player: self.player,
            weapon: self.weapon,
            enemies: self.enemies@,
            projectiles: self.projectiles@,
            xp_balls: self.xp_balls@,
            spawn_timer: self.spawn_timer,
            restart_timer: self.restart_timer,
        }
    }
}

impl WorldView {
    /// One Gaming tick of a world that has a player and a weapon, step by step in the
    /// order that `World::tick_with` runs them.
    pub open spec fn gaming_step(self, cfg: &Config, input: TickInput, points: Seq<Point>, bonus: StatBonus) -> WorldView {
        let w = world_w(cfg);
        let h = world_h(cfg);
        let dt = input.dt as int;
        // movement
        let p1 = self.player->0.moved(input.keys, cfg.player.movement_speed as int, dt, w, h);
        // aim and fire
        let target = match input.cursor.0 {
            Some(c) => c,
            None => p1.position,
        };
        let wp1 = self.weapon->0.aimed(p1.position, target);
        let t1 = timer_plus(wp1.timer.0, dt);
        let fired = input.attack && ready(t1 as int, p1.attack_speed_multiplier as int, cfg.player.attack_interval as int);
        let wp2 = if fired { Weapon { timer: WeaponTimer(0), ..wp1 } } else { Weapon { timer: WeaponTimer(t1), ..wp1 } };
        let ps1 = if fired {
            self.projectiles.push(Projectile { position: wp1.position, direction: ProjectileDirection(wp1.facing) })
        } else {
            self.projectiles
        };
        let ps2 = flight(ps1, enemy_step(cfg.player.projectile_speed as int, dt), w, h);
        // spawn
        let st = timer_plus(self.spawn_timer, dt);
        let due = st >= cfg.enemy.enemy_spawn_interval;
        let es1 = if due {
            self.enemies + fresh_enemies(
                points.take(wave_len(cfg.enemy, self.enemies.len() as int, points.len() as int)),
                cfg.enemy.enemy_health,
            )
        } else {
            self.enemies
        };
        let spawn_timer: u64 = if due { (st as int % cfg.enemy.enemy_spawn_interval as int) as u64 } else { st };
        // enemy movement and attack timers
        let es2 = timers_ticked(advanced(es1, p1.position, enemy_step(cfg.enemy.enemy_speed as int, dt)), dt);
        // collisions
        let (ps3, es3) = resolve(ps2, es2, cfg.player.projectile_damage as int);
        let cd = cfg.enemy.attack_cooldown as int;
        let es4 = after_contact(es3, p1.position, cd);
        let p2 = Player {
            health: health_minus(p1.health, strike_count(es3, p1.position, cd) * cfg.enemy.attack_damage),
            ..p1
        };
        let mult = p2.xp_ball_pickup_range_multiplier as int;
        let p3 = Player { xp: xp_plus(p2.xp, collected(self.xp_balls, p2.position, mult)), ..p2 };
        let bs1 = uncollected(self.xp_balls, p2.position, mult);
        // dead-enemy sweep, then death or progression
        let dies = p3.health <= 0;
        WorldView {
            state: if dies { GameState::Dying } else { GameState::Gaming },
            player: Some(if dies { p3 } else { p3.progressed(cfg.player, bonus) }),
            weapon: Some(wp2),
            enemies: alive(es4),
            projectiles: ps3,
            xp_balls: bs1 + orbs_of_dead(es4),
            spawn_timer,
            restart_timer: if dies { RESTART_DELAY } else { self.restart_timer },
        }
    }
}

impl StatBonus {
    /// The stat that a draw from `0..3` selects.
    pub fn from_roll(n: u64) -> (r: StatBonus)
        ensures
            n == 0 ==> r == StatBonus::MovementSpeed,
            n == 1 ==> r == StatBonus::AttackSpeed,
            n >= 2 ==> r == StatBonus::PickupRange,
    {
        if n == 0 {
            StatBonus::MovementSpeed
        } else if n == 1 {
            StatBonus::AttackSpeed
        } else {
            StatBonus::PickupRange
        }
    }
}

/// A stat drawn uniformly from the three.
fn roll_stat_bonus() -> StatBonus {
    StatBonus::from_roll(random_below(3))
}

/// The spawn timer, advanced by `dt`, has reached the spawn interval.
pub fn spawn_due(timer: u64, dt: u64, interval: u32) -> (r: bool)
    ensures
        r == (timer_plus(timer, dt as int) >= interval),
{
    timer.saturating_add(dt) >= interval as u64
}

/// Every point lies in the world.
pub open spec fn all_within(pts: Seq<Point>, cfg: &Config) -> bool {
    forall|i: int| 0 <= i < pts.len() ==> (#[trigger] pts[i]).within(world_w(cfg), world_h(cfg))
}

impl World {
    pub open spec fn wf(&self, cfg: &Config) -> bool {
        let w = world_w(cfg);
        let h = world_h(cfg);
        &&& (self.player matches Some(p) ==> p.wf() && p.within(w, h))
        &&& (self.weapon matches Some(wp) ==> wp.wf())
        &&& forall|i: int| 0 <= i < self.enemies@.len() ==> (#[trigger] self.enemies@[i]).position.bounded()
        &&& forall|i: int| 0 <= i < self.xp_balls@.len() ==> (#[trigger] self.xp_balls@[i]).position.bounded()
        &&& forall|i: int| 0 <= i < self.projectiles@.len() ==> (#[trigger] self.projectiles@[i]).position.within(w, h)
            && unit_bounded(self.projectiles@[i].direction.0)
        &&& (self.state == GameState::Gaming ==> (self.player matches Some(p) ==> p.health > 0))
    }

    pub open spec fn is_empty(&self) -> bool {
        &&& self.player is None
        &&& self.weapon is None
        &&& self.enemies@.len() == 0
        &&& self.projectiles@.len() == 0
        &&& self.xp_balls@.len() == 0
        &&& self.spawn_timer == 0
        &&& self.restart_timer == 0
    }

    /// What one tick owes, whatever was drawn: the phase moves one step round its
    /// cycle or stays; Loading changes only the phase; Initializing adds the starting
    /// player and weapon and clears the spawn timer, nothing else; a Gaming tick without a
    /// player or weapon changes nothing; otherwise Gaming ends exactly when the player's
    /// health is at or below zero and no enemy at or below zero health survives it; Dying
    /// counts the restart pause down, touching nothing else, and tears the world down
    /// when the pause runs out.
    pub open spec fn tick_ok(old: &World, new: &World, dt: u64) -> bool {
        &&& old.state == GameState::Loading ==> new@ == (WorldView { state: GameState::Initializing, ..old@ })
        &&& old.state == GameState::Initializing ==> new@ == (WorldView {
            state: GameState::Gaming,
            player: Some(Player::initial()),
            weapon: Some(Weapon::beside(Player::initial().position)),
            spawn_timer: 0,
            ..old@
        })
        &&& (old.state == GameState::Gaming && (old.player is None || old.weapon is None)) ==> new@ == old@
        &&& (old.state == GameState::Gaming && old.player is Some && old.weapon is Some) ==> {
            &&& new.state == GameState::Gaming || new.state == GameState::Dying
            &&& (new.player matches Some(p) && (new.state == GameState::Dying <==> p.health <= 0))
            &&& new.state == GameState::Dying ==> new.restart_timer == RESTART_DELAY
            &&& forall|i: int| 0 <= i < new.enemies@.len() ==> (#[trigger] new.enemies@[i]).health > 0
        }
        &&& old.state == GameState::Dying ==> if old.restart_timer <= dt {
            new.state == GameState::Loading && new.is_empty()
        } else {
            new@ == (WorldView { restart_timer: (old.restart_timer - dt) as u64, ..old@ })
        }
        &&& (new.state == old.state || new.state == successor(old.state))
    }

    /// An empty world in the Loading phase.
    pub fn new() -> (r: World)
        ensures
            r.state == GameState::Loading,
            r.is_empty(),
    {
        World {
            state: GameState::Loading,
            player: None,
            weapon: None,
            enemies: Vec::new(),
            projectiles: Vec::new(),
            xp_balls: Vec::new(),
            spawn_timer: 0,
            restart_timer: 0,
        }
    }

    /// Tears every entity down, clears the timers and returns to Loading.
    pub fn restart_game(&mut self)
        ensures
            final(self).state == GameState::Loading,
            final(self).is_empty(),
    {
        self.state = GameState::Loading;
        self.player = None;
        self.weapon = None;
        self.enemies = Vec::new();
        self.projectiles = Vec::new();
        self.xp_balls = Vec::new();
        self.spawn_timer = 0;
        self.restart_timer = 0;
    }

    /// One Gaming tick, in this order: player movement, weapon aim and fire, projectile
    /// flight, enemy spawn, enemy movement and attack timers, projectile-enemy,
    /// player-enemy and player-orb collisions, the dead-enemy sweep, then either the
    /// switch to Dying or the progression check.
    fn gaming_tick(&mut self, cfg: &Config, input: &TickInput, points: &Vec<Point>, bonus: StatBonus)
        requires
            old(self).wf(cfg),
            cfg.wf(),
            old(self).state == GameState::Gaming,
            forall|i: int| 0 <= i < points@.len() ==> (#[trigger] points@[i]).within(world_w(cfg), world_h(cfg)),
        ensures
            final(self).wf(cfg),
            World::tick_ok(old(self), final(self), input.dt),
            (old(self).player is Some && old(self).weapon is Some) ==> final(self)@ == old(self)@.gaming_step(
                cfg,
                *input,
                points@,
                bonus,
            ),
    {
        let w: i64 = cfg.game.world_width as i64 * UNIT;
        let h: i64 = cfg.game.world_height as i64 * UNIT;
        let ghost gw = world_w(cfg);
        let ghost gh = world_h(cfg);
        let mut player = match self.player {
            Some(p) => p,
            None => { return; },
        };
        let mut weapon = match self.weapon {
            Some(wp) => wp,
            None => { return; },
        };
        handle_player_input(&mut player, input.keys, cfg.player.movement_speed, input.dt, w, h);
        update_weapon_transform(&mut weapon, player.position, input.cursor.0);
        assert forall|i: int| 0 <= i < self.projectiles@.len() implies crate::weapon::projectile_ok(
            #[trigger] self.projectiles@[i],
        ) by {
            assert(self.projectiles@[i].position.within(gw, gh));
        }
        let ghost ps0 = self.projectiles@;
        handle_weapon_input(
            &mut weapon,
            &mut self.projectiles,
            input.attack,
            cfg.player.attack_interval,
            player.attack_speed_multiplier,
            input.dt,
        );
        assert forall|i: int| 0 <= i < self.projectiles@.len() implies crate::weapon::projectile_ok(
            #[trigger] self.projectiles@[i],
        ) by {
            if i < ps0.len() {
                assert(self.projectiles@[i] == ps0[i]);
            }
        }
        update_projectiles(&mut self.projectiles, cfg.player.projectile_speed, input.dt, w, h);

        let ghost es0 = self.enemies@;
        if spawn_due(self.spawn_timer, input.dt, cfg.enemy.enemy_spawn_interval) {
            spawn_enemies(&mut self.enemies, &cfg.enemy, points);
            let t = self.spawn_timer.saturating_add(input.dt);
            self.spawn_timer = t % cfg.enemy.enemy_spawn_interval as u64;
        } else {
            self.spawn_timer = self.spawn_timer.saturating_add(input.dt);
        }
        assert forall|i: int| 0 <= i < self.enemies@.len() implies (#[trigger] self.enemies@[i]).position.bounded() by {
            if i >= es0.len() {
                let k = i - es0.len();
                assert(self.enemies@[i].position == points@[k]);
            } else {
                assert(self.enemies@[i] == es0[i]);
            }
        }
        update_enemy_transform(&mut self.enemies, player.position, cfg.enemy.enemy_speed, input.dt);
        update_enemy_attack_timer(&mut self.enemies, input.dt);
        let ghost es2 = self.enemies@;
        assert forall|i: int| 0 <= i < self.enemies@.len() implies (#[trigger] self.enemies@[i]).position.bounded() by {
            assert(self.enemies@[i].position == es2[i].position);
        }
        handle_enemy_projectile_collision(&mut self.projectiles, &mut self.enemies, cfg.player.projectile_damage);
        let ghost es3 = self.enemies@;
        handle_player_enemy_collision(&mut player, &mut self.enemies, cfg.enemy.attack_damage, cfg.enemy.attack_cooldown);
        assert forall|i: int| 0 <= i < self.enemies@.len() implies (#[trigger] self.enemies@[i]).position.bounded() by {
            assert(self.enemies@[i].position == es3[i].position);
        }
        handle_player_pickup_xp(&mut player, &mut self.xp_balls);
        let ghost es4 = self.enemies@;
        let ghost bs4 = self.xp_balls@;
        despawn_dead_enemy(&mut self.enemies, &mut self.xp_balls);
        assert forall|i: int| 0 <= i < self.xp_balls@.len() implies (#[trigger] self.xp_balls@[i]).position.bounded() by {
            if i >= bs4.len() {
                let k = choose|k: int| 0 <= k < es4.len() && self.xp_balls@[i].position == es4[k].position;
                assert(es4[k].position.bounded());
            } else {
                assert(self.xp_balls@[i] == bs4[i]);
            }
        }
        if player.health <= 0 {
            self.state = GameState::Dying;
            self.restart_timer = RESTART_DELAY;
        } else {
            handle_player_xp(&mut player, &cfg.player, bonus);
        }
        self.player = Some(player);
        self.weapon = Some(weapon);
    }

    /// Advances the simulation by one tick, using `points` as the spawn points of any wave
    /// due this tick and `bonus` as the stat raised by any level gained.
    pub fn tick_with(&mut self, cfg: &Config, input: &TickInput, points: &Vec<Point>, bonus: StatBonus)
        requires
            old(self).wf(cfg),
            cfg.wf(),
            forall|i: int| 0 <= i < points@.len() ==> (#[trigger] points@[i]).within(world_w(cfg), world_h(cfg)),
        ensures
            final(self).wf(cfg),
            World::tick_ok(old(self), final(self), input.dt),
            (old(self).state == GameState::Gaming && old(self).player is Some && old(self).weapon is Some)
                ==> final(self)@ == old(self)@.gaming_step(cfg, *input, points@, bonus),
    {
        match self.state {
            GameState::Loading => {
                self.state = GameState::Initializing;
            },
            GameState::Initializing => {
                let p = Player::new();
                self.player = Some(p);
                self.weapon = Some(Weapon::new(p.position));
                self.spawn_timer = 0;
                self.state = GameState::Gaming;
            },
            GameState::Gaming => {
                self.gaming_tick(cfg, input, points, bonus);
            },
            GameState::Dying => {
                if self.restart_timer <= input.dt {
                    self.restart_game();
                } else {
                    self.restart_timer = self.restart_timer - input.dt;
                }
            },
        }
    }

    /// Advances the simulation by one tick, drawing the spawn points of a wave that is due
    /// (outside the view around the player) and the stat raised by a level gained.
    pub fn tick(&mut self, cfg: &Config, input: &TickInput)
        requires
            old(self).wf(cfg),
            cfg.wf(),
        ensures
            final(self).wf(cfg),
            World::tick_ok(old(self), final(self), input.dt),
            (old(self).state == GameState::Gaming && old(self).player is Some && old(self).weapon is Some) ==> exists|
                pts: Seq<Point>,
                b: StatBonus,
            | all_within(pts, cfg) && final(self)@ == #[trigger] old(self)@.gaming_step(cfg, *input, pts, b),
    {
        let ghost before = self@;
        let w: i64 = cfg.game.world_width as i64 * UNIT;
        let h: i64 = cfg.game.world_height as i64 * UNIT;
        let hw: i64 = cfg.app.window_width as i64 * UNIT / 2;
        let hh: i64 = cfg.app.window_height as i64 * UNIT / 2;
        let mut points: Vec<Point> = Vec::new();
        if self.state == GameState::Gaming && spawn_due(self.spawn_timer, input.dt, cfg.enemy.enemy_spawn_interval) {
            if let Some(p) = self.player {
                let n = spawn_count(cfg.enemy.max_num_enemies, self.enemies.len(), cfg.enemy.num_per_wave);
                let mut i: u64 = 0;
                while i < n
                    invariant
                        i <= n,
                        1_000 <= w <= 100_000_000,
                        1_000 <= h <= 100_000_000,
                        0 <= hw <= 100_000_000,
                        0 <= hh <= 100_000_000,
                        p.position.within(w as int, h as int),
                        w == world_w(cfg),
                        h == world_h(cfg),
                        forall|j: int| 0 <= j < points@.len() ==> (#[trigger] points@[j]).within(w as int, h as int),
                    decreases n - i,
                {
                    points.push(sample_spawn_point(p.position, w, h, hw, hh));
                    i = i + 1;
                }
            }
        }
        let bonus = roll_stat_bonus();
        self.tick_with(cfg, input, &points, bonus);
        assert(all_within(points@, cfg));
        assert(self@ == before.gaming_step(cfg, *input, points@, bonus) || !(before.state == GameState::Gaming
            && before.player is Some && before.weapon is Some));
    }
}

/// Number of sheet columns that hold decoration sprites.
pub const DECORATION_KINDS: u64 = 8;

/// A purely visual decoration: where it lies and which sprite column it shows.
#[derive(Clone, Copy, Debug, PartialEq, Eq, Structural)]
pub struct Decoration {
    pub position: Point,
    pub sprite_col: u32,
}

pub open spec fn decoration_count_spec(game: &GameConfig) -> int {
    game.world_width * game.world_height * game.decoration_density / 1_000_000_000
}

/// How many decorations the world holds: its half-extents multiplied, times the density
/// per billion square units.
pub fn decoration_count(game: &GameConfig) -> (r: u64)
    requires
        game.wf(),
    ensures
        r == decoration_count_spec(game),
{
    assert(game.world_width as int * game.world_height as int <= 100_000 * 100_000) by (nonlinear_arith)
        requires game.world_width <= 100_000, game.world_height <= 100_000;
    let a: u128 = game.world_width as u128 * game.world_height as u128;
    assert(a * game.decoration_density <= 10_000_000_000 * 4_294_967_295) by (nonlinear_arith)
        requires a == game.world_width as int * game.world_height as int, game.world_width <= 100_000,
            game.world_height <= 100_000, game.decoration_density <= u32::MAX;
    let n: u128 = a * game.decoration_density as u128 / 1_000_000_000;
    assert(n <= 10_000_000_000 * 4_294_967_295 / 1_000_000_000) by (nonlinear_arith)
        requires n == a * game.decoration_density as int / 1_000_000_000,
            a * game.decoration_density <= 10_000_000_000 * 4_294_967_295;
    n as u64
}

/// Scatters `decoration_count` decorations uniformly over `[-w, w) x [-h, h)`, each with a
/// sprite column drawn from `0..DECORATION_KINDS`.
pub fn decorate_world(game: &GameConfig) -> (r: Vec<Decoration>)
    requires
        game.wf(),
    ensures
        r@.len() == decoration_count_spec(game),
        forall|i: int| 0 <= i < r@.len() ==> (#[trigger] r@[i]).position.within(
            game.world_width * UNIT,
            game.world_height * UNIT,
        ) && r@[i].position.x < game.world_width * UNIT && r@[i].position.y < game.world_height * UNIT
            && r@[i].sprite_col < DECORATION_KINDS,
{
    let n = decoration_count(game);
    let w: i64 = game.world_width as i64 * UNIT;
    let h: i64 = game.world_height as i64 * UNIT;
    let mut out: Vec<Decoration> = Vec::new();
    let mut i: u64 = 0;
    while i < n
        invariant
            i <= n,
            out@.len() == i,
            1_000 <= w <= 100_000_000,
            1_000 <= h <= 100_000_000,
            w == game.world_width * UNIT,
            h == game.world_height * UNIT,
            forall|j: int| 0 <= j < out@.len() ==> (#[trigger] out@[j]).position.within(w as int, h as int)
                && out@[j].position.x < w && out@[j].position.y < h && out@[j].sprite_col < DECORATION_KINDS,
        decreases n - i,
    {
        let p = crate::enemy::random_point(w, h);
        let c = random_below(DECORATION_KINDS);
        out.push(Decoration { position: p, sprite_col: c as u32 });
        i = i + 1;
    }
    out
}

} // verus!
