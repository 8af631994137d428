use vstd::prelude::*;

verus! {

/// Largest world half-extent, in world units.
pub const MAX_WORLD_EXTENT: u32 = 100_000;

/// Largest speed, in world units per second.
pub const MAX_SPEED: u32 = 100_000;

/// Largest amount of health, damage or multiplier step, in thousandths.
pub const MAX_AMOUNT: u32 = 1_000_000;

/// Largest interval, in milliseconds.
pub const MAX_INTERVAL: u32 = 3_600_000;

/// Largest population cap and wave size.
pub const MAX_POPULATION: u64 = 1_000_000;

/// Window size, in world units.
pub struct AppConfig {
    pub window_height: u32,
    pub window_width: u32,
}

/// World layout. Sizes are half-extents in world units; `decoration_density` counts
/// decorations per billion square units; `animation_tick_interval` is in milliseconds.
pub struct GameConfig {
    pub world_width: u32,
    pub world_height: u32,
    pub background_color: (u8, u8, u8),
    pub decoration_density: u32,
    pub animation_tick_interval: u32,
}

/// Sprite sheet layout; `sprite_scale_factor` is in thousandths.
pub struct SpriteConfig {
    pub spritesheet_path: String,
    pub spritesheet_height: u32,
    pub spritesheet_width: u32,
    pub sprite_height: u32,
    pub sprite_width: u32,
    pub sprite_scale_factor: u32,
}

/// Player tunables. Speeds in world units per second, `attack_interval` in
/// milliseconds, damage, health and multiplier steps in thousandths.
pub struct PlayerConfig {
    pub movement_speed: u32,
    pub attack_interval: u32,
    pub projectile_speed: u32,
    pub projectile_damage: u32,
    pub health_per_lvlup: u32,
    pub movement_speed_multiplier_inc: u32,
    pub attack_speed_multiplier_inc: u32,
    pub xp_ball_pickup_range_multiplier_inc: u32,
}

/// Enemy tunables. `enemy_spawn_interval` and `attack_cooldown` in milliseconds,
/// `enemy_health` and `attack_damage` in thousandths, `enemy_speed` in world units per second.
pub struct EnemyConfig {
    pub max_num_enemies: u64,
    pub num_per_wave: u64,
    pub enemy_spawn_interval: u32,
    pub enemy_health: u32,
    pub enemy_speed: u32,
    pub attack_damage: u32,
    pub attack_cooldown: u32,
}

/// All tunables, grouped.
pub struct Config {
    pub app: AppConfig,
    pub game: GameConfig,
    pub sprite: SpriteConfig,
    pub player: PlayerConfig,
    pub enemy: EnemyConfig,
}

impl AppConfig {
    pub open spec fn wf(&self) -> bool {
        self.window_height <= 2 * MAX_WORLD_EXTENT && self.window_width <= 2 * MAX_WORLD_EXTENT
    }

    pub fn is_valid(&self) -> (r: bool)
        ensures
            r == self.wf(),
    {
        self.window_height <= 2 * MAX_WORLD_EXTENT && self.window_width <= 2 * MAX_WORLD_EXTENT
    }
}

impl Default for AppConfig {
    fn default() -> (r: Self)
        ensures
            r.window_height == 1200 && r.window_width == 800,
    {
        AppConfig { window_height: 1200, window_width: 800 }
    }
}

impl GameConfig {
    pub open spec fn wf(&self) -> bool {
        1 <= self.world_width <= MAX_WORLD_EXTENT && 1 <= self.world_height <= MAX_WORLD_EXTENT
            && 1 <= self.animation_tick_interval
    }

    pub fn is_valid(&self) -> (r: bool)
        ensures
            r == self.wf(),
    {
        1 <= self.world_width && self.world_width <= MAX_WORLD_EXTENT && 1 <= self.world_height
            && self.world_height <= MAX_WORLD_EXTENT && 1 <= self.animation_tick_interval
    }
}

impl Default for GameConfig {
    fn default() -> (r: Self)
        ensures
            r.world_width == 2500 && r.world_height == 2500,
            r.background_color == (163u8, 116u8, 46u8),
            r.decoration_density == 277_778,
            r.animation_tick_interval == 100,
    {
        GameConfig {
            world_width: 2500,
            world_height: 2500,
            background_color: (163, 116, 46),
            decoration_density: 277_778,
            animation_tick_interval: 100,
        }
    }
}

impl SpriteConfig {
    pub open spec fn wf(&self) -> bool {
        1 <= self.spritesheet_height && 1 <= self.spritesheet_width
            && self.spritesheet_height * self.spritesheet_width <= u32::MAX
    }

    pub fn is_valid(&self) -> (r: bool)
        ensures
            r == self.wf(),
    {
        assert(self.spritesheet_height as int * self.spritesheet_width as int <= u32::MAX as int * u32::MAX as int)
            by (nonlinear_arith)
            requires self.spritesheet_height <= u32::MAX, self.spritesheet_width <= u32::MAX;
        1 <= self.spritesheet_height && 1 <= self.spritesheet_width
            && (self.spritesheet_height as u64) * (self.spritesheet_width as u64) <= u32::MAX as u64
    }
}

impl Default for SpriteConfig {
    fn default() -> (r: Self)
        ensures
            r.spritesheet_path@ == "sprites.png"@,
            r.spritesheet_height == 8 && r.spritesheet_width == 16,
            r.sprite_height == 32 && r.sprite_width == 32,
            r.sprite_scale_factor == 1500,
    {
        SpriteConfig {
            spritesheet_path: "sprites.png".to_string(),
            spritesheet_height: 8,
            spritesheet_width: 16,
            sprite_height: 32,
            sprite_width: 32,
            sprite_scale_factor: 1500,
        }
    }
}

impl PlayerConfig {
    pub open spec fn wf(&self) -> bool {
        self.movement_speed <= MAX_SPEED && self.attack_interval <= MAX_INTERVAL
            && self.projectile_speed <= MAX_SPEED && self.projectile_damage <= MAX_AMOUNT
            && self.health_per_lvlup <= MAX_AMOUNT && self.movement_speed_multiplier_inc <= MAX_AMOUNT
            && self.attack_speed_multiplier_inc <= MAX_AMOUNT
            && self.xp_ball_pickup_range_multiplier_inc <= MAX_AMOUNT
    }

    pub fn is_valid(&self) -> (r: bool)
        ensures
            r == self.wf(),
    {
        self.movement_speed <= MAX_SPEED && self.attack_interval <= MAX_INTERVAL
            && self.projectile_speed <= MAX_SPEED && self.projectile_damage <= MAX_AMOUNT
            && self.health_per_lvlup <= MAX_AMOUNT && self.movement_speed_multiplier_inc <= MAX_AMOUNT
            && self.attack_speed_multiplier_inc <= MAX_AMOUNT
            && self.xp_ball_pickup_range_multiplier_inc <= MAX_AMOUNT
    }
}

impl Default for PlayerConfig {
    fn default() -> (r: Self)
        ensures
            r.movement_speed == 175 && r.attack_interval == 1000,
            r.projectile_speed == 600 && r.projectile_damage == 1000,
            r.health_per_lvlup == 250,
            r.movement_speed_multiplier_inc == 100,
            r.attack_speed_multiplier_inc == 100,
            r.xp_ball_pickup_range_multiplier_inc == 100,
    {
        PlayerConfig {
            movement_speed: 175,
            attack_interval: 1000,
            projectile_speed: 600,
            projectile_damage: 1000,
            health_per_lvlup: 250,
            movement_speed_multiplier_inc: 100,
            attack_speed_multiplier_inc: 100,
            xp_ball_pickup_range_multiplier_inc: 100,
        }
    }
}

impl EnemyConfig {
    pub open spec fn wf(&self) -> bool {
        self.max_num_enemies <= MAX_POPULATION && self.num_per_wave <= MAX_POPULATION
            && 1 <= self.enemy_spawn_interval <= MAX_INTERVAL && self.enemy_health <= MAX_AMOUNT
            && self.enemy_speed <= MAX_SPEED && self.attack_damage <= MAX_AMOUNT
            && self.attack_cooldown <= MAX_INTERVAL
    }

    pub fn is_valid(&self) -> (r: bool)
        ensures
            r == self.wf(),
    {
        self.max_num_enemies <= MAX_POPULATION && self.num_per_wave <= MAX_POPULATION
            && 1 <= self.enemy_spawn_interval && self.enemy_spawn_interval <= MAX_INTERVAL
            && self.enemy_health <= MAX_AMOUNT && self.enemy_speed <= MAX_SPEED
            && self.attack_damage <= MAX_AMOUNT && self.attack_cooldown <= MAX_INTERVAL
    }
}

impl Default for EnemyConfig {
    fn default() -> (r: Self)
        ensures
            r.max_num_enemies == 50 && r.num_per_wave == 5,
            r.enemy_spawn_interval == 2000 && r.enemy_health == 1000,
            r.enemy_speed == 125,
            r.attack_damage == 250 && r.attack_cooldown == 1000,
    {
        EnemyConfig {
            max_num_enemies: 50,
            num_per_wave: 5,
            enemy_spawn_interval: 2000,
            enemy_health: 1000,
            enemy_speed: 125,
            attack_damage: 250,
            attack_cooldown: 1000,
        }
    }
}

impl Config {
    pub open spec fn wf(&self) -> bool {
        self.app.wf() && self.game.wf() && self.sprite.wf() && self.player.wf() && self.enemy.wf()
    }

    pub fn is_valid(&self) -> (r: bool)
        ensures
            r == self.wf(),
    {
        self.app.is_valid() && self.game.is_valid() && self.sprite.is_valid() && self.player.is_valid()
            && self.enemy.is_valid()
    }

    /// Replaces each group that holds an invalid value by that group's defaults.
    pub fn sanitized(self) -> (r: Config)
        ensures
            r.wf(),
            self.app.wf() ==> r.app == self.app,
            self.game.wf() ==> r.game == self.game,
            self.sprite.wf() ==> r.sprite == self.sprite,
            self.player.wf() ==> r.player == self.player,
            self.enemy.wf() ==> r.enemy == self.enemy,
    {
        let Config { app, game, sprite, player, enemy } = self;
        Config {
            app: if app.is_valid() { app } else { AppConfig::default() },
            game: if game.is_valid() { game } else { GameConfig::default() },
            sprite: if sprite.is_valid() { sprite } else { SpriteConfig::default() },
            player: if player.is_valid() { player } else { PlayerConfig::default() },
            enemy: if enemy.is_valid() { enemy } else { EnemyConfig::default() },
        }
    }
}

impl Default for Config {
    fn default() -> (r: Self)
        ensures
            r.wf(),
            r.game.world_width == 2500 && r.game.world_height == 2500,
            r.app.window_height == 1200 && r.app.window_width == 800,
            r.enemy.max_num_enemies == 50 && r.enemy.num_per_wave == 5,
    {
        Config {
            app: AppConfig::default(),
            game: GameConfig::default(),
            sprite: SpriteConfig::default(),
            player: PlayerConfig::default(),
            enemy: EnemyConfig::default(),
        }
    }
}

} // verus!
