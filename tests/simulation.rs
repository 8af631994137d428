use cs415_project::collision::{handle_enemy_projectile_collision, handle_player_enemy_collision, CONTACT_RADIUS_SQ};
use cs415_project::config::{Config, EnemyConfig, GameConfig, PlayerConfig};
use cs415_project::enemy::{despawn_dead_enemy, first_clear, spawn_count, spawn_enemies, update_enemy_attack_timer, update_enemy_transform, Enemy};
use cs415_project::geometry::Point;
use cs415_project::player::{handle_player_input, handle_player_xp, MoveKeys, Player, StatBonus};
use cs415_project::state::{GameState, RESTART_DELAY};
use cs415_project::weapon::{handle_weapon_input, update_projectiles, update_weapon_transform, Projectile, ProjectileDirection, Weapon, WeaponTimer};
use cs415_project::world::{spawn_due, CursorPosition, TickInput, World};
use cs415_project::xp_ball::{handle_player_pickup_xp, XPBall};

fn pt(x: i64, y: i64) -> Point {
    Point { x, y }
}

fn enemy_at(x: i64, y: i64, health: i64, attack_timer: u64) -> Enemy {
    Enemy { position: pt(x, y), health, attack_timer }
}

fn no_keys() -> MoveKeys {
    MoveKeys { up: false, down: false, left: false, right: false }
}

fn idle(dt: u64) -> TickInput {
    TickInput { dt, keys: no_keys(), attack: false, cursor: CursorPosition(None) }
}

fn gaming_world(cfg: &Config) -> World {
    let mut world = World::new();
    let points: Vec<Point> = Vec::new();
    world.tick_with(cfg, &idle(16), &points, StatBonus::MovementSpeed);
    assert_eq!(world.state, GameState::Initializing);
    world.tick_with(cfg, &idle(16), &points, StatBonus::MovementSpeed);
    assert_eq!(world.state, GameState::Gaming);
    world
}

#[test]
fn spawn_count_fills_remaining_room() {
    assert_eq!(spawn_count(50, 48, 5), 2);
    assert_eq!(spawn_count(50, 10, 5), 5);
    assert_eq!(spawn_count(50, 50, 5), 0);
    assert_eq!(spawn_count(50, 60, 5), 0);
}

#[test]
fn spawn_wave_near_cap_adds_two() {
    let mut cfg = EnemyConfig::default();
    cfg.max_num_enemies = 50;
    cfg.num_per_wave = 5;
    let mut enemies: Vec<Enemy> = (0..48).map(|i| enemy_at(i, 0, 1000, 0)).collect();
    let points = vec![pt(1, 1), pt(2, 2), pt(3, 3), pt(4, 4), pt(5, 5)];
    spawn_enemies(&mut enemies, &cfg, &points);
    assert_eq!(enemies.len(), 50);
    assert_eq!(enemies[48], Enemy { position: pt(1, 1), health: 1000, attack_timer: 0 });
    assert_eq!(enemies[49], Enemy { position: pt(2, 2), health: 1000, attack_timer: 0 });
}

#[test]
fn spawn_wave_limited_by_points() {
    let cfg = EnemyConfig::default();
    let mut enemies: Vec<Enemy> = Vec::new();
    spawn_enemies(&mut enemies, &cfg, &vec![pt(7, 7)]);
    assert_eq!(enemies.len(), 1);
}

#[test]
fn first_clear_skips_points_in_view() {
    let cands = vec![pt(0, 0), pt(100, -100), pt(500, 0), pt(0, 600)];
    assert_eq!(first_clear(&cands, pt(0, 0), 400, 400), 2);
    let all_in = vec![pt(0, 0), pt(10, 10)];
    assert_eq!(first_clear(&all_in, pt(0, 0), 400, 400), 1);
}

#[test]
fn pickup_at_scaled_radius_edge() {
    let mut player = Player::new();
    player.xp_ball_pickup_range_multiplier = 2000;
    // 70.703^2 + 0.292^2 is just under 4999 square world units; the radius is 2500 * 2.0
    let mut balls = vec![XPBall { position: pt(70_703, 292) }];
    handle_player_pickup_xp(&mut player, &mut balls);
    assert!(balls.is_empty());
    assert_eq!(player.xp, 1);
}

#[test]
fn pickup_beyond_radius_keeps_orb() {
    let mut player = Player::new();
    player.xp_ball_pickup_range_multiplier = 2000;
    let mut balls = vec![XPBall { position: pt(70_711, 0) }, XPBall { position: pt(0, 50_000) }];
    handle_player_pickup_xp(&mut player, &mut balls);
    assert_eq!(balls, vec![XPBall { position: pt(70_711, 0) }]);
    assert_eq!(player.xp, 1);
}

#[test]
fn lethal_hit_moves_to_dying_same_tick() {
    let cfg = Config::default();
    let mut world = gaming_world(&cfg);
    let mut p = world.player.unwrap();
    p.health = 10;
    world.player = Some(p);
    world.enemies.push(enemy_at(0, 0, 1000, 5000));
    world.tick_with(&cfg, &idle(16), &Vec::new(), StatBonus::MovementSpeed);
    let p = world.player.unwrap();
    assert!(p.health <= 0);
    assert_eq!(p.health, 10 - 250);
    assert_eq!(world.state, GameState::Dying);
    assert_eq!(world.restart_timer, RESTART_DELAY);
}

#[test]
fn contact_damage_never_raises_health() {
    let mut player = Player::new();
    let mut enemies = vec![enemy_at(0, 0, 1000, 2000), enemy_at(5000, 0, 1000, 2000), enemy_at(0, 100, 1000, 10), enemy_at(900_000, 0, 1000, 9000)];
    let before = player.health;
    handle_player_enemy_collision(&mut player, &mut enemies, 250, 1000);
    assert!(player.health <= before);
    assert_eq!(player.health, 1000 - 2 * 250);
    assert_eq!(enemies[0].attack_timer, 0);
    assert_eq!(enemies[1].attack_timer, 0);
    assert_eq!(enemies[2].attack_timer, 10);
    assert_eq!(enemies[3].attack_timer, 9000);
}

#[test]
fn contact_radius_is_inclusive() {
    let mut player = Player::new();
    // 15811^2 = 249_987_721 <= 250_000_000
    let mut enemies = vec![enemy_at(15_811, 0, 1000, 2000), enemy_at(15_812, 0, 1000, 2000)];
    handle_player_enemy_collision(&mut player, &mut enemies, 250, 1000);
    assert_eq!(player.health, 750);
    assert!(CONTACT_RADIUS_SQ == 250_000_000);
}

#[test]
fn dead_enemies_leave_one_orb_each() {
    let mut enemies = vec![enemy_at(1, 2, 0, 0), enemy_at(3, 4, 500, 0), enemy_at(5, 6, -20, 0)];
    let mut balls = vec![XPBall { position: pt(9, 9) }];
    despawn_dead_enemy(&mut enemies, &mut balls);
    assert_eq!(enemies, vec![enemy_at(3, 4, 500, 0)]);
    assert_eq!(balls, vec![XPBall { position: pt(9, 9) }, XPBall { position: pt(1, 2) }, XPBall { position: pt(5, 6) }]);
}

#[test]
fn projectile_damages_only_first_enemy_in_range() {
    let mut projectiles = vec![
        Projectile { position: pt(0, 0), direction: ProjectileDirection(pt(1000, 0)) },
        Projectile { position: pt(900_000, 0), direction: ProjectileDirection(pt(1000, 0)) },
    ];
    let mut enemies = vec![enemy_at(100, 0, 1000, 0), enemy_at(0, 100, 1000, 0), enemy_at(500_000, 0, 1000, 0)];
    handle_enemy_projectile_collision(&mut projectiles, &mut enemies, 1000);
    assert_eq!(enemies[0].health, 0);
    assert_eq!(enemies[1].health, 1000);
    assert_eq!(enemies[2].health, 1000);
    assert_eq!(projectiles, vec![Projectile { position: pt(900_000, 0), direction: ProjectileDirection(pt(1000, 0)) }]);
}

#[test]
fn two_projectiles_two_hits() {
    let mut projectiles = vec![
        Projectile { position: pt(0, 0), direction: ProjectileDirection(pt(1000, 0)) },
        Projectile { position: pt(0, 0), direction: ProjectileDirection(pt(1000, 0)) },
    ];
    let mut enemies = vec![enemy_at(0, 0, 1500, 0)];
    handle_enemy_projectile_collision(&mut projectiles, &mut enemies, 1000);
    assert_eq!(enemies[0].health, -500);
    assert!(projectiles.is_empty());
}

#[test]
fn level_up_at_exact_threshold() {
    let cfg = PlayerConfig::default();
    let mut p = Player::new();
    p.xp = 5;
    p.health = 500;
    handle_player_xp(&mut p, &cfg, StatBonus::AttackSpeed);
    assert_eq!(p.level, 1);
    assert_eq!(p.xp, 0);
    assert_eq!(p.health, 750);
    assert_eq!(p.attack_speed_multiplier, 1100);
    assert_eq!(p.movement_speed_multiplier, 1000);
    assert_eq!(p.xp_ball_pickup_range_multiplier, 1000);
    // a second pass at the new threshold of 8 does nothing
    let q = p;
    handle_player_xp(&mut p, &cfg, StatBonus::PickupRange);
    assert_eq!(p, q);
    p.xp = 8;
    handle_player_xp(&mut p, &cfg, StatBonus::PickupRange);
    assert_eq!(p.level, 2);
    assert_eq!(p.xp_ball_pickup_range_multiplier, 1100);
}

#[test]
fn level_up_heal_is_capped() {
    let cfg = PlayerConfig::default();
    let mut p = Player::new();
    p.xp = 6;
    p.health = 900;
    handle_player_xp(&mut p, &cfg, StatBonus::MovementSpeed);
    assert_eq!(p.health, 1000);
    assert_eq!(p.movement_speed_multiplier, 1100);
}

#[test]
fn below_threshold_no_level() {
    let cfg = PlayerConfig::default();
    let mut p = Player::new();
    p.xp = 4;
    handle_player_xp(&mut p, &cfg, StatBonus::MovementSpeed);
    assert_eq!(p.level, 0);
    assert_eq!(p.xp, 4);
}

#[test]
fn movement_straight_and_diagonal() {
    let mut p = Player::new();
    handle_player_input(&mut p, MoveKeys { up: false, down: false, left: false, right: true }, 175, 1000, 2_500_000, 2_500_000);
    assert_eq!(p.position, pt(175_000, 0));
    let mut q = Player::new();
    handle_player_input(&mut q, MoveKeys { up: true, down: false, left: true, right: false }, 175, 1000, 2_500_000, 2_500_000);
    assert_eq!(q.position, pt(-123_725, 123_725));
}

#[test]
fn movement_clamped_to_world() {
    let mut p = Player::new();
    p.position = pt(2_499_000, -2_499_000);
    handle_player_input(&mut p, MoveKeys { up: false, down: true, left: false, right: true }, 175, 1000, 2_500_000, 2_500_000);
    assert_eq!(p.position, pt(2_500_000, -2_500_000));
    p.movement_speed_multiplier = u64::MAX;
    handle_player_input(&mut p, MoveKeys { up: true, down: false, left: true, right: false }, 100_000, u64::MAX, 2_500_000, 2_500_000);
    assert_eq!(p.position, pt(-2_500_000, 2_500_000));
}

#[test]
fn opposite_keys_cancel() {
    let mut p = Player::new();
    p.position = pt(10, 20);
    handle_player_input(&mut p, MoveKeys { up: true, down: true, left: true, right: true }, 175, 1000, 2_500_000, 2_500_000);
    assert_eq!(p.position, pt(10, 20));
}

#[test]
fn enemies_seek_player() {
    let mut enemies = vec![enemy_at(3000, 4000, 1000, 0), enemy_at(0, 0, 1000, 0), enemy_at(100, 0, 1000, 0)];
    update_enemy_transform(&mut enemies, pt(0, 0), 125, 8);
    assert_eq!(enemies[0].position, pt(2400, 3200));
    assert_eq!(enemies[1].position, pt(0, 0));
    assert_eq!(enemies[2].position, pt(-900, 0));
}

#[test]
fn enemy_close_to_player_passes_it() {
    let mut enemies = vec![enemy_at(1000, 0, 1000, 0)];
    update_enemy_transform(&mut enemies, pt(0, 0), 125, 1000);
    assert_eq!(enemies[0].position, pt(-124_000, 0));
}

#[test]
fn gaming_tick_without_player_changes_nothing() {
    let cfg = Config::default();
    let mut world = gaming_world(&cfg);
    world.player = None;
    world.enemies.push(enemy_at(5000, 0, 1000, 0));
    world.spawn_timer = 1990;
    world.tick_with(&cfg, &idle(16), &vec![pt(1_000_000, 1_000_000)], StatBonus::MovementSpeed);
    assert_eq!(world.state, GameState::Gaming);
    assert_eq!(world.enemies, vec![enemy_at(5000, 0, 1000, 0)]);
    assert_eq!(world.spawn_timer, 1990);
}

#[test]
fn loading_tick_changes_only_the_phase() {
    let cfg = Config::default();
    let mut world = World::new();
    world.xp_balls.push(XPBall { position: pt(3, 3) });
    world.tick_with(&cfg, &idle(16), &Vec::new(), StatBonus::MovementSpeed);
    assert_eq!(world.state, GameState::Initializing);
    assert_eq!(world.xp_balls, vec![XPBall { position: pt(3, 3) }]);
    assert!(world.player.is_none());
    world.tick_with(&cfg, &idle(16), &Vec::new(), StatBonus::MovementSpeed);
    assert_eq!(world.player, Some(Player::new()));
    assert_eq!(world.weapon, Some(Weapon::new(pt(0, 0))));
    assert_eq!(world.xp_balls, vec![XPBall { position: pt(3, 3) }]);
    assert!(world.enemies.is_empty());
}

#[test]
fn attack_timers_advance() {
    let mut enemies = vec![enemy_at(0, 0, 1000, 5), enemy_at(0, 0, 1000, u64::MAX - 1)];
    update_enemy_attack_timer(&mut enemies, 16);
    assert_eq!(enemies[0].attack_timer, 21);
    assert_eq!(enemies[1].attack_timer, u64::MAX);
}

#[test]
fn weapon_aims_and_fires_when_ready() {
    let mut w = Weapon::new(pt(0, 0));
    update_weapon_transform(&mut w, pt(0, 0), Some(pt(0, 10_000)));
    assert_eq!(w.facing, pt(0, 1000));
    assert_eq!(w.position, pt(0, 25_000));
    let mut ps: Vec<Projectile> = Vec::new();
    assert!(!handle_weapon_input(&mut w, &mut ps, true, 1000, 1000, 500));
    assert_eq!(w.timer, WeaponTimer(500));
    assert!(!handle_weapon_input(&mut w, &mut ps, true, 1000, 1000, 500));
    assert!(handle_weapon_input(&mut w, &mut ps, true, 1000, 1000, 1));
    assert_eq!(w.timer, WeaponTimer(0));
    assert_eq!(ps, vec![Projectile { position: pt(0, 25_000), direction: ProjectileDirection(pt(0, 1000)) }]);
    assert!(!handle_weapon_input(&mut w, &mut ps, false, 1000, 1000, 5000));
    assert_eq!(ps.len(), 1);
}

#[test]
fn attack_speed_shortens_interval() {
    let mut w = Weapon::new(pt(0, 0));
    let mut ps: Vec<Projectile> = Vec::new();
    assert!(handle_weapon_input(&mut w, &mut ps, true, 1000, 2000, 501));
}

#[test]
fn weapon_without_cursor_points_left() {
    let mut w = Weapon::new(pt(0, 0));
    update_weapon_transform(&mut w, pt(1000, 0), None);
    assert_eq!(w.facing, pt(-1000, 0));
    assert_eq!(w.position, pt(1000 - 25_000, 0));
}

#[test]
fn projectiles_fly_and_leave_world() {
    let mut ps = vec![
        Projectile { position: pt(0, 0), direction: ProjectileDirection(pt(600, -800)) },
        Projectile { position: pt(2_499_000, 0), direction: ProjectileDirection(pt(1000, 0)) },
    ];
    update_projectiles(&mut ps, 600, 10, 2_500_000, 2_500_000);
    assert_eq!(ps, vec![Projectile { position: pt(3600, -4800), direction: ProjectileDirection(pt(600, -800)) }]);
}

#[test]
fn spawn_timer_due() {
    assert!(!spawn_due(1000, 500, 2000));
    assert!(spawn_due(1500, 500, 2000));
    assert!(spawn_due(u64::MAX, 5, 2000));
}

#[test]
fn phase_cycle_and_restart() {
    let cfg = Config::default();
    let mut world = gaming_world(&cfg);
    let p = world.player.unwrap();
    assert_eq!(p.health, 1000);
    assert_eq!(p.level, 0);
    assert!(world.weapon.is_some());
    let mut p = world.player.unwrap();
    p.health = 0;
    world.player = Some(p);
    world.xp_balls.push(XPBall { position: pt(1, 1) });
    world.tick_with(&cfg, &idle(16), &Vec::new(), StatBonus::MovementSpeed);
    assert_eq!(world.state, GameState::Dying);
    world.tick_with(&cfg, &idle(1000), &Vec::new(), StatBonus::MovementSpeed);
    assert_eq!(world.state, GameState::Dying);
    assert_eq!(world.restart_timer, RESTART_DELAY - 1000);
    world.tick_with(&cfg, &idle(2000), &Vec::new(), StatBonus::MovementSpeed);
    assert_eq!(world.state, GameState::Loading);
    assert!(world.player.is_none());
    assert!(world.xp_balls.is_empty());
    assert!(world.enemies.is_empty());
}

#[test]
fn gaming_tick_spawns_wave_from_points() {
    let cfg = Config::default();
    let mut world = gaming_world(&cfg);
    world.spawn_timer = 1990;
    let points = vec![pt(1_000_000, 1_000_000), pt(-1_000_000, 1_000_000)];
    world.tick_with(&cfg, &idle(16), &points, StatBonus::MovementSpeed);
    assert_eq!(world.enemies.len(), 2);
    assert_eq!(world.spawn_timer, 6);
    assert_eq!(world.state, GameState::Gaming);
}

#[test]
fn gaming_tick_kills_enemy_and_drops_orb() {
    let cfg = Config::default();
    let mut world = gaming_world(&cfg);
    world.enemies.push(enemy_at(1_000_000, 0, 1000, 0));
    world.projectiles.push(Projectile { position: pt(1_000_000, 0), direction: ProjectileDirection(pt(0, 0)) });
    world.tick_with(&cfg, &idle(0), &Vec::new(), StatBonus::MovementSpeed);
    assert!(world.enemies.is_empty());
    assert!(world.projectiles.is_empty());
    assert_eq!(world.xp_balls, vec![XPBall { position: pt(1_000_000, 0) }]);
}

#[test]
fn random_ticks_keep_world_in_bounds() {
    let cfg = Config::default();
    let mut world = World::new();
    let w = cfg.game.world_width as i64 * 1000;
    let h = cfg.game.world_height as i64 * 1000;
    for _ in 0..100 {
        world.tick(&cfg, &idle(50));
        for e in world.enemies.iter() {
            assert!(-w <= e.position.x && e.position.x <= w);
            assert!(-h <= e.position.y && e.position.y <= h);
        }
    }
    assert_eq!(world.state, GameState::Gaming);
    assert_eq!(world.enemies.len(), 10);
}

#[test]
fn fresh_spawns_are_drawn_in_half_open_world() {
    let mut cfg = Config::default();
    cfg.game.world_width = 1;
    cfg.game.world_height = 1;
    cfg.app.window_width = 0;
    cfg.app.window_height = 0;
    cfg.enemy.num_per_wave = 50;
    cfg.enemy.enemy_speed = 0;
    let mut world = World::new();
    world.tick(&cfg, &idle(16));
    world.tick(&cfg, &idle(16));
    world.spawn_timer = 5000;
    world.tick(&cfg, &idle(0));
    assert!(world.enemies.len() > 0);
    for e in world.enemies.iter() {
        assert!(-1000 <= e.position.x && e.position.x < 1000);
        assert!(-1000 <= e.position.y && e.position.y < 1000);
    }
}

#[test]
fn config_defaults_and_sanitize() {
    let cfg = Config::default();
    assert!(cfg.is_valid());
    assert_eq!(cfg.game.world_width, 2500);
    assert_eq!(cfg.enemy.max_num_enemies, 50);
    let mut bad = Config::default();
    bad.game.world_width = 0;
    bad.player.movement_speed = 300;
    assert!(!bad.is_valid());
    let fixed = bad.sanitized();
    assert!(fixed.is_valid());
    assert_eq!(fixed.game.world_width, GameConfig::default().world_width);
    assert_eq!(fixed.player.movement_speed, 300);
}

#[test]
fn stat_bars_show_health_and_xp_share() {
    let mut p = Player::new();
    p.health = 250;
    p.xp = 4;
    p.level = 1;
    p.attack_speed_multiplier = 1100;
    let (hb, xb) = cs415_project::player::update_stat_bars(&p);
    assert_eq!(hb.fill, 250);
    assert_eq!(hb.offset, -(750 * 20));
    assert_eq!(xb.fill, 500);
    assert_eq!(xb.offset, -(500 * 20));
    p.health = -30;
    let (hb, _) = cs415_project::player::update_stat_bars(&p);
    assert_eq!(hb.fill, 0);
}

#[test]
fn decorations_fill_the_world() {
    let game = GameConfig::default();
    assert_eq!(cs415_project::world::decoration_count(&game), 1736);
    let decor = cs415_project::world::decorate_world(&game);
    assert_eq!(decor.len(), 1736);
    for d in decor.iter() {
        assert!(d.sprite_col < 8);
        assert!(-2_500_000 <= d.position.x && d.position.x < 2_500_000);
        assert!(-2_500_000 <= d.position.y && d.position.y < 2_500_000);
    }
}
