use vstd::prelude::*;
use crate::config::{MAX_AMOUNT, PlayerConfig};
use crate::geometry::{Point, UNIT};

verus! {

/// Full health, in thousandths.
pub const MAX_HEALTH: i64 = 1000;

/// A multiplier of one, in thousandths.
pub const BASE_MULTIPLIER: u64 = 1000;

/// Experience needed to leave level zero.
pub const BASE_XP_THRESHOLD: u32 = 5;

/// Extra experience needed for each level already gained.
pub const XP_THRESHOLD_STEP: u32 = 3;

/// Length, in thousandths, of each component of a diagonal unit vector.
pub const DIAGONAL: u64 = 707;

/// Movement beyond this many position units in one tick is cut short; it exceeds the
/// width of any world, so the clamp to the world gives the same position.
pub const MAX_STEP: i64 = 4_000_000_000;

/// The player. Health and multipliers are in thousandths.
#[derive(Clone, Copy, Debug, PartialEq, Eq, Structural)]
pub struct Player {
    pub position: Point,
    pub xp: u32,
    pub level: u32,
    pub health: i64,
    pub attack_speed_multiplier: u64,
    pub movement_speed_multiplier: u64,
    pub xp_ball_pickup_range_multiplier: u64,
}

pub open spec fn multiplier_ok(m: u64, level: u32) -> bool {
    BASE_MULTIPLIER <= m && m as int <= BASE_MULTIPLIER + level as int * MAX_AMOUNT as int
}

/// Experience at which a player of `level` gains a level.
pub open spec fn xp_threshold(level: u32) -> int {
    BASE_XP_THRESHOLD + level * XP_THRESHOLD_STEP
}

/// One of the three stats that a level raises.
#[derive(Clone, Copy, Debug, PartialEq, Eq, Structural)]
pub enum StatBonus {
    MovementSpeed,
    AttackSpeed,
    PickupRange,
}

/// Keys held during a tick.
#[derive(Clone, Copy, Debug, PartialEq, Eq, Structural)]
pub struct MoveKeys {
    pub up: bool,
    pub down: bool,
    pub left: bool,
    pub right: bool,
}

pub open spec fn axis(pos: bool, neg: bool) -> int {
    (if pos { 1int } else { 0int }) - (if neg { 1int } else { 0int })
}

impl MoveKeys {
    pub open spec fn axis_x(self) -> int {
        axis(self.right, self.left)
    }

    pub open spec fn axis_y(self) -> int {
        axis(self.up, self.down)
    }

    /// Length, in thousandths, of each nonzero component of the normalized input vector.
    pub open spec fn unit(self) -> int {
        if self.axis_x() != 0 && self.axis_y() != 0 { DIAGONAL as int } else { UNIT as int }
    }
}

pub open spec fn clamp(v: int, lo: int, hi: int) -> int {
    if v < lo { lo } else if v > hi { hi } else { v }
}

pub open spec fn min(a: int, b: int) -> int {
    if a <= b { a } else { b }
}

/// Distance, in position units, covered in `dt` milliseconds at `speed` world units per
/// second scaled by `mult` and `unit` (both in thousandths), cut at `MAX_STEP`.
pub open spec fn travel(speed: int, mult: int, dt: int, unit: int) -> int {
    min(speed * mult * dt * unit / 1_000_000, MAX_STEP as int)
}

pub open spec fn moved_axis(pos: int, dir: int, amount: int, bound: int) -> int {
    clamp(pos + dir * amount, -bound, bound)
}

impl Player {
    pub open spec fn wf(&self) -> bool {
        self.health <= MAX_HEALTH && multiplier_ok(self.attack_speed_multiplier, self.level)
            && multiplier_ok(self.movement_speed_multiplier, self.level)
            && multiplier_ok(self.xp_ball_pickup_range_multiplier, self.level)
    }

    pub open spec fn within(&self, w: int, h: int) -> bool {
        self.position.within(w, h)
    }

    /// The player as it starts a run.
    pub open spec fn initial() -> Player {
        Player {
            position: Point { x: 0i64, y: 0i64 },
            xp: 0u32,
            level: 0u32,
            health: MAX_HEALTH,
            attack_speed_multiplier: BASE_MULTIPLIER,
            movement_speed_multiplier: BASE_MULTIPLIER,
            xp_ball_pickup_range_multiplier: BASE_MULTIPLIER,
        }
    }

    pub open spec fn is_default(&self) -> bool {
        self.position == Point { x: 0, y: 0 } && self.xp == 0 && self.level == 0
            && self.health == MAX_HEALTH && self.attack_speed_multiplier == BASE_MULTIPLIER
            && self.movement_speed_multiplier == BASE_MULTIPLIER
            && self.xp_ball_pickup_range_multiplier == BASE_MULTIPLIER
    }

    /// The player after one level gained with `bonus`.
    pub open spec fn leveled(self, cfg: PlayerConfig, bonus: StatBonus) -> Player {
        Player {
            level: (self.level + 1) as u32,
            xp: 0,
            health: min(self.health + cfg.health_per_lvlup, MAX_HEALTH as int) as i64,
            movement_speed_multiplier: if bonus == StatBonus::MovementSpeed {
                (self.movement_speed_multiplier + cfg.movement_speed_multiplier_inc) as u64
            } else {
                self.movement_speed_multiplier
            },
            attack_speed_multiplier: if bonus == StatBonus::AttackSpeed {
                (self.attack_speed_multiplier + cfg.attack_speed_multiplier_inc) as u64
            } else {
                self.attack_speed_multiplier
            },
            xp_ball_pickup_range_multiplier: if bonus == StatBonus::PickupRange {
                (self.xp_ball_pickup_range_multiplier + cfg.xp_ball_pickup_range_multiplier_inc) as u64
            } else {
                self.xp_ball_pickup_range_multiplier
            },
            ..self
        }
    }

    /// The player after one pass of the progression check.
    pub open spec fn progressed(self, cfg: PlayerConfig, bonus: StatBonus) -> Player {
        if self.xp >= xp_threshold(self.level) { self.leveled(cfg, bonus) } else { self }
    }

    /// The player after one movement pass of `dt` milliseconds in a world of half-extents
    /// `w`, `h` (position units).
    pub open spec fn moved(self, keys: MoveKeys, speed: int, dt: int, w: int, h: int) -> Player {
        let amount = travel(speed, self.movement_speed_multiplier as int, dt, keys.unit());
        Player {
            position: Point {
                x: moved_axis(self.position.x as int, keys.axis_x(), amount, w) as i64,
                y: moved_axis(self.position.y as int, keys.axis_y(), amount, h) as i64,
            },
            ..self
        }
    }

    /// A fresh player at the origin with full health, level zero and unit multipliers.
    pub fn new() -> (r: Player)
        ensures
            r == Player::initial(),
            r.is_default(),
            r.wf(),
    {
        Player {
            position: Point { x: 0, y: 0 },
            xp: 0,
            level: 0,
            health: MAX_HEALTH,
            attack_speed_multiplier: BASE_MULTIPLIER,
            movement_speed_multiplier: BASE_MULTIPLIER,
            xp_ball_pickup_range_multiplier: BASE_MULTIPLIER,
        }
    }

    /// Experience needed for the next level.
    pub fn xp_threshold(&self) -> (r: u64)
        ensures
            r == xp_threshold(self.level),
    {
        assert(self.level as int * 3 <= u32::MAX as int * 3) by (nonlinear_arith)
            requires self.level <= u32::MAX;
        BASE_XP_THRESHOLD as u64 + self.level as u64 * XP_THRESHOLD_STEP as u64
    }
}

impl Default for Player {
    fn default() -> (r: Self)
        ensures
            r.is_default(),
            r.wf(),
    {
        Player::new()
    }
}

/// Leveling at the threshold: a player whose experience equals the threshold of its level
/// gains one level, drops to zero experience, and has exactly one of its three multipliers
/// strictly larger, the other two unchanged; a second pass then changes nothing.
pub proof fn lemma_level_up_at_threshold(p: Player, cfg: PlayerConfig, bonus: StatBonus, again: StatBonus)
    requires
        p.wf(),
        cfg.wf(),
        p.xp == xp_threshold(p.level),
        cfg.movement_speed_multiplier_inc > 0,
        cfg.attack_speed_multiplier_inc > 0,
        cfg.xp_ball_pickup_range_multiplier_inc > 0,
    ensures
        ({
            let q = p.progressed(cfg, bonus);
            &&& q.level == p.level + 1
            &&& q.xp == 0
            &&& q.wf()
            &&& (if q.movement_speed_multiplier > p.movement_speed_multiplier { 1int } else { 0int })
                + (if q.attack_speed_multiplier > p.attack_speed_multiplier { 1int } else { 0int })
                + (if q.xp_ball_pickup_range_multiplier > p.xp_ball_pickup_range_multiplier { 1int } else { 0int }) == 1
            &&& q.movement_speed_multiplier >= p.movement_speed_multiplier
            &&& q.attack_speed_multiplier >= p.attack_speed_multiplier
            &&& q.xp_ball_pickup_range_multiplier >= p.xp_ball_pickup_range_multiplier
            &&& q.progressed(cfg, again) == q
        }),
{
    let l = p.level as int;
    assert(l <= 1_431_655_763);
    assert(l * MAX_AMOUNT + MAX_AMOUNT == (l + 1) * MAX_AMOUNT) by (nonlinear_arith);
    assert(l * MAX_AMOUNT <= 1_431_655_763 * 1_000_000) by (nonlinear_arith)
        requires l <= 1_431_655_763;
    let q = p.progressed(cfg, bonus);
    assert(xp_threshold(q.level) >= 5);
}

/// Distance covered in one tick along each nonzero axis; see `travel`.
fn travel_exec(speed: u32, mult: u64, dt: u64, unit: u64) -> (r: i64)
    requires
        unit <= UNIT,
    ensures
        r as int == travel(speed as int, mult as int, dt as int, unit as int),
        0 <= r <= MAX_STEP,
{
    assert(speed as int * unit as int <= 4_294_967_295 * 1000) by (nonlinear_arith)
        requires speed <= u32::MAX, unit <= 1000;
    let a: u128 = speed as u128 * unit as u128;
    assert(a * mult <= 4_294_967_295u128 * 1000 * 18_446_744_073_709_551_615u128) by (nonlinear_arith)
        requires a <= 4_294_967_295u128 * 1000, mult <= u64::MAX;
    let b: u128 = a * mult as u128;
    let prod = b.checked_mul(dt as u128);
    let cap: u128 = MAX_STEP as u128 * 1_000_000;
    assert(speed as int * mult as int * dt as int * unit as int == b as int * dt as int) by (nonlinear_arith)
        requires a == speed as int * unit as int, b == a * mult as int;
    match prod {
        Some(p) => {
            if p >= cap {
                assert(p / 1_000_000 >= MAX_STEP) by (nonlinear_arith)
                    requires p >= MAX_STEP * 1_000_000;
                MAX_STEP
            } else {
                assert(p / 1_000_000 <= MAX_STEP) by (nonlinear_arith)
                    requires p < MAX_STEP * 1_000_000;
                (p / 1_000_000) as i64
            }
        },
        None => {
            assert(b as int * dt as int / 1_000_000 >= MAX_STEP) by (nonlinear_arith)
                requires b as int * dt as int > u128::MAX;
            MAX_STEP
        },
    }
}

fn axis_exec(pos: bool, neg: bool) -> (r: i64)
    ensures
        r == axis(pos, neg),
{
    (if pos { 1i64 } else { 0i64 }) - (if neg { 1i64 } else { 0i64 })
}

fn moved_axis_exec(pos: i64, dir: i64, amount: i64, bound: i64) -> (r: i64)
    requires
        -bound <= pos <= bound,
        0 <= bound <= 1_000_000_000,
        -1 <= dir <= 1,
        0 <= amount <= MAX_STEP,
    ensures
        r == moved_axis(pos as int, dir as int, amount as int, bound as int),
        -bound <= r <= bound,
{
    let target: i64 = if dir > 0 { pos + amount } else if dir < 0 { pos - amount } else { pos };
    assert(target == pos + dir * amount) by (nonlinear_arith)
        requires
            dir > 0 ==> target == pos + amount,
            dir < 0 ==> target == pos - amount,
            dir == 0 ==> target == pos,
            -1 <= dir <= 1;
    if target < -bound {
        -bound
    } else if target > bound {
        bound
    } else {
        target
    }
}

/// Moves the player by the held keys for `dt` milliseconds at `speed` world units per
/// second, scaled by the movement multiplier, normalized so that a diagonal is no faster,
/// and clamped to the world `[-w, w] x [-h, h]` (position units).
pub fn handle_player_input(player: &mut Player, keys: MoveKeys, speed: u32, dt: u64, w: i64, h: i64)
    requires
        0 <= w <= 1_000_000_000,
        0 <= h <= 1_000_000_000,
        old(player).within(w as int, h as int),
    ensures
        *final(player) == old(player).moved(keys, speed as int, dt as int, w as int, h as int),
        final(player).within(w as int, h as int),
{
    let ax = axis_exec(keys.right, keys.left);
    let ay = axis_exec(keys.up, keys.down);
    let unit: u64 = if ax != 0 && ay != 0 { DIAGONAL } else { UNIT as u64 };
    let amount = travel_exec(speed, player.movement_speed_multiplier, dt, unit);
    let x = moved_axis_exec(player.position.x, ax, amount, w);
    let y = moved_axis_exec(player.position.y, ay, amount, h);
    player.position = Point { x, y };
}

/// Raises the level by one, with `bonus` as the stat that grows, once the experience has
/// reached the threshold of the current level; otherwise leaves the player as it is.
pub fn handle_player_xp(player: &mut Player, cfg: &PlayerConfig, bonus: StatBonus)
    requires
        old(player).wf(),
        cfg.wf(),
    ensures
        *final(player) == old(player).progressed(*cfg, bonus),
        final(player).wf(),
{
    if (player.xp as u64) < player.xp_threshold() {
        return;
    }
    proof {
        let l = player.level as int;
        assert(l * 3 + 5 <= u32::MAX);
        assert(l * MAX_AMOUNT + MAX_AMOUNT == (l + 1) * MAX_AMOUNT) by (nonlinear_arith);
        assert(l * MAX_AMOUNT <= 1_431_655_765 * 1_000_000) by (nonlinear_arith)
            requires l <= 1_431_655_765;
    }
    player.level = player.level + 1;
    player.xp = 0;
    let healed: i64 = player.health + cfg.health_per_lvlup as i64;
    player.health = if healed < MAX_HEALTH { healed } else { MAX_HEALTH };
    match bonus {
        StatBonus::MovementSpeed => {
            player.movement_speed_multiplier = player.movement_speed_multiplier
                + cfg.movement_speed_multiplier_inc as u64;
        },
        StatBonus::AttackSpeed => {
            player.attack_speed_multiplier = player.attack_speed_multiplier
                + cfg.attack_speed_multiplier_inc as u64;
        },
        StatBonus::PickupRange => {
            player.xp_ball_pickup_range_multiplier = player.xp_ball_pickup_range_multiplier
                + cfg.xp_ball_pickup_range_multiplier_inc as u64;
        },
    }
}

} // verus!

verus! {

/// Width of a stat bar, in world units.
pub const BAR_WIDTH: i64 = 40;

/// The player's health bar: how full it is (thousandths) and how far its centre is shifted
/// left so that it stays anchored at its left end (position units).
#[derive(Clone, Copy, Debug, PartialEq, Eq, Structural)]
pub struct HealthBar {
    pub fill: i64,
    pub offset: i64,
}

/// The player's experience bar, laid out as the health bar.
#[derive(Clone, Copy, Debug, PartialEq, Eq, Structural)]
pub struct XPBar {
    pub fill: i64,
    pub offset: i64,
}

/// Shift of a bar of `fill` thousandths: half the missing width, to the left.
pub open spec fn bar_offset(fill: int) -> int {
    -(1000 - fill) * (BAR_WIDTH / 2)
}

/// Health shown on the bar: the player's health, clamped to `[0, MAX_HEALTH]`.
pub open spec fn shown_health(h: i64) -> int {
    if h < 0 { 0 } else { h as int }
}

/// The two stat bars for `player`: health, and experience as a share of the threshold of
/// the current level.
pub fn update_stat_bars(player: &Player) -> (r: (HealthBar, XPBar))
    requires
        player.wf(),
    ensures
        r.0.fill == shown_health(player.health),
        r.0.offset == bar_offset(r.0.fill as int),
        r.1.fill == player.xp as int * 1000 / xp_threshold(player.level),
        r.1.offset == bar_offset(r.1.fill as int),
{
    let hf: i64 = if player.health < 0 { 0 } else { player.health };
    let t = player.xp_threshold();
    assert(player.xp as int * 1000 / t as int <= player.xp as int * 1000) by (nonlinear_arith)
        requires t >= 1, player.xp >= 0;
    let xf: i64 = (player.xp as u64 * 1000 / t) as i64;
    (HealthBar { fill: hf, offset: -(1000 - hf) * (BAR_WIDTH / 2) }, XPBar { fill: xf, offset: -(1000 - xf) * (BAR_WIDTH / 2) })
}

} // verus!
