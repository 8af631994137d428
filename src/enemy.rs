use vstd::prelude::*;
use crate::config::EnemyConfig;
use crate::geometry::{step_toward, step_toward_spec, Point};
use crate::player::{min, MAX_STEP};
use crate::random::random_below;
use crate::xp_ball::XPBall;

verus! {

/// Draws allowed for one spawn point before an unconstrained draw is taken.
pub const MAX_SPAWN_ATTEMPTS: usize = 16;

/// An enemy. Health in thousandths; `attack_timer` counts milliseconds since its last hit
/// on the player.
#[derive(Clone, Copy, Debug, PartialEq, Eq, Structural)]
pub struct Enemy {
    pub position: Point,
    pub health: i64,
    pub attack_timer: u64,
}

impl Enemy {
    pub open spec fn fresh(position: Point, health: u32) -> Enemy {
        Enemy { position, health: health as i64, attack_timer: 0 }
    }

    /// A new enemy at `position` with the configured health and a cleared attack timer.
    pub fn new(position: Point, cfg: &EnemyConfig) -> (r: Enemy)
        ensures
            r == Enemy::fresh(position, cfg.enemy_health),
    {
        Enemy { position, health: cfg.enemy_health as i64, attack_timer: 0 }
    }
}

impl Default for Enemy {
    fn default() -> (r: Self)
        ensures
            r == Enemy::fresh(Point { x: 0, y: 0 }, 1000),
    {
        Enemy { position: Point { x: 0, y: 0 }, health: 1000, attack_timer: 0 }
    }
}

pub open spec fn spawn_count_spec(max: int, current: int, wave: int) -> int {
    if current >= max { 0 } else { min(max - current, wave) }
}

/// How many enemies one wave adds: the room left under the cap, at most a wave's size.
pub fn spawn_count(max: u64, current: usize, wave: u64) -> (r: u64)
    ensures
        r == spawn_count_spec(max as int, current as int, wave as int),
{
    if current as u64 >= max {
        0
    } else {
        let room = max - current as u64;
        if room <= wave { room } else { wave }
    }
}

pub open spec fn fresh_enemies(points: Seq<Point>, health: u32) -> Seq<Enemy> {
    points.map_values(|p: Point| Enemy::fresh(p, health))
}

/// The number of enemies that `spawn_enemies` adds with `n` candidate points.
pub open spec fn wave_len(cfg: EnemyConfig, current: int, n: int) -> int {
    min(spawn_count_spec(cfg.max_num_enemies as int, current, cfg.num_per_wave as int), n)
}

/// Adds one wave of enemies, placed at the first points of `points`: as many as the cap
/// and the wave size allow, and no more than there are points.
pub fn spawn_enemies(enemies: &mut Vec<Enemy>, cfg: &EnemyConfig, points: &Vec<Point>)
    ensures
        final(enemies)@ == old(enemies)@ + fresh_enemies(
            points@.take(wave_len(*cfg, old(enemies)@.len() as int, points@.len() as int)),
            cfg.enemy_health,
        ),
{
    let ghost s = enemies@;
    let c = spawn_count(cfg.max_num_enemies, enemies.len(), cfg.num_per_wave);
    let k: usize = if (points.len() as u64) <= c { points.len() } else { c as usize };
    assert(k == wave_len(*cfg, s.len() as int, points@.len() as int));
    let mut i: usize = 0;
    while i < k
        invariant
            0 <= i <= k <= points@.len(),
            enemies@ == s + fresh_enemies(points@.take(i as int), cfg.enemy_health),
        decreases k - i,
    {
        let e = Enemy::new(points[i], cfg);
        enemies.push(e);
        i = i + 1;
        assert(fresh_enemies(points@.take(i as int), cfg.enemy_health) =~= fresh_enemies(
            points@.take(i - 1),
            cfg.enemy_health,
        ).push(e));
    }
}

/// The point lies outside the rectangle of half-extents `hw`, `hh` centred on `center`.
pub open spec fn clear_of(p: Point, center: Point, hw: int, hh: int) -> bool {
    p.x - center.x > hw || center.x - p.x > hw || p.y - center.y > hh || center.y - p.y > hh
}

/// Index of the first candidate clear of the view around `center`, or of the last
/// candidate when none is.
pub fn first_clear(candidates: &Vec<Point>, center: Point, hw: i64, hh: i64) -> (r: usize)
    requires
        candidates@.len() > 0,
        center.bounded(),
        0 <= hw <= 1_000_000_000,
        0 <= hh <= 1_000_000_000,
        forall|j: int| 0 <= j < candidates@.len() ==> (#[trigger] candidates@[j]).bounded(),
    ensures
        r < candidates@.len(),
        forall|j: int| 0 <= j < r ==> !clear_of(#[trigger] candidates@[j], center, hw as int, hh as int),
        clear_of(candidates@[r as int], center, hw as int, hh as int) || r == candidates@.len() - 1,
{
    let mut i: usize = 0;
    while i < candidates.len() - 1
        invariant
            0 <= i < candidates@.len(),
            forall|j: int| 0 <= j < i ==> !clear_of(#[trigger] candidates@[j], center, hw as int, hh as int),
            center.bounded(),
            0 <= hw <= 1_000_000_000,
            0 <= hh <= 1_000_000_000,
            forall|j: int| 0 <= j < candidates@.len() ==> (#[trigger] candidates@[j]).bounded(),
        decreases candidates@.len() - i,
    {
        let p = candidates[i];
        if p.x - center.x > hw || center.x - p.x > hw || p.y - center.y > hh || center.y - p.y > hh {
            return i;
        }
        i = i + 1;
    }
    i
}

/// A point drawn uniformly from `[-w, w) x [-h, h)`.
pub(crate) fn random_point(w: i64, h: i64) -> (r: Point)
    requires
        1 <= w <= 1_000_000_000,
        1 <= h <= 1_000_000_000,
    ensures
        r.within(w as int, h as int),
        r.x < w,
        r.y < h,
{
    let x = random_below(2 * w as u64);
    let y = random_below(2 * h as u64);
    Point { x: x as i64 - w, y: y as i64 - h }
}

/// A spawn point in the world `[-w, w] x [-h, h]`, drawn until it falls outside the view
/// of half-extents `hw`, `hh` around `center`; after `MAX_SPAWN_ATTEMPTS` draws the last
/// one is kept wherever it lies.
pub fn sample_spawn_point(center: Point, w: i64, h: i64, hw: i64, hh: i64) -> (r: Point)
    requires
        1 <= w <= 1_000_000_000,
        1 <= h <= 1_000_000_000,
        center.bounded(),
        0 <= hw <= 1_000_000_000,
        0 <= hh <= 1_000_000_000,
    ensures
        r.within(w as int, h as int),
{
    let mut candidates: Vec<Point> = Vec::new();
    let mut i: usize = 0;
    while i < MAX_SPAWN_ATTEMPTS
        invariant
            i <= MAX_SPAWN_ATTEMPTS,
            candidates@.len() == i,
            1 <= w <= 1_000_000_000,
            1 <= h <= 1_000_000_000,
            forall|j: int| 0 <= j < candidates@.len() ==> (#[trigger] candidates@[j]).within(w as int, h as int),
        decreases MAX_SPAWN_ATTEMPTS - i,
    {
        candidates.push(random_point(w, h));
        i = i + 1;
    }
    let k = first_clear(&candidates, center, hw, hh);
    candidates[k]
}

/// The enemies after each took one step of `step` toward `target`.
pub open spec fn advanced(s: Seq<Enemy>, target: Point, step: int) -> Seq<Enemy> {
    s.map_values(|e: Enemy| Enemy { position: step_toward_spec(e.position, target, step), ..e })
}

/// Distance, in position units, covered in `dt` milliseconds at `speed` world units per
/// second, cut at `MAX_STEP`.
pub open spec fn enemy_step(speed: int, dt: int) -> int {
    min(speed * dt, MAX_STEP as int)
}

/// Moves every enemy by its speed times `dt` along the direction toward `target`; an enemy
/// closer than one step passes the target, one that stands on it stays.
pub fn update_enemy_transform(enemies: &mut Vec<Enemy>, target: Point, speed: u32, dt: u64)
    requires
        target.bounded(),
        forall|j: int| 0 <= j < old(enemies)@.len() ==> (#[trigger] old(enemies)@[j]).position.bounded(),
    ensures
        final(enemies)@ == advanced(old(enemies)@, target, enemy_step(speed as int, dt as int)),
        forall|j: int| 0 <= j < final(enemies)@.len() ==> (#[trigger] final(enemies)@[j]).position.bounded(),
{
    let ghost s = enemies@;
    let step: u64 = match (speed as u64).checked_mul(dt) {
        Some(v) => if v < MAX_STEP as u64 { v } else { MAX_STEP as u64 },
        None => MAX_STEP as u64,
    };
    assert(step == enemy_step(speed as int, dt as int));
    let mut i: usize = 0;
    while i < enemies.len()
        invariant
            enemies@.len() == s.len(),
            0 <= i <= s.len(),
            target.bounded(),
            step <= MAX_STEP,
            forall|j: int| 0 <= j < s.len() ==> (#[trigger] s[j]).position.bounded(),
            forall|j: int| i <= j < s.len() ==> enemies@[j] == s[j],
            forall|j: int| 0 <= j < i ==> enemies@[j] == (#[trigger] advanced(s, target, step as int)[j]),
            forall|j: int| 0 <= j < i ==> (#[trigger] enemies@[j]).position.bounded(),
        decreases s.len() - i,
    {
        let e = enemies[i];
        assert(e == s[i as int]);
        assert(e.position.bounded());
        let p = step_toward(e.position, target, step);
        enemies.set(i, Enemy { position: p, ..e });
        i = i + 1;
    }
    assert(enemies@ =~= advanced(s, target, step as int));
}

/// The enemies after `dt` more milliseconds on their attack timers, which stop at the largest value.
pub open spec fn timers_ticked(s: Seq<Enemy>, dt: int) -> Seq<Enemy> {
    s.map_values(|e: Enemy| Enemy {
        attack_timer: if e.attack_timer + dt > u64::MAX { u64::MAX } else { (e.attack_timer + dt) as u64 },
        ..e
    })
}

/// Advances each enemy's attack timer by `dt` milliseconds.
pub fn update_enemy_attack_timer(enemies: &mut Vec<Enemy>, dt: u64)
    ensures
        final(enemies)@ == timers_ticked(old(enemies)@, dt as int),
{
    let ghost s = enemies@;
    let mut i: usize = 0;
    while i < enemies.len()
        invariant
            enemies@.len() == s.len(),
            0 <= i <= s.len(),
            forall|j: int| i <= j < s.len() ==> enemies@[j] == s[j],
            forall|j: int| 0 <= j < i ==> enemies@[j] == (#[trigger] timers_ticked(s, dt as int)[j]),
        decreases s.len() - i,
    {
        let e = enemies[i];
        enemies.set(i, Enemy { attack_timer: e.attack_timer.saturating_add(dt), ..e });
        i = i + 1;
    }
    assert(enemies@ =~= timers_ticked(s, dt as int));
}

/// The enemies whose health is above zero, in their order.
pub open spec fn alive(s: Seq<Enemy>) -> Seq<Enemy>
    decreases s.len(),
{
    if s.len() == 0 {
        s
    } else {
        let r = alive(s.drop_last());
        if s.last().health > 0 { r.push(s.last()) } else { r }
    }
}

/// One orb at the position of each enemy whose health is at or below zero, in their order.
pub open spec fn orbs_of_dead(s: Seq<Enemy>) -> Seq<XPBall>
    decreases s.len(),
{
    if s.len() == 0 {
        Seq::empty()
    } else {
        let r = orbs_of_dead(s.drop_last());
        if s.last().health > 0 { r } else { r.push(XPBall { position: s.last().position }) }
    }
}

pub open spec fn is_alive() -> spec_fn(Enemy) -> bool {
    |e: Enemy| e.health > 0
}

pub open spec fn is_dead() -> spec_fn(Enemy) -> bool {
    |e: Enemy| e.health <= 0
}

pub open spec fn orb_at() -> spec_fn(Enemy) -> XPBall {
    |e: Enemy| XPBall { position: e.position }
}

/// The dead-enemy sweep leaves exactly one orb per dead enemy: the enemies it keeps are
/// those above zero health, and the orbs it adds are, in order, one at the position of
/// each enemy at or below zero health.
pub proof fn lemma_one_orb_per_dead_enemy(s: Seq<Enemy>)
    ensures
        alive(s) == s.filter(is_alive()),
        orbs_of_dead(s) == s.filter(is_dead()).map_values(orb_at()),
        alive(s).len() + orbs_of_dead(s).len() == s.len(),
    decreases s.len(),
{
    reveal(Seq::filter);
    if s.len() > 0 {
        let t = s.drop_last();
        lemma_one_orb_per_dead_enemy(t);
        let fd = t.filter(is_dead());
        if s.last().health <= 0 {
            assert(fd.push(s.last()).map_values(orb_at()) =~= fd.map_values(orb_at()).push(orb_at()(s.last())));
        }
    } else {
        assert(s.filter(is_dead()).map_values(orb_at()) =~= Seq::<XPBall>::empty());
    }
}

/// Removes every enemy whose health is at or below zero and leaves an orb where each stood.
pub fn despawn_dead_enemy(enemies: &mut Vec<Enemy>, balls: &mut Vec<XPBall>)
    ensures
        final(enemies)@ == alive(old(enemies)@),
        final(balls)@ == old(balls)@ + orbs_of_dead(old(enemies)@),
        forall|j: int| 0 <= j < final(enemies)@.len() ==> old(enemies)@.contains(#[trigger] final(enemies)@[j])
            && final(enemies)@[j].health > 0,
        forall|j: int| old(balls)@.len() <= j < final(balls)@.len() ==> exists|k: int|
            0 <= k < old(enemies)@.len() && (#[trigger] final(balls)@[j]).position == old(enemies)@[k].position,
{
    let ghost s = enemies@;
    let ghost b0 = balls@;
    let mut kept: Vec<Enemy> = Vec::new();
    let mut i: usize = 0;
    while i < enemies.len()
        invariant
            enemies@ == s,
            0 <= i <= s.len(),
            kept@ == alive(s.take(i as int)),
            balls@ == b0 + orbs_of_dead(s.take(i as int)),
            forall|j: int| 0 <= j < kept@.len() ==> s.contains(#[trigger] kept@[j]) && kept@[j].health > 0,
            forall|j: int| b0.len() <= j < balls@.len() ==> exists|k: int|
                0 <= k < s.len() && (#[trigger] balls@[j]).position == s[k].position,
        decreases s.len() - i,
    {
        let e = enemies[i];
        assert(s[i as int] == e);
        assert(s.take(i as int + 1).drop_last() =~= s.take(i as int));
        assert(s.take(i as int + 1).last() == e);
        if e.health > 0 {
            kept.push(e);
        } else {
            XPBall::spawn(balls, e.position);
            assert(balls@ =~= b0 + orbs_of_dead(s.take(i as int + 1)));
        }
        i = i + 1;
    }
    assert(s.take(s.len() as int) =~= s);
    *enemies = kept;
}

} // verus!
