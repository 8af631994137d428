use vstd::prelude::*;
use crate::enemy::enemy_step;
use crate::geometry::{clamp_coord_exec, clamp_point, scale, scale_exec, unit_toward, unit_toward_spec, Point, MAX_COORD, UNIT};
use crate::player::MAX_STEP;

verus! {

/// Distance of the weapon from the player's centre, in world units.
pub const WEAPON_OFFSET: i64 = 25;

/// Milliseconds since the weapon last fired.
#[derive(Clone, Copy, Debug, PartialEq, Eq, Structural)]
pub struct WeaponTimer(pub u64);

/// Heading of a projectile, in thousandths of a unit vector; fixed when it is fired.
#[derive(Clone, Copy, Debug, PartialEq, Eq, Structural)]
pub struct ProjectileDirection(pub Point);

#[derive(Clone, Copy, Debug, PartialEq, Eq, Structural)]
pub struct Projectile {
    pub position: Point,
    pub direction: ProjectileDirection,
}

/// The player's weapon: where it is, which way it points (in thousandths of a unit
/// vector) and its firing timer.
#[derive(Clone, Copy, Debug, PartialEq, Eq, Structural)]
pub struct Weapon {
    pub position: Point,
    pub facing: Point,
    pub timer: WeaponTimer,
}

pub open spec fn unit_bounded(v: Point) -> bool {
    -UNIT <= v.x <= UNIT && -UNIT <= v.y <= UNIT
}

impl Weapon {
    pub open spec fn wf(&self) -> bool {
        self.position.bounded() && unit_bounded(self.facing)
    }

    /// The weapon after it turned toward `target` around a player at `center`.
    pub open spec fn aimed(self, center: Point, target: Point) -> Weapon {
        let f = unit_toward_spec(center, clamp_point(target));
        Weapon {
            position: Point { x: (center.x + f.x * WEAPON_OFFSET) as i64, y: (center.y + f.y * WEAPON_OFFSET) as i64 },
            facing: f,
            ..self
        }
    }

    /// The weapon `WEAPON_OFFSET` world units left of `center`, pointing left, with a
    /// cleared timer.
    pub open spec fn beside(center: Point) -> Weapon {
        Weapon {
            position: Point { x: (center.x - WEAPON_OFFSET * UNIT) as i64, y: center.y },
            facing: Point { x: -1000i64, y: 0i64 },
            timer: WeaponTimer(0),
        }
    }

    /// A weapon beside a player at `center`, pointing left, with a cleared timer.
    pub fn new(center: Point) -> (r: Weapon)
        requires
            center.bounded(),
            -MAX_COORD + 25_000 <= center.x <= MAX_COORD - 25_000,
        ensures
            r.wf(),
            r == Weapon::beside(center),
    {
        Weapon {
            position: Point { x: center.x - WEAPON_OFFSET * UNIT, y: center.y },
            facing: Point { x: -UNIT, y: 0 },
            timer: WeaponTimer(0),
        }
    }
}

/// Turns the weapon toward `cursor`, or toward the player's own position when there is
/// none, and places it `WEAPON_OFFSET` world units from the player in that direction.
/// A cursor beyond the coordinate range is first brought back into it.
pub fn update_weapon_transform(weapon: &mut Weapon, center: Point, cursor: Option<Point>)
    requires
        -MAX_COORD / 2 <= center.x <= MAX_COORD / 2,
        -MAX_COORD / 2 <= center.y <= MAX_COORD / 2,
    ensures
        *final(weapon) == old(weapon).aimed(center, match cursor { Some(c) => c, None => center }),
        final(weapon).wf(),
{
    let target = match cursor {
        Some(c) => c,
        None => center,
    };
    let t = Point { x: clamp_coord_exec(target.x), y: clamp_coord_exec(target.y) };
    let f = unit_toward(center, t);
    weapon.facing = f;
    weapon.position = Point { x: center.x + f.x * WEAPON_OFFSET, y: center.y + f.y * WEAPON_OFFSET };
}

/// The weapon fires once its timer, scaled by the attack-speed multiplier `mult`
/// (thousandths), exceeds the attack interval (milliseconds).
pub open spec fn ready(timer: int, mult: int, interval: int) -> bool {
    timer * mult > interval * 1000
}

pub open spec fn timer_plus(t: u64, dt: int) -> u64 {
    if t + dt > u64::MAX { u64::MAX } else { (t + dt) as u64 }
}

/// Advances the weapon's timer by `dt` milliseconds; while `attack` is held and the weapon
/// is ready, fires one projectile from the weapon along its facing and clears the timer.
pub fn handle_weapon_input(
    weapon: &mut Weapon,
    projectiles: &mut Vec<Projectile>,
    attack: bool,
    interval: u32,
    mult: u64,
    dt: u64,
) -> (fired: bool)
    ensures
        fired == (attack && ready(timer_plus(old(weapon).timer.0, dt as int) as int, mult as int, interval as int)),
        fired ==> *final(weapon) == (Weapon { timer: WeaponTimer(0), ..*old(weapon) }),
        fired ==> final(projectiles)@ == old(projectiles)@.push(
            Projectile { position: old(weapon).position, direction: ProjectileDirection(old(weapon).facing) },
        ),
        !fired ==> *final(weapon) == (Weapon { timer: WeaponTimer(timer_plus(old(weapon).timer.0, dt as int)), ..*old(weapon) }),
        !fired ==> final(projectiles)@ == old(projectiles)@,
{
    let t = weapon.timer.0.saturating_add(dt);
    weapon.timer = WeaponTimer(t);
    assert(t as int * mult as int <= u64::MAX as int * u64::MAX as int) by (nonlinear_arith)
        requires t <= u64::MAX, mult <= u64::MAX;
    if attack && (t as u128) * (mult as u128) > (interval as u128) * 1000 {
        projectiles.push(Projectile { position: weapon.position, direction: ProjectileDirection(weapon.facing) });
        weapon.timer = WeaponTimer(0);
        true
    } else {
        false
    }
}

/// The projectile after flying `step` position units along its direction.
pub open spec fn flown(p: Projectile, step: int) -> Projectile {
    Projectile {
        position: Point {
            x: (p.position.x + scale(p.direction.0.x as int, step, 1000)) as i64,
            y: (p.position.y + scale(p.direction.0.y as int, step, 1000)) as i64,
        },
        ..p
    }
}

/// The projectiles after flying `step`, without those that left `[-w, w] x [-h, h]`.
pub open spec fn flight(s: Seq<Projectile>, step: int, w: int, h: int) -> Seq<Projectile>
    decreases s.len(),
{
    if s.len() == 0 {
        s
    } else {
        let r = flight(s.drop_last(), step, w, h);
        let q = flown(s.last(), step);
        if q.position.within(w, h) { r.push(q) } else { r }
    }
}

pub open spec fn projectile_ok(p: Projectile) -> bool {
    p.position.bounded() && unit_bounded(p.direction.0)
}

/// Moves every projectile along its direction by its speed times `dt`, and removes those
/// that leave the world `[-w, w] x [-h, h]`.
pub fn update_projectiles(projectiles: &mut Vec<Projectile>, speed: u32, dt: u64, w: i64, h: i64)
    requires
        0 <= w <= MAX_COORD,
        0 <= h <= MAX_COORD,
        forall|j: int| 0 <= j < old(projectiles)@.len() ==> projectile_ok(#[trigger] old(projectiles)@[j]),
    ensures
        final(projectiles)@ == flight(old(projectiles)@, enemy_step(speed as int, dt as int), w as int, h as int),
        forall|j: int| 0 <= j < final(projectiles)@.len() ==> (#[trigger] final(projectiles)@[j]).position.within(w as int, h as int)
            && unit_bounded(final(projectiles)@[j].direction.0),
{
    let ghost s = projectiles@;
    let step: u64 = match (speed as u64).checked_mul(dt) {
        Some(v) => if v < MAX_STEP as u64 { v } else { MAX_STEP as u64 },
        None => MAX_STEP as u64,
    };
    assert(step == enemy_step(speed as int, dt as int));
    let mut kept: Vec<Projectile> = Vec::new();
    let mut i: usize = 0;
    while i < projectiles.len()
        invariant
            projectiles@ == s,
            0 <= i <= s.len(),
            step <= MAX_STEP,
            0 <= w <= MAX_COORD,
            0 <= h <= MAX_COORD,
            forall|j: int| 0 <= j < s.len() ==> projectile_ok(#[trigger] s[j]),
            kept@ == flight(s.take(i as int), step as int, w as int, h as int),
            forall|j: int| 0 <= j < kept@.len() ==> (#[trigger] kept@[j]).position.within(w as int, h as int)
                && unit_bounded(kept@[j].direction.0),
        decreases s.len() - i,
    {
        let p = projectiles[i];
        assert(projectile_ok(s[i as int]));
        assert(s.take(i as int + 1).drop_last() =~= s.take(i as int));
        assert(s.take(i as int + 1).last() == p);
        let dx = scale_exec(p.direction.0.x as i64, step, 1000);
        let dy = scale_exec(p.direction.0.y as i64, step, 1000);
        proof {
            scale_unit_bound(p.direction.0.x as int, step as int);
            scale_unit_bound(p.direction.0.y as int, step as int);
        }
        let q = Projectile { position: Point { x: p.position.x + dx, y: p.position.y + dy }, ..p };
        assert(q == flown(p, step as int));
        if -w <= q.position.x && q.position.x <= w && -h <= q.position.y && q.position.y <= h {
            kept.push(q);
        }
        i = i + 1;
    }
    assert(s.take(s.len() as int) =~= s);
    *projectiles = kept;
}

proof fn scale_unit_bound(v: int, step: int)
    requires
        -1000 <= v <= 1000,
        0 <= step <= MAX_STEP,
    ensures
        -MAX_STEP <= scale(v, step, 1000) <= MAX_STEP,
{
    let a = if v < 0 { -v } else { v };
    assert(a * step <= 1000 * step) by (nonlinear_arith)
        requires 0 <= a <= 1000, 0 <= step;
    assert(a * step >= 0) by (nonlinear_arith)
        requires 0 <= a, 0 <= step;
    assert((a * step) / 1000 <= (1000 * step) / 1000) by (nonlinear_arith)
        requires a * step <= 1000 * step;
    assert((1000 * step) / 1000 == step) by (nonlinear_arith);
    assert((a * step) / 1000 >= 0) by (nonlinear_arith)
        requires a * step >= 0;
}

} // verus!
