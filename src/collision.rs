use vstd::prelude::*;
use crate::enemy::Enemy;
use crate::geometry::{dist_sq, dist_sq_spec, Point};
use crate::player::Player;
use crate::weapon::Projectile;

verus! {

/// Squared contact radius between bodies, in square position units (250 square world units).
pub const CONTACT_RADIUS_SQ: u64 = 250_000_000;

pub open spec fn in_contact(a: Point, b: Point) -> bool {
    dist_sq_spec(a, b) <= CONTACT_RADIUS_SQ
}

/// `h - d`, stopping at the smallest value.
pub open spec fn health_minus(h: i64, d: int) -> i64 {
    if h - d < i64::MIN { i64::MIN } else { (h - d) as i64 }
}

/// `i` is the first enemy in contact with `pos`.
pub open spec fn is_first_contact(pos: Point, es: Seq<Enemy>, i: int) -> bool {
    0 <= i < es.len() && in_contact(pos, es[i].position) && forall|j: int|
        0 <= j < i ==> !in_contact(pos, #[trigger] es[j].position)
}

pub open spec fn first_contact(pos: Point, es: Seq<Enemy>) -> Option<int> {
    if exists|i: int| is_first_contact(pos, es, i) {
        Some(choose|i: int| is_first_contact(pos, es, i))
    } else {
        None
    }
}

proof fn lemma_first_contact_unique(pos: Point, es: Seq<Enemy>, i: int)
    requires
        is_first_contact(pos, es, i),
    ensures
        first_contact(pos, es) == Some(i),
{
    let c = choose|k: int| is_first_contact(pos, es, k);
    assert(is_first_contact(pos, es, c));
    if c < i {
        assert(!in_contact(pos, es[c].position));
    } else if i < c {
        assert(!in_contact(pos, es[i].position));
    }
}

/// Index of the first enemy in contact with `pos`, if any.
pub fn first_hit(pos: Point, enemies: &Vec<Enemy>) -> (r: Option<usize>)
    requires
        pos.bounded(),
        forall|j: int| 0 <= j < enemies@.len() ==> (#[trigger] enemies@[j]).position.bounded(),
    ensures
        r matches Some(i) ==> first_contact(pos, enemies@) == Some(i as int),
        r is None ==> first_contact(pos, enemies@) is None,
        r is None ==> forall|j: int| 0 <= j < enemies@.len() ==> !in_contact(pos, #[trigger] enemies@[j].position),
{
    let mut i: usize = 0;
    while i < enemies.len()
        invariant
            0 <= i <= enemies@.len(),
            pos.bounded(),
            forall|j: int| 0 <= j < enemies@.len() ==> (#[trigger] enemies@[j]).position.bounded(),
            forall|j: int| 0 <= j < i ==> !in_contact(pos, #[trigger] enemies@[j].position),
        decreases enemies@.len() - i,
    {
        let e = enemies[i];
        if dist_sq(pos, e.position) <= CONTACT_RADIUS_SQ {
            proof {
                lemma_first_contact_unique(pos, enemies@, i as int);
            }
            return Some(i);
        }
        i = i + 1;
    }
    assert forall|k: int| !is_first_contact(pos, enemies@, k) by {
        if 0 <= k < enemies@.len() {
            assert(!in_contact(pos, enemies@[k].position));
        }
    }
    None
}

pub open spec fn damaged(e: Enemy, dmg: int) -> Enemy {
    Enemy { health: health_minus(e.health, dmg), ..e }
}

/// What one projectile does to the enemies: `Some` with the enemies after it struck the
/// first one in contact, and is spent; `None` when it touches no enemy.
pub open spec fn strike(p: Projectile, es: Seq<Enemy>, dmg: int) -> Option<Seq<Enemy>> {
    match first_contact(p.position, es) {
        Some(i) => Some(es.update(i, damaged(es[i], dmg))),
        None => None,
    }
}

/// The projectiles left and the enemies after each projectile in turn struck.
pub open spec fn resolve(ps: Seq<Projectile>, es: Seq<Enemy>, dmg: int) -> (Seq<Projectile>, Seq<Enemy>)
    decreases ps.len(),
{
    if ps.len() == 0 {
        (ps, es)
    } else {
        let (kept, es1) = resolve(ps.drop_last(), es, dmg);
        match strike(ps.last(), es1, dmg) {
            Some(es2) => (kept, es2),
            None => (kept.push(ps.last()), es1),
        }
    }
}

/// One projectile damages at most one enemy: after its turn, either it is kept and the
/// enemies are as they were, or it is gone and exactly one enemy, the first in contact
/// with it, took `dmg`, all others unchanged.
pub proof fn lemma_projectile_strikes_at_most_one(ps: Seq<Projectile>, es: Seq<Enemy>, dmg: int)
    requires
        ps.len() > 0,
    ensures
        ({
            let (k0, e0) = resolve(ps.drop_last(), es, dmg);
            let (k1, e1) = resolve(ps, es, dmg);
            (k1 == k0.push(ps.last()) && e1 == e0) || (k1 == k0 && e1.len() == e0.len() && exists|i: int|
                is_first_contact(ps.last().position, e0, i) && e1[i] == damaged(e0[i], dmg) && forall|j: int|
                    0 <= j < e0.len() && j != i ==> e1[j] == e0[j])
        }),
{
    let (k0, e0) = resolve(ps.drop_last(), es, dmg);
    match first_contact(ps.last().position, e0) {
        Some(i) => {
            let c = choose|k: int| is_first_contact(ps.last().position, e0, k);
            assert(is_first_contact(ps.last().position, e0, c));
            assert(c == i);
            let e1 = e0.update(i, damaged(e0[i], dmg));
            assert(resolve(ps, es, dmg) == (k0, e1));
            assert(e1[i] == damaged(e0[i], dmg));
            assert(forall|j: int| 0 <= j < e0.len() && j != i ==> e1[j] == e0[j]);
        },
        None => {},
    }
}

/// Some enemy in contact with `pos` means a first one exists.
proof fn lemma_first_contact_exists(pos: Point, es: Seq<Enemy>, j: int)
    requires
        0 <= j < es.len(),
        in_contact(pos, es[j].position),
    ensures
        first_contact(pos, es) is Some,
    decreases j,
{
    if exists|k: int| 0 <= k < j && in_contact(pos, #[trigger] es[k].position) {
        let k = choose|k: int| 0 <= k < j && in_contact(pos, #[trigger] es[k].position);
        lemma_first_contact_exists(pos, es, k);
    } else {
        assert(is_first_contact(pos, es, j));
    }
}

/// The collision pass moves no enemy, and every projectile it keeps touches none of them.
proof fn lemma_resolve_keeps_untouching(ps: Seq<Projectile>, es: Seq<Enemy>, dmg: int)
    ensures
        resolve(ps, es, dmg).1.len() == es.len(),
        forall|j: int| 0 <= j < es.len() ==> (#[trigger] resolve(ps, es, dmg).1[j]).position == es[j].position,
        forall|k: int, j: int| 0 <= k < resolve(ps, es, dmg).0.len() && 0 <= j < es.len() ==> !in_contact(
            (#[trigger] resolve(ps, es, dmg).0[k]).position,
            #[trigger] es[j].position,
        ),
    decreases ps.len(),
{
    if ps.len() > 0 {
        let t = ps.drop_last();
        lemma_resolve_keeps_untouching(t, es, dmg);
        let (k0, e1) = resolve(t, es, dmg);
        let p = ps.last();
        match first_contact(p.position, e1) {
            Some(i) => {
                let c = choose|k: int| is_first_contact(p.position, e1, k);
                assert(is_first_contact(p.position, e1, c));
                let e2 = e1.update(i, damaged(e1[i], dmg));
                assert(resolve(ps, es, dmg) == (k0, e2));
                assert forall|j: int| 0 <= j < es.len() implies (#[trigger] e2[j]).position == es[j].position by {
                    assert(e1[j].position == es[j].position);
                }
                assert forall|k: int, j: int| 0 <= k < k0.len() && 0 <= j < es.len() implies !in_contact(
                    (#[trigger] k0[k]).position,
                    #[trigger] es[j].position,
                ) by {
                    assert(!in_contact(resolve(t, es, dmg).0[k].position, es[j].position));
                }
            },
            None => {
                let k1 = k0.push(p);
                assert(resolve(ps, es, dmg) == (k1, e1));
                assert forall|k: int, j: int| 0 <= k < k1.len() && 0 <= j < es.len() implies !in_contact(
                    (#[trigger] k1[k]).position,
                    #[trigger] es[j].position,
                ) by {
                    if k < k0.len() {
                        assert(k1[k] == k0[k]);
                        assert(!in_contact(resolve(t, es, dmg).0[k].position, es[j].position));
                    } else {
                        assert(e1[j].position == es[j].position);
                        if in_contact(p.position, es[j].position) {
                            lemma_first_contact_exists(p.position, e1, j);
                        }
                    }
                }
            },
        }
    }
}

/// A projectile that touches any enemy when the collision pass starts is gone after it,
/// even when several enemies were in range.
pub proof fn lemma_touching_projectile_is_removed(ps: Seq<Projectile>, es: Seq<Enemy>, dmg: int, p: Projectile, j: int)
    requires
        0 <= j < es.len(),
        in_contact(p.position, es[j].position),
    ensures
        !resolve(ps, es, dmg).0.contains(p),
{
    lemma_resolve_keeps_untouching(ps, es, dmg);
    if resolve(ps, es, dmg).0.contains(p) {
        let k = choose|k: int| 0 <= k < resolve(ps, es, dmg).0.len() && resolve(ps, es, dmg).0[k] == p;
        assert(!in_contact(resolve(ps, es, dmg).0[k].position, es[j].position));
    }
}

/// Each projectile, in order, strikes the first enemy in contact with it, taking
/// `damage` from its health, and is removed; a projectile touching no enemy stays.
pub fn handle_enemy_projectile_collision(projectiles: &mut Vec<Projectile>, enemies: &mut Vec<Enemy>, damage: u32)
    requires
        forall|j: int| 0 <= j < old(projectiles)@.len() ==> (#[trigger] old(projectiles)@[j]).position.bounded(),
        forall|j: int| 0 <= j < old(enemies)@.len() ==> (#[trigger] old(enemies)@[j]).position.bounded(),
    ensures
        (final(projectiles)@, final(enemies)@) == resolve(old(projectiles)@, old(enemies)@, damage as int),
        final(enemies)@.len() == old(enemies)@.len(),
        forall|j: int| 0 <= j < final(enemies)@.len() ==> (#[trigger] final(enemies)@[j]).position == old(enemies)@[j].position
            && final(enemies)@[j].attack_timer == old(enemies)@[j].attack_timer,
        forall|j: int| 0 <= j < final(projectiles)@.len() ==> old(projectiles)@.contains(#[trigger] final(projectiles)@[j]),
{
    let ghost ps = projectiles@;
    let ghost es = enemies@;
    let mut kept: Vec<Projectile> = Vec::new();
    let mut i: usize = 0;
    while i < projectiles.len()
        invariant
            projectiles@ == ps,
            0 <= i <= ps.len(),
            forall|j: int| 0 <= j < ps.len() ==> (#[trigger] ps[j]).position.bounded(),
            (kept@, enemies@) == resolve(ps.take(i as int), es, damage as int),
            enemies@.len() == es.len(),
            forall|j: int| 0 <= j < enemies@.len() ==> (#[trigger] enemies@[j]).position == es[j].position
                && enemies@[j].attack_timer == es[j].attack_timer,
            forall|j: int| 0 <= j < es.len() ==> (#[trigger] es[j]).position.bounded(),
            forall|j: int| 0 <= j < kept@.len() ==> ps.contains(#[trigger] kept@[j]),
        decreases ps.len() - i,
    {
        let p = projectiles[i];
        assert(ps.take(i as int + 1).drop_last() =~= ps.take(i as int));
        assert(ps.take(i as int + 1).last() == p);
        assert(ps[i as int] == p);
        assert(p.position.bounded());
        assert forall|j: int| 0 <= j < enemies@.len() implies (#[trigger] enemies@[j]).position.bounded() by {
            assert(enemies@[j].position == es[j].position);
        }
        match first_hit(p.position, enemies) {
            Some(k) => {
                let e = enemies[k];
                let h: i64 = if e.health >= i64::MIN + damage as i64 { e.health - damage as i64 } else { i64::MIN };
                enemies.set(k, Enemy { health: h, ..e });
            },
            None => {
                kept.push(p);
            },
        }
        i = i + 1;
    }
    assert(ps.take(ps.len() as int) =~= ps);
    *projectiles = kept;
}

pub open spec fn strikes_player(pp: Point, e: Enemy, cooldown: int) -> bool {
    in_contact(pp, e.position) && e.attack_timer > cooldown
}

/// The enemies after their contact pass: each that struck has its attack timer cleared.
pub open spec fn after_contact(s: Seq<Enemy>, pp: Point, cooldown: int) -> Seq<Enemy> {
    s.map_values(|e: Enemy| if strikes_player(pp, e, cooldown) { Enemy { attack_timer: 0, ..e } } else { e })
}

/// The number of enemies that strike a player at `pp`.
pub open spec fn strike_count(s: Seq<Enemy>, pp: Point, cooldown: int) -> nat
    decreases s.len(),
{
    if s.len() == 0 {
        0
    } else {
        strike_count(s.drop_last(), pp, cooldown) + if strikes_player(pp, s.last(), cooldown) { 1nat } else { 0nat }
    }
}

proof fn lemma_health_step(h: i64, n: nat, dmg: int)
    requires
        dmg >= 0,
    ensures
        health_minus(health_minus(h, n * dmg), dmg) == health_minus(h, (n + 1) * dmg),
        n * dmg >= 0,
{
    assert((n + 1) * dmg == n * dmg + dmg) by (nonlinear_arith);
    assert(n * dmg >= 0) by (nonlinear_arith)
        requires dmg >= 0;
}

/// Every enemy in contact with the player whose attack timer exceeds `cooldown`
/// (milliseconds) takes `damage` from the player's health and clears its timer.
pub fn handle_player_enemy_collision(player: &mut Player, enemies: &mut Vec<Enemy>, damage: u32, cooldown: u32)
    requires
        old(player).position.bounded(),
        forall|j: int| 0 <= j < old(enemies)@.len() ==> (#[trigger] old(enemies)@[j]).position.bounded(),
    ensures
        final(enemies)@ == after_contact(old(enemies)@, old(player).position, cooldown as int),
        *final(player) == (Player {
            health: health_minus(
                old(player).health,
                strike_count(old(enemies)@, old(player).position, cooldown as int) * damage,
            ),
            ..*old(player)
        }),
        final(player).health <= old(player).health,
{
    let ghost s = enemies@;
    let ghost h0 = player.health;
    let pp = player.position;
    let mut i: usize = 0;
    proof {
        assert(health_minus(h0, 0nat * damage) == h0);
    }
    while i < enemies.len()
        invariant
            enemies@.len() == s.len(),
            0 <= i <= s.len(),
            pp == player.position,
            pp.bounded(),
            forall|j: int| 0 <= j < s.len() ==> (#[trigger] s[j]).position.bounded(),
            forall|j: int| i <= j < s.len() ==> enemies@[j] == s[j],
            forall|j: int| 0 <= j < i ==> enemies@[j] == (#[trigger] after_contact(s, pp, cooldown as int)[j]),
            player.health == health_minus(h0, strike_count(s.take(i as int), pp, cooldown as int) * damage),
            player.health <= h0,
            *player == (Player { health: player.health, ..*old(player) }),
        decreases s.len() - i,
    {
        let e = enemies[i];
        assert(e == s[i as int]);
        assert(s.take(i as int + 1).drop_last() =~= s.take(i as int));
        assert(s.take(i as int + 1).last() == e);
        let ghost n = strike_count(s.take(i as int), pp, cooldown as int);
        proof {
            lemma_health_step(h0, n, damage as int);
        }
        if dist_sq(pp, e.position) <= CONTACT_RADIUS_SQ && e.attack_timer > cooldown as u64 {
            player.health = if player.health >= i64::MIN + damage as i64 {
                player.health - damage as i64
            } else {
                i64::MIN
            };
            enemies.set(i, Enemy { attack_timer: 0, ..e });
        }
        i = i + 1;
    }
    assert(s.take(s.len() as int) =~= s);
    assert(enemies@ =~= after_contact(s, pp, cooldown as int));
}

} // verus!
