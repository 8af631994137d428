use vstd::prelude::*;
use crate::geometry::{dist_sq, dist_sq_spec, Point};
use crate::player::Player;

verus! {

/// Squared pickup radius at a multiplier of one, in square position units
/// (2500 square world units).
pub const PICKUP_RADIUS_SQ: u128 = 2_500_000_000;

/// An experience orb.
#[derive(Clone, Copy, Debug, PartialEq, Eq, Structural)]
pub struct XPBall {
    pub position: Point,
}

impl XPBall {
    /// Adds an orb at `position`.
    pub fn spawn(balls: &mut Vec<XPBall>, position: Point)
        ensures
            final(balls)@ == old(balls)@.push(XPBall { position }),
    {
        balls.push(XPBall { position });
    }
}

/// The orb lies within the pickup radius of a player at `p` whose pickup multiplier
/// (in thousandths) is `mult`.
pub open spec fn in_pickup_range(p: Point, b: XPBall, mult: int) -> bool {
    dist_sq_spec(p, b.position) * 1000 <= PICKUP_RADIUS_SQ * mult
}

/// The orbs that a player at `p` does not reach, in their order.
pub open spec fn uncollected(s: Seq<XPBall>, p: Point, mult: int) -> Seq<XPBall>
    decreases s.len(),
{
    if s.len() == 0 {
        s
    } else {
        let r = uncollected(s.drop_last(), p, mult);
        if in_pickup_range(p, s.last(), mult) { r } else { r.push(s.last()) }
    }
}

/// The number of orbs that a player at `p` reaches.
pub open spec fn collected(s: Seq<XPBall>, p: Point, mult: int) -> nat
    decreases s.len(),
{
    if s.len() == 0 {
        0
    } else {
        collected(s.drop_last(), p, mult) + if in_pickup_range(p, s.last(), mult) { 1nat } else { 0nat }
    }
}

/// Adds `n` to `xp`, stopping at the largest value.
pub open spec fn xp_plus(xp: u32, n: nat) -> u32 {
    if xp + n > u32::MAX { u32::MAX } else { (xp + n) as u32 }
}

/// Removes every orb within the player's pickup radius and adds one experience for each.
pub fn handle_player_pickup_xp(player: &mut Player, balls: &mut Vec<XPBall>)
    requires
        old(player).position.bounded(),
        forall|i: int| 0 <= i < old(balls)@.len() ==> (#[trigger] old(balls)@[i]).position.bounded(),
    ensures
        final(balls)@ == uncollected(old(balls)@, old(player).position, old(player).xp_ball_pickup_range_multiplier as int),
        *final(player) == (Player {
            xp: xp_plus(old(player).xp, collected(old(balls)@, old(player).position, old(player).xp_ball_pickup_range_multiplier as int)),
            ..*old(player)
        }),
        forall|j: int| 0 <= j < final(balls)@.len() ==> old(balls)@.contains(#[trigger] final(balls)@[j]),
{
    let ghost s = balls@;
    let ghost x0 = player.xp;
    let p = player.position;
    let mult = player.xp_ball_pickup_range_multiplier;
    let mut kept: Vec<XPBall> = Vec::new();
    let mut i: usize = 0;
    while i < balls.len()
        invariant
            balls@ == s,
            0 <= i <= s.len(),
            p == player.position,
            mult == player.xp_ball_pickup_range_multiplier,
            forall|j: int| 0 <= j < s.len() ==> (#[trigger] s[j]).position.bounded(),
            p.bounded(),
            kept@ == uncollected(s.take(i as int), p, mult as int),
            player.xp == xp_plus(x0, collected(s.take(i as int), p, mult as int)),
            *player == (Player { xp: player.xp, ..*old(player) }),
            forall|j: int| 0 <= j < kept@.len() ==> s.contains(#[trigger] kept@[j]),
        decreases s.len() - i,
    {
        let b = balls[i];
        assert(s[i as int] == b);
        assert(s.take(i as int + 1).drop_last() =~= s.take(i as int));
        assert(s.take(i as int + 1).last() == b);
        let d = dist_sq(p, b.position);
        if (d as u128) * 1000 <= PICKUP_RADIUS_SQ * (mult as u128) {
            if player.xp < u32::MAX {
                player.xp = player.xp + 1;
            }
        } else {
            kept.push(b);
        }
        i = i + 1;
    }
    assert(s.take(s.len() as int) =~= s);
    *balls = kept;
}

} // verus!
