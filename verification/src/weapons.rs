//! Weapons: per-hardpoint aiming and the rays they fire.
//!
//! A weapon tracks a target bearing (supplied each tick, relative to the
//! hull's own orientation) by turning at most [`TURN_RATE`] milliradians
//! per tick, snapping exactly onto the target instead of overshooting.
//! A fired ray is resolved against every ship's body by the caller; the
//! nearest hit, and the impulse a traction beam applies there, are
//! computed here.

use vstd::prelude::*;
use vstd::math::abs;

use crate::colours::Colour;
use crate::geom::{dist2, pos_in_range, rot_in_range, spec_dist2, Rot2, Vec2};
use crate::resources::Image;

verus! {

/// How far a weapon may turn in one tick, in milliradians.
pub const TURN_RATE: i64 = 100;

/// Largest magnitude accepted for any angle, in milliradians.  Hull
/// orientations and target bearings both lie far inside this bound.
pub const ANGLE_LIMIT: i64 = 100_000;

/// How far a ray that hits nothing is drawn, in world units.
pub const RAY_RANGE: i64 = 2000;

/// The impulse magnitude of a traction beam, in world units.
pub const TRACTION_FORCE: i64 = 1000;

/// The kinds of weapon a hardpoint can host.
#[derive(Clone, Copy, Debug, PartialEq, Eq, Structural)]
pub enum WeaponType {
    Laser,
    TractionBeam,
}

impl WeaponType {
    /// The sprite the weapon is drawn with.
    pub fn image(&self) -> (img: Image)
        ensures
            img == spec_weapon_image(*self),
    {
        match *self {
            WeaponType::Laser => Image::Laser,
            WeaponType::TractionBeam => Image::TractionBeam,
        }
    }

    /// The colour the weapon's ray is drawn in.
    pub fn ray_colour(&self) -> (c: Colour)
        ensures
            c == spec_ray_colour(*self),
    {
        match *self {
            WeaponType::Laser => Colour::Red,
            WeaponType::TractionBeam => Colour::Green,
        }
    }
}

/// The sprite of each weapon kind.
pub open spec fn spec_weapon_image(t: WeaponType) -> Image {
    match t {
        WeaponType::Laser => Image::Laser,
        WeaponType::TractionBeam => Image::TractionBeam,
    }
}

/// The ray colour of each weapon kind.
pub open spec fn spec_ray_colour(t: WeaponType) -> Colour {
    match t {
        WeaponType::Laser => Colour::Red,
        WeaponType::TractionBeam => Colour::Green,
    }
}

/// The sign of `d`: `-1`, `0` or `1`.
pub open spec fn spec_sign(d: int) -> int {
    if d > 0 {
        1
    } else if d < 0 {
        -1
    } else {
        0
    }
}

/// One tick of aiming: turn by [`TURN_RATE`] toward `target`, except
/// that a turn which would cross `target` lands exactly on it.
pub open spec fn spec_aim(angle: int, target: int) -> int {
    let turn = spec_sign(target - angle) * TURN_RATE;
    if turn == 0 {
        angle
    } else if (angle + turn > target) != (angle > target) {
        target
    } else {
        angle + turn
    }
}

/// `n` ticks of aiming at a fixed target.
pub open spec fn spec_aim_iter(angle: int, target: int, n: nat) -> int
    decreases n,
{
    if n == 0 {
        angle
    } else {
        spec_aim_iter(spec_aim(angle, target), target, (n - 1) as nat)
    }
}

/// Each aiming tick closes the gap to the target by exactly
/// [`TURN_RATE`], or closes it entirely once within one step.
pub proof fn lemma_aim_progress(angle: int, target: int)
    ensures
        abs(spec_aim(angle, target) - target) == if abs(angle - target) <= TURN_RATE {
            0
        } else {
            abs(angle - target) - TURN_RATE
        },
{
}

/// Aiming never overshoots: the updated angle stays between the old
/// angle and the target.
pub proof fn lemma_aim_no_overshoot(angle: int, target: int)
    ensures
        angle <= target ==> angle <= spec_aim(angle, target) <= target,
        angle >= target ==> target <= spec_aim(angle, target) <= angle,
{
}

/// After enough ticks the angle sits exactly on the target, and stays
/// there: aiming converges with no oscillation.
pub proof fn lemma_aim_converges(angle: int, target: int, n: nat)
    requires
        abs(angle - target) <= n * TURN_RATE,
    ensures
        spec_aim_iter(angle, target, n) == target,
    decreases n,
{
    if n == 0 {
        assert(angle == target);
    } else {
        lemma_aim_progress(angle, target);
        lemma_aim_converges(spec_aim(angle, target), target, (n - 1) as nat);
    }
}

/// An angle already on target never moves again.
pub proof fn lemma_aim_stays(target: int, n: nat)
    ensures
        spec_aim_iter(target, target, n) == target,
{
    lemma_aim_converges(target, target, n);
}

/// The aiming state of one hardpoint.  `rotation` is the weapon's
/// bearing relative to the hull's own orientation, in milliradians.
#[derive(Clone, Copy, Debug, PartialEq, Eq, Structural)]
pub struct Weapon {
    pub tag: WeaponType,
    pub rotation: i64,
}

/// A ray spawned this tick: where it starts and its absolute bearing,
/// in milliradians.  The caller turns the bearing into a direction pair
/// and builds the [`WeaponRay`] that is resolved and drawn.
#[derive(Clone, Copy, Debug, PartialEq, Eq, Structural)]
pub struct RayStart {
    pub tag: WeaponType,
    pub origin: Vec2,
    pub angle: i64,
}

impl Weapon {
    /// A fresh weapon, aimed straight along the hull.
    pub fn new(tag: WeaponType) -> (w: Weapon)
        ensures
            w.tag == tag,
            w.rotation == 0,
    {
        Weapon { tag, rotation: 0 }
    }

    /// One tick: turn toward `target`, then fire if the trigger is
    /// held.  `pos` is the hardpoint's world position and `hull_angle`
    /// the hull's orientation; a spawned ray starts there, bearing the
    /// weapon's new rotation plus the hull's.
    pub fn step(
        &mut self,
        pos: Vec2,
        hull_angle: i64,
        target: i64,
        fire: bool,
        rays: &mut Vec<RayStart>,
    )
        requires
            -ANGLE_LIMIT <= old(self).rotation <= ANGLE_LIMIT,
            -ANGLE_LIMIT <= target <= ANGLE_LIMIT,
            -ANGLE_LIMIT <= hull_angle <= ANGLE_LIMIT,
        ensures
            final(self).tag == old(self).tag,
            final(self).rotation == spec_aim(old(self).rotation as int, target as int),
            -ANGLE_LIMIT <= final(self).rotation <= ANGLE_LIMIT,
            final(rays)@ == if fire {
                old(rays)@.push(
                    RayStart {
                        tag: old(self).tag,
                        origin: pos,
                        angle: (spec_aim(old(self).rotation as int, target as int)
                            + hull_angle) as i64,
                    },
                )
            } else {
                old(rays)@
            },
    {
        let turn: i64 = if target > self.rotation {
            TURN_RATE
        } else if target < self.rotation {
            -TURN_RATE
        } else {
            0
        };
        if turn != 0 {
            let stepped: i64 = self.rotation + turn;
            if (stepped > target) != (self.rotation > target) {
                self.rotation = target;
            } else {
                self.rotation = stepped;
            }
        }
        if fire {
            rays.push(RayStart { tag: self.tag, origin: pos, angle: self.rotation + hull_angle });
        }
    }
}

/// A shot fired this tick: origin, direction (a unit vector as a scaled
/// cosine/sine pair) and, once resolved, the nearest hit point.
#[derive(Clone, Copy, Debug, PartialEq)]
pub struct WeaponRay {
    pub tag: WeaponType,
    pub origin: Vec2,
    pub dir: Rot2,
    pub intersection: Option<Vec2>,
}

/// The nearest hit among the candidates, scanning for the smallest
/// squared distance from `from`; among equally near hits the earliest
/// index wins.  `None` when no candidate hit.
pub open spec fn spec_nearest(hits: Seq<Option<Vec2>>, from: Vec2) -> Option<(int, Vec2)>
    decreases hits.len(),
{
    if hits.len() == 0 {
        None
    } else {
        let rest = spec_nearest(hits.drop_last(), from);
        let n = hits.len() - 1;
        match hits.last() {
            Some(p) => match rest {
                Some(ip) => if spec_dist2(from, p) < spec_dist2(from, ip.1) {
                    Some((n as int, p))
                } else {
                    Some(ip)
                },
                None => Some((n as int, p)),
            },
            None => rest,
        }
    }
}

/// What [`spec_nearest`] selects: a hit at the returned index, no hit
/// strictly nearer anywhere, and every earlier hit strictly farther
/// (the globally nearest intersection, first among ties).
pub proof fn lemma_nearest_is_first_min(hits: Seq<Option<Vec2>>, from: Vec2)
    ensures
        match spec_nearest(hits, from) {
            Some(ip) => {
                &&& 0 <= ip.0 < hits.len()
                &&& hits[ip.0] == Some(ip.1)
                &&& forall|j: int|
                    0 <= j < hits.len() ==> match #[trigger] hits[j] {
                        Some(q) => spec_dist2(from, ip.1) <= spec_dist2(from, q),
                        None => true,
                    }
                &&& forall|j: int|
                    0 <= j < ip.0 ==> match #[trigger] hits[j] {
                        Some(q) => spec_dist2(from, ip.1) < spec_dist2(from, q),
                        None => true,
                    }
            },
            None => forall|j: int| 0 <= j < hits.len() ==> (#[trigger] hits[j]) is None,
        },
    decreases hits.len(),
{
    if hits.len() > 0 {
        lemma_nearest_is_first_min(hits.drop_last(), from);
        assert(forall|j: int| 0 <= j < hits.len() - 1 ==> hits.drop_last()[j] == hits[j]);
    }
}

/// Where a ray is drawn to: its resolved intersection, or a point
/// [`RAY_RANGE`] units out along its direction (the direction pair is
/// scaled by [`crate::geom::MILLI`], so the milli-unit offset is
/// `dir * RAY_RANGE`).
pub open spec fn spec_endpoint(r: WeaponRay) -> Vec2 {
    match r.intersection {
        Some(q) => q,
        None => Vec2 {
            x: (r.origin.x + r.dir.c * RAY_RANGE) as i64,
            y: (r.origin.y + r.dir.s * RAY_RANGE) as i64,
        },
    }
}

impl WeaponRay {
    /// A fresh, unresolved ray from `origin` along `dir`.
    pub fn new(tag: WeaponType, origin: Vec2, dir: Rot2) -> (r: WeaponRay)
        requires
            pos_in_range(origin),
            rot_in_range(dir),
        ensures
            r.tag == tag,
            r.origin == origin,
            r.dir == dir,
            r.intersection is None,
    {
        WeaponRay { tag, origin, dir, intersection: None }
    }

    /// Pick the nearest of the per-ship hit candidates (one entry per
    /// ship, in ship order) and record it as this ray's intersection.
    /// Returns the index of the struck ship, or `None` if no ship was
    /// hit, in which case the ray keeps no intersection.
    pub fn resolve(&mut self, hits: &Vec<Option<Vec2>>) -> (r: Option<usize>)
        requires
            pos_in_range(old(self).origin),
            forall|i: int|
                0 <= i < hits@.len() ==> match #[trigger] hits@[i] {
                    Some(p) => pos_in_range(p),
                    None => true,
                },
        ensures
            final(self).tag == old(self).tag,
            final(self).origin == old(self).origin,
            final(self).dir == old(self).dir,
            match spec_nearest(hits@, old(self).origin) {
                Some(ip) => r == Some(ip.0 as usize) && final(self).intersection == Some(ip.1),
                None => r is None && final(self).intersection == old(self).intersection,
            },
    {
        let mut best: Option<usize> = None;
        let mut best_pt: Vec2 = self.origin;
        let mut best_d: i64 = 0;
        let mut i: usize = 0;
        while i < hits.len()
            invariant
                0 <= i <= hits@.len(),
                pos_in_range(self.origin),
                forall|j: int|
                    0 <= j < hits@.len() ==> match #[trigger] hits@[j] {
                        Some(p) => pos_in_range(p),
                        None => true,
                    },
                match best {
                    Some(k) => {
                        &&& spec_nearest(hits@.take(i as int), self.origin)
                            == Some((k as int, best_pt))
                        &&& k < i
                        &&& best_d == spec_dist2(self.origin, best_pt)
                        &&& pos_in_range(best_pt)
                    },
                    None => spec_nearest(hits@.take(i as int), self.origin) is None,
                },
            decreases hits@.len() - i,
        {
            proof {
                assert(hits@.take(i + 1).drop_last() =~= hits@.take(i as int));
                assert(hits@.take(i + 1).last() == hits@[i as int]);
            }
            match hits[i] {
                Some(p) => {
                    let d = dist2(&self.origin, &p);
                    match best {
                        None => {
                            best = Some(i);
                            best_pt = p;
                            best_d = d;
                        },
                        Some(_) => {
                            if d < best_d {
                                best = Some(i);
                                best_pt = p;
                                best_d = d;
                            }
                        },
                    }
                },
                None => {},
            }
            i += 1;
        }
        proof {
            assert(hits@.take(hits@.len() as int) =~= hits@);
        }
        match best {
            Some(k) => {
                self.intersection = Some(best_pt);
                Some(k)
            },
            None => None,
        }
    }

    /// Where the ray is drawn to: its resolved intersection, or a point
    /// [`RAY_RANGE`] units out along its direction.
    pub fn endpoint(&self) -> (p: Vec2)
        requires
            pos_in_range(self.origin),
            rot_in_range(self.dir),
        ensures
            p == spec_endpoint(*self),
    {
        match self.intersection {
            Some(q) => q,
            // dir is scaled by MILLI and the range is in units, so the
            // milli-unit offset is exactly dir * RAY_RANGE.
            None => Vec2 {
                x: self.origin.x + self.dir.c * RAY_RANGE,
                y: self.origin.y + self.dir.s * RAY_RANGE,
            },
        }
    }

    /// The impulse a traction beam applies on a hit: magnitude
    /// [`TRACTION_FORCE`], directed exactly opposite the ray (it pulls
    /// the target toward the shooter), applied at the hit point's
    /// offset from the struck body's centre, never at the centre.
    /// `None` when the ray resolved no intersection.
    pub fn traction_impulse(&self, body_pos: &Vec2) -> (imp: Option<Impulse>)
        requires
            rot_in_range(self.dir),
            pos_in_range(*body_pos),
            match self.intersection {
                Some(q) => pos_in_range(q),
                None => true,
            },
        ensures
            match self.intersection {
                Some(q) => imp == Some(
                    Impulse {
                        offset: Vec2 {
                            x: (q.x - body_pos.x) as i64,
                            y: (q.y - body_pos.y) as i64,
                        },
                        // the direction pair is scaled by MILLI, so the
                        // milli-unit impulse is -dir * TRACTION_FORCE.
                        force: Vec2 {
                            x: (-self.dir.c * TRACTION_FORCE) as i64,
                            y: (-self.dir.s * TRACTION_FORCE) as i64,
                        },
                    },
                ),
                None => imp is None,
            },
    {
        match self.intersection {
            Some(q) => Some(
                Impulse {
                    offset: Vec2 { x: q.x - body_pos.x, y: q.y - body_pos.y },
                    force: Vec2 {
                        x: -self.dir.c * TRACTION_FORCE,
                        y: -self.dir.s * TRACTION_FORCE,
                    },
                },
            ),
            None => None,
        }
    }
}

/// An instantaneous impulse for the physics engine: a force vector
/// applied at an offset from a body's centre, both in milli-units.
#[derive(Clone, Copy, Debug, PartialEq, Eq, Structural)]
pub struct Impulse {
    pub offset: Vec2,
    pub force: Vec2,
}

} // verus!
