//! Ships and their components.
//!
//! A ship owns an ordered list of grid-aligned components and a handle
//! to exactly one rigid body in the caller's physics world.  Everything
//! a tick decides — which impulses thrust applies, which component a
//! hit damages, how the body is rebuilt when a component dies — is
//! computed here; the caller performs the physics actions.

use vstd::prelude::*;

use crate::geom::{
    dist2, pos_in_range, pt_in_range, rot_in_range, rotate, spec_dist2, spec_rotate, Rot2, Vec2,
    VEC_LIMIT,
};
use crate::resources::Image;
use crate::weapons::{spec_aim, Impulse, RayStart, Weapon, WeaponType, ANGLE_LIMIT};
use crate::Controls;

verus! {

/// Side of one grid cell, in milli-units (32 world units).
pub const CELL: i64 = 32_000;

/// A component's facing: a quarter-turn multiple.
#[derive(Clone, Copy, Debug, PartialEq, Eq, Structural)]
pub enum Rotation {
    Up,
    Right,
    Down,
    Left,
}

/// The facing as whole degrees.
pub open spec fn spec_degrees(r: Rotation) -> int {
    match r {
        Rotation::Up => 0,
        Rotation::Right => 90,
        Rotation::Down => 180,
        Rotation::Left => 270,
    }
}

/// `v` turned by the facing: exact quarter-turn rotation.
pub open spec fn spec_face(r: Rotation, v: Vec2) -> Vec2 {
    match r {
        Rotation::Up => v,
        Rotation::Right => Vec2 { x: (-v.y) as i64, y: v.x },
        Rotation::Down => Vec2 { x: (-v.x) as i64, y: (-v.y) as i64 },
        Rotation::Left => Vec2 { x: v.y, y: (-v.x) as i64 },
    }
}

impl Rotation {
    /// The facing as whole degrees: 0, 90, 180 or 270.
    pub fn to_degrees(&self) -> (d: i64)
        ensures
            d == spec_degrees(*self),
    {
        match *self {
            Rotation::Up => 0,
            Rotation::Right => 90,
            Rotation::Down => 180,
            Rotation::Left => 270,
        }
    }

    /// Turn `v` by this facing; quarter turns are exact in fixed point.
    pub fn apply(&self, v: &Vec2) -> (w: Vec2)
        requires
            -VEC_LIMIT <= v.x <= VEC_LIMIT,
            -VEC_LIMIT <= v.y <= VEC_LIMIT,
        ensures
            w == spec_face(*self, *v),
            -VEC_LIMIT <= w.x <= VEC_LIMIT,
            -VEC_LIMIT <= w.y <= VEC_LIMIT,
    {
        match *self {
            Rotation::Up => Vec2 { x: v.x, y: v.y },
            Rotation::Right => Vec2 { x: -v.y, y: v.x },
            Rotation::Down => Vec2 { x: -v.x, y: -v.y },
            Rotation::Left => Vec2 { x: v.y, y: -v.x },
        }
    }
}

/// What a component is.  A hardpoint carries its weapon's mutable
/// aiming state — the only component with per-tick state of its own.
#[derive(Clone, Copy, Debug, PartialEq, Eq, Structural)]
pub enum ComponentType {
    Metal,
    Pipe,
    Reactor,
    Engine,
    Rock,
    Hardpoint(Weapon),
}

/// Whether a component of this type takes part in the collision shape.
/// Pipes, engines and hardpoints are attached but non-colliding.
pub open spec fn spec_collides(t: ComponentType) -> bool {
    match t {
        ComponentType::Pipe | ComponentType::Engine | ComponentType::Hardpoint(_) => false,
        _ => true,
    }
}

/// The density of each component type, in milli-units (rock 1, pipe
/// 0.25, everything else 0.5).
pub open spec fn spec_density(t: ComponentType) -> int {
    match t {
        ComponentType::Rock => 1000,
        ComponentType::Pipe => 250,
        _ => 500,
    }
}

/// The sprite of each component type.
pub open spec fn spec_image(t: ComponentType) -> Image {
    match t {
        ComponentType::Metal => Image::Metal,
        ComponentType::Reactor => Image::Reactor,
        ComponentType::Engine => Image::Engine,
        ComponentType::Pipe => Image::Pipe,
        ComponentType::Rock => Image::Rock,
        ComponentType::Hardpoint(_) => Image::Hardpoint,
    }
}

impl ComponentType {
    /// Whether the component collides with other components.
    pub fn collides(&self) -> (c: bool)
        ensures
            c == spec_collides(*self),
    {
        match *self {
            ComponentType::Pipe | ComponentType::Engine | ComponentType::Hardpoint(_) => false,
            _ => true,
        }
    }

    /// The sprite the component is drawn with.
    pub fn image(&self) -> (img: Image)
        ensures
            img == spec_image(*self),
    {
        match *self {
            ComponentType::Metal => Image::Metal,
            ComponentType::Reactor => Image::Reactor,
            ComponentType::Engine => Image::Engine,
            ComponentType::Pipe => Image::Pipe,
            ComponentType::Rock => Image::Rock,
            ComponentType::Hardpoint(_) => Image::Hardpoint,
        }
    }

    /// The component's density, in milli-units.
    pub fn density(&self) -> (d: i64)
        ensures
            d == spec_density(*self),
    {
        match *self {
            ComponentType::Rock => 1000,
            ComponentType::Pipe => 250,
            _ => 500,
        }
    }

    /// The health a fresh component of this type starts with.
    pub fn max_health(&self) -> (h: i16)
        ensures
            h == 100,
    {
        100
    }

    /// Whether this is an engine.
    pub fn is_engine(&self) -> (b: bool)
        ensures
            b == (*self is Engine),
    {
        match *self {
            ComponentType::Engine => true,
            _ => false,
        }
    }

    /// Whether this is a reactor.
    pub fn is_reactor(&self) -> (b: bool)
        ensures
            b == (*self is Reactor),
    {
        match *self {
            ComponentType::Reactor => true,
            _ => false,
        }
    }

    /// Create a weapon hardpoint.
    pub fn hardpoint(tag: WeaponType) -> (t: ComponentType)
        ensures
            t == ComponentType::Hardpoint(Weapon { tag, rotation: 0 }),
    {
        ComponentType::Hardpoint(Weapon::new(tag))
    }
}

/// One grid-aligned building block of a ship.  `x` and `y` are cell
/// offsets from the ship's local origin; health only ever decreases.
#[derive(Clone, Copy, Debug, PartialEq, Eq, Structural)]
pub struct Component {
    pub tag: ComponentType,
    pub rotation: Rotation,
    pub x: i8,
    pub y: i8,
    pub health: i16,
}

/// The vector from the ship's local origin to the component, in
/// milli-units: the grid offset scaled by the cell size.
pub open spec fn spec_cvec(c: Component) -> Vec2 {
    Vec2 { x: (c.x * CELL) as i64, y: (c.y * CELL) as i64 }
}

/// The state of a ship's rigid body, as integrated by the physics
/// world: translation, rotation (as a scaled cosine/sine pair and as an
/// angle in milliradians) and velocities.
#[derive(Clone, Copy, Debug, PartialEq)]
pub struct BodyState {
    pub pos: Vec2,
    pub rot: Rot2,
    pub angle: i64,
    pub lin_vel: Vec2,
    pub ang_vel: i64,
}

impl BodyState {
    /// Bounds under which every tick computation stays in range.
    pub open spec fn wf(&self) -> bool {
        &&& pos_in_range(self.pos)
        &&& rot_in_range(self.rot)
        &&& -ANGLE_LIMIT <= self.angle <= ANGLE_LIMIT
    }
}

/// The component's world position: its local offset turned by the
/// hull's rotation, added to the hull's translation.
pub open spec fn spec_position(c: Component, base: BodyState) -> Vec2 {
    Vec2 {
        x: (base.pos.x + spec_rotate(spec_cvec(c), base.rot).x) as i64,
        y: (base.pos.y + spec_rotate(spec_cvec(c), base.rot).y) as i64,
    }
}

/// New health after one hit: reduced by `amount`, clamped at zero.
pub open spec fn spec_damaged(h: int, amount: int) -> int {
    if h <= amount {
        0
    } else {
        h - amount
    }
}

impl Component {
    /// A fresh component at cell `(x, y)`, at full health.
    pub fn new(tag: ComponentType, x: i8, y: i8, rotation: Rotation) -> (c: Component)
        ensures
            c == (Component { tag, rotation, x, y, health: 100 }),
    {
        let health = tag.max_health();
        Component { tag, rotation, x, y, health }
    }

    /// The vector to the component from the ship's local origin.
    pub fn vector(&self) -> (v: Vec2)
        ensures
            v == spec_cvec(*self),
            -VEC_LIMIT <= v.x <= VEC_LIMIT,
            -VEC_LIMIT <= v.y <= VEC_LIMIT,
    {
        Vec2 { x: (self.x as i64) * CELL, y: (self.y as i64) * CELL }
    }

    /// The local offset turned by the hull's current rotation.
    pub fn vector_rotated(&self, rot: &Rot2) -> (v: Vec2)
        requires
            rot_in_range(*rot),
        ensures
            v == spec_rotate(spec_cvec(*self), *rot),
            -2 * VEC_LIMIT <= v.x <= 2 * VEC_LIMIT,
            -2 * VEC_LIMIT <= v.y <= 2 * VEC_LIMIT,
    {
        let v = self.vector();
        rotate(&v, rot)
    }

    /// The component's position in world coordinates.
    pub fn position(&self, base: &BodyState) -> (p: Vec2)
        requires
            base.wf(),
        ensures
            p == spec_position(*self, *base),
            pt_in_range(p),
    {
        let r = self.vector_rotated(&base.rot);
        Vec2 { x: base.pos.x + r.x, y: base.pos.y + r.y }
    }

    /// Damage the component and return whether it was destroyed.
    /// Health is clamped at zero, never negative.
    pub fn damage(&mut self, amount: i16) -> (dead: bool)
        requires
            0 <= amount,
            0 <= old(self).health,
        ensures
            final(self).health == spec_damaged(old(self).health as int, amount as int),
            dead == (final(self).health == 0),
            final(self).tag == old(self).tag,
            final(self).rotation == old(self).rotation,
            final(self).x == old(self).x,
            final(self).y == old(self).y,
    {
        if self.health <= amount {
            self.health = 0;
            true
        } else {
            self.health = self.health - amount;
            false
        }
    }
}

/// A component after one aiming tick: only a hardpoint changes, and
/// only its weapon's rotation, by [`spec_aim`] toward `target`.
pub open spec fn spec_step_component(c: Component, target: int) -> Component {
    match c.tag {
        ComponentType::Hardpoint(w) => Component {
            tag: ComponentType::Hardpoint(
                Weapon { tag: w.tag, rotation: spec_aim(w.rotation as int, target) as i64 },
            ),
            ..c
        },
        _ => c,
    }
}

/// A component's collision participation is a pure function of its
/// type: neither aiming its weapon nor losing health changes it.
pub proof fn lemma_collides_constant(c: Component, target: int, h: i16)
    ensures
        spec_collides(spec_step_component(c, target).tag) == spec_collides(c.tag),
        spec_collides(Component { health: h, ..c }.tag) == spec_collides(c.tag),
{
}

/// Health left after a sequence of hits, each clamped at zero.
pub open spec fn spec_health_after(h: int, amounts: Seq<i16>) -> int
    decreases amounts.len(),
{
    if amounts.len() == 0 {
        h
    } else {
        spec_damaged(spec_health_after(h, amounts.drop_last()), amounts.last() as int)
    }
}

/// Damage is monotonic: across any sequence of hits, health never
/// increases and never drops below zero.
pub proof fn lemma_damage_monotonic(h: int, amounts: Seq<i16>)
    requires
        0 <= h,
        forall|i: int| 0 <= i < amounts.len() ==> 0 <= #[trigger] amounts[i],
    ensures
        0 <= spec_health_after(h, amounts) <= h,
    decreases amounts.len(),
{
    if amounts.len() > 0 {
        lemma_damage_monotonic(h, amounts.drop_last());
    }
}

/// The directions a ship can thrust in.
#[derive(Clone, Copy, Debug, PartialEq, Eq, Structural)]
pub enum ThrustDirection {
    Forwards,
    Left,
    Right,
}

/// The hull-local base vector of each thrust direction, in milli-units:
/// forwards is 1000 units toward local "up", the lateral directions 100
/// units sideways.
pub open spec fn spec_thrust_base(d: ThrustDirection) -> Vec2 {
    match d {
        ThrustDirection::Forwards => Vec2 { x: 0, y: -1_000_000i64 },
        ThrustDirection::Left => Vec2 { x: -100_000i64, y: 0 },
        ThrustDirection::Right => Vec2 { x: 100_000, y: 0 },
    }
}

/// The impulse vector of a thrust for a component facing `f`, under
/// hull rotation `r`: the base vector turned by the facing (exact),
/// then by the hull rotation (fixed point).
pub open spec fn spec_direction(d: ThrustDirection, f: Rotation, r: Rot2) -> Vec2 {
    spec_rotate(spec_face(f, spec_thrust_base(d)), r)
}

impl ThrustDirection {
    /// The thrust impulse vector for a component facing `facing` on a
    /// hull rotated by `rot`.
    pub fn direction(&self, facing: &Rotation, rot: &Rot2) -> (v: Vec2)
        requires
            rot_in_range(*rot),
        ensures
            v == spec_direction(*self, *facing, *rot),
    {
        let base = match *self {
            ThrustDirection::Forwards => Vec2 { x: 0, y: -1_000_000 },
            ThrustDirection::Left => Vec2 { x: -100_000, y: 0 },
            ThrustDirection::Right => Vec2 { x: 100_000, y: 0 },
        };
        let local = facing.apply(&base);
        rotate(&local, rot)
    }
}

/// Whether any component is a reactor: thrust is gated on its presence.
pub open spec fn spec_has_reactor(cs: Seq<Component>) -> bool {
    exists|i: int| 0 <= i < cs.len() && (#[trigger] cs[i]).tag is Reactor
}

/// The impulse one engine contributes: its rotated offset from the
/// hull's centre, and the thrust vector under hull rotation plus its
/// own facing.
pub open spec fn spec_engine_impulse(c: Component, d: ThrustDirection, r: Rot2) -> Impulse {
    Impulse { offset: spec_rotate(spec_cvec(c), r), force: spec_direction(d, c.rotation, r) }
}

/// The impulses of all engines, in component order.
pub open spec fn spec_engine_impulses(cs: Seq<Component>, d: ThrustDirection, r: Rot2) -> Seq<
    Impulse,
>
    decreases cs.len(),
{
    if cs.len() == 0 {
        Seq::empty()
    } else {
        let rest = spec_engine_impulses(cs.drop_last(), d, r);
        if cs.last().tag is Engine {
            rest.push(spec_engine_impulse(cs.last(), d, r))
        } else {
            rest
        }
    }
}

/// How many of the components are engines.
pub open spec fn spec_engine_count(cs: Seq<Component>) -> nat
    decreases cs.len(),
{
    if cs.len() == 0 {
        0
    } else {
        spec_engine_count(cs.drop_last()) + if cs.last().tag is Engine {
            1nat
        } else {
            0
        }
    }
}

/// Every engine contributes exactly one impulse: the impulse list of a
/// thrust is as long as the ship's engine list.
pub proof fn lemma_one_impulse_per_engine(cs: Seq<Component>, d: ThrustDirection, r: Rot2)
    ensures
        spec_engine_impulses(cs, d, r).len() == spec_engine_count(cs),
    decreases cs.len(),
{
    if cs.len() > 0 {
        lemma_one_impulse_per_engine(cs.drop_last(), d, r);
    }
}

/// What a thrust command applies: one impulse per engine, or nothing
/// at all when no reactor is present.
pub open spec fn spec_thrust(cs: Seq<Component>, d: ThrustDirection, r: Rot2) -> Seq<Impulse> {
    if spec_has_reactor(cs) {
        spec_engine_impulses(cs, d, r)
    } else {
        Seq::empty()
    }
}

/// The thrust impulses one tick's input asks for: forwards wins over
/// left, left over right, and no key means no impulse.
pub open spec fn spec_step_impulses(cs: Seq<Component>, controls: Controls, r: Rot2) -> Seq<
    Impulse,
> {
    if controls.up {
        spec_thrust(cs, ThrustDirection::Forwards, r)
    } else if controls.left {
        spec_thrust(cs, ThrustDirection::Left, r)
    } else if controls.right {
        spec_thrust(cs, ThrustDirection::Right, r)
    } else {
        Seq::empty()
    }
}

/// The ray a firing hardpoint spawns: it starts at the component's
/// world position, bearing the weapon's new rotation plus the hull's.
pub open spec fn spec_ray_start(c: Component, w: Weapon, target: int, base: BodyState) -> RayStart {
    RayStart {
        tag: w.tag,
        origin: spec_position(c, base),
        angle: (spec_aim(w.rotation as int, target) + base.angle) as i64,
    }
}

/// The rays spawned by one firing tick, in component order; `ts` holds
/// one target bearing per component.
pub open spec fn spec_spawned(cs: Seq<Component>, ts: Seq<i64>, base: BodyState) -> Seq<RayStart>
    decreases cs.len(),
{
    if cs.len() == 0 {
        Seq::empty()
    } else {
        let rest = spec_spawned(cs.drop_last(), ts.drop_last(), base);
        match cs.last().tag {
            ComponentType::Hardpoint(w) => rest.push(
                spec_ray_start(cs.last(), w, ts.last() as int, base),
            ),
            _ => rest,
        }
    }
}

/// Sum of the components' densities, in milli-units.
pub open spec fn spec_density_sum(cs: Seq<Component>) -> int
    decreases cs.len(),
{
    if cs.len() == 0 {
        0
    } else {
        spec_density_sum(cs.drop_last()) + spec_density(cs.last().tag)
    }
}

/// The local offsets of the colliding components, in component order:
/// the cells of the compound collision shape.
pub open spec fn spec_colliding_offsets(cs: Seq<Component>) -> Seq<Vec2>
    decreases cs.len(),
{
    if cs.len() == 0 {
        Seq::empty()
    } else {
        let rest = spec_colliding_offsets(cs.drop_last());
        if spec_collides(cs.last().tag) {
            rest.push(spec_cvec(cs.last()))
        } else {
            rest
        }
    }
}

/// More components than any ship will ever have; keeps density sums in
/// range.
pub const MAX_COMPONENTS: usize = 1_000_000;

/// A component a live ship may hold: some health left, and a weapon
/// rotation within the angle bound.
pub open spec fn component_ok(c: Component) -> bool {
    &&& 1 <= c.health
    &&& match c.tag {
        ComponentType::Hardpoint(w) => -ANGLE_LIMIT <= w.rotation <= ANGLE_LIMIT,
        _ => true,
    }
}

/// The index of the colliding component nearest to `point` (by squared
/// distance from its world position), earliest index among ties;
/// `None` when no component collides.
pub open spec fn spec_target(cs: Seq<Component>, base: BodyState, point: Vec2) -> Option<int>
    decreases cs.len(),
{
    if cs.len() == 0 {
        None
    } else {
        let rest = spec_target(cs.drop_last(), base, point);
        let n = cs.len() - 1;
        if spec_collides(cs.last().tag) {
            match rest {
                Some(j) => if spec_dist2(spec_position(cs.last(), base), point) < spec_dist2(
                    spec_position(cs[j], base),
                    point,
                ) {
                    Some(n as int)
                } else {
                    Some(j)
                },
                None => Some(n as int),
            }
        } else {
            rest
        }
    }
}

/// What [`spec_target`] selects: a colliding component at the returned
/// index, none strictly nearer to the point anywhere, and every earlier
/// colliding component strictly farther (nearest-component targeting,
/// first among ties); `None` exactly when no component collides.
pub proof fn lemma_target_is_nearest_colliding(cs: Seq<Component>, base: BodyState, point: Vec2)
    ensures
        match spec_target(cs, base, point) {
            Some(k) => {
                &&& 0 <= k < cs.len()
                &&& spec_collides(cs[k].tag)
                &&& forall|j: int|
                    0 <= j < cs.len() && spec_collides((#[trigger] cs[j]).tag) ==> spec_dist2(
                        spec_position(cs[k], base),
                        point,
                    ) <= spec_dist2(spec_position(cs[j], base), point)
                &&& forall|j: int|
                    0 <= j < k && spec_collides((#[trigger] cs[j]).tag) ==> spec_dist2(
                        spec_position(cs[k], base),
                        point,
                    ) < spec_dist2(spec_position(cs[j], base), point)
            },
            None => forall|j: int| 0 <= j < cs.len() ==> !spec_collides((#[trigger] cs[j]).tag),
        },
    decreases cs.len(),
{
    if cs.len() > 0 {
        lemma_target_is_nearest_colliding(cs.drop_last(), base, point);
        assert(forall|j: int| 0 <= j < cs.len() - 1 ==> cs.drop_last()[j] == cs[j]);
    }
}

/// Everything the caller needs to build a ship's rigid body: the
/// colliding cells of the compound shape, the averaged density, the
/// transform to place it at, and the velocities to start it with.
#[derive(Clone, Debug, PartialEq)]
pub struct BodyPlan {
    pub shapes: Vec<Vec2>,
    pub density: i64,
    pub pos: Vec2,
    pub angle: i64,
    pub lin_vel: Vec2,
    pub ang_vel: i64,
}

/// What one damage call did to the ship.
#[derive(Clone, Debug, PartialEq)]
pub enum DamageOutcome {
    /// No component collides, so nothing could be targeted: a no-op.
    NoTarget,
    /// The nearest colliding component lost health but survives.
    Hurt,
    /// The last component is gone: the caller must drop the ship and
    /// remove its body from the physics world.
    Destroyed,
    /// A component was destroyed and removed; the caller must discard
    /// the old body and build a new one from this plan.  When the
    /// survivors are all non-colliding the plan's shape list is empty,
    /// which no physics body can be built from: a ship must keep at
    /// least one colliding component or be destroyed.
    Rebuild(BodyPlan),
}

/// A ship: an ordered component list and an opaque handle to its one
/// rigid body in the caller's physics world.
#[derive(Clone, Debug, PartialEq)]
pub struct Ship {
    pub components: Vec<Component>,
    pub body: u64,
}

impl Ship {
    /// A live ship: never empty, not absurdly large, every component
    /// healthy and every weapon within the angle bound.
    pub open spec fn wf(&self) -> bool {
        &&& 1 <= self.components@.len() <= MAX_COMPONENTS
        &&& forall|i: int|
            0 <= i < self.components@.len() ==> component_ok(#[trigger] self.components@[i])
    }

    /// A ship over `components`, owning the already-built body `body`.
    pub fn new(components: Vec<Component>, body: u64) -> (s: Ship)
        requires
            1 <= components@.len() <= MAX_COMPONENTS,
            forall|i: int| 0 <= i < components@.len() ==> component_ok(#[trigger] components@[i]),
        ensures
            s.components == components,
            s.body == body,
            s.wf(),
    {
        Ship { components, body }
    }

    /// Point the ship at a replacement body, after a rebuild.
    pub fn set_body(&mut self, body: u64)
        ensures
            final(self).components == old(self).components,
            final(self).body == body,
    {
        self.body = body;
    }

    /// The ship's mass: the sum of its components' densities, in
    /// milli-units.
    pub fn mass(&self) -> (m: i64)
        requires
            self.components@.len() <= MAX_COMPONENTS,
        ensures
            m == spec_density_sum(self.components@),
            0 <= m <= 1000 * self.components@.len(),
    {
        density_sum(&self.components)
    }

    /// The impulses a thrust command applies: nothing without a
    /// reactor, else one impulse per engine at its rotated offset.
    pub fn thrust(&self, direction: &ThrustDirection, base: &BodyState) -> (imps: Vec<Impulse>)
        requires
            base.wf(),
        ensures
            imps@ == spec_thrust(self.components@, *direction, base.rot),
    {
        let mut has_reactor = false;
        let mut i: usize = 0;
        while i < self.components.len()
            invariant
                i <= self.components@.len(),
                has_reactor == exists|j: int|
                    0 <= j < i && (#[trigger] self.components@[j]).tag is Reactor,
            decreases self.components@.len() - i,
        {
            if self.components[i].tag.is_reactor() {
                has_reactor = true;
            }
            i += 1;
        }
        if !has_reactor {
            return Vec::new();
        }
        let mut imps: Vec<Impulse> = Vec::new();
        let mut i: usize = 0;
        while i < self.components.len()
            invariant
                i <= self.components@.len(),
                base.wf(),
                imps@ == spec_engine_impulses(
                    self.components@.take(i as int),
                    *direction,
                    base.rot,
                ),
            decreases self.components@.len() - i,
        {
            proof {
                assert(self.components@.take(i + 1).drop_last() =~= self.components@.take(
                    i as int,
                ));
                assert(self.components@.take(i + 1).last() == self.components@[i as int]);
            }
            let c = self.components[i];
            if c.tag.is_engine() {
                let offset = c.vector_rotated(&base.rot);
                let force = direction.direction(&c.rotation, &base.rot);
                imps.push(Impulse { offset, force });
            }
            i += 1;
        }
        proof {
            assert(self.components@.take(self.components@.len() as int) =~= self.components@);
        }
        imps
    }

    /// One tick: thrust by the held keys (forwards wins over left over
    /// right), then aim every hardpoint at its target bearing and, if
    /// the trigger is held, spawn one ray per hardpoint.  `targets`
    /// holds one bearing per component, each relative to the hull's
    /// orientation.  Returns the thrust impulses for the caller to
    /// apply to the body.
    pub fn step(
        &mut self,
        controls: &Controls,
        base: &BodyState,
        targets: &Vec<i64>,
        rays: &mut Vec<RayStart>,
    ) -> (imps: Vec<Impulse>)
        requires
            old(self).wf(),
            base.wf(),
            targets@.len() == old(self).components@.len(),
            forall|i: int|
                0 <= i < targets@.len() ==> -ANGLE_LIMIT <= #[trigger] targets@[i] <= ANGLE_LIMIT,
        ensures
            final(self).body == old(self).body,
            final(self).wf(),
            imps@ == spec_step_impulses(old(self).components@, *controls, base.rot),
            final(self).components@ == Seq::new(
                old(self).components@.len(),
                |i: int| spec_step_component(old(self).components@[i], targets@[i] as int),
            ),
            final(rays)@ == if controls.fire {
                old(rays)@ + spec_spawned(old(self).components@, targets@, *base)
            } else {
                old(rays)@
            },
    {
        let imps: Vec<Impulse> = if controls.up {
            self.thrust(&ThrustDirection::Forwards, base)
        } else if controls.left {
            self.thrust(&ThrustDirection::Left, base)
        } else if controls.right {
            self.thrust(&ThrustDirection::Right, base)
        } else {
            Vec::new()
        };
        let ghost cs0 = self.components@;
        let ghost rays0 = rays@;
        let mut i: usize = 0;
        while i < self.components.len()
            invariant
                i <= cs0.len(),
                self.components@.len() == cs0.len(),
                targets@.len() == cs0.len(),
                forall|j: int|
                    0 <= j < targets@.len() ==> -ANGLE_LIMIT <= #[trigger] targets@[j]
                        <= ANGLE_LIMIT,
                forall|j: int| 0 <= j < cs0.len() ==> component_ok(#[trigger] cs0[j]),
                base.wf(),
                self.body == old(self).body,
                forall|j: int| i <= j < cs0.len() ==> self.components@[j] == cs0[j],
                forall|j: int|
                    0 <= j < i ==> self.components@[j] == spec_step_component(
                        cs0[j],
                        targets@[j] as int,
                    ),
                forall|j: int|
                    0 <= j < i ==> component_ok(#[trigger] self.components@[j]),
                rays@ == if controls.fire {
                    rays0 + spec_spawned(cs0.take(i as int), targets@.take(i as int), *base)
                } else {
                    rays0
                },
            decreases cs0.len() - i,
        {
            proof {
                assert(cs0.take(i + 1).drop_last() =~= cs0.take(i as int));
                assert(targets@.take(i + 1).drop_last() =~= targets@.take(i as int));
                assert(cs0.take(i + 1).last() == cs0[i as int]);
                assert(targets@.take(i + 1).last() == targets@[i as int]);
            }
            let c = self.components[i];
            let pos = c.position(base);
            if let ComponentType::Hardpoint(w) = c.tag {
                let mut w2 = w;
                w2.step(pos, base.angle, targets[i], controls.fire, rays);
                let mut c2 = c;
                c2.tag = ComponentType::Hardpoint(w2);
                self.components[i] = c2;
                proof {
                    assert(c2 == spec_step_component(cs0[i as int], targets@[i as int] as int));
                    if controls.fire {
                        assert((rays0 + spec_spawned(
                            cs0.take(i as int),
                            targets@.take(i as int),
                            *base,
                        )).push(
                            spec_ray_start(
                                cs0[i as int],
                                w,
                                targets@[i as int] as int,
                                *base,
                            ),
                        ) =~= rays0 + spec_spawned(
                            cs0.take(i + 1),
                            targets@.take(i + 1),
                            *base,
                        ));
                    }
                }
            }
            i += 1;
        }
        proof {
            assert(cs0.take(cs0.len() as int) =~= cs0);
            assert(targets@.take(targets@.len() as int) =~= targets@);
            assert(self.components@ =~= Seq::new(
                cs0.len(),
                |i: int| spec_step_component(cs0[i], targets@[i] as int),
            ));
        }
        imps
    }

    /// The plan for this ship's rigid body at transform
    /// (`pos`, `angle`), starting with the given velocities: one cell
    /// shape per colliding component and the mass-averaged density.
    pub fn body_plan(
        components: &Vec<Component>,
        pos: Vec2,
        angle: i64,
        lin_vel: Vec2,
        ang_vel: i64,
    ) -> (plan: BodyPlan)
        requires
            1 <= components@.len() <= MAX_COMPONENTS,
        ensures
            plan.shapes@ == spec_colliding_offsets(components@),
            plan.density == spec_density_sum(components@) / components@.len() as int,
            plan.pos == pos,
            plan.angle == angle,
            plan.lin_vel == lin_vel,
            plan.ang_vel == ang_vel,
    {
        let sum = density_sum(components);
        let density = ((sum as u64) / (components.len() as u64)) as i64;
        let mut shapes: Vec<Vec2> = Vec::new();
        let mut i: usize = 0;
        while i < components.len()
            invariant
                i <= components@.len(),
                shapes@ == spec_colliding_offsets(components@.take(i as int)),
            decreases components@.len() - i,
        {
            proof {
                assert(components@.take(i + 1).drop_last() =~= components@.take(i as int));
                assert(components@.take(i + 1).last() == components@[i as int]);
            }
            let c = components[i];
            if c.tag.collides() {
                let v = c.vector();
                shapes.push(v);
            }
            i += 1;
        }
        proof {
            assert(components@.take(components@.len() as int) =~= components@);
        }
        BodyPlan { shapes, density, pos, angle, lin_vel, ang_vel }
    }

    /// Damage the ship at a world point: the nearest colliding
    /// component loses `amount` health (clamped at zero).  A component
    /// that reaches zero is removed; the ship is then destroyed if
    /// nothing is left, and otherwise a rebuild plan is returned that
    /// keeps the current transform and copies the body's velocities
    /// forward exactly, preserving momentum across the swap.
    pub fn damage(&mut self, point: &Vec2, base: &BodyState, amount: i16) -> (out: DamageOutcome)
        requires
            old(self).wf(),
            base.wf(),
            pos_in_range(*point),
            0 <= amount,
        ensures
            final(self).body == old(self).body,
            ({
                let cs = old(self).components@;
                match spec_target(cs, *base, *point) {
                    None => out is NoTarget && final(self).components@ == cs,
                    Some(k) => {
                        let c = cs[k];
                        if c.health > amount {
                            &&& out is Hurt
                            &&& final(self).components@ == cs.update(
                                k,
                                Component { health: (c.health - amount) as i16, ..c },
                            )
                        } else if cs.len() == 1 {
                            &&& out is Destroyed
                            &&& final(self).components@.len() == 0
                        } else {
                            &&& final(self).components@ == cs.remove(k)
                            &&& out matches DamageOutcome::Rebuild(plan) && {
                                &&& plan.shapes@ == spec_colliding_offsets(cs.remove(k))
                                &&& plan.density == spec_density_sum(cs.remove(k)) / (cs.len()
                                    - 1)
                                &&& plan.pos == base.pos
                                &&& plan.angle == base.angle
                                &&& plan.lin_vel == base.lin_vel
                                &&& plan.ang_vel == base.ang_vel
                            }
                        }
                    },
                }
            }),
            !(out is Destroyed) ==> final(self).wf(),
    {
        let mut best: Option<usize> = None;
        let mut best_d: i64 = 0;
        let mut i: usize = 0;
        while i < self.components.len()
            invariant
                i <= self.components@.len(),
                base.wf(),
                pos_in_range(*point),
                match best {
                    Some(k) => {
                        &&& spec_target(self.components@.take(i as int), *base, *point) == Some(
                            k as int,
                        )
                        &&& k < i
                        &&& best_d == spec_dist2(
                            spec_position(self.components@[k as int], *base),
                            *point,
                        )
                    },
                    None => spec_target(self.components@.take(i as int), *base, *point) is None,
                },
            decreases self.components@.len() - i,
        {
            proof {
                assert(self.components@.take(i + 1).drop_last() =~= self.components@.take(
                    i as int,
                ));
                assert(self.components@.take(i + 1).last() == self.components@[i as int]);
                assert(forall|j: int|
                    0 <= j < i ==> self.components@.take(i + 1)[j] == self.components@[j]);
            }
            let c = self.components[i];
            if c.tag.collides() {
                let p = c.position(base);
                let d = dist2(&p, point);
                match best {
                    None => {
                        best = Some(i);
                        best_d = d;
                    },
                    Some(_) => {
                        if d < best_d {
                            best = Some(i);
                            best_d = d;
                        }
                    },
                }
            }
            i += 1;
        }
        proof {
            assert(self.components@.take(self.components@.len() as int) =~= self.components@);
        }
        let k = match best {
            None => {
                return DamageOutcome::NoTarget;
            },
            Some(k) => k,
        };
        let mut c = self.components[k];
        let dead = c.damage(amount);
        if !dead {
            self.components[k] = c;
            return DamageOutcome::Hurt;
        }
        self.components.remove(k);
        if self.components.len() == 0 {
            return DamageOutcome::Destroyed;
        }
        let plan = Self::body_plan(&self.components, base.pos, base.angle, base.lin_vel,
            base.ang_vel);
        DamageOutcome::Rebuild(plan)
    }
}

/// Sum of the components' densities, in milli-units.
fn density_sum(components: &Vec<Component>) -> (m: i64)
    requires
        components@.len() <= MAX_COMPONENTS,
    ensures
        m == spec_density_sum(components@),
        0 <= m <= 1000 * components@.len(),
{
    let mut sum: i64 = 0;
    let mut i: usize = 0;
    while i < components.len()
        invariant
            i <= components@.len(),
            components@.len() <= MAX_COMPONENTS,
            sum == spec_density_sum(components@.take(i as int)),
            0 <= sum <= 1000 * i,
        decreases components@.len() - i,
    {
        proof {
            assert(components@.take(i + 1).drop_last() =~= components@.take(i as int));
            assert(components@.take(i + 1).last() == components@[i as int]);
        }
        sum = sum + components[i].tag.density();
        i += 1;
    }
    proof {
        assert(components@.take(components@.len() as int) =~= components@);
    }
    sum
}

} // verus!
