use boxes::colours::Colour;
use boxes::geom::{Rot2, Vec2};
use boxes::resources::Image;
use boxes::weapons::{RayStart, Weapon, WeaponRay, WeaponType};

fn aim_once(weapon: &mut Weapon, target: i64) {
    let mut rays: Vec<RayStart> = Vec::new();
    weapon.step(Vec2 { x: 0, y: 0 }, 0, target, false, &mut rays);
    assert!(rays.is_empty());
}

#[test]
fn aim_reaches_target_in_one_step() {
    // Exactly one turn-rate step away: lands exactly on target.
    let mut w = Weapon::new(WeaponType::Laser);
    aim_once(&mut w, 100);
    assert_eq!(w.rotation, 100);
}

#[test]
fn aim_reaches_target_in_two_steps() {
    let mut w = Weapon::new(WeaponType::Laser);
    aim_once(&mut w, 200);
    assert_eq!(w.rotation, 100);
    aim_once(&mut w, 200);
    assert_eq!(w.rotation, 200);
}

#[test]
fn aim_snaps_on_fractional_step_and_stays() {
    // 250 milliradians: two full steps, then a snap, then no motion.
    let mut w = Weapon::new(WeaponType::Laser);
    let expected = [100, 200, 250, 250, 250];
    for e in expected {
        aim_once(&mut w, 250);
        assert_eq!(w.rotation, e);
    }
}

#[test]
fn aim_turns_downward_without_overshoot() {
    let mut w = Weapon::new(WeaponType::TractionBeam);
    aim_once(&mut w, -150);
    assert_eq!(w.rotation, -100);
    aim_once(&mut w, -150);
    assert_eq!(w.rotation, -150);
    aim_once(&mut w, -150);
    assert_eq!(w.rotation, -150);
}

#[test]
fn aim_within_one_step_snaps_exactly() {
    let mut w = Weapon::new(WeaponType::Laser);
    aim_once(&mut w, 37);
    assert_eq!(w.rotation, 37);
}

#[test]
fn firing_spawns_one_ray_per_tick() {
    let mut w = Weapon::new(WeaponType::Laser);
    let mut rays: Vec<RayStart> = Vec::new();
    let pos = Vec2 { x: 5000, y: -2000 };
    w.step(pos, 300, 100, true, &mut rays);
    assert_eq!(rays.len(), 1);
    assert_eq!(rays[0].tag, WeaponType::Laser);
    assert_eq!(rays[0].origin, pos);
    // The ray bears the weapon's new rotation plus the hull's.
    assert_eq!(rays[0].angle, 100 + 300);
    // A held trigger fires again next tick.
    w.step(pos, 300, 100, true, &mut rays);
    assert_eq!(rays.len(), 2);
}

#[test]
fn weapon_images_and_ray_colours() {
    assert_eq!(WeaponType::Laser.image(), Image::Laser);
    assert_eq!(WeaponType::TractionBeam.image(), Image::TractionBeam);
    assert_eq!(WeaponType::Laser.ray_colour(), Colour::Red);
    assert_eq!(WeaponType::TractionBeam.ray_colour(), Colour::Green);
    assert_eq!(Colour::Red.rgba(), (255, 0, 0, 255));
    assert_eq!(Colour::Green.rgba(), (0, 255, 0, 255));
}

#[test]
fn unresolved_ray_is_drawn_to_max_range() {
    // Direction pointing along +x: cosine 1000, sine 0.
    let ray = WeaponRay::new(
        WeaponType::Laser,
        Vec2 { x: 1000, y: 2000 },
        Rot2 { c: 1000, s: 0 },
    );
    assert_eq!(ray.endpoint(), Vec2 { x: 1000 + 2_000_000, y: 2000 });
}

#[test]
fn resolve_picks_the_globally_nearest_hit() {
    // Ship B's hit is nearer along the ray than ship A's: the hit must
    // register against B only.
    let mut ray = WeaponRay::new(
        WeaponType::Laser,
        Vec2 { x: 0, y: 0 },
        Rot2 { c: 1000, s: 0 },
    );
    let hits = vec![
        Some(Vec2 { x: 500_000, y: 0 }),  // ship A, farther
        Some(Vec2 { x: 200_000, y: 0 }),  // ship B, nearer
    ];
    let struck = ray.resolve(&hits);
    assert_eq!(struck, Some(1));
    assert_eq!(ray.intersection, Some(Vec2 { x: 200_000, y: 0 }));
}

#[test]
fn resolve_breaks_ties_by_ship_order() {
    let mut ray = WeaponRay::new(
        WeaponType::Laser,
        Vec2 { x: 0, y: 0 },
        Rot2 { c: 1000, s: 0 },
    );
    let hits = vec![
        None,
        Some(Vec2 { x: 300_000, y: 0 }),
        Some(Vec2 { x: 300_000, y: 0 }),
    ];
    assert_eq!(ray.resolve(&hits), Some(1));
}

#[test]
fn resolve_misses_when_no_ship_intersects() {
    let mut ray = WeaponRay::new(
        WeaponType::TractionBeam,
        Vec2 { x: 0, y: 0 },
        Rot2 { c: 0, s: 1000 },
    );
    let hits = vec![None, None];
    assert_eq!(ray.resolve(&hits), None);
    assert_eq!(ray.intersection, None);
}

#[test]
fn traction_impulse_opposes_the_ray_at_the_hit_offset() {
    // Ray travelling along +x hits a ship at an offset point: the
    // impulse is exactly the negated direction scaled by 1000, applied
    // at the hit point's offset from the body centre.
    let mut ray = WeaponRay::new(
        WeaponType::TractionBeam,
        Vec2 { x: 0, y: 0 },
        Rot2 { c: 1000, s: 0 },
    );
    let hits = vec![Some(Vec2 { x: 150_000, y: 40_000 })];
    assert_eq!(ray.resolve(&hits), Some(0));
    let body_pos = Vec2 { x: 100_000, y: 10_000 };
    let imp = ray.traction_impulse(&body_pos).unwrap();
    assert_eq!(imp.force, Vec2 { x: -1_000_000, y: 0 });
    assert_eq!(imp.offset, Vec2 { x: 50_000, y: 30_000 });
}

#[test]
fn traction_impulse_needs_a_hit() {
    let ray = WeaponRay::new(
        WeaponType::TractionBeam,
        Vec2 { x: 0, y: 0 },
        Rot2 { c: 1000, s: 0 },
    );
    assert!(ray.traction_impulse(&Vec2 { x: 0, y: 0 }).is_none());
}
