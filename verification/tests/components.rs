use boxes::geom::Vec2;
use boxes::resources::Image;
use boxes::ships::{Component, ComponentType, Rotation};
use boxes::weapons::WeaponType;

#[test]
fn collides_is_fixed_by_type() {
    assert!(ComponentType::Metal.collides());
    assert!(ComponentType::Reactor.collides());
    assert!(ComponentType::Rock.collides());
    assert!(!ComponentType::Pipe.collides());
    assert!(!ComponentType::Engine.collides());
    assert!(!ComponentType::hardpoint(WeaponType::Laser).collides());
    // Two components of the same type always agree, and damage does not
    // change the answer.
    let mut a = Component::new(ComponentType::Metal, 0, 0, Rotation::Up);
    let b = Component::new(ComponentType::Metal, 3, -1, Rotation::Left);
    assert_eq!(a.tag.collides(), b.tag.collides());
    a.damage(50);
    assert!(a.tag.collides());
}

#[test]
fn densities() {
    assert_eq!(ComponentType::Rock.density(), 1000);
    assert_eq!(ComponentType::Pipe.density(), 250);
    assert_eq!(ComponentType::Metal.density(), 500);
    assert_eq!(ComponentType::Reactor.density(), 500);
    assert_eq!(ComponentType::Engine.density(), 500);
    assert_eq!(ComponentType::hardpoint(WeaponType::TractionBeam).density(), 500);
}

#[test]
fn images() {
    assert_eq!(ComponentType::Metal.image(), Image::Metal);
    assert_eq!(ComponentType::Pipe.image(), Image::Pipe);
    assert_eq!(ComponentType::Reactor.image(), Image::Reactor);
    assert_eq!(ComponentType::Engine.image(), Image::Engine);
    assert_eq!(ComponentType::Rock.image(), Image::Rock);
    assert_eq!(ComponentType::hardpoint(WeaponType::Laser).image(), Image::Hardpoint);
}

#[test]
fn new_component_is_at_full_health() {
    let c = Component::new(ComponentType::Rock, 1, 2, Rotation::Down);
    assert_eq!(c.health, 100);
    assert_eq!(ComponentType::Rock.max_health(), 100);
    assert_eq!(c.x, 1);
    assert_eq!(c.y, 2);
}

#[test]
fn grid_vector_is_scaled_by_cell_size() {
    let c = Component::new(ComponentType::Metal, -2, 3, Rotation::Up);
    assert_eq!(c.vector(), Vec2 { x: -64_000, y: 96_000 });
}

#[test]
fn damage_clamps_at_zero() {
    let mut c = Component::new(ComponentType::Metal, 0, 0, Rotation::Up);
    assert!(!c.damage(60));
    assert_eq!(c.health, 40);
    // More damage than health left: clamped at zero, reported dead.
    assert!(c.damage(60));
    assert_eq!(c.health, 0);
}

#[test]
fn damage_is_monotonic() {
    let mut c = Component::new(ComponentType::Metal, 0, 0, Rotation::Up);
    let mut last = c.health;
    for _ in 0..150 {
        c.damage(1);
        assert!(c.health <= last);
        assert!(c.health >= 0);
        last = c.health;
    }
    assert_eq!(c.health, 0);
}

#[test]
fn facing_degrees() {
    assert_eq!(Rotation::Up.to_degrees(), 0);
    assert_eq!(Rotation::Right.to_degrees(), 90);
    assert_eq!(Rotation::Down.to_degrees(), 180);
    assert_eq!(Rotation::Left.to_degrees(), 270);
}

#[test]
fn facing_turns_are_exact_quarter_turns() {
    let v = Vec2 { x: 3, y: 7 };
    assert_eq!(Rotation::Up.apply(&v), Vec2 { x: 3, y: 7 });
    assert_eq!(Rotation::Right.apply(&v), Vec2 { x: -7, y: 3 });
    assert_eq!(Rotation::Down.apply(&v), Vec2 { x: -3, y: -7 });
    assert_eq!(Rotation::Left.apply(&v), Vec2 { x: 7, y: -3 });
}

#[test]
fn engine_and_reactor_predicates() {
    assert!(ComponentType::Engine.is_engine());
    assert!(!ComponentType::Metal.is_engine());
    assert!(ComponentType::Reactor.is_reactor());
    assert!(!ComponentType::Engine.is_reactor());
}
