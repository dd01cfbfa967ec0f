use boxes::geom::{dist2, div_milli, rotate, Rot2, Vec2};

#[test]
fn scale_division_truncates_toward_zero() {
    assert_eq!(div_milli(1_500), 1);
    assert_eq!(div_milli(-1_500), -1);
    assert_eq!(div_milli(999), 0);
    assert_eq!(div_milli(-999), 0);
    assert_eq!(div_milli(2_000), 2);
    assert_eq!(div_milli(-2_000), -2);
}

#[test]
fn quarter_turn_rotation_is_exact() {
    // cos 90 degrees = 0, sin 90 degrees = 1, scaled by 1000.
    let quarter = Rot2 { c: 0, s: 1000 };
    let v = Vec2 { x: 64_000, y: 32_000 };
    assert_eq!(rotate(&v, &quarter), Vec2 { x: -32_000, y: 64_000 });
    let identity = Rot2 { c: 1000, s: 0 };
    assert_eq!(rotate(&v, &identity), v);
}

#[test]
fn rotation_by_a_general_pair_truncates() {
    // cos 45 degrees and sin 45 degrees quantised to 707/1000.
    let eighth = Rot2 { c: 707, s: 707 };
    let v = Vec2 { x: 1_000, y: 0 };
    assert_eq!(rotate(&v, &eighth), Vec2 { x: 707, y: 707 });
    let w = Vec2 { x: 1_001, y: 0 };
    // 1_001 * 707 = 707_707: truncated, not rounded.
    assert_eq!(rotate(&w, &eighth), Vec2 { x: 707, y: 707 });
}

#[test]
fn squared_distance_is_exact() {
    let a = Vec2 { x: 3_000, y: -4_000 };
    let b = Vec2 { x: 0, y: 0 };
    assert_eq!(dist2(&a, &b), 25_000_000);
    assert_eq!(dist2(&a, &a), 0);
}
