use rendium::fx::SCALE;
use rendium::vector::{Vector2, Vector3, Vector4};

fn px(p: i64) -> i64 {
    p * SCALE
}

#[test]
fn vector2_algebra() {
    let a = Vector2::new(px(3), px(4));
    let b = Vector2::new(px(1), px(2));
    assert_eq!(Vector2::zero(), Vector2(0, 0));
    assert_eq!(a.add(b), Vector2(px(4), px(6)));
    assert_eq!(a.sub(b), Vector2(px(2), px(2)));
    assert_eq!(a.neg(), Vector2(-px(3), -px(4)));
    assert_eq!(a.mul(b), Vector2(px(3), px(8)));
    assert_eq!(a.scale(px(2)), Vector2(px(6), px(8)));
}

#[test]
fn vector2_length_and_distance() {
    let a = Vector2::new(px(3), px(4));
    assert_eq!(a.length(), px(5));
    let b = Vector2::new(px(6), px(8));
    assert_eq!(a.distance(b), px(5));
    assert_eq!(Vector2::zero().length(), 0);
}

#[test]
fn vector2_normalized_is_unit_length() {
    let a = Vector2::new(px(30), px(40));
    let n = a.normalized();
    assert_eq!(n, Vector2(3 * SCALE / 5, 4 * SCALE / 5));
    assert_eq!(Vector2::zero().normalized(), Vector2(0, 0));
}

#[test]
fn vector2_dot_and_lerp() {
    let a = Vector2::new(px(1), px(2));
    let b = Vector2::new(px(3), px(4));
    // (1 * 3 + 2 * 4) px^2 = 11 px^2.
    assert_eq!(a.dot(b), px(11));
    let mid = a.lerp(b, SCALE / 2);
    assert_eq!(mid, Vector2(px(2), px(3)));
    assert_eq!(a.lerp(b, 0), a);
    assert_eq!(a.lerp(b, SCALE), b);
}

#[test]
fn vector3_algebra_and_cross() {
    let x = Vector3::new(px(1), 0, 0);
    let y = Vector3::new(0, px(1), 0);
    assert_eq!(x.cross(y), Vector3(0, 0, px(1)));
    assert_eq!(y.cross(x), Vector3(0, 0, -px(1)));
    assert_eq!(x.dot(y), 0);
    assert_eq!(Vector3::new(px(2), px(3), px(6)).length(), px(7));
    let a = Vector3::new(px(1), px(2), px(3));
    let b = Vector3::new(px(4), px(6), px(8));
    assert_eq!(a.add(b), Vector3(px(5), px(8), px(11)));
    assert_eq!(b.sub(a), Vector3(px(3), px(4), px(5)));
    assert_eq!(a.neg(), Vector3(-px(1), -px(2), -px(3)));
    assert_eq!(a.lerp(b, SCALE / 2), Vector3(px(2) + px(1) / 2, px(4), px(5) + px(1) / 2));
    assert_eq!(a.distance(b), Vector3::zero().add(b.sub(a)).length());
}

#[test]
fn vector3_normalized_is_unit_length() {
    let v = Vector3::new(px(2), px(3), px(6));
    let n = v.normalized();
    assert_eq!(n, Vector3(2 * SCALE / 7, 3 * SCALE / 7, 6 * SCALE / 7));
    assert_eq!(Vector3::zero().normalized(), Vector3(0, 0, 0));
}

#[test]
fn vector4_sub() {
    let a = Vector4::new(px(5), px(6), px(7), px(8));
    let b = Vector4::new(px(1), px(2), px(3), px(4));
    assert_eq!(a.sub(b), Vector4(px(4), px(4), px(4), px(4)));
    assert_eq!(Vector4::zero(), Vector4(0, 0, 0, 0));
}
