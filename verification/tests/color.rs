use tcod::Color;

#[test]
fn new_sets_channels() {
    let c = Color::new(1, 2, 3);
    assert_eq!(c.r, 1);
    assert_eq!(c.g, 2);
    assert_eq!(c.b, 3);
    assert_eq!(c, Color { r: 1, g: 2, b: 3 });
}

#[test]
fn add_without_overflow() {
    let c = Color::new(10, 20, 30) + Color::new(5, 6, 7);
    assert_eq!(c, Color::new(15, 26, 37));
}

#[test]
fn add_wraps_past_255() {
    let c = Color::new(200, 255, 128) + Color::new(100, 1, 128);
    assert_eq!(c, Color::new(44, 0, 0));
}

#[test]
fn add_is_commutative_on_examples() {
    let a = Color::new(250, 3, 77);
    let b = Color::new(9, 254, 200);
    assert_eq!(a + b, b + a);
}

#[test]
fn add_is_associative_on_examples() {
    let a = Color::new(250, 3, 77);
    let b = Color::new(9, 254, 200);
    let c = Color::new(128, 128, 255);
    assert_eq!((a + b) + c, a + (b + c));
}

#[test]
fn add_black_is_identity() {
    let a = Color::new(17, 0, 255);
    assert_eq!(a + Color::new(0, 0, 0), a);
}

#[test]
fn sub_gives_black() {
    assert_eq!(Color::new(200, 100, 50) - Color::new(10, 20, 30), Color::new(0, 0, 0));
    assert_eq!(Color::new(0, 0, 0) - Color::new(255, 255, 255), Color::new(0, 0, 0));
    assert_eq!(Color::new(7, 7, 7) - Color::new(7, 7, 7), Color::new(0, 0, 0));
}
