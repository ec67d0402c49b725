use ogc_gx::color::Color;

#[test]
fn new_is_opaque() {
    let c = Color::new(1, 2, 3);
    assert_eq!(c, Color { r: 1, g: 2, b: 3, a: 255 });
    assert_eq!(c, Color::with_alpha(1, 2, 3, 255));
}

#[test]
fn with_alpha_keeps_components() {
    let c = Color::with_alpha(10, 20, 30, 40);
    assert_eq!((c.r, c.g, c.b, c.a), (10, 20, 30, 40));
    assert_ne!(c, Color::new(10, 20, 30));
}
