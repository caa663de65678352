use ws2812_dma::color::Color;

#[test]
fn named_colours_have_their_channels() {
    assert_eq!(Color::new(1, 2, 3), Color { r: 1, g: 2, b: 3 });
    assert_eq!(Color::red(), Color { r: 255, g: 0, b: 0 });
    assert_eq!(Color::blue(), Color { r: 0, g: 0, b: 255 });
    assert_eq!(Color::green(), Color { r: 0, g: 255, b: 0 });
    assert_eq!(Color::white(), Color { r: 255, g: 255, b: 255 });
    assert_eq!(Color::led_off(), Color { r: 0, g: 0, b: 0 });
    assert_eq!(Color::default(), Color { r: 0, g: 0, b: 0 });
}

#[test]
fn invert_complements_each_channel() {
    let mut c = Color::new(0, 100, 255);
    c.invert();
    assert_eq!(c, Color::new(255, 155, 0));
}

#[test]
fn invert_twice_is_identity() {
    for &(r, g, b) in &[(0u8, 0u8, 0u8), (255, 255, 255), (1, 128, 254), (17, 42, 200)] {
        let mut c = Color::new(r, g, b);
        c.invert();
        c.invert();
        assert_eq!(c, Color::new(r, g, b));
    }
}

#[test]
fn bytes_round_trip() {
    let c = Color::new(9, 80, 250);
    let bytes: [u8; 3] = Color::from([c.r, c.g, c.b]).into();
    assert_eq!(bytes, [9, 80, 250]);
    let back: Color = Color::from(bytes);
    assert_eq!(back, c);
}

#[test]
fn add_saturates_at_255() {
    let sum = Color::new(200, 10, 255) + Color::new(100, 20, 1);
    assert_eq!(sum, Color::new(255, 30, 255));
}

#[test]
fn sub_saturates_at_zero() {
    let difference = Color::new(200, 10, 0) - Color::new(100, 20, 1);
    assert_eq!(difference, Color::new(100, 0, 0));
}

#[test]
fn mul_saturates_at_255() {
    let product = Color::new(16, 15, 0) * Color::new(16, 17, 255);
    assert_eq!(product, Color::new(255, 255, 0));
    let small = Color::new(5, 1, 255) * Color::new(51, 255, 1);
    assert_eq!(small, Color::new(255, 255, 255));
    let smaller = Color::new(5, 3, 2) * Color::new(50, 7, 100);
    assert_eq!(smaller, Color::new(250, 21, 200));
}
