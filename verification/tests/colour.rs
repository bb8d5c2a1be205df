use raytracer::colour::Colour;
use raytracer::colour::display_of;

#[test]
fn default_is_black() {
    let c: Colour = Default::default();
    assert_eq!(c, Colour { r: 0, g: 0, b: 0 });
}

#[test]
fn blend_adds_channels() {
    let a = Colour { r: 10, g: 20, b: 30 };
    let b = Colour { r: 1, g: 2, b: 3 };
    assert_eq!(a.add(b), Colour { r: 11, g: 22, b: 33 });
}

#[test]
fn blend_wraps_modulo_256() {
    let a = Colour { r: 200, g: 255, b: 0 };
    let b = Colour { r: 100, g: 1, b: 255 };
    assert_eq!(a.add(b), Colour { r: 44, g: 0, b: 255 });
}

#[test]
fn convert_black_stays_black() {
    let c = Colour { r: 0, g: 0, b: 0 };
    assert_eq!(c.convert(), (0, 0, 0, 255));
}

#[test]
fn convert_mid_grey() {
    // Half intensity lands near 188, within 8-bit truncation tolerance.
    let c = Colour { r: 128, g: 128, b: 128 };
    assert_eq!(c.convert(), (187, 187, 187, 255));
}

#[test]
fn convert_full_intensity() {
    // The exact transfer gives one at the top of the range, so full
    // intensity stays full intensity.
    let c = Colour { r: 255, g: 255, b: 255 };
    assert_eq!(c.convert(), (255, 255, 255, 255));
}

#[test]
fn display_matches_single_precision_transfer() {
    // Every level below the top matches the renderer's single-precision
    // evaluation of the transfer; at the top that evaluation rounds the
    // power segment to just under one and would drop a level, so channel
    // 255 follows the exact transfer instead and shows as 255.
    for c in 0..=254u8 {
        let x = f32::from(c) / 255.0;
        let y = if x <= 0.0031308 {
            x * 12.92
        } else {
            1.055 * x.powf(1.0 / 2.4) - 0.055
        };
        let expected = (y * 255.0) as u8;
        assert_eq!(display_of(c), expected, "channel {}", c);
    }
    assert_eq!(display_of(255), 255);
}
