use raytracer::canvas::{pixel_coords, render_frame, CANVAS_HEIGHT, CANVAS_WIDTH};
use raytracer::colour::Colour;

#[test]
fn canvas_dimensions() {
    assert_eq!(CANVAS_WIDTH, 400);
    assert_eq!(CANVAS_HEIGHT, 300);
}

#[test]
fn pixel_coords_corners() {
    assert_eq!(pixel_coords(0), (-200, 150));
    assert_eq!(pixel_coords(399), (199, 150));
    assert_eq!(pixel_coords(400), (-200, 149));
    assert_eq!(pixel_coords(CANVAS_WIDTH * CANVAS_HEIGHT - 1), (199, -149));
}

#[test]
fn render_frame_writes_converted_bytes() {
    let pixels = vec![
        Colour { r: 255, g: 0, b: 0 },
        Colour { r: 0, g: 128, b: 0 },
    ];
    let frame = render_frame(&pixels);
    assert_eq!(frame, vec![255, 0, 0, 255, 0, 187, 0, 255]);
}

#[test]
fn render_frame_is_deterministic() {
    let mut pixels = Vec::new();
    for i in 0..CANVAS_WIDTH * CANVAS_HEIGHT {
        pixels.push(Colour {
            r: (i % 256) as u8,
            g: (i / 256 % 256) as u8,
            b: (i / 7 % 256) as u8,
        });
    }
    let first = render_frame(&pixels);
    let second = render_frame(&pixels);
    assert_eq!(first.len(), CANVAS_WIDTH * CANVAS_HEIGHT * 4);
    assert_eq!(first, second);
}
