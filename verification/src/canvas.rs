//! The canvas: the fixed frame dimensions, the mapping from a row-major
//! pixel index to centred canvas coordinates, and the assembly of a frame
//! buffer from the colours traced for each pixel.

use vstd::prelude::*;
use crate::colour::Colour;
use crate::colour::display_level;

verus! {

/// Width of the canvas in pixels, a fixed contract constant.
pub const CANVAS_WIDTH: usize = 400;

/// Height of the canvas in pixels, a fixed contract constant.
pub const CANVAS_HEIGHT: usize = 300;

/// Canvas coordinates of the pixel at row-major index `i`: the origin sits
/// at the centre of the canvas, `x` grows to the right, and `y` grows
/// upward, so increasing the row index moves down the screen but up in `y`.
pub fn pixel_coords(i: usize) -> (xy: (i16, i16))
    requires
        i < CANVAS_WIDTH * CANVAS_HEIGHT,
    ensures
        xy.0 as int == i as int % (CANVAS_WIDTH as int) - (CANVAS_WIDTH as int) / 2,
        xy.1 as int == (CANVAS_HEIGHT as int) / 2 - i as int / (CANVAS_WIDTH as int),
{
    let col: usize = i % CANVAS_WIDTH;
    let row: usize = i / CANVAS_WIDTH;
    let half_w: i16 = (CANVAS_WIDTH / 2) as i16;
    let half_h: i16 = (CANVAS_HEIGHT / 2) as i16;
    ((col as i16) - half_w, half_h - (row as i16))
}

/// The four bytes of pixel `i` in `frame` are the display conversion of
/// colour `c`: the three converted channels followed by an opaque alpha.
pub open spec fn pixel_written(frame: Seq<u8>, i: int, c: Colour) -> bool {
    &&& frame[4 * i] == display_level(c.r)
    &&& frame[4 * i + 1] == display_level(c.g)
    &&& frame[4 * i + 2] == display_level(c.b)
    &&& frame[4 * i + 3] == 255
}

/// `frame` is exactly the frame buffer for the traced colours `pixels`:
/// four bytes per pixel, in pixel order.
pub open spec fn frame_of(pixels: Seq<Colour>, frame: Seq<u8>) -> bool {
    &&& frame.len() == 4 * pixels.len()
    &&& forall|i: int| 0 <= i < pixels.len() ==> pixel_written(frame, i, #[trigger] pixels[i])
}

/// Builds the frame buffer for one traced frame: pixel `i` of the result
/// holds the display conversion of `pixels[i]`, four bytes per pixel in
/// row-major pixel order.
pub fn render_frame(pixels: &Vec<Colour>) -> (frame: Vec<u8>)
    ensures
        frame_of(pixels@, frame@),
{
    let mut frame: Vec<u8> = Vec::new();
    let mut i: usize = 0;
    while i < pixels.len()
        invariant
            i <= pixels@.len(),
            frame@.len() == 4 * i,
            forall|j: int| 0 <= j < i ==> pixel_written(frame@, j, #[trigger] pixels@[j]),
        decreases pixels@.len() - i,
    {
        let (r, g, b, a) = pixels[i].convert();
        frame.push(r);
        frame.push(g);
        frame.push(b);
        frame.push(a);
        i = i + 1;
    }
    frame
}

/// The frame buffer is a function of the traced colours alone: two buffers
/// built from the same colours are byte for byte identical, so rendering
/// the same scene state twice gives identical output.
pub proof fn lemma_frame_determined(pixels: Seq<Colour>, f1: Seq<u8>, f2: Seq<u8>)
    requires
        frame_of(pixels, f1),
        frame_of(pixels, f2),
    ensures
        f1 == f2,
{
    assert forall|j: int| 0 <= j < f1.len() implies f1[j] == f2[j] by {
        let i = j / 4;
        let k = j % 4;
        vstd::arithmetic::div_mod::lemma_fundamental_div_mod(j, 4);
        assert(0 <= i < pixels.len());
        assert(pixel_written(f1, i, pixels[i]));
        assert(pixel_written(f2, i, pixels[i]));
    }
    assert(f1 =~= f2);
}

} // verus!
