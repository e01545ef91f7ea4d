use vstd::prelude::*;

use crate::buffer::{cell_of, lemma_cells_determine_bytes, Color, FrameError, PixelBuffer};
use crate::mapper::{map_point, screen_fixing, Point2};

verus! {

/// Logical x of the demonstration point drawn as the marker.
pub const DEMO_POINT_X: i32 = -10;

/// Logical y of the demonstration point drawn as the marker.
pub const DEMO_POINT_Y: i32 = -10;

/// The marker's colour: full red, opaque.
pub open spec fn marker_color() -> Color {
    Color { b: 0, g: 0, r: 255, a: 255 }
}

/// The gradient pixel of cell `(x, y)`: blue and alpha saturated, red taken
/// from the cell's column and green from its row.
pub open spec fn gradient_color(column_reds: Seq<u8>, row_greens: Seq<u8>, x: int, y: int) -> Color {
    Color { b: 255, g: row_greens[y], r: column_reds[x], a: 255 }
}

/// The cell of a `width` x `height` buffer that receives the marker, if any.
pub open spec fn marker_cell(width: int, height: int) -> Option<(int, int)> {
    map_point(DEMO_POINT_X as int, DEMO_POINT_Y as int, width, height)
}

/// What a finished frame holds in cell `(x, y)`.
pub open spec fn frame_color(width: int, height: int, column_reds: Seq<u8>, row_greens: Seq<u8>, x: int, y: int) -> Color {
    if marker_cell(width, height) == Some((x, y)) {
        marker_color()
    } else {
        gradient_color(column_reds, row_greens, x, y)
    }
}

/// Every cell of `buf` holds what a frame drawn from these channels holds there.
pub open spec fn is_frame(buf: PixelBuffer, column_reds: Seq<u8>, row_greens: Seq<u8>) -> bool {
    forall|x: int, y: int|
        #![trigger buf.cell(x, y)]
        buf.in_grid(x, y) ==> buf.cell(x, y) == frame_color(
            buf.width as int,
            buf.height as int,
            column_reds,
            row_greens,
            x,
            y,
        )
}

/// Draws one frame: every cell, in row-major order, gets its gradient pixel,
/// then the demonstration point's cell is overwritten with the marker.
/// Returns the marker's cell, or `NoMarkerPoint` when the point maps outside
/// the buffer; the gradient is drawn in either case.
pub fn render(buffer: &mut PixelBuffer, column_reds: &Vec<u8>, row_greens: &Vec<u8>) -> (r: Result<(usize, usize), FrameError>)
    requires
        old(buffer).wf(),
        column_reds@.len() == old(buffer).width,
        row_greens@.len() == old(buffer).height,
    ensures
        final(buffer).wf(),
        final(buffer).width == old(buffer).width,
        final(buffer).height == old(buffer).height,
        is_frame(*final(buffer), column_reds@, row_greens@),
        match marker_cell(old(buffer).width as int, old(buffer).height as int) {
            Some((mx, my)) => {
                &&& r == Ok::<(usize, usize), FrameError>((mx as usize, my as usize))
                &&& final(buffer).cell(mx, my) == marker_color()
                &&& marker_color() != gradient_color(column_reds@, row_greens@, mx, my)
            },
            None => r == Err::<(usize, usize), FrameError>(FrameError::NoMarkerPoint),
        },
{
    let width: usize = buffer.width;
    let height: usize = buffer.height;
    let mut y: usize = 0;
    while y < height
        invariant
            buffer.wf(),
            buffer.width == width,
            buffer.height == height,
            column_reds@.len() == width,
            row_greens@.len() == height,
            y <= height,
            forall|cx: int, cy: int|
                #![trigger buffer.cell(cx, cy)]
                0 <= cx < width && 0 <= cy < y ==> buffer.cell(cx, cy) == gradient_color(
                    column_reds@,
                    row_greens@,
                    cx,
                    cy,
                ),
        decreases height - y,
    {
        let mut x: usize = 0;
        while x < width
            invariant
                buffer.wf(),
                buffer.width == width,
                buffer.height == height,
                column_reds@.len() == width,
                row_greens@.len() == height,
                y < height,
                x <= width,
                forall|cx: int, cy: int|
                    #![trigger buffer.cell(cx, cy)]
                    0 <= cx < width && 0 <= cy < height && (cy < y || (cy == y && cx < x))
                        ==> buffer.cell(cx, cy) == gradient_color(column_reds@, row_greens@, cx, cy),
            decreases width - x,
        {
            let color = Color { b: 255, g: row_greens[y], r: column_reds[x], a: 255 };
            let _ = buffer.set_pixel(x, y, color);
            x = x + 1;
        }
        y = y + 1;
    }
    let marker = screen_fixing(width, height, Point2 { x: DEMO_POINT_X, y: DEMO_POINT_Y });
    match marker {
        Some((sx, sy)) => {
            let _ = buffer.set_pixel(sx as usize, sy as usize, Color { b: 0, g: 0, r: 255, a: 255 });
            Ok((sx as usize, sy as usize))
        },
        None => Err(FrameError::NoMarkerPoint),
    }
}

/// Drawing a frame is deterministic: two buffers of one size that each hold
/// the frame drawn from the same channels are byte-identical.
pub proof fn lemma_render_deterministic(b1: PixelBuffer, b2: PixelBuffer, column_reds: Seq<u8>, row_greens: Seq<u8>)
    requires
        b1.wf(),
        b2.wf(),
        b1.width == b2.width,
        b1.height == b2.height,
        is_frame(b1, column_reds, row_greens),
        is_frame(b2, column_reds, row_greens),
    ensures
        b1.pixels@ == b2.pixels@,
{
    assert forall|x: int, y: int|
        #![trigger cell_of(b1.pixels@, b1.width as int, x, y)]
        0 <= x < b1.width && 0 <= y < b1.height implies cell_of(b1.pixels@, b1.width as int, x, y) == cell_of(
            b2.pixels@,
            b2.width as int,
            x,
            y,
        ) by {
        assert(b1.in_grid(x, y) && b2.in_grid(x, y));
        assert(b1.cell(x, y) == b2.cell(x, y));
    }
    lemma_cells_determine_bytes(b1.width as int, b1.height as int, b1.pixels@, b2.pixels@);
}

} // verus!
