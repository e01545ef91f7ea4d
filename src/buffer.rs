use vstd::arithmetic::div_mod::lemma_fundamental_div_mod;
use vstd::prelude::*;

verus! {

/// Why a buffer operation was refused.
#[derive(Clone, Copy, Debug, PartialEq, Eq, Structural)]
pub enum FrameError {
    /// A buffer was asked for with a zero width or height.
    InvalidDimension,
    /// A write named a cell outside the grid.
    OutOfBounds,
    /// The demonstration point mapped outside the buffer; the frame has no marker.
    NoMarkerPoint,
}

/// One pixel, in the byte order the presenting surface expects.
#[derive(Clone, Copy, Debug, PartialEq, Eq, Structural)]
pub struct Color {
    pub b: u8,
    pub g: u8,
    pub r: u8,
    pub a: u8,
}

/// Byte offset of cell `(x, y)` in a row-major grid of 4-byte pixels.
pub open spec fn cell_offset(width: int, x: int, y: int) -> int {
    (y * width + x) * 4
}

/// The four bytes of cell `(x, y)`, read as a pixel.
pub open spec fn cell_of(bytes: Seq<u8>, width: int, x: int, y: int) -> Color {
    let o = cell_offset(width, x, y);
    Color { b: bytes[o], g: bytes[o + 1], r: bytes[o + 2], a: bytes[o + 3] }
}

/// `bytes` with cell `(x, y)` overwritten by `c`, channel by channel.
pub open spec fn write_cell(bytes: Seq<u8>, width: int, x: int, y: int, c: Color) -> Seq<u8> {
    let o = cell_offset(width, x, y);
    bytes.update(o, c.b).update(o + 1, c.g).update(o + 2, c.r).update(o + 3, c.a)
}

/// The four bytes of an in-grid cell lie inside a `width` x `height` grid's bytes.
pub proof fn lemma_cell_in_grid(width: int, height: int, x: int, y: int)
    requires
        0 <= x < width,
        0 <= y < height,
    ensures
        0 <= cell_offset(width, x, y),
        cell_offset(width, x, y) + 4 <= width * height * 4,
{
    assert(y * width + x + 1 <= (y + 1) * width) by (nonlinear_arith)
        requires x < width;
    assert((y + 1) * width <= height * width) by (nonlinear_arith)
        requires y + 1 <= height, 0 < width;
    assert(0 <= y * width) by (nonlinear_arith)
        requires 0 <= y, 0 < width;
}

/// Two different cells of one grid never share a byte.
pub proof fn lemma_cells_disjoint(width: int, x1: int, y1: int, x2: int, y2: int)
    requires
        0 <= x1 < width,
        0 <= x2 < width,
        0 <= y1,
        0 <= y2,
        x1 != x2 || y1 != y2,
    ensures
        cell_offset(width, x1, y1) + 4 <= cell_offset(width, x2, y2)
            || cell_offset(width, x2, y2) + 4 <= cell_offset(width, x1, y1),
{
    if y1 < y2 {
        assert(y1 * width + x1 < y2 * width + x2) by (nonlinear_arith)
            requires y1 < y2, 0 <= x1 < width, 0 <= x2;
    } else if y2 < y1 {
        assert(y2 * width + x2 < y1 * width + x1) by (nonlinear_arith)
            requires y2 < y1, 0 <= x2 < width, 0 <= x1;
    }
}

/// Writing a pixel into an in-grid cell and reading that cell back gives the
/// written channels exactly; every other cell, and the length, stay as they were.
pub proof fn lemma_write_then_read(bytes: Seq<u8>, width: int, height: int, x: int, y: int, c: Color)
    requires
        bytes.len() == width * height * 4,
        0 <= x < width,
        0 <= y < height,
    ensures
        write_cell(bytes, width, x, y, c).len() == bytes.len(),
        cell_of(write_cell(bytes, width, x, y, c), width, x, y) == c,
        forall|cx: int, cy: int|
            #![trigger cell_of(write_cell(bytes, width, x, y, c), width, cx, cy)]
            0 <= cx < width && 0 <= cy < height && (cx != x || cy != y)
                ==> cell_of(write_cell(bytes, width, x, y, c), width, cx, cy) == cell_of(bytes, width, cx, cy),
{
    lemma_cell_in_grid(width, height, x, y);
    assert forall|cx: int, cy: int|
        #![trigger cell_of(write_cell(bytes, width, x, y, c), width, cx, cy)]
        0 <= cx < width && 0 <= cy < height && (cx != x || cy != y)
            implies cell_of(write_cell(bytes, width, x, y, c), width, cx, cy) == cell_of(bytes, width, cx, cy) by {
        lemma_cells_disjoint(width, cx, cy, x, y);
        lemma_cell_in_grid(width, height, cx, cy);
    }
}

/// Every byte of a grid belongs to one of its cells: two grids of one shape
/// that agree cell by cell are equal byte for byte.
pub proof fn lemma_cells_determine_bytes(width: int, height: int, b1: Seq<u8>, b2: Seq<u8>)
    requires
        0 < width,
        0 < height,
        b1.len() == width * height * 4,
        b2.len() == width * height * 4,
        forall|x: int, y: int|
            #![trigger cell_of(b1, width, x, y)]
            0 <= x < width && 0 <= y < height ==> cell_of(b1, width, x, y) == cell_of(b2, width, x, y),
    ensures
        b1 == b2,
{
    assert forall|j: int| 0 <= j < b1.len() implies b1[j] == b2[j] by {
        let c = j / 4;
        let x = c % width;
        let y = c / width;
        lemma_fundamental_div_mod(j, 4);
        lemma_fundamental_div_mod(c, width);
        assert(0 <= c < width * height);
        assert(0 <= x < width);
        assert(y * width + x == c) by (nonlinear_arith)
            requires c == width * (c / width) + (c % width), y == c / width, x == c % width;
        assert(0 <= y < height) by (nonlinear_arith)
            requires y * width + x == c, 0 <= x < width, 0 <= c < width * height, 0 < width;
        assert(cell_of(b1, width, x, y) == cell_of(b2, width, x, y));
        assert(cell_offset(width, x, y) == c * 4);
    }
    assert(b1 =~= b2);
}

/// Writes the pixel `(b, g, r, a)` into cell `(x, y)` of a row-major grid of
/// 4-byte pixels that is `width` cells wide. The column must lie inside the
/// row, so a write never spills into the next one.
pub fn set_pixel(buffer: &mut Vec<u8>, width: usize, x: usize, y: usize, b: u8, g: u8, r: u8, a: u8)
    requires
        x < width,
        cell_offset(width as int, x as int, y as int) + 4 <= old(buffer)@.len(),
    ensures
        final(buffer)@ == write_cell(old(buffer)@, width as int, x as int, y as int, Color { b, g, r, a }),
{
    let len: usize = buffer.len();
    proof {
        assert(0 <= y as int * width as int) by (nonlinear_arith);
        assert((y as int * width as int + x as int) * 4 + 4 <= len);
    }
    let i: usize = (y * width + x) * 4;
    buffer.set(i, b);
    buffer.set(i + 1, g);
    buffer.set(i + 2, r);
    buffer.set(i + 3, a);
}

/// A fixed-size grid of 4-byte pixels, stored row by row.
pub struct PixelBuffer {
    pub width: usize,
    pub height: usize,
    pub pixels: Vec<u8>,
}

impl PixelBuffer {
    /// The grid is non-empty, its sides fit the signed coordinates of the
    /// logical space, and it holds exactly four bytes per cell.
    pub open spec fn wf(&self) -> bool {
        &&& 0 < self.width <= i32::MAX
        &&& 0 < self.height <= i32::MAX
        &&& self.pixels@.len() == self.width * self.height * 4
    }

    /// The pixel held in cell `(x, y)`.
    pub open spec fn cell(&self, x: int, y: int) -> Color {
        cell_of(self.pixels@, self.width as int, x, y)
    }

    /// Cell `(x, y)` lies inside the grid.
    pub open spec fn in_grid(&self, x: int, y: int) -> bool {
        0 <= x < self.width && 0 <= y < self.height
    }

    /// A zeroed `width` x `height` buffer; `InvalidDimension` when either side is zero.
    pub fn new(width: usize, height: usize) -> (r: Result<PixelBuffer, FrameError>)
        requires
            width <= i32::MAX,
            height <= i32::MAX,
            width * height * 4 <= usize::MAX,
        ensures
            (width > 0 && height > 0) <==> r is Ok,
            r is Err ==> r == Err::<PixelBuffer, FrameError>(FrameError::InvalidDimension),
            r is Ok ==> {
                let b = r->Ok_0;
                &&& b.wf()
                &&& b.width == width
                &&& b.height == height
                &&& forall|i: int| 0 <= i < b.pixels@.len() ==> b.pixels@[i] == 0u8
            },
    {
        if width == 0 || height == 0 {
            return Err(FrameError::InvalidDimension);
        }
        proof {
            assert(0 <= width as int * height as int) by (nonlinear_arith);
        }
        let n: usize = width * height * 4;
        let mut pixels: Vec<u8> = Vec::new();
        let mut i: usize = 0;
        while i < n
            invariant
                i <= n,
                pixels@.len() == i,
                forall|j: int| 0 <= j < i ==> pixels@[j] == 0u8,
            decreases n - i,
        {
            pixels.push(0u8);
            i = i + 1;
        }
        Ok(PixelBuffer { width, height, pixels })
    }

    /// Writes `color` into cell `(x, y)`; `OutOfBounds`, with the buffer
    /// untouched, when the cell lies outside the grid.
    pub fn set_pixel(&mut self, x: usize, y: usize, color: Color) -> (r: Result<(), FrameError>)
        requires
            old(self).wf(),
        ensures
            final(self).wf(),
            final(self).width == old(self).width,
            final(self).height == old(self).height,
            r is Ok <==> old(self).in_grid(x as int, y as int),
            r is Err ==> r == Err::<(), FrameError>(FrameError::OutOfBounds) && *final(self) == *old(self),
            r is Ok ==> final(self).cell(x as int, y as int) == color,
            forall|cx: int, cy: int|
                #![trigger final(self).cell(cx, cy)]
                old(self).in_grid(cx, cy) && (cx != x || cy != y)
                    ==> final(self).cell(cx, cy) == old(self).cell(cx, cy),
    {
        if x >= self.width || y >= self.height {
            return Err(FrameError::OutOfBounds);
        }
        proof {
            lemma_cell_in_grid(self.width as int, self.height as int, x as int, y as int);
            lemma_write_then_read(self.pixels@, self.width as int, self.height as int, x as int, y as int, color);
        }
        set_pixel(&mut self.pixels, self.width, x, y, color.b, color.g, color.r, color.a);
        Ok(())
    }

    /// The pixel in cell `(x, y)`, or `None` outside the grid.
    pub fn pixel(&self, x: usize, y: usize) -> (r: Option<Color>)
        requires
            self.wf(),
        ensures
            r is Some <==> self.in_grid(x as int, y as int),
            r is Some ==> r->Some_0 == self.cell(x as int, y as int),
    {
        if x >= self.width || y >= self.height {
            return None;
        }
        let len: usize = self.pixels.len();
        proof {
            lemma_cell_in_grid(self.width as int, self.height as int, x as int, y as int);
            assert(0 <= y as int * self.width as int) by (nonlinear_arith);
            assert((y as int * self.width as int + x as int) * 4 + 4 <= len);
        }
        let i: usize = (y * self.width + x) * 4;
        Some(Color { b: self.pixels[i], g: self.pixels[i + 1], r: self.pixels[i + 2], a: self.pixels[i + 3] })
    }
}

} // verus!
