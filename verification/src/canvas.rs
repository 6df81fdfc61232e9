//! The pixel canvas: the authoritative grid of color values, addressed by
//! row-major (x, y) coordinates, with bounds-checked reads and writes and an
//! explicit step that materializes the grid into renderable bytes.

use vstd::prelude::*;

use crate::color::Color;

verus! {

/// Failures a canvas operation can report. Both are local and recoverable:
/// the canvas stays valid and usable after a failed call.
#[derive(Clone, Copy, PartialEq, Eq, Structural, Debug)]
pub enum CanvasError {
    /// The constructor was given a zero width or height.
    InvalidDimensions,
    /// A coordinate lay outside `[0, width) x [0, height)`.
    OutOfBounds,
}

/// A CPU-resident grid of `width * height` color values in row-major order.
/// The grid is the single source of truth for image content; a renderable
/// form is derived from it on demand by `materialize`.
pub struct PixCanvas {
    width: u32,
    height: u32,
    pixels: Vec<Color>,
}

/// The renderable bytes of a pixel sequence: four bytes per pixel, in
/// B, G, R, A component order.
pub open spec fn bgra_bytes(s: Seq<Color>) -> Seq<u8> {
    Seq::new(4 * s.len(), |i: int| bgra_byte_at(s, i))
}

/// Byte `i` of the renderable form: component `i % 4` (B, G, R, A) of pixel
/// `i / 4`.
pub open spec fn bgra_byte_at(s: Seq<Color>, i: int) -> u8 {
    if i % 4 == 0 {
        s[i / 4].b
    } else if i % 4 == 1 {
        s[i / 4].g
    } else if i % 4 == 2 {
        s[i / 4].r
    } else {
        s[i / 4].a
    }
}

impl PixCanvas {
    pub closed spec fn spec_width(&self) -> int {
        self.width as int
    }

    pub closed spec fn spec_height(&self) -> int {
        self.height as int
    }

    pub closed spec fn spec_pixels(&self) -> Seq<Color> {
        self.pixels@
    }

    /// Well-formedness: positive dimensions, and exactly one stored color per
    /// cell. Established by the constructor and preserved by every method.
    pub open spec fn wf(&self) -> bool {
        &&& 0 < self.spec_width()
        &&& 0 < self.spec_height()
        &&& self.spec_pixels().len() == self.spec_width() * self.spec_height()
    }

    /// A coordinate is valid iff it lies in `[0, width) x [0, height)`.
    pub open spec fn in_bounds(&self, x: int, y: int) -> bool {
        0 <= x < self.spec_width() && 0 <= y < self.spec_height()
    }

    /// Row-major linearization: the buffer index of cell (x, y).
    pub open spec fn index_of(&self, x: int, y: int) -> int {
        y * self.spec_width() + x
    }

    /// The color currently stored at cell (x, y).
    pub open spec fn color_at(&self, x: int, y: int) -> Color {
        self.spec_pixels()[self.index_of(x, y)]
    }

    /// Allocates a `width * height` canvas with every pixel black, or reports
    /// `InvalidDimensions` iff either dimension is zero.
    pub fn new(width: u32, height: u32) -> (r: Result<PixCanvas, CanvasError>)
        requires
            width as int * height as int <= usize::MAX as int,
        ensures
            r is Ok <==> width > 0 && height > 0,
            r is Err ==> r->Err_0 == CanvasError::InvalidDimensions,
            r is Ok ==> r->Ok_0.wf(),
            r is Ok ==> r->Ok_0.spec_width() == width as int,
            r is Ok ==> r->Ok_0.spec_height() == height as int,
            r is Ok ==> r->Ok_0.spec_pixels() == Seq::new(
                (width as int * height as int) as nat,
                |i: int| Color::black_spec(),
            ),
    {
        if width == 0 || height == 0 {
            return Err(CanvasError::InvalidDimensions);
        }
        let n: usize = (width as usize) * (height as usize);
        let mut pixels: Vec<Color> = Vec::new();
        let mut i: usize = 0;
        while i < n
            invariant
                i <= n,
                pixels@.len() == i as int,
                forall|j: int| 0 <= j < i as int ==> pixels@[j] == Color::black_spec(),
            decreases n - i,
        {
            pixels.push(Color::black());
            i = i + 1;
        }
        proof {
            assert(pixels@ =~= Seq::new(
                (width as int * height as int) as nat,
                |j: int| Color::black_spec(),
            ));
        }
        Ok(PixCanvas { width, height, pixels })
    }

    pub fn width(&self) -> (w: u32)
        ensures
            w as int == self.spec_width(),
    {
        self.width
    }

    pub fn height(&self) -> (h: u32)
        ensures
            h as int == self.spec_height(),
    {
        self.height
    }

    /// The buffer index of an in-bounds cell (x, y), by the row-major formula.
    pub fn linearize(&self, x: u32, y: u32) -> (idx: usize)
        requires
            self.wf(),
            self.in_bounds(x as int, y as int),
        ensures
            idx as int == self.index_of(x as int, y as int),
            idx < self.spec_pixels().len(),
    {
        // Reading the length as a usize bounds the buffer size, which the
        // overflow check on the arithmetic below needs.
        let _n: usize = self.pixels.len();
        proof {
            lemma_index_in_range(self, x as int, y as int);
        }
        (y as usize) * (self.width as usize) + (x as usize)
    }

    /// Writes `color` at cell (x, y); no other cell changes. Reports
    /// `OutOfBounds`, leaving the grid untouched, iff the coordinate is
    /// invalid.
    pub fn set_pixel(&mut self, x: u32, y: u32, color: Color) -> (r: Result<(), CanvasError>)
        requires
            old(self).wf(),
        ensures
            final(self).wf(),
            final(self).spec_width() == old(self).spec_width(),
            final(self).spec_height() == old(self).spec_height(),
            r is Ok <==> old(self).in_bounds(x as int, y as int),
            r is Err ==> r->Err_0 == CanvasError::OutOfBounds
                && final(self).spec_pixels() == old(self).spec_pixels(),
            old(self).in_bounds(x as int, y as int) ==> final(self).spec_pixels()
                == old(self).spec_pixels().update(old(self).index_of(x as int, y as int), color),
    {
        if x < self.width && y < self.height {
            let idx = self.linearize(x, y);
            self.pixels[idx] = color;
            Ok(())
        } else {
            Err(CanvasError::OutOfBounds)
        }
    }

    /// Reads the color at cell (x, y). Reports `OutOfBounds` iff the
    /// coordinate is invalid.
    pub fn get_pixel(&self, x: u32, y: u32) -> (r: Result<Color, CanvasError>)
        requires
            self.wf(),
        ensures
            r is Ok <==> self.in_bounds(x as int, y as int),
            self.in_bounds(x as int, y as int) ==> r->Ok_0 == self.color_at(x as int, y as int),
            r is Err ==> r->Err_0 == CanvasError::OutOfBounds,
    {
        if x < self.width && y < self.height {
            let idx = self.linearize(x, y);
            Ok(self.pixels[idx])
        } else {
            Err(CanvasError::OutOfBounds)
        }
    }

    /// Produces the renderable form of the current grid: the pixels' bytes in
    /// row-major order, four per pixel (B, G, R, A). A pure derivation of the
    /// grid contents; it never fails and is safe to call every frame.
    pub fn materialize(&self) -> (bytes: Vec<u8>)
        ensures
            bytes@ == bgra_bytes(self.spec_pixels()),
    {
        let mut bytes: Vec<u8> = Vec::new();
        let n: usize = self.pixels.len();
        let mut i: usize = 0;
        while i < n
            invariant
                i <= n,
                n == self.spec_pixels().len(),
                bytes@.len() == 4 * i as int,
                forall|j: int| 0 <= j < bytes@.len()
                    ==> bytes@[j] == bgra_byte_at(self.spec_pixels(), j),
            decreases n - i,
        {
            let p = self.pixels[i];
            bytes.push(p.b);
            bytes.push(p.g);
            bytes.push(p.r);
            bytes.push(p.a);
            i = i + 1;
        }
        proof {
            assert(bytes@ =~= bgra_bytes(self.spec_pixels()));
        }
        bytes
    }
}

/// The row-major index of any in-bounds cell lies inside the pixel buffer.
pub proof fn lemma_index_in_range(c: &PixCanvas, x: int, y: int)
    requires
        c.wf(),
        c.in_bounds(x, y),
    ensures
        0 <= c.index_of(x, y) < c.spec_pixels().len(),
{
    let w = c.spec_width();
    let h = c.spec_height();
    assert(0 <= y * w + x < w * h) by (nonlinear_arith)
        requires
            0 <= x < w,
            0 <= y < h,
    ;
}

/// Row-major indexing is injective: distinct in-bounds cells have distinct
/// buffer indices.
pub proof fn lemma_index_injective(c: &PixCanvas, x1: int, y1: int, x2: int, y2: int)
    requires
        c.wf(),
        c.in_bounds(x1, y1),
        c.in_bounds(x2, y2),
        !(x1 == x2 && y1 == y2),
    ensures
        c.index_of(x1, y1) != c.index_of(x2, y2),
{
    let w = c.spec_width();
    if y1 == y2 {
        assert(y1 * w + x1 != y2 * w + x2);
    } else if y1 < y2 {
        assert(y1 * w + x1 < y2 * w + x2) by (nonlinear_arith)
            requires
                0 <= x1 < w,
                0 <= x2,
                y1 < y2,
        ;
    } else {
        assert(y2 * w + x2 < y1 * w + x1) by (nonlinear_arith)
            requires
                0 <= x2 < w,
                0 <= x1,
                y2 < y1,
        ;
    }
}

/// Write locality: overwriting one in-bounds cell stores exactly that color
/// there and leaves every other in-bounds cell unchanged.
pub proof fn lemma_write_locality(
    pre: &PixCanvas,
    post: &PixCanvas,
    x: int,
    y: int,
    c: Color,
    x2: int,
    y2: int,
)
    requires
        pre.wf(),
        pre.in_bounds(x, y),
        pre.in_bounds(x2, y2),
        post.spec_width() == pre.spec_width(),
        post.spec_height() == pre.spec_height(),
        post.spec_pixels() == pre.spec_pixels().update(pre.index_of(x, y), c),
    ensures
        post.color_at(x, y) == c,
        !(x2 == x && y2 == y) ==> post.color_at(x2, y2) == pre.color_at(x2, y2),
{
    lemma_index_in_range(pre, x, y);
    lemma_index_in_range(pre, x2, y2);
    if !(x2 == x && y2 == y) {
        lemma_index_injective(pre, x, y, x2, y2);
    }
}

/// Materializing twice with no intervening writes yields identical bytes:
/// the renderable form is a function of the pixel contents alone.
pub proof fn lemma_materialize_idempotent(c: &PixCanvas, b1: Seq<u8>, b2: Seq<u8>)
    requires
        b1 == bgra_bytes(c.spec_pixels()),
        b2 == bgra_bytes(c.spec_pixels()),
    ensures
        b1 == b2,
{
}

} // verus!
