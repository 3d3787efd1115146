//! A square 2D pixel buffer over a flat vector, indexed by (x, y) with
//! row-major layout. The destination cursor canvas holds packed `u32`
//! pixels; the source screenshot sample holds `Argb` colors.

use vstd::prelude::*;

verus! {

/// A square width-by-width buffer of pixels stored row by row.
pub struct PixelSquare<T> {
    data: Vec<T>,
    width: usize,
}

/// The largest accepted side length; keeps every index and all of the
/// renderer's coordinate arithmetic far from machine limits.
pub const MAX_WIDTH: usize = 0x3FFE;

impl<T: Copy> PixelSquare<T> {
    /// The buffer holds exactly width * width pixels, and the side length
    /// is small enough that coordinate arithmetic cannot overflow.
    pub closed spec fn wf(self) -> bool {
        &&& self.data@.len() == self.width * self.width
        &&& self.width <= MAX_WIDTH
    }

    pub closed spec fn spec_width(self) -> int {
        self.width as int
    }

    /// The pixel at column x of row y.
    pub closed spec fn pix(self, x: int, y: int) -> T
        recommends
            0 <= x < self.spec_width(),
            0 <= y < self.spec_width(),
    {
        self.data@[y * self.spec_width() + x]
    }

    pub fn new(width: usize, fill: T) -> (s: PixelSquare<T>)
        requires
            width <= MAX_WIDTH,
        ensures
            s.wf(),
            s.spec_width() == width,
            forall|x: int, y: int|
                0 <= x < width && 0 <= y < width ==> s.pix(x, y) == fill,
    {
        proof {
            lemma_square_bound(width as int);
        }
        let n: usize = width * width;
        let mut data: Vec<T> = Vec::new();
        while data.len() < n
            invariant
                data@.len() <= n,
                forall|i: int| 0 <= i < data@.len() ==> data@[i] == fill,
            decreases n - data@.len(),
        {
            data.push(fill);
        }
        let s = PixelSquare { data, width };
        proof {
            assert forall|x: int, y: int|
                0 <= x < width && 0 <= y < width implies s.pix(x, y) == fill by {
                lemma_row_major_in_range(width as int, x, y);
            }
        }
        s
    }

    pub fn width(&self) -> (w: usize)
        ensures
            w as int == self.spec_width(),
            self.wf() ==> w <= MAX_WIDTH,
    {
        self.width
    }

    pub fn get(&self, x: usize, y: usize) -> (p: T)
        requires
            self.wf(),
            x < self.spec_width(),
            y < self.spec_width(),
        ensures
            p == self.pix(x as int, y as int),
    {
        proof {
            lemma_square_bound(self.spec_width());
            lemma_row_major_in_range(self.spec_width(), x as int, y as int);
        }
        self.data[y * self.width + x]
    }

    pub fn set(&mut self, x: usize, y: usize, p: T)
        requires
            old(self).wf(),
            x < old(self).spec_width(),
            y < old(self).spec_width(),
        ensures
            final(self).wf(),
            final(self).spec_width() == old(self).spec_width(),
            final(self).pix(x as int, y as int) == p,
            forall|x2: int, y2: int|
                0 <= x2 < final(self).spec_width() && 0 <= y2 < final(self).spec_width()
                    && !(x2 == x && y2 == y) ==> final(self).pix(x2, y2) == old(self).pix(
                    x2,
                    y2,
                ),
    {
        proof {
            lemma_square_bound(self.spec_width());
            lemma_row_major_in_range(self.spec_width(), x as int, y as int);
        }
        let i: usize = y * self.width + x;
        self.data.set(i, p);
        proof {
            let w = self.spec_width();
            assert forall|x2: int, y2: int|
                0 <= x2 < w && 0 <= y2 < w && !(x2 == x && y2 == y)
                    implies self.pix(x2, y2) == old(self).pix(x2, y2) by {
                lemma_row_major_in_range(w, x2, y2);
                lemma_row_major_injective(w, x as int, y as int, x2, y2);
            }
        }
    }
}

/// For a side length within the accepted bound, the pixel count fits usize.
proof fn lemma_square_bound(w: int)
    requires
        0 <= w <= MAX_WIDTH,
    ensures
        w * w <= MAX_WIDTH * MAX_WIDTH,
{
    vstd::arithmetic::mul::lemma_mul_upper_bound(w, MAX_WIDTH as int, w, MAX_WIDTH as int);
}

/// Row-major index of an in-range coordinate pair is in range.
proof fn lemma_row_major_in_range(w: int, x: int, y: int)
    requires
        0 <= x < w,
        0 <= y < w,
    ensures
        0 <= y * w + x < w * w,
    decreases w,
{
    assert(y * w + x < w * w) by (nonlinear_arith)
        requires
            0 <= x < w,
            0 <= y < w,
    ;
    assert(y * w >= 0) by (nonlinear_arith)
        requires
            0 <= y,
            0 <= w,
    ;
}

/// Distinct in-range coordinate pairs have distinct row-major indices.
proof fn lemma_row_major_injective(w: int, x1: int, y1: int, x2: int, y2: int)
    requires
        0 <= x1 < w,
        0 <= y1 < w,
        0 <= x2 < w,
        0 <= y2 < w,
        !(x1 == x2 && y1 == y2),
    ensures
        y1 * w + x1 != y2 * w + x2,
{
    assert(y1 * w + x1 != y2 * w + x2) by (nonlinear_arith)
        requires
            0 <= x1 < w,
            0 <= y1 < w,
            0 <= x2 < w,
            0 <= y2 < w,
            !(x1 == x2 && y1 == y2),
    ;
}

} // verus!
