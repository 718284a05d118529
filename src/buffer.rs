use vstd::prelude::*;

verus! {

/// The linear index of pixel `(x, y)` in a row-major grid `width` pixels wide.
pub open spec fn index_of(width: int, x: int, y: int) -> int {
    y * width + x
}

/// Distinct in-row coordinates map to distinct linear indices.
pub proof fn lemma_index_injective(width: int, x1: int, y1: int, x2: int, y2: int)
    requires
        0 <= x1 < width,
        0 <= x2 < width,
        index_of(width, x1, y1) == index_of(width, x2, y2),
    ensures
        x1 == x2,
        y1 == y2,
{
    assert(y1 == y2) by (nonlinear_arith)
        requires
            0 <= x1 < width,
            0 <= x2 < width,
            y1 * width + x1 == y2 * width + x2,
    {
        if y1 < y2 {
            assert(y2 * width >= (y1 + 1) * width);
        } else if y1 > y2 {
            assert(y1 * width >= (y2 + 1) * width);
        }
    }
}

/// An in-bounds pixel has an index inside a `width * height` grid.
pub proof fn lemma_index_in_grid(width: int, height: int, x: int, y: int)
    requires
        0 <= x < width,
        0 <= y < height,
    ensures
        0 <= index_of(width, x, y) < width * height,
{
    assert(0 <= y * width + x < width * height) by (nonlinear_arith)
        requires
            0 <= x < width,
            0 <= y < height,
    {
        assert(y * width <= (height - 1) * width);
    }
}

/// A fixed-size, row-major grid of packed pixels.
pub struct PixelBuffer {
    data: Vec<u32>,
    width: usize,
    height: usize,
}

impl PixelBuffer {
    /// Width of the grid in pixels.
    pub closed spec fn spec_width(&self) -> usize {
        self.width
    }

    /// Height of the grid in pixels.
    pub closed spec fn spec_height(&self) -> usize {
        self.height
    }

    /// The packed pixels, row by row.
    pub closed spec fn cells(&self) -> Seq<u32> {
        self.data@
    }

    /// The grid holds exactly `width * height` pixels, a count that fits in `usize`.
    pub open spec fn wf(&self) -> bool {
        &&& self.cells().len() == self.spec_width() * self.spec_height()
        &&& self.spec_width() * self.spec_height() <= usize::MAX
    }

    /// Whether `(x, y)` addresses a pixel of the grid.
    pub open spec fn in_bounds(&self, x: int, y: int) -> bool {
        0 <= x < self.spec_width() && 0 <= y < self.spec_height()
    }

    /// The packed pixel at `(x, y)`.
    pub open spec fn pixel(&self, x: int, y: int) -> u32 {
        self.cells()[index_of(self.spec_width() as int, x, y)]
    }

    /// A `width` by `height` grid with every pixel 0 (packed black).
    pub fn new(width: usize, height: usize) -> (b: PixelBuffer)
        requires
            width * height <= usize::MAX,
        ensures
            b.wf(),
            b.spec_width() == width,
            b.spec_height() == height,
            b.cells() == Seq::new((width * height) as nat, |i: int| 0u32),
    {
        let data: Vec<u32> = vec![0u32; height * width];
        proof {
            vstd::arithmetic::mul::lemma_mul_is_commutative(width as int, height as int);
        }
        let b = PixelBuffer { width, height, data };
        assert(b.cells() =~= Seq::new((width * height) as nat, |i: int| 0u32));
        b
    }

    /// Width of the grid in pixels.
    pub fn width(&self) -> (w: usize)
        ensures
            w == self.spec_width(),
    {
        self.width
    }

    /// Height of the grid in pixels.
    pub fn height(&self) -> (h: usize)
        ensures
            h == self.spec_height(),
    {
        self.height
    }

    /// The pixel at `(x, y)`, which must lie inside the grid.
    pub fn at(&self, x: usize, y: usize) -> (p: &u32)
        requires
            self.wf(),
            self.in_bounds(x as int, y as int),
        ensures
            *p == self.pixel(x as int, y as int),
    {
        proof {
            lemma_index_in_grid(self.width as int, self.height as int, x as int, y as int);
        }
        &self.data[y * self.width + x]
    }

    /// A mutable reference to the pixel at `(x, y)`, which must lie inside the grid.
    pub fn at_mut(&mut self, x: usize, y: usize) -> (p: &mut u32)
        requires
            old(self).wf(),
            old(self).in_bounds(x as int, y as int),
        ensures
            *p == old(self).pixel(x as int, y as int),
            final(self).spec_width() == old(self).spec_width(),
            final(self).spec_height() == old(self).spec_height(),
            final(self).cells() == old(self).cells().update(
                index_of(old(self).spec_width() as int, x as int, y as int),
                *final(p),
            ),
    {
        proof {
            lemma_index_in_grid(self.width as int, self.height as int, x as int, y as int);
        }
        let i = y * self.width + x;
        &mut self.data[i]
    }

    /// Writes `value` at `(x, y)`, which must lie inside the grid; no other pixel changes.
    pub fn set(&mut self, x: usize, y: usize, value: u32)
        requires
            old(self).wf(),
            old(self).in_bounds(x as int, y as int),
        ensures
            final(self).wf(),
            final(self).spec_width() == old(self).spec_width(),
            final(self).spec_height() == old(self).spec_height(),
            forall|px: int, py: int|
                #![trigger final(self).pixel(px, py)]
                old(self).in_bounds(px, py) ==> final(self).pixel(px, py) == if px == x && py == y {
                    value
                } else {
                    old(self).pixel(px, py)
                },
    {
        proof {
            lemma_index_in_grid(self.width as int, self.height as int, x as int, y as int);
        }
        *self.at_mut(x, y) = value;
        assert forall|px: int, py: int|
            #![trigger self.pixel(px, py)]
            old(self).in_bounds(px, py) implies self.pixel(px, py) == if px == x && py == y {
                value
            } else {
                old(self).pixel(px, py)
            } by {
            lemma_index_in_grid(self.width as int, self.height as int, px, py);
            if index_of(self.width as int, px, py) == index_of(self.width as int, x as int, y as int) {
                lemma_index_injective(self.width as int, px, py, x as int, y as int);
            }
        }
    }

    /// The packed pixels, row by row, as handed to a display.
    pub fn as_ref(&self) -> (s: &[u32])
        ensures
            s@ == self.cells(),
    {
        self.data.as_slice()
    }

    /// Overwrites every pixel with `value`.
    pub fn fill(&mut self, value: u32)
        requires
            old(self).wf(),
        ensures
            final(self).wf(),
            final(self).spec_width() == old(self).spec_width(),
            final(self).spec_height() == old(self).spec_height(),
            final(self).cells() == Seq::new(old(self).cells().len(), |i: int| value),
    {
        let n = self.data.len();
        let mut i: usize = 0;
        while i < n
            invariant
                n == self.data@.len(),
                self.width == old(self).width,
                self.height == old(self).height,
                old(self).wf(),
                n == old(self).cells().len(),
                0 <= i <= n,
                forall|k: int| 0 <= k < i ==> self.data@[k] == value,
            decreases n - i,
        {
            self.data.set(i, value);
            i = i + 1;
        }
        assert(self.cells() =~= Seq::new(old(self).cells().len(), |i: int| value));
    }
}

} // verus!
