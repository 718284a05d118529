use vstd::prelude::*;

use crate::buffer::{lemma_index_in_grid, PixelBuffer};
use crate::color::{pack, Color};
use crate::render::{renderable_wf, Renderable};

verus! {

/// The color a clear uses: the given one, or black when none is given.
pub open spec fn clear_color(color: Option<Color>) -> Color {
    match color {
        Some(c) => c,
        None => Color { r: 0, g: 0, b: 0 },
    }
}

/// The pixels after every one of `cells` is set to `color`.
pub open spec fn cleared(cells: Seq<u32>, color: Color) -> Seq<u32> {
    Seq::new(cells.len(), |i: int| pack(color))
}

/// Whether `(px, py)` falls inside the `w` by `h` rectangle whose top-left corner is `(x, y)`.
pub open spec fn in_rect(px: int, py: int, x: int, y: int, w: int, h: int) -> bool {
    x <= px < x + w && y <= py < y + h
}

/// The value of destination pixel `(px, py)`, formerly `prev`, after the row-major
/// `w` by `h` block `src` is drawn with its top-left corner at `(x, y)`.
pub open spec fn drawn_pixel(
    prev: u32,
    px: int,
    py: int,
    x: int,
    y: int,
    w: int,
    h: int,
    src: Seq<Color>,
) -> u32 {
    if in_rect(px, py, x, y, w, h) {
        pack(src[(py - y) * w + (px - x)])
    } else {
        prev
    }
}

/// `after` is `before` with the block `src` drawn at `(x, y)`: every pixel of the grid
/// that the block covers takes the block's color, and every other pixel keeps its value.
pub open spec fn is_drawn(
    before: PixelBuffer,
    after: PixelBuffer,
    x: int,
    y: int,
    w: int,
    h: int,
    src: Seq<Color>,
) -> bool {
    &&& after.wf()
    &&& after.spec_width() == before.spec_width()
    &&& after.spec_height() == before.spec_height()
    &&& forall|px: int, py: int|
        #![trigger after.pixel(px, py)]
        before.in_bounds(px, py) ==> after.pixel(px, py) == drawn_pixel(
            before.pixel(px, py),
            px,
            py,
            x,
            y,
            w,
            h,
            src,
        )
}

/// The compositor: one pixel buffer, drawn on and then handed to a display.
pub struct Context {
    pixel_buffer: PixelBuffer,
    scale: usize,
}

impl Context {
    /// The pixel buffer being drawn on.
    pub closed spec fn canvas(&self) -> PixelBuffer {
        self.pixel_buffer
    }

    /// The display's magnification; it never affects pixel addressing.
    pub closed spec fn spec_scale(&self) -> usize {
        self.scale
    }

    /// The compositor's buffer is well formed.
    pub open spec fn wf(&self) -> bool {
        self.canvas().wf()
    }

    /// A compositor with a black `width` by `height` buffer; `scale` defaults to 1.
    pub fn new(width: usize, height: usize, scale: Option<usize>) -> (c: Context)
        requires
            width * height <= usize::MAX,
        ensures
            c.wf(),
            c.canvas().spec_width() == width,
            c.canvas().spec_height() == height,
            c.canvas().cells() == Seq::new((width * height) as nat, |i: int| 0u32),
            c.spec_scale() == match scale {
                Some(s) => s,
                None => 1,
            },
    {
        let scale = match scale {
            Some(s) => s,
            None => 1,
        };
        let pixel_buffer = PixelBuffer::new(width, height);
        Context { pixel_buffer, scale }
    }

    /// Width of the buffer in pixels.
    pub fn width(&self) -> (w: usize)
        ensures
            w == self.canvas().spec_width(),
    {
        self.pixel_buffer.width()
    }

    /// Height of the buffer in pixels.
    pub fn height(&self) -> (h: usize)
        ensures
            h == self.canvas().spec_height(),
    {
        self.pixel_buffer.height()
    }

    /// The display's magnification.
    pub fn scale(&self) -> (s: usize)
        ensures
            s == self.spec_scale(),
    {
        self.scale
    }

    /// The size of the display surface, `width * scale` by `height * scale`,
    /// or `None` when either product does not fit in `usize`.
    pub fn surface_size(&self) -> (r: Option<(usize, usize)>)
        ensures
            r.is_some() <==> (self.canvas().spec_width() * self.spec_scale() <= usize::MAX
                && self.canvas().spec_height() * self.spec_scale() <= usize::MAX),
            r matches Some((w, h)) ==> w == self.canvas().spec_width() * self.spec_scale()
                && h == self.canvas().spec_height() * self.spec_scale(),
    {
        match (self.pixel_buffer.width().checked_mul(self.scale), self.pixel_buffer.height().checked_mul(self.scale)) {
            (Some(w), Some(h)) => Some((w, h)),
            _ => None,
        }
    }

    /// The packed pixels, row by row, as handed to a display.
    pub fn buffer(&self) -> (s: &[u32])
        ensures
            s@ == self.canvas().cells(),
    {
        self.pixel_buffer.as_ref()
    }

    /// Sets every pixel to `color`, black when none is given.
    pub fn clear(&mut self, color: Option<Color>)
        requires
            old(self).wf(),
        ensures
            final(self).wf(),
            final(self).spec_scale() == old(self).spec_scale(),
            final(self).canvas().spec_width() == old(self).canvas().spec_width(),
            final(self).canvas().spec_height() == old(self).canvas().spec_height(),
            final(self).canvas().cells() == cleared(old(self).canvas().cells(), clear_color(color)),
    {
        let color = match color {
            Some(c) => c,
            None => Color::black(),
        };
        self.pixel_buffer.fill(color.as_u32());
    }

    /// Sets the pixel at `(x, y)`, which must lie inside the buffer, to `color`.
    pub fn insert_pixel(&mut self, x: usize, y: usize, color: Color)
        requires
            old(self).wf(),
            old(self).canvas().in_bounds(x as int, y as int),
        ensures
            final(self).wf(),
            final(self).spec_scale() == old(self).spec_scale(),
            final(self).canvas().spec_width() == old(self).canvas().spec_width(),
            final(self).canvas().spec_height() == old(self).canvas().spec_height(),
            forall|px: int, py: int|
                #![trigger final(self).canvas().pixel(px, py)]
                old(self).canvas().in_bounds(px, py) ==> final(self).canvas().pixel(px, py) == if px
                    == x && py == y {
                    pack(color)
                } else {
                    old(self).canvas().pixel(px, py)
                },
    {
        self.pixel_buffer.set(x, y, color.as_u32());
    }

    /// Draws the row-major `w` by `h` block `slice` with its top-left corner at `(x, y)`.
    /// Pixels of the block that fall outside the buffer are skipped.
    pub fn insert_slice(&mut self, x: isize, y: isize, w: usize, h: usize, slice: &[Color])
        requires
            old(self).wf(),
            slice@.len() == w * h,
        ensures
            final(self).spec_scale() == old(self).spec_scale(),
            is_drawn(old(self).canvas(), final(self).canvas(), x as int, y as int, w as int, h as int, slice@),
    {
        let width = self.pixel_buffer.width();
        let height = self.pixel_buffer.height();
        let total = slice.len();
        let mut j: usize = 0;
        while j < h
            invariant
                self.wf(),
                self.scale == old(self).scale,
                slice@.len() == w * h,
                total == w * h,
                0 <= j <= h,
                width == old(self).canvas().spec_width(),
                height == old(self).canvas().spec_height(),
                is_drawn(old(self).canvas(), self.canvas(), x as int, y as int, w as int, j as int, slice@),
            decreases h - j,
        {
            let mut i: usize = 0;
            while i < w
                invariant
                    self.wf(),
                    self.scale == old(self).scale,
                    slice@.len() == w * h,
                    total == w * h,
                    0 <= j < h,
                    0 <= i <= w,
                    width == old(self).canvas().spec_width(),
                    height == old(self).canvas().spec_height(),
                    self.canvas().spec_width() == width,
                    self.canvas().spec_height() == height,
                    forall|px: int, py: int|
                        #![trigger self.canvas().pixel(px, py)]
                        old(self).canvas().in_bounds(px, py) ==> self.canvas().pixel(px, py) == if py == y + j
                            && x <= px < x + i {
                            pack(slice@[j * w + (px - x)])
                        } else {
                            drawn_pixel(old(self).canvas().pixel(px, py), px, py, x as int, y as int, w as int, j as int, slice@)
                        },
                decreases w - i,
            {
                let px: i128 = x as i128 + i as i128;
                let py: i128 = y as i128 + j as i128;
                if 0 <= px && px < width as i128 && 0 <= py && py < height as i128 {
                    proof {
                        lemma_index_in_grid(w as int, h as int, i as int, j as int);
                    }
                    let c = slice[j * w + i];
                    self.pixel_buffer.set(px as usize, py as usize, c.as_u32());
                }
                i = i + 1;
            }
            j = j + 1;
        }
    }

    /// Draws `renderable` with its top-left corner at `(x, y)`, clipped to the buffer.
    pub fn render<T: Renderable>(&mut self, x: isize, y: isize, renderable: &T)
        requires
            old(self).wf(),
            renderable_wf(renderable),
        ensures
            final(self).spec_scale() == old(self).spec_scale(),
            is_drawn(
                old(self).canvas(),
                final(self).canvas(),
                x as int,
                y as int,
                renderable.view_dimensions().0 as int,
                renderable.view_dimensions().1 as int,
                renderable.view_data(),
            ),
    {
        let (w, h) = renderable.dimensions();
        let slice = renderable.data();
        self.insert_slice(x, y, w, h, slice.as_slice());
    }
}

/// Clearing twice with one color leaves the same pixels as clearing once.
pub proof fn lemma_clear_idempotent(cells: Seq<u32>, color: Color)
    ensures
        cleared(cleared(cells, color), color) == cleared(cells, color),
{
    assert(cleared(cleared(cells, color), color) =~= cleared(cells, color));
}

} // verus!
