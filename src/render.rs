use vstd::prelude::*;

use crate::color::Color;

verus! {

/// A drawable source: a rectangle of colors, row by row.
pub trait Renderable {
    /// Width and height of the source.
    spec fn view_dimensions(&self) -> (usize, usize);

    /// The source's colors, row by row.
    spec fn view_data(&self) -> Seq<Color>;

    /// Returns the width and height of the source.
    fn dimensions(&self) -> (r: (usize, usize))
        ensures
            r == self.view_dimensions(),
    ;

    /// Returns the source's colors, row by row.
    fn data(&self) -> (r: &Vec<Color>)
        ensures
            r@ == self.view_data(),
    ;
}

/// Whether a source's data holds exactly one color per pixel of its rectangle.
pub open spec fn renderable_wf<T: Renderable>(t: &T) -> bool {
    t.view_data().len() == t.view_dimensions().0 * t.view_dimensions().1
}

/// The color of pixel `i` in a row-major sequence of 8-bit RGB triples.
pub open spec fn rgb_color(rgb: Seq<u8>, i: int) -> Color {
    Color { r: rgb[3 * i], g: rgb[3 * i + 1], b: rgb[3 * i + 2] }
}

/// A decoded image: `width * height` colors, row by row.
pub struct Image {
    width: usize,
    height: usize,
    data: Vec<Color>,
}

impl Image {
    /// The image's colors hold one entry per pixel.
    pub closed spec fn wf(&self) -> bool {
        self.data@.len() == self.width * self.height
    }

    /// Builds an image from row-major RGB bytes, three per pixel.
    /// Returns `None` when the byte count is not `3 * width * height`.
    pub fn from_rgb(width: usize, height: usize, rgb: &Vec<u8>) -> (r: Option<Image>)
        ensures
            r.is_some() <==> rgb@.len() == 3 * width * height,
            r matches Some(img) ==> {
                &&& img.view_dimensions() == (width, height)
                &&& img.view_data() == Seq::new(
                    (width * height) as nat,
                    |i: int| rgb_color(rgb@, i),
                )
                &&& renderable_wf(&img)
            },
    {
        let len = rgb.len();
        assert(3 * width * height == 3 * (width * height)) by (nonlinear_arith);
        let n = match width.checked_mul(height) {
            Some(n) => n,
            None => {
                return None;
            },
        };
        if n > len / 3 || len != 3 * n {
            return None;
        }
        let mut data: Vec<Color> = Vec::with_capacity(n);
        let mut i: usize = 0;
        while i < n
            invariant
                n == width * height,
                rgb@.len() == 3 * n,
                3 * n <= usize::MAX,
                0 <= i <= n,
                data@.len() == i,
                forall|k: int| 0 <= k < i ==> data@[k] == rgb_color(rgb@, k),
            decreases n - i,
        {
            let c = Color::new(rgb[3 * i], rgb[3 * i + 1], rgb[3 * i + 2]);
            data.push(c);
            i = i + 1;
        }
        let img = Image { width, height, data };
        assert(img.data@ =~= Seq::new((width * height) as nat, |i: int| rgb_color(rgb@, i)));
        Some(img)
    }
}

impl Renderable for Image {
    closed spec fn view_dimensions(&self) -> (usize, usize) {
        (self.width, self.height)
    }

    closed spec fn view_data(&self) -> Seq<Color> {
        self.data@
    }

    fn dimensions(&self) -> (r: (usize, usize)) {
        (self.width, self.height)
    }

    fn data(&self) -> (r: &Vec<Color>) {
        &self.data
    }
}

} // verus!
