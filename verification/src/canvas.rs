//! A rectangle of pixels, and how it is written as a plain-text image.

use crate::color::Color;
use crate::index::{lemma_flat_index, lemma_row_end};
use crate::ppm::{body_from, push_header, push_row, text};
use crate::scalar::Scalar;
use vstd::prelude::*;
use vstd::string::StringExecFns;

verus! {

/// `width` by `height` pixels, stored row after row, the top row first.
#[derive(Debug)]
pub struct Canvas<T> {
    pub width: u32,
    pub height: u32,
    pub pixels: Vec<Color<T>>,
}

impl<T: Scalar> Canvas<T> {
    /// There is one pixel for each place.
    pub open spec fn wf(self) -> bool {
        self.pixels.len() == self.width * self.height
    }

    /// Whether the canvas has a pixel in column `x` of row `y`.
    pub open spec fn has(self, x: int, y: int) -> bool {
        0 <= x < self.width && 0 <= y < self.height
    }

    /// The pixel in column `x` of row `y`.
    pub open spec fn at(self, x: int, y: int) -> Color<T> {
        self.pixels@[y * self.width + x]
    }

    /// The samples of row `y`: for each pixel from left to right its red,
    /// green and blue level.
    pub open spec fn row_samples(self, y: int) -> Seq<u8> {
        Seq::new((3 * self.width) as nat, |i: int| self.at(i / 3, y).levels()[i % 3])
    }

    /// The samples of all rows, from the top.
    pub open spec fn samples(self) -> Seq<Seq<u8>> {
        Seq::new(self.height as nat, |y: int| self.row_samples(y))
    }

    /// The canvas as a plain-text image.
    pub open spec fn ppm_text(self) -> Seq<char> {
        text(self.width as nat, self.height as nat, self.samples())
    }

    /// A canvas of the given size whose pixels are all black.
    pub fn new(width: u32, height: u32) -> (out: Self)
        ensures
            out.wf(),
            out.width == width,
            out.height == height,
            forall|i: int| 0 <= i < out.pixels@.len() ==> out.pixels@[i] == Color::<T>::black(),
    {
        let mut pixels: Vec<Color<T>> = Vec::new();
        if width == 0 || height == 0 {
            proof {
                assert(width * height == 0) by (nonlinear_arith)
                    requires
                        width == 0 || height == 0,
                ;
            }
            return Canvas { width, height, pixels };
        }
        let black: Color<T> = Color::default();
        let mut y: u32 = 0;
        while y < height
            invariant
                y <= height,
                black == Color::<T>::black(),
                pixels@.len() == y * width,
                forall|i: int| 0 <= i < pixels@.len() ==> pixels@[i] == Color::<T>::black(),
            decreases height - y,
        {
            let mut x: u32 = 0;
            while x < width
                invariant
                    y < height,
                    x <= width,
                    black == Color::<T>::black(),
                    pixels@.len() == y * width + x,
                    forall|i: int| 0 <= i < pixels@.len() ==> pixels@[i] == Color::<T>::black(),
                decreases width - x,
            {
                pixels.push(black);
                x += 1;
            }
            proof {
                lemma_row_end(y as int, width as int);
            }
            y += 1;
        }
        proof {
            assert(height * width == width * height) by (nonlinear_arith);
        }
        Canvas { width, height, pixels }
    }

    /// Gives the pixel in column `x` of row `y` the given color. A place
    /// outside the canvas is ignored.
    pub fn write_pixel(&mut self, x: u32, y: u32, color: Color<T>)
        requires
            old(self).wf(),
        ensures
            final(self).wf(),
            final(self).width == old(self).width,
            final(self).height == old(self).height,
            old(self).has(x as int, y as int) ==> final(self).pixels@ == old(self).pixels@.update(
                y * old(self).width + x,
                color,
            ),
            !old(self).has(x as int, y as int) ==> final(self).pixels@ == old(self).pixels@,
    {
        if x < self.width && y < self.height {
            proof {
                lemma_flat_index(self.height as int, self.width as int, y as int, x as int);
                assert(self.height * self.width == self.width * self.height) by (nonlinear_arith);
            }
            let index: usize = (y as usize) * (self.width as usize) + (x as usize);
            self.pixels.set(index, color);
        }
    }

    /// The color of the pixel in column `x` of row `y`, and black for a place
    /// outside the canvas.
    pub fn pixel_at(&self, x: u32, y: u32) -> (out: Color<T>)
        requires
            self.wf(),
        ensures
            out == if self.has(x as int, y as int) {
                self.at(x as int, y as int)
            } else {
                Color::<T>::black()
            },
    {
        if x < self.width && y < self.height {
            proof {
                lemma_flat_index(self.height as int, self.width as int, y as int, x as int);
                assert(self.height * self.width == self.width * self.height) by (nonlinear_arith);
            }
            let index: usize = (y as usize) * (self.width as usize) + (x as usize);
            self.pixels[index]
        } else {
            Color::default()
        }
    }

    /// The samples of row `y`.
    fn samples_of_row(&self, y: u32) -> (out: Vec<u8>)
        requires
            self.wf(),
            y < self.height,
        ensures
            out@ == self.row_samples(y as int),
    {
        let mut out: Vec<u8> = Vec::new();
        let mut x: u32 = 0;
        while x < self.width
            invariant
                x <= self.width,
                y < self.height,
                self.wf(),
                out@.len() == 3 * x,
                forall|i: int| 0 <= i < out@.len() ==> out@[i] == self.row_samples(y as int)[i],
            decreases self.width - x,
        {
            proof {
                lemma_flat_index(self.height as int, self.width as int, y as int, x as int);
                assert(self.height * self.width == self.width * self.height) by (nonlinear_arith);
            }
            let index: usize = (y as usize) * (self.width as usize) + (x as usize);
            let rgb = self.pixels[index].to_rgb8();
            out.push(rgb[0]);
            out.push(rgb[1]);
            out.push(rgb[2]);
            x += 1;
        }
        proof {
            assert(out@ =~= self.row_samples(y as int));
        }
        out
    }

    /// The canvas as a plain-text image: the header with the size, the
    /// samples of each row in lines of at most seventy characters, and an
    /// empty line.
    pub fn to_ppm(&self) -> (out: String)
        requires
            self.wf(),
        ensures
            out@ == self.ppm_text(),
    {
        let mut out = String::new();
        push_header(&mut out, self.width, self.height);
        let ghost head = out@;
        let ghost rows = self.samples();
        let mut y: u32 = 0;
        proof {
            assert(out@ + body_from(rows, 0) =~= head + body_from(rows, 0));
        }
        while y < self.height
            invariant
                y <= self.height,
                self.wf(),
                rows == self.samples(),
                out@ + body_from(rows, y as int) == head + body_from(rows, 0),
            decreases self.height - y,
        {
            let values = self.samples_of_row(y);
            let ghost before = out@;
            push_row(&mut out, values.as_slice());
            proof {
                assert(values@ == rows[y as int]);
                assert(out@ + body_from(rows, y + 1) =~= before + body_from(rows, y as int));
            }
            y += 1;
        }
        proof {
            reveal_strlit("\n");
        }
        let ghost body_done = out@;
        out.append("\n");
        proof {
            assert(body_done =~= head + body_from(rows, 0));
            assert(out@ =~= self.ppm_text());
        }
        out
    }
}

impl<T: Scalar> Default for Canvas<T> {
    fn default() -> (out: Self)
        ensures
            out.wf(),
            out.width == 0,
            out.height == 0,
    {
        Canvas { width: 0, height: 0, pixels: Vec::new() }
    }
}

} // verus!
