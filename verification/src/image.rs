//! The rendered picture and its plain-text form.
//!
//! Pixels are computed in any order, each at its column `i`, counted from
//! the left, and its row `j`, counted from the bottom. The text form is
//! order-sensitive: after a header it lists the pixels one per line, the
//! top row first and each row from left to right.

use vstd::arithmetic::div_mod::lemma_fundamental_div_mod_converse;
use vstd::prelude::*;

verus! {

/// One pixel: red, green and blue, each from 0 to 255.
#[derive(Clone, Copy, Debug, PartialEq, Eq, Structural)]
pub struct Pixel {
    pub r: u8,
    pub g: u8,
    pub b: u8,
}

/// The decimal digits of `n` in ASCII, without leading zeros.
pub open spec fn decimal(n: nat) -> Seq<u8>
    decreases n,
{
    if n < 10 {
        seq![(48 + n) as u8]
    } else {
        decimal(n / 10).push((48 + n % 10) as u8)
    }
}

/// The header: `P3`, then the width and the height on one line, then the
/// largest channel value, 255.
pub open spec fn spec_header(width: nat, height: nat) -> Seq<u8> {
    seq![80u8, 51u8, 10u8] + decimal(width) + seq![32u8] + decimal(height) + seq![
        10u8,
        50u8,
        53u8,
        53u8,
        10u8,
    ]
}

/// The line of one pixel: its three channels in decimal, with a space
/// between them and a line feed behind.
pub open spec fn spec_pixel_line(p: Pixel) -> Seq<u8> {
    decimal(p.r as nat) + seq![32u8] + decimal(p.g as nat) + seq![32u8] + decimal(p.b as nat)
        + seq![10u8]
}

/// Appends the decimal digits of `n` to `out`.
pub fn push_decimal(out: &mut Vec<u8>, n: u64)
    ensures
        final(out)@ == old(out)@ + decimal(n as nat),
    decreases n,
{
    if n >= 10 {
        push_decimal(out, n / 10);
    }
    let digit: u8 = (n % 10) as u8;
    out.push(48 + digit);
}

/// The header of a picture of the given width and height.
pub fn ppm_header(width: usize, height: usize) -> (out: Vec<u8>)
    ensures
        out@ == spec_header(width as nat, height as nat),
{
    let mut out: Vec<u8> = Vec::new();
    out.push(80);
    out.push(51);
    out.push(10);
    push_decimal(&mut out, width as u64);
    out.push(32);
    push_decimal(&mut out, height as u64);
    out.push(10);
    out.push(50);
    out.push(53);
    out.push(53);
    out.push(10);
    out
}

/// Appends the line of one pixel to `out`.
pub fn write_color(out: &mut Vec<u8>, pixel: Pixel)
    ensures
        final(out)@ == old(out)@ + spec_pixel_line(pixel),
{
    push_decimal(out, pixel.r as u64);
    out.push(32);
    push_decimal(out, pixel.g as u64);
    out.push(32);
    push_decimal(out, pixel.b as u64);
    out.push(10);
}

/// A picture of `width` by `height` pixels.
pub struct Image {
    width: usize,
    height: usize,
    pixels: Vec<Pixel>,
}

impl Image {
    pub closed spec fn spec_width(&self) -> nat {
        self.width as nat
    }

    pub closed spec fn spec_height(&self) -> nat {
        self.height as nat
    }

    /// The pixel in column `i` from the left and row `j` from the bottom.
    pub closed spec fn spec_pixel(&self, i: int, j: int) -> Pixel {
        self.pixels@[j * self.width + i]
    }

    /// The picture holds one pixel for each place.
    pub closed spec fn wf(&self) -> bool {
        self.pixels@.len() == self.width * self.height && self.width * self.height <= usize::MAX
    }

    /// The pixel that stands at place `k` of the text form: places count
    /// from the left of the top row, row after row.
    pub open spec fn raster(&self, k: int) -> Pixel {
        self.spec_pixel(
            k % (self.spec_width() as int),
            self.spec_height() - 1 - k / (self.spec_width() as int),
        )
    }

    /// The lines of the first `n` places of the text form.
    pub open spec fn spec_body(&self, n: nat) -> Seq<u8>
        decreases n,
    {
        if n == 0 {
            Seq::empty()
        } else {
            self.spec_body((n - 1) as nat) + spec_pixel_line(self.raster(n - 1))
        }
    }

    /// The text form: the header, then every pixel's line.
    pub open spec fn spec_encode(&self) -> Seq<u8> {
        spec_header(self.spec_width(), self.spec_height()) + self.spec_body(
            self.spec_width() * self.spec_height(),
        )
    }

    /// A black picture, or nothing where `width * height` pixels are more
    /// than can be counted.
    pub fn new(width: usize, height: usize) -> (image: Option<Image>)
        ensures
            image.is_some() == (width * height <= usize::MAX),
            image.is_some() ==> {
                let im = image.unwrap();
                &&& im.wf()
                &&& im.spec_width() == width
                &&& im.spec_height() == height
                &&& forall|i: int, j: int|
                    0 <= i < width && 0 <= j < height ==> im.spec_pixel(i, j) == (Pixel {
                        r: 0,
                        g: 0,
                        b: 0,
                    })
            },
    {
        let count = match width.checked_mul(height) {
            Some(count) => count,
            None => {
                return None;
            },
        };
        let mut pixels: Vec<Pixel> = Vec::new();
        let mut k: usize = 0;
        while k < count
            invariant
                k <= count,
                pixels@.len() == k,
                forall|m: int| 0 <= m < k ==> pixels@[m] == (Pixel { r: 0, g: 0, b: 0 }),
            decreases count - k,
        {
            pixels.push(Pixel { r: 0, g: 0, b: 0 });
            k += 1;
        }
        let im = Image { width, height, pixels };
        proof {
            assert forall|i: int, j: int| 0 <= i < width && 0 <= j < height implies im.spec_pixel(
                i,
                j,
            ) == (Pixel { r: 0, g: 0, b: 0 }) by {
                lemma_place_in_bounds(i, j, width as int, height as int);
            }
        }
        Some(im)
    }

    pub fn width(&self) -> (w: usize)
        ensures
            w == self.spec_width(),
    {
        self.width
    }

    pub fn height(&self) -> (h: usize)
        ensures
            h == self.spec_height(),
    {
        self.height
    }

    /// The pixel in column `i` and row `j`, or nothing where the picture
    /// has no such place.
    pub fn get(&self, i: usize, j: usize) -> (p: Option<Pixel>)
        requires
            self.wf(),
        ensures
            p == if i < self.spec_width() && j < self.spec_height() {
                Some(self.spec_pixel(i as int, j as int))
            } else {
                None
            },
    {
        if i < self.width && j < self.height {
            proof {
                lemma_place_in_bounds(i as int, j as int, self.width as int, self.height as int);
            }
            Some(self.pixels[j * self.width + i])
        } else {
            None
        }
    }

    /// Sets the pixel in column `i` and row `j` and leaves the others as
    /// they are. Where the picture has no such place, nothing changes and
    /// the result is false.
    pub fn set(&mut self, i: usize, j: usize, pixel: Pixel) -> (done: bool)
        requires
            old(self).wf(),
        ensures
            final(self).wf(),
            final(self).spec_width() == old(self).spec_width(),
            final(self).spec_height() == old(self).spec_height(),
            done == (i < old(self).spec_width() && j < old(self).spec_height()),
            forall|a: int, b: int|
                0 <= a < old(self).spec_width() && 0 <= b < old(self).spec_height()
                    ==> final(self).spec_pixel(a, b) == if done && a == i && b == j {
                    pixel
                } else {
                    old(self).spec_pixel(a, b)
                },
    {
        if i < self.width && j < self.height {
            proof {
                lemma_place_in_bounds(i as int, j as int, self.width as int, self.height as int);
            }
            let at = j * self.width + i;
            self.pixels.set(at, pixel);
            proof {
                assert forall|a: int, b: int|
                    0 <= a < self.width && 0 <= b < self.height implies self.spec_pixel(a, b)
                    == if a == i && b == j {
                    pixel
                } else {
                    old(self).spec_pixel(a, b)
                } by {
                    lemma_place_in_bounds(a, b, self.width as int, self.height as int);
                    lemma_place_distinct(a, b, i as int, j as int, self.width as int);
                }
            }
            true
        } else {
            false
        }
    }

    /// The text form of the picture: the header, then the pixels one per
    /// line, the top row first and each row from left to right.
    pub fn encode(&self) -> (out: Vec<u8>)
        requires
            self.wf(),
        ensures
            out@ == self.spec_encode(),
    {
        let mut out = ppm_header(self.width, self.height);
        let mut row: usize = 0;
        while row < self.height
            invariant
                self.wf(),
                row <= self.height,
                row * self.width <= self.width * self.height,
                out@ == spec_header(self.spec_width(), self.spec_height()) + self.spec_body(
                    (row * self.width) as nat,
                ),
            decreases self.height - row,
        {
            let j = self.height - 1 - row;
            let mut i: usize = 0;
            proof {
                lemma_row_in_bounds(row as int, self.width as int, self.height as int);
            }
            while i < self.width
                invariant
                    self.wf(),
                    row < self.height,
                    j == self.height - 1 - row,
                    i <= self.width,
                    0 <= row * self.width,
                    row * self.width + self.width <= self.width * self.height,
                    out@ == spec_header(self.spec_width(), self.spec_height()) + self.spec_body(
                        (row * self.width + i) as nat,
                    ),
                decreases self.width - i,
            {
                proof {
                    lemma_place_in_bounds(
                        i as int,
                        j as int,
                        self.width as int,
                        self.height as int,
                    );
                    lemma_fundamental_div_mod_converse(
                        row * self.width + i,
                        self.width as int,
                        row as int,
                        i as int,
                    );
                }
                let pixel = self.pixels[j * self.width + i];
                write_color(&mut out, pixel);
                i += 1;
                assert(self.spec_body((row * self.width + i) as nat) == self.spec_body(
                    (row * self.width + i - 1) as nat,
                ) + spec_pixel_line(pixel));
                assert(out@ == spec_header(self.spec_width(), self.spec_height())
                    + self.spec_body((row * self.width + i) as nat));
            }
            row += 1;
            assert(row * self.width == (row - 1) * self.width + self.width) by (nonlinear_arith);
        }
        assert(row * self.width == self.spec_width() * self.spec_height()) by (nonlinear_arith)
            requires
                row == self.height,
                self.spec_width() == self.width,
                self.spec_height() == self.height,
        ;
        out
    }
}

/// A number in decimal is one digit or more, all of them digits, and the
/// first of them is no zero unless the number is 0.
pub proof fn lemma_decimal_is_digits(n: nat)
    ensures
        decimal(n).len() >= 1,
        forall|i: int| 0 <= i < decimal(n).len() ==> 48 <= #[trigger] decimal(n)[i] <= 57,
        n > 0 ==> decimal(n)[0] != 48,
    decreases n,
{
    if n >= 10 {
        lemma_decimal_is_digits(n / 10);
    }
}

/// Place `(i, j)` of a picture lies within its `width * height` pixels.
proof fn lemma_place_in_bounds(i: int, j: int, width: int, height: int)
    requires
        0 <= i < width,
        0 <= j < height,
    ensures
        0 <= j * width <= j * width + i < width * height,
{
    assert(j * width + i < width * height) by (nonlinear_arith)
        requires
            0 <= i < width,
            0 <= j < height,
    ;
    assert(0 <= j * width) by (nonlinear_arith)
        requires
            0 <= j,
            0 < width,
    ;
}

/// Two places that differ are held apart.
proof fn lemma_place_distinct(a: int, b: int, i: int, j: int, width: int)
    requires
        0 <= a < width,
        0 <= i < width,
    ensures
        (b * width + a == j * width + i) == (a == i && b == j),
{
    if b * width + a == j * width + i {
        assert(b == j) by (nonlinear_arith)
            requires
                0 <= a < width,
                0 <= i < width,
                b * width + a == j * width + i,
        ;
    }
}

/// A row of the text form lies within the picture.
proof fn lemma_row_in_bounds(row: int, width: int, height: int)
    requires
        0 <= row < height,
        0 <= width,
    ensures
        0 <= row * width,
        row * width + width <= width * height,
{
    assert(0 <= row * width && row * width + width <= width * height) by (nonlinear_arith)
        requires
            0 <= row < height,
            0 <= width,
    ;
}

} // verus!
