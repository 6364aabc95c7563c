//! Image sizes, rectangles and the interleaved row-major byte layout.
use vstd::prelude::*;
use vstd::arithmetic::div_mod::{
    lemma_fundamental_div_mod,
    lemma_fundamental_div_mod_converse_div,
    lemma_fundamental_div_mod_converse_mod,
};

verus! {

/// Width and height of an image, in pixels.
#[derive(Clone, Copy, Debug, PartialEq, Eq, Structural)]
pub struct ImageSize(pub usize, pub usize);

/// A sub-region of an image: top-left corner `(x, y)`, `w` pixels wide and `h` high.
#[derive(Clone, Copy, Debug, PartialEq, Eq, Structural)]
pub struct Rect {
    pub x: usize,
    pub y: usize,
    pub w: usize,
    pub h: usize,
}

/// Three 8-bit channel samples, no alpha.
#[derive(Clone, Copy, Debug, PartialEq, Eq, Structural)]
pub struct Pixel {
    pub r: u8,
    pub g: u8,
    pub b: u8,
}

impl Pixel {
    /// Channel `c` of the pixel: 0 is red, 1 green, 2 blue.
    pub open spec fn channel(self, c: int) -> u8 {
        if c == 0 {
            self.r
        } else if c == 1 {
            self.g
        } else {
            self.b
        }
    }
}

impl Rect {
    /// The whole of an image of the given size.
    pub open spec fn full(width: nat, height: nat) -> Rect {
        Rect { x: 0, y: 0, w: width as usize, h: height as usize }
    }

    /// The rectangle lies inside an image of the given size.
    pub open spec fn fits(self, width: nat, height: nat) -> bool {
        self.x + self.w <= width && self.y + self.h <= height
    }

    /// Pixel `(px, py)` lies inside the rectangle.
    pub open spec fn contains(self, px: int, py: int) -> bool {
        self.x <= px < self.x + self.w && self.y <= py < self.y + self.h
    }

    /// The rectangle covering a whole `width` by `height` image.
    pub fn whole(width: usize, height: usize) -> (r: Rect)
        ensures
            r == Rect::full(width as nat, height as nat),
    {
        Rect { x: 0, y: 0, w: width, h: height }
    }
}

/// Number of bytes of a `width` by `height` image: three per pixel.
pub open spec fn image_len(width: nat, height: nat) -> nat {
    3 * (width * height)
}

/// Offset of channel `c` of pixel `(x, y)` in a row-major image `width` pixels wide.
pub open spec fn byte_index(width: nat, x: int, y: int, c: int) -> int {
    (y * width + x) * 3 + c
}

/// Column of the pixel that byte `k` belongs to.
pub open spec fn column_of(width: nat, k: int) -> int {
    (k / 3) % (width as int)
}

/// Row of the pixel that byte `k` belongs to.
pub open spec fn row_of(width: nat, k: int) -> int {
    (k / 3) / (width as int)
}

/// Channel that byte `k` holds.
pub open spec fn channel_of(k: int) -> int {
    k % 3
}

/// A pixel's coordinates and channel are recovered from its byte offset.
pub proof fn lemma_index_to_coordinates(width: nat, x: int, y: int, c: int)
    requires
        0 <= x < width,
        0 <= y,
        0 <= c < 3,
    ensures
        column_of(width, byte_index(width, x, y, c)) == x,
        row_of(width, byte_index(width, x, y, c)) == y,
        channel_of(byte_index(width, x, y, c)) == c,
{
    let p = y * width + x;
    lemma_fundamental_div_mod_converse_div(p * 3 + c, 3, p, c);
    lemma_fundamental_div_mod_converse_mod(p * 3 + c, 3, p, c);
    lemma_fundamental_div_mod_converse_div(p, width as int, y, x);
    lemma_fundamental_div_mod_converse_mod(p, width as int, y, x);
}

/// Every byte of an image is the byte of one pixel inside it and one channel.
pub proof fn lemma_coordinates_of_index(width: nat, height: nat, k: int)
    requires
        0 <= k < image_len(width, height),
    ensures
        width > 0,
        0 <= column_of(width, k) < width,
        0 <= row_of(width, k) < height,
        0 <= channel_of(k) < 3,
        k == byte_index(width, column_of(width, k), row_of(width, k), channel_of(k)),
{
    if width == 0 {
        assert(width * height == 0) by (nonlinear_arith)
            requires
                width == 0,
        ;
    }
    let p = k / 3;
    lemma_fundamental_div_mod(k, 3);
    lemma_fundamental_div_mod(p, width as int);
    assert(p < width * height);
    let row = p / (width as int);
    let col = p % (width as int);
    assert(row < height) by (nonlinear_arith)
        requires
            p == width * row + col,
            0 <= col,
            p < width * height,
            width > 0,
    ;
}

/// The bytes of a pixel inside an image lie inside its byte range.
pub proof fn lemma_index_in_image(width: nat, height: nat, x: int, y: int, c: int)
    requires
        0 <= x < width,
        0 <= y < height,
        0 <= c < 3,
    ensures
        0 <= byte_index(width, x, y, c) < image_len(width, height),
{
    assert(0 <= (y * width + x) * 3 + c < 3 * (width * height)) by (nonlinear_arith)
        requires
            0 <= x < width,
            0 <= y < height,
            0 <= c < 3,
    ;
}

} // verus!
