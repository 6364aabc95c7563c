//! Pixel sources: the procedural gradient, and tiles handed in by a scene renderer.
use vstd::prelude::*;
use vstd::arithmetic::div_mod::{lemma_div_is_ordered, lemma_div_multiples_vanish};
use crate::geometry::{ImageSize, Pixel, Rect, image_len, byte_index, lemma_index_in_image};
use crate::buffer::{PixelBuffer, painted, partly_painted, lemma_paint_step, lemma_paint_rows};

verus! {

/// The engine a session draws its pixels from.
#[derive(Clone, Copy, Debug, PartialEq, Eq, Structural)]
pub enum EngineKind {
    /// A coordinate-based gradient computed here.
    Gradient,
    /// A renderer built from a scene description; its pixels arrive as tiles.
    Scene,
}

/// Level of a gradient channel at position `i` of `n`: from 0 at the first
/// position to 255 at the last, and 0 throughout when there is one position.
pub open spec fn gradient_level(i: int, n: int) -> u8 {
    if n <= 1 {
        0
    } else {
        (i * 255 / (n - 1)) as u8
    }
}

/// The gradient's colour at `(x, y)`: red grows left to right, green top to
/// bottom, blue is zero.
pub open spec fn gradient_pixel(x: int, y: int, width: nat, height: nat) -> Pixel {
    Pixel { r: gradient_level(x, width as int), g: gradient_level(y, height as int), b: 0 }
}

/// The gradient of an image of the given size, channel by channel.
pub open spec fn gradient_source(width: nat, height: nat) -> spec_fn(int, int, int) -> u8 {
    |x: int, y: int, c: int| gradient_pixel(x, y, width, height).channel(c)
}

/// The bytes of a tile covering `rect`, channel by channel, in image coordinates.
/// The tile holds the rectangle's pixels row-major, three bytes each.
pub open spec fn tile_source(tile: Seq<u8>, rect: Rect) -> spec_fn(int, int, int) -> u8 {
    |x: int, y: int, c: int| tile[byte_index(rect.w as nat, x - rect.x, y - rect.y, c)]
}

fn gradient_channel(i: usize, n: usize) -> (r: u8)
    requires
        i < n,
    ensures
        r == gradient_level(i as int, n as int),
{
    if n <= 1 {
        0
    } else {
        let d: u128 = (n - 1) as u128;
        proof {
            assert(i * 255 <= 255 * (n - 1)) by (nonlinear_arith)
                requires
                    i < n,
            ;
            lemma_div_is_ordered(i * 255, 255 * (n - 1), n - 1);
            lemma_div_multiples_vanish(255, n - 1);
            assert(0 <= i * 255 / (n - 1)) by (nonlinear_arith)
                requires
                    i >= 0,
                    n > 1,
            ;
        }
        ((i as u128 * 255) / d) as u8
    }
}

/// The procedural engine: the colour of pixel `(x, y)` of an image of the given size.
pub fn color_at(x: usize, y: usize, size: ImageSize) -> (p: Pixel)
    requires
        x < size.0,
        y < size.1,
    ensures
        p == gradient_pixel(x as int, y as int, size.0 as nat, size.1 as nat),
{
    Pixel { r: gradient_channel(x, size.0), g: gradient_channel(y, size.1), b: 0 }
}

/// What `paint` draws: the gradient when no tile is given, else the tile.
pub open spec fn source_of(tile: Option<Seq<u8>>, width: nat, height: nat, rect: Rect) -> spec_fn(
    int,
    int,
    int,
) -> u8 {
    match tile {
        Some(t) => tile_source(t, rect),
        None => gradient_source(width, height),
    }
}

/// The bytes of the tile, if one is given.
pub open spec fn tile_view(tile: Option<&[u8]>) -> Option<Seq<u8>> {
    match tile {
        Some(t) => Some(t@),
        None => None,
    }
}

/// Paints every pixel of `rect`, row by row, from the gradient or from a tile
/// of exactly the rectangle's size.
pub(crate) fn paint(buffer: &mut PixelBuffer, rect: Rect, tile: Option<&[u8]>)
    requires
        old(buffer).wf(),
        rect.fits(old(buffer)@.width, old(buffer)@.height),
        tile matches Some(t) ==> t@.len() == image_len(rect.w as nat, rect.h as nat),
    ensures
        final(buffer).wf(),
        final(buffer)@.width == old(buffer)@.width,
        final(buffer)@.height == old(buffer)@.height,
        final(buffer)@.bytes == painted(
            old(buffer)@.bytes,
            old(buffer)@.width,
            rect,
            source_of(tile_view(tile), old(buffer)@.width, old(buffer)@.height, rect),
        ),
{
    let ghost before = buffer@.bytes;
    let ghost width = buffer@.width;
    let ghost height = buffer@.height;
    let ghost source = source_of(tile_view(tile), width, height, rect);
    let size = ImageSize(buffer.width(), buffer.height());
    proof {
        lemma_paint_rows(before, width, rect, source, 0);
    }
    let mut ly: usize = 0;
    while ly < rect.h
        invariant
            buffer.wf(),
            buffer@.width == width,
            buffer@.height == height,
            size.0 == width,
            size.1 == height,
            before.len() == image_len(width, height),
            rect.fits(width, height),
            source == source_of(tile_view(tile), width, height, rect),
            tile matches Some(t) ==> t@.len() == image_len(rect.w as nat, rect.h as nat),
            ly <= rect.h,
            buffer@.bytes == partly_painted(before, width, rect, source, ly as int, 0),
        decreases rect.h - ly,
    {
        let mut lx: usize = 0;
        while lx < rect.w
            invariant
                buffer.wf(),
                buffer@.width == width,
                buffer@.height == height,
                size.0 == width,
                size.1 == height,
                before.len() == image_len(width, height),
                rect.fits(width, height),
                source == source_of(tile_view(tile), width, height, rect),
                tile matches Some(t) ==> t@.len() == image_len(rect.w as nat, rect.h as nat),
                ly < rect.h,
                lx <= rect.w,
                buffer@.bytes == partly_painted(before, width, rect, source, ly as int, lx as int),
            decreases rect.w - lx,
        {
            let x: usize = rect.x + lx;
            let y: usize = rect.y + ly;
            let pixel = match tile {
                None => color_at(x, y, size),
                Some(t) => {
                    let n: usize = t.len();
                    proof {
                        lemma_index_in_image(rect.w as nat, rect.h as nat, lx as int, ly as int, 2);
                    }
                    let i: usize = (ly * rect.w + lx) * 3;
                    Pixel { r: t[i], g: t[i + 1], b: t[i + 2] }
                },
            };
            proof {
                assert forall|c: int| 0 <= c < 3 implies #[trigger] pixel.channel(c) == source(
                    x as int,
                    y as int,
                    c,
                ) by {
                    if c == 0 {
                    } else if c == 1 {
                    } else {
                    }
                }
                lemma_paint_step(before, width, height, rect, source, ly as int, lx as int, pixel);
            }
            buffer.write_pixel(x, y, pixel);
            lx += 1;
        }
        proof {
            lemma_paint_rows(before, width, rect, source, ly as int);
        }
        ly += 1;
    }
    proof {
        lemma_paint_rows(before, width, rect, source, 0);
    }
}

} // verus!
