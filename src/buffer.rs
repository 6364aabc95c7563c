//! A growable store of interleaved RGB bytes for one rectangular image.
use vstd::prelude::*;
use crate::geometry::{
    ImageSize, Pixel, Rect, image_len, byte_index, column_of, row_of, channel_of,
    lemma_index_to_coordinates, lemma_coordinates_of_index, lemma_index_in_image,
};

verus! {

/// What a pixel buffer holds: its dimensions and its bytes.
pub struct Frame {
    pub width: nat,
    pub height: nat,
    pub bytes: Seq<u8>,
}

impl Frame {
    /// The byte store is exactly three bytes per pixel, and that length is addressable.
    pub open spec fn is_consistent(self) -> bool {
        &&& self.bytes.len() == image_len(self.width, self.height)
        &&& image_len(self.width, self.height) <= usize::MAX
    }
}

/// A sequence of `n` zero bytes.
pub open spec fn zeros(n: nat) -> Seq<u8> {
    Seq::new(n, |_i: int| 0u8)
}

/// A freshly configured image is three bytes per pixel, every one of them zero.
pub proof fn lemma_configured_image_is_zero(width: nat, height: nat)
    ensures
        zeros(image_len(width, height)).len() == 3 * (width * height),
        forall|k: int| 0 <= k < 3 * (width * height) ==> #[trigger] zeros(image_len(width, height))[k] == 0,
{
}

/// The bytes of an image `width` pixels wide after every pixel of `rect` has
/// been given, channel by channel, the value `source(x, y, c)`; all other
/// bytes keep their value in `before`.
pub open spec fn painted(
    before: Seq<u8>,
    width: nat,
    rect: Rect,
    source: spec_fn(int, int, int) -> u8,
) -> Seq<u8> {
    Seq::new(
        before.len(),
        |k: int|
            if rect.contains(column_of(width, k), row_of(width, k)) {
                source(column_of(width, k), row_of(width, k), channel_of(k))
            } else {
                before[k]
            },
    )
}

/// Pixel `(px, py)` of `rect` comes before local position `(lx, ly)` when the
/// rectangle is walked row by row: it is painted by the time that position is reached.
pub open spec fn painted_before(rect: Rect, ly: int, lx: int, px: int, py: int) -> bool {
    &&& rect.contains(px, py)
    &&& (py - rect.y < ly || (py - rect.y == ly && px - rect.x < lx))
}

/// The bytes part way through painting `rect`: the pixels before `(lx, ly)`
/// hold the source's values, the others their value in `before`.
pub open spec fn partly_painted(
    before: Seq<u8>,
    width: nat,
    rect: Rect,
    source: spec_fn(int, int, int) -> u8,
    ly: int,
    lx: int,
) -> Seq<u8> {
    Seq::new(
        before.len(),
        |k: int|
            if painted_before(rect, ly, lx, column_of(width, k), row_of(width, k)) {
                source(column_of(width, k), row_of(width, k), channel_of(k))
            } else {
                before[k]
            },
    )
}

/// Writing the next pixel of the walk advances the painted part by one pixel.
pub proof fn lemma_paint_step(
    before: Seq<u8>,
    width: nat,
    height: nat,
    rect: Rect,
    source: spec_fn(int, int, int) -> u8,
    ly: int,
    lx: int,
    pixel: Pixel,
)
    requires
        before.len() == image_len(width, height),
        rect.fits(width, height),
        0 <= ly < rect.h,
        0 <= lx < rect.w,
        forall|c: int| 0 <= c < 3 ==> #[trigger] pixel.channel(c) == source(rect.x + lx, rect.y + ly, c),
    ensures
        ({
            let x = rect.x + lx;
            let y = rect.y + ly;
            partly_painted(before, width, rect, source, ly, lx).update(
                byte_index(width, x, y, 0),
                pixel.r,
            ).update(byte_index(width, x, y, 1), pixel.g).update(byte_index(width, x, y, 2), pixel.b)
                == partly_painted(before, width, rect, source, ly, lx + 1)
        }),
{
    let x = rect.x + lx;
    let y = rect.y + ly;
    let prev = partly_painted(before, width, rect, source, ly, lx);
    let next = partly_painted(before, width, rect, source, ly, lx + 1);
    let written = prev.update(byte_index(width, x, y, 0), pixel.r).update(
        byte_index(width, x, y, 1),
        pixel.g,
    ).update(byte_index(width, x, y, 2), pixel.b);
    assert(pixel.channel(0) == pixel.r && pixel.channel(1) == pixel.g && pixel.channel(2) == pixel.b);
    lemma_index_to_coordinates(width, x, y, 0);
    lemma_index_to_coordinates(width, x, y, 1);
    lemma_index_to_coordinates(width, x, y, 2);
    lemma_index_in_image(width, height, x, y, 2);
    assert forall|k: int| 0 <= k < written.len() implies written[k] == next[k] by {
        lemma_coordinates_of_index(width, height, k);
    }
    assert(written =~= next);
}

/// Walking every row of the rectangle paints all of it.
pub proof fn lemma_paint_rows(
    before: Seq<u8>,
    width: nat,
    rect: Rect,
    source: spec_fn(int, int, int) -> u8,
    ly: int,
)
    requires
        0 <= ly,
    ensures
        partly_painted(before, width, rect, source, ly, rect.w as int)
            == partly_painted(before, width, rect, source, ly + 1, 0),
        partly_painted(before, width, rect, source, 0, 0) == before,
        partly_painted(before, width, rect, source, rect.h as int, 0)
            == painted(before, width, rect, source),
{
    assert(partly_painted(before, width, rect, source, ly, rect.w as int)
        =~= partly_painted(before, width, rect, source, ly + 1, 0));
    assert(partly_painted(before, width, rect, source, 0, 0) =~= before);
    assert(partly_painted(before, width, rect, source, rect.h as int, 0)
        =~= painted(before, width, rect, source));
}

/// Painting a rectangle a second time from the same source changes nothing:
/// the bytes equal those after the first painting.
pub proof fn lemma_paint_idempotent(
    before: Seq<u8>,
    width: nat,
    rect: Rect,
    source: spec_fn(int, int, int) -> u8,
)
    ensures
        painted(painted(before, width, rect, source), width, rect, source) == painted(
            before,
            width,
            rect,
            source,
        ),
{
    assert(painted(painted(before, width, rect, source), width, rect, source) =~= painted(
        before,
        width,
        rect,
        source,
    ));
}

/// Painting the whole image gives the same bytes whatever the image held before.
pub proof fn lemma_full_paint_ignores_previous(
    a: Seq<u8>,
    b: Seq<u8>,
    width: nat,
    height: nat,
    source: spec_fn(int, int, int) -> u8,
)
    requires
        image_len(width, height) <= usize::MAX,
        a.len() == image_len(width, height),
        b.len() == image_len(width, height),
    ensures
        painted(a, width, Rect::full(width, height), source) == painted(
            b,
            width,
            Rect::full(width, height),
            source,
        ),
{
    let full = Rect::full(width, height);
    assert forall|k: int| 0 <= k < a.len() implies #[trigger] full.contains(
        column_of(width, k),
        row_of(width, k),
    ) by {
        lemma_coordinates_of_index(width, height, k);
        assert(width <= image_len(width, height) && height <= image_len(width, height))
            by (nonlinear_arith)
            requires
                width > 0,
                height > 0,
        ;
    }
    assert(painted(a, width, full, source) =~= painted(b, width, full, source));
}

/// Pixel storage for a fixed-size image, laid out row-major with the three
/// channel bytes of each pixel interleaved and no padding.
pub struct PixelBuffer {
    width: usize,
    height: usize,
    data: Vec<u8>,
}

impl View for PixelBuffer {
    type V = Frame;

    closed spec fn view(&self) -> Frame {
        Frame { width: self.width as nat, height: self.height as nat, bytes: self.data@ }
    }
}

impl PixelBuffer {
    pub open spec fn wf(&self) -> bool {
        self@.is_consistent()
    }

    /// An empty buffer: no pixels, no bytes.
    pub fn new() -> (r: PixelBuffer)
        ensures
            r.wf(),
            r@.width == 0,
            r@.height == 0,
            r@.bytes == Seq::<u8>::empty(),
    {
        let r = PixelBuffer { width: 0, height: 0, data: Vec::new() };
        assert(image_len(0, 0) == 0);
        r
    }

    /// Takes on the given dimensions, with every byte zero.
    pub fn configure(&mut self, size: ImageSize)
        requires
            image_len(size.0 as nat, size.1 as nat) <= usize::MAX,
        ensures
            final(self).wf(),
            final(self)@.width == size.0,
            final(self)@.height == size.1,
            final(self)@.bytes == zeros(image_len(size.0 as nat, size.1 as nat)),
    {
        let n: usize = 3 * (size.0 * size.1);
        let mut data: Vec<u8> = Vec::with_capacity(n);
        let mut i: usize = 0;
        while i < n
            invariant
                i <= n,
                data@ == zeros(i as nat),
            decreases n - i,
        {
            data.push(0u8);
            i += 1;
            assert(data@ =~= zeros(i as nat));
        }
        self.width = size.0;
        self.height = size.1;
        self.data = data;
    }

    /// Width in pixels.
    pub fn width(&self) -> (r: usize)
        ensures
            r == self@.width,
    {
        self.width
    }

    /// Height in pixels.
    pub fn height(&self) -> (r: usize)
        ensures
            r == self@.height,
    {
        self.height
    }

    /// Writes the three channels of pixel `(x, y)`. Coordinates outside the
    /// image are rejected by the precondition: no caller can reach them.
    pub fn write_pixel(&mut self, x: usize, y: usize, pixel: Pixel)
        requires
            old(self).wf(),
            x < old(self)@.width,
            y < old(self)@.height,
        ensures
            final(self).wf(),
            final(self)@.width == old(self)@.width,
            final(self)@.height == old(self)@.height,
            final(self)@.bytes == old(self)@.bytes.update(
                byte_index(old(self)@.width, x as int, y as int, 0),
                pixel.r,
            ).update(byte_index(old(self)@.width, x as int, y as int, 1), pixel.g).update(
                byte_index(old(self)@.width, x as int, y as int, 2),
                pixel.b,
            ),
    {
        proof {
            lemma_index_in_image(self@.width, self@.height, x as int, y as int, 2);
        }
        let i: usize = (y * self.width + x) * 3;
        self.data.set(i, pixel.r);
        self.data.set(i + 1, pixel.g);
        self.data.set(i + 2, pixel.b);
    }

    /// The whole byte store, without a copy.
    pub fn as_bytes(&self) -> (r: &[u8])
        ensures
            r@ == self@.bytes,
    {
        self.data.as_slice()
    }
}

} // verus!
