//! The render session: configuration, rendering of whole frames or tiles, and
//! export of the pixel bytes to the host.
use vstd::prelude::*;
use crate::geometry::{ImageSize, Rect, image_len, column_of, row_of};
use crate::buffer::{Frame, PixelBuffer, painted, zeros};
use crate::engine::{EngineKind, gradient_source, tile_source, paint};

verus! {

/// Why a session operation was refused.
#[derive(Clone, Copy, Debug, PartialEq, Eq, Structural)]
pub enum SessionError {
    /// The dimensions cannot be stored, or the scene description did not parse.
    Configuration,
    /// The session has not been configured yet.
    NotConfigured,
    /// The rectangle reaches past the configured image.
    OutOfBounds,
    /// The engine produced no usable pixels for the rectangle.
    Render,
}

/// What a session holds: the engine in effect, if configured, and its image.
pub struct SessionState {
    pub engine: Option<EngineKind>,
    pub frame: Frame,
}

/// A read-only view of a session's pixel bytes, borrowed from its own storage
/// rather than copied.
///
/// The returned view aliases module-owned memory and is invalidated by the
/// next call into the module; copy it out immediately if retention beyond the
/// next call is required.
pub struct BoundaryView<'a> {
    bytes: &'a [u8],
}

impl<'a> View for BoundaryView<'a> {
    type V = Seq<u8>;

    closed spec fn view(&self) -> Seq<u8> {
        self.bytes@
    }
}

impl<'a> BoundaryView<'a> {
    /// The bytes: row-major, three interleaved channel bytes per pixel, no padding.
    pub fn bytes(&self) -> (r: &'a [u8])
        ensures
            r@ == self@,
    {
        self.bytes
    }

    /// Number of bytes in view.
    pub fn len(&self) -> (r: usize)
        ensures
            r == self@.len(),
    {
        self.bytes.len()
    }
}

/// One logical image: its engine, its pixel buffer, and the operations on them.
pub struct RendererWrapper {
    engine: Option<EngineKind>,
    buffer: PixelBuffer,
}

impl View for RendererWrapper {
    type V = SessionState;

    closed spec fn view(&self) -> SessionState {
        SessionState { engine: self.engine, frame: self.buffer@ }
    }
}

/// The bytes outside `rect` are those of `before`.
pub open spec fn unchanged_outside(before: Seq<u8>, after: Seq<u8>, width: nat, rect: Rect) -> bool {
    &&& after.len() == before.len()
    &&& forall|k: int|
        0 <= k < before.len() && !rect.contains(column_of(width, k), row_of(width, k))
            ==> #[trigger] after[k] == before[k]
}

impl RendererWrapper {
    /// The buffer is consistent with its dimensions; an unconfigured session
    /// holds no pixels at all.
    pub open spec fn wf(&self) -> bool {
        &&& self@.frame.is_consistent()
        &&& self@.engine is None ==> self@.frame.width == 0 && self@.frame.height == 0
            && self@.frame.bytes.len() == 0
    }

    /// A session that is not configured yet.
    pub fn new() -> (r: RendererWrapper)
        ensures
            r.wf(),
            r@.engine is None,
            r@.frame.width == 0,
            r@.frame.height == 0,
            r@.frame.bytes == Seq::<u8>::empty(),
    {
        RendererWrapper { engine: None, buffer: PixelBuffer::new() }
    }

    /// Sets up the engine and a zeroed image of the given size, or refuses a
    /// size whose bytes cannot be addressed and keeps the session as it was.
    fn install(&mut self, size: ImageSize, engine: EngineKind) -> (r: Result<(), SessionError>)
        requires
            old(self).wf(),
        ensures
            final(self).wf(),
            r is Ok <==> image_len(size.0 as nat, size.1 as nat) <= usize::MAX,
            r is Ok ==> final(self)@ == (SessionState {
                engine: Some(engine),
                frame: Frame {
                    width: size.0 as nat,
                    height: size.1 as nat,
                    bytes: zeros(image_len(size.0 as nat, size.1 as nat)),
                },
            }),
            r is Err ==> r == Err::<(), SessionError>(SessionError::Configuration) && final(self)@
                == old(self)@,
    {
        let pixels = size.0.checked_mul(size.1);
        let total = match pixels {
            Some(p) => p.checked_mul(3),
            None => None,
        };
        match total {
            None => {
                proof {
                    if pixels is Some {
                        assert(image_len(size.0 as nat, size.1 as nat) > usize::MAX);
                    } else {
                        assert(image_len(size.0 as nat, size.1 as nat) > usize::MAX) by (nonlinear_arith)
                            requires
                                size.0 * size.1 > usize::MAX,
                        ;
                    }
                }
                Err(SessionError::Configuration)
            },
            Some(_) => {
                self.buffer.configure(size);
                self.engine = Some(engine);
                Ok(())
            },
        }
    }

    /// Configures the session with the procedural gradient engine and a zeroed
    /// image of the given size, replacing any earlier engine and image. A size
    /// whose bytes cannot be addressed is refused and the session kept as it was.
    pub fn configure(&mut self, size: ImageSize) -> (r: Result<(), SessionError>)
        requires
            old(self).wf(),
        ensures
            final(self).wf(),
            r is Ok <==> image_len(size.0 as nat, size.1 as nat) <= usize::MAX,
            r is Ok ==> final(self)@ == (SessionState {
                engine: Some(EngineKind::Gradient),
                frame: Frame {
                    width: size.0 as nat,
                    height: size.1 as nat,
                    bytes: zeros(image_len(size.0 as nat, size.1 as nat)),
                },
            }),
            r is Err ==> r == Err::<(), SessionError>(SessionError::Configuration) && final(self)@
                == old(self)@,
    {
        self.install(size, EngineKind::Gradient)
    }

    /// Configures the session for a scene renderer, given the outcome of
    /// parsing its description: the camera's resolution, or `None` when the
    /// description did not parse. On success the image has that resolution and
    /// is zeroed, and the resolution is returned. A parse failure, or a
    /// resolution whose bytes cannot be addressed, is refused and leaves the
    /// session exactly as it was.
    pub fn load_scene(&mut self, resolution: Option<ImageSize>) -> (r: Result<ImageSize, SessionError>)
        requires
            old(self).wf(),
        ensures
            final(self).wf(),
            r is Ok <==> (resolution matches Some(size) && image_len(size.0 as nat, size.1 as nat)
                <= usize::MAX),
            r is Ok ==> ({
                let size = resolution->Some_0;
                &&& r == Ok::<ImageSize, SessionError>(size)
                &&& final(self)@ == (SessionState {
                    engine: Some(EngineKind::Scene),
                    frame: Frame {
                        width: size.0 as nat,
                        height: size.1 as nat,
                        bytes: zeros(image_len(size.0 as nat, size.1 as nat)),
                    },
                })
            }),
            r is Err ==> r == Err::<ImageSize, SessionError>(SessionError::Configuration)
                && final(self)@ == old(self)@,
    {
        match resolution {
            None => Err(SessionError::Configuration),
            Some(size) => match self.install(size, EngineKind::Scene) {
                Ok(()) => Ok(size),
                Err(e) => Err(e),
            },
        }
    }

    /// Checks that the session is configured and that `rect` lies inside its image.
    fn check_target(&self, rect: Rect) -> (r: Result<(), SessionError>)
        requires
            self.wf(),
        ensures
            self@.engine is None ==> r == Err::<(), SessionError>(SessionError::NotConfigured),
            self@.engine is Some && !rect.fits(self@.frame.width, self@.frame.height) ==> r == Err::<
                (),
                SessionError,
            >(SessionError::OutOfBounds),
            self@.engine is Some && rect.fits(self@.frame.width, self@.frame.height) ==> r is Ok,
    {
        if self.engine.is_none() {
            return Err(SessionError::NotConfigured);
        }
        let width: usize = self.buffer.width();
        let height: usize = self.buffer.height();
        if rect.x > width || rect.w > width - rect.x || rect.y > height || rect.h > height - rect.y {
            Err(SessionError::OutOfBounds)
        } else {
            Ok(())
        }
    }

    /// Renders rectangle `(x, y, w, h)` with the gradient engine: every pixel
    /// inside takes the engine's colour, every byte outside keeps its value.
    /// Before configuration this fails with `NotConfigured`, for a rectangle
    /// reaching past the image with `OutOfBounds`, and for a session whose
    /// pixels come from a scene renderer (see `render_tile`) with `Render`;
    /// on failure nothing changes.
    pub fn render(&mut self, x: usize, y: usize, w: usize, h: usize) -> (r: Result<(), SessionError>)
        requires
            old(self).wf(),
        ensures
            final(self).wf(),
            ({
                let rect = Rect { x, y, w, h };
                let width = old(self)@.frame.width;
                let height = old(self)@.frame.height;
                &&& old(self)@.engine is None ==> r == Err::<(), SessionError>(
                    SessionError::NotConfigured,
                )
                &&& old(self)@.engine is Some && !rect.fits(width, height) ==> r == Err::<
                    (),
                    SessionError,
                >(SessionError::OutOfBounds)
                &&& old(self)@.engine == Some(EngineKind::Scene) && rect.fits(width, height) ==> r
                    == Err::<(), SessionError>(SessionError::Render)
                &&& r is Ok <==> old(self)@.engine == Some(EngineKind::Gradient) && rect.fits(
                    width,
                    height,
                )
                &&& r is Ok ==> final(self)@.engine == old(self)@.engine && final(self)@.frame.width
                    == width && final(self)@.frame.height == height && final(self)@.frame.bytes
                    == painted(old(self)@.frame.bytes, width, rect, gradient_source(width, height))
                    && unchanged_outside(old(self)@.frame.bytes, final(self)@.frame.bytes, width, rect)
                &&& r is Err ==> final(self)@ == old(self)@
            }),
    {
        let rect = Rect { x, y, w, h };
        match self.check_target(rect) {
            Err(e) => Err(e),
            Ok(()) => {
                if let Some(EngineKind::Scene) = self.engine {
                    return Err(SessionError::Render);
                }
                paint(&mut self.buffer, rect, None);
                Ok(())
            },
        }
    }

    /// Renders the whole image with the gradient engine; fails as `render` does.
    pub fn render_frame(&mut self) -> (r: Result<(), SessionError>)
        requires
            old(self).wf(),
        ensures
            final(self).wf(),
            ({
                let width = old(self)@.frame.width;
                let height = old(self)@.frame.height;
                &&& old(self)@.engine is None ==> r == Err::<(), SessionError>(
                    SessionError::NotConfigured,
                )
                &&& old(self)@.engine == Some(EngineKind::Scene) ==> r == Err::<(), SessionError>(
                    SessionError::Render,
                )
                &&& r is Ok <==> old(self)@.engine == Some(EngineKind::Gradient)
                &&& r is Ok ==> final(self)@.engine == old(self)@.engine && final(self)@.frame.width
                    == width && final(self)@.frame.height == height && final(self)@.frame.bytes
                    == painted(
                    old(self)@.frame.bytes,
                    width,
                    Rect::full(width, height),
                    gradient_source(width, height),
                )
                &&& r is Err ==> final(self)@ == old(self)@
            }),
    {
        let width: usize = self.buffer.width();
        let height: usize = self.buffer.height();
        self.render(0, 0, width, height)
    }

    /// Writes the pixels that a scene renderer produced for rectangle
    /// `(x, y, w, h)`: `tile` holds them row-major, three bytes each, and must
    /// cover exactly the rectangle. Every byte outside the rectangle keeps its
    /// value. Before configuration this fails with `NotConfigured`, for a
    /// rectangle reaching past the image with `OutOfBounds`, and for a tile of
    /// any other length with `Render`; on failure nothing changes.
    pub fn render_tile(&mut self, x: usize, y: usize, w: usize, h: usize, tile: &[u8]) -> (r: Result<
        (),
        SessionError,
    >)
        requires
            old(self).wf(),
        ensures
            final(self).wf(),
            ({
                let rect = Rect { x, y, w, h };
                let width = old(self)@.frame.width;
                let height = old(self)@.frame.height;
                &&& old(self)@.engine is None ==> r == Err::<(), SessionError>(
                    SessionError::NotConfigured,
                )
                &&& old(self)@.engine is Some && !rect.fits(width, height) ==> r == Err::<
                    (),
                    SessionError,
                >(SessionError::OutOfBounds)
                &&& old(self)@.engine is Some && rect.fits(width, height) && tile@.len()
                    != image_len(w as nat, h as nat) ==> r == Err::<(), SessionError>(
                    SessionError::Render,
                )
                &&& r is Ok <==> old(self)@.engine is Some && rect.fits(width, height) && tile@.len()
                    == image_len(w as nat, h as nat)
                &&& r is Ok ==> final(self)@.engine == old(self)@.engine && final(self)@.frame.width
                    == width && final(self)@.frame.height == height && final(self)@.frame.bytes
                    == painted(old(self)@.frame.bytes, width, rect, tile_source(tile@, rect))
                    && unchanged_outside(old(self)@.frame.bytes, final(self)@.frame.bytes, width, rect)
                &&& r is Err ==> final(self)@ == old(self)@
            }),
    {
        let rect = Rect { x, y, w, h };
        match self.check_target(rect) {
            Err(e) => Err(e),
            Ok(()) => {
                proof {
                    let width = self@.frame.width;
                    let height = self@.frame.height;
                    assert(w * h <= width * height) by (nonlinear_arith)
                        requires
                            w <= width,
                            h <= height,
                    ;
                }
                if tile.len() != 3 * (w * h) {
                    return Err(SessionError::Render);
                }
                paint(&mut self.buffer, rect, Some(tile));
                Ok(())
            },
        }
    }

    /// A view of the image's bytes for the host, without a copy; unrendered
    /// pixels read as zero. Fails with `NotConfigured` before configuration.
    pub fn export_view(&self) -> (r: Result<BoundaryView<'_>, SessionError>)
        requires
            self.wf(),
        ensures
            self@.engine is None ==> r is Err && r->Err_0 == SessionError::NotConfigured,
            self@.engine is Some ==> r is Ok && r->Ok_0@ == self@.frame.bytes,
    {
        if self.engine.is_none() {
            Err(SessionError::NotConfigured)
        } else {
            Ok(BoundaryView { bytes: self.buffer.as_bytes() })
        }
    }

    /// The configured width and height, if configured.
    pub fn size(&self) -> (r: Option<ImageSize>)
        requires
            self.wf(),
        ensures
            self@.engine is None ==> r is None,
            self@.engine is Some ==> r == Some(
                ImageSize(self@.frame.width as usize, self@.frame.height as usize),
            ),
    {
        if self.engine.is_none() {
            None
        } else {
            Some(ImageSize(self.buffer.width(), self.buffer.height()))
        }
    }

    /// The engine in effect, if configured.
    pub fn engine(&self) -> (r: Option<EngineKind>)
        ensures
            r == self@.engine,
    {
        self.engine
    }
}

} // verus!
