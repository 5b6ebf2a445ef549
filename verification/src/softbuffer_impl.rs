//! The line-surface backend: one surface of packed 32-bit pixels, whose size
//! is the size of its buffer.
use crate::error::FrameError;
use crate::error::InitError;
use crate::framebuffer::FrameBuffer;
use crate::framebuffer::FrameBufferType;
use crate::size::Size;
use vstd::prelude::*;

verus! {

/// Makes `softbuffer::Surface`, the backend's surface, known as a type.
/// Nothing is claimed of its values: the library names the type and never
/// reads one.
#[verifier::external_type_specification]
#[verifier::external_body]
#[verifier::reject_recursive_types(D)]
#[verifier::reject_recursive_types(W)]
pub struct ExSurface<D, W>(softbuffer::Surface<D, W>);

/// Framebuffer resource for the `softbuffer` crate. Dereferences to
/// `softbuffer::Surface`.
pub type SoftBufferFrame<D, W> = FrameBuffer<softbuffer::Surface<D, W>>;

pub type SoftBufferConfig = Config;

/// Configuration of the line-surface backend. Both dimensions have to be
/// non-zero: startup refuses a configuration where one is not.
#[derive(Clone, Copy, Debug, PartialEq, Eq, Structural)]
pub struct Config {
    /// Framebuffer width (in pixels).
    pub width: u32,
    /// Framebuffer height (in pixels).
    pub height: u32,
}

impl Config {
    /// A configuration of `width` by `height`, unless a dimension is zero.
    pub fn new(width: u32, height: u32) -> (outcome: Result<Config, InitError>)
        ensures
            width == 0 || height == 0 ==> outcome == Err::<Config, InitError>(
                InitError::ZeroSize { width, height },
            ),
            width > 0 && height > 0 ==> outcome == Ok::<Config, InitError>(
                (Config { width, height }),
            ),
    {
        if width == 0 || height == 0 {
            Err(InitError::ZeroSize { width, height })
        } else {
            Ok(Config { width, height })
        }
    }
}

/// The two components of a window's platform handle. They may be the same
/// handle twice.
pub struct RawHandle<D, W> {
    /// The component that names the display.
    pub display: D,
    /// The component that names the window.
    pub window: W,
}

/// What the host resolved for startup, each step as far as it got.
pub struct StartupParams<D, W> {
    /// The host's identifier of its primary window, if it has one.
    pub primary_window: Option<u64>,
    /// The physical size of the window that the window system holds for the
    /// primary window, if it holds one.
    pub window: Option<Size>,
    /// The platform handle extracted from that window, if that succeeded.
    pub raw_handle: Option<RawHandle<D, W>>,
}

/// What the backend is asked to build: a context on `display`, a surface of
/// that context on `window`, and then a resize of the surface to `width` by
/// `height`, neither of them zero.
pub struct Plan<D, W> {
    pub display: D,
    pub window: W,
    pub width: u32,
    pub height: u32,
}

/// What startup decides: the first reason, in the order in which the host
/// resolves them, for which it cannot go on to build, or else the plan, which
/// binds the surface to the two components of the handle and sizes it to the
/// configuration.
pub open spec fn startup_outcome<D, W>(params: StartupParams<D, W>, config: Config) -> Result<
    Plan<D, W>,
    InitError,
> {
    if params.primary_window is None {
        Err(InitError::NoPrimaryWindow)
    } else if params.window is None {
        Err(InitError::WindowUnresolved)
    } else if params.raw_handle is None {
        Err(InitError::HandleUnavailable)
    } else if config.width == 0 || config.height == 0 {
        Err(InitError::ZeroSize { width: config.width, height: config.height })
    } else {
        Ok(
            Plan {
                display: params.raw_handle->0.display,
                window: params.raw_handle->0.window,
                width: config.width,
                height: config.height,
            },
        )
    }
}

/// Decides startup of the line-surface backend from what the host resolved.
///
/// It fails with the first of: no primary window, window not known to the
/// window system, no platform handle, a zero-sized configuration. Otherwise
/// the plan binds the surface to the two components of the handle and sizes
/// it to the configuration. The size of the window plays no part.
pub fn startup<D, W>(params: StartupParams<D, W>, config: Config) -> (outcome: Result<
    Plan<D, W>,
    InitError,
>)
    ensures
        outcome == startup_outcome(params, config),
{
    if params.primary_window.is_none() {
        return Err(InitError::NoPrimaryWindow);
    }
    if params.window.is_none() {
        return Err(InitError::WindowUnresolved);
    }
    let handle = match params.raw_handle {
        Some(handle) => handle,
        None => {
            return Err(InitError::HandleUnavailable);
        },
    };
    if config.width == 0 || config.height == 0 {
        return Err(InitError::ZeroSize { width: config.width, height: config.height });
    }
    Ok(
        Plan {
            display: handle.display,
            window: handle.window,
            width: config.width,
            height: config.height,
        },
    )
}

impl<D, W> FrameBufferType<RawHandle<D, W>> for SoftBufferFrame<D, W> {
    type Config = Config;

    type StartupParams = StartupParams<D, W>;

    type Plan = Plan<D, W>;

    open spec fn decides(
        params: StartupParams<D, W>,
        config: Config,
        outcome: Result<Plan<D, W>, InitError>,
    ) -> bool {
        outcome == startup_outcome(params, config)
    }

    fn startup(params: StartupParams<D, W>, config: Config) -> (outcome: Result<
        Plan<D, W>,
        InitError,
    >) {
        startup(params, config)
    }
}

/// The size of a running line surface. There is one size only: resizing the
/// surface resizes the buffer with it.
#[derive(Clone, Copy, Debug, PartialEq, Eq, Structural)]
pub struct Geometry {
    size: Size,
}

impl Geometry {
    /// Neither dimension is zero.
    pub closed spec fn wf(&self) -> bool {
        self.size.nonzero()
    }

    /// The size of the surface and of its buffer.
    pub closed spec fn size(&self) -> Size {
        self.size
    }

    /// The number of packed 32-bit entries that the buffer accessor yields:
    /// one for each pixel.
    pub open spec fn len(&self) -> int {
        self.size().area()
    }

    /// The geometry of a surface built to `plan`; `None` where the plan asks
    /// for a zero dimension.
    pub closed spec fn planned<D, W>(plan: Plan<D, W>) -> Option<Geometry> {
        if plan.width > 0 && plan.height > 0 {
            Some(Geometry { size: Size { width: plan.width, height: plan.height } })
        } else {
            None
        }
    }

    /// What a resize to `width` by `height` makes of this geometry: a zero
    /// dimension is refused, anything else becomes the size.
    pub closed spec fn resized(&self, width: u32, height: u32) -> Result<Geometry, FrameError> {
        if width == 0 || height == 0 {
            Err(FrameError::Dimension { width, height })
        } else {
            Ok(Geometry { size: Size { width, height } })
        }
    }

    /// The geometry of a surface built to `plan`.
    pub fn of_plan<D, W>(plan: &Plan<D, W>) -> (outcome: Option<Geometry>)
        ensures
            outcome == Self::planned(*plan),
            outcome is Some <==> plan.width > 0 && plan.height > 0,
            outcome matches Some(geometry) ==> geometry.wf() && geometry.size() == (Size {
                width: plan.width,
                height: plan.height,
            }),
    {
        let size = Size { width: plan.width, height: plan.height };
        if size.is_nonzero() {
            Some(Geometry { size })
        } else {
            None
        }
    }

    /// The size of the surface and of its buffer.
    pub fn buffer_size(&self) -> (size: Size)
        ensures
            size == self.size(),
    {
        self.size
    }

    /// Resizes the surface, and with it the buffer, which the backend
    /// allocates anew. A zero dimension is refused and nothing changes.
    pub fn resize(&mut self, width: u32, height: u32) -> (outcome: Result<(), FrameError>)
        requires
            old(self).wf(),
        ensures
            final(self).wf(),
            old(self).resized(width, height) == match outcome {
                Ok(()) => Ok::<Geometry, FrameError>(*final(self)),
                Err(error) => Err::<Geometry, FrameError>(error),
            },
            width == 0 || height == 0 ==> outcome == Err::<(), FrameError>(
                FrameError::Dimension { width, height },
            ) && *final(self) == *old(self),
            width > 0 && height > 0 ==> outcome is Ok && final(self).size() == (Size {
                width,
                height,
            }),
    {
        if width == 0 || height == 0 {
            return Err(FrameError::Dimension { width, height });
        }
        self.size = Size { width, height };
        Ok(())
    }

    /// The number of packed 32-bit entries in the buffer: one for each pixel,
    /// rows from the top and each row from the left.
    pub fn pixel_count(&self) -> (count: u64)
        ensures
            count == self.len(),
    {
        self.size.pixel_count()
    }
}

/// A surface that startup has built has the size that was configured.
pub proof fn lemma_startup_size<D, W>(params: StartupParams<D, W>, config: Config)
    requires
        startup_outcome(params, config) is Ok,
    ensures
        config.width > 0 && config.height > 0,
        Geometry::planned(startup_outcome(params, config)->Ok_0) is Some,
        Geometry::planned(startup_outcome(params, config)->Ok_0)->0.wf(),
        Geometry::planned(startup_outcome(params, config)->Ok_0)->0.size() == (Size {
            width: config.width,
            height: config.height,
        }),
        Geometry::planned(startup_outcome(params, config)->Ok_0)->0.len() == config.width
            * config.height,
{
}

/// Startup goes as far as a plan exactly when the host resolved its primary
/// window, the window system knows it, its handle was extracted and the
/// configured size has no zero dimension.
pub proof fn lemma_startup_succeeds<D, W>(params: StartupParams<D, W>, config: Config)
    ensures
        startup_outcome(params, config) is Ok <==> params.primary_window is Some
            && params.window is Some && params.raw_handle is Some && config.width > 0
            && config.height > 0,
{
}

/// A resize to a size without a zero dimension succeeds, whatever the size
/// was before, and the buffer then holds exactly `width * height` entries.
pub proof fn lemma_resize_nonzero(geometry: Geometry, width: u32, height: u32)
    requires
        width > 0,
        height > 0,
    ensures
        geometry.resized(width, height) is Ok,
        geometry.resized(width, height)->Ok_0.wf(),
        geometry.resized(width, height)->Ok_0.size() == (Size { width, height }),
        geometry.resized(width, height)->Ok_0.len() == width * height,
{
}

/// A resize to a size with a zero dimension fails with a dimension error.
pub proof fn lemma_resize_zero(geometry: Geometry, width: u32, height: u32)
    requires
        width == 0 || height == 0,
    ensures
        geometry.resized(width, height) == Err::<Geometry, FrameError>(
            FrameError::Dimension { width, height },
        ),
{
}

} // verus!
