//! The pixel-array backend: a logical buffer of fixed resolution, scaled onto
//! a presentation surface of the window's size.
use crate::error::FrameError;
use crate::error::InitError;
use crate::framebuffer::FrameBuffer;
use crate::framebuffer::FrameBufferType;
use crate::size::Size;
use vstd::prelude::*;

verus! {

/// Makes `pixels::wgpu::Backends` known as a type. Nothing is claimed of its
/// values: they are carried from a configuration to the builder call unread.
#[verifier::external_type_specification]
#[verifier::external_body]
pub struct ExBackends(pixels::wgpu::Backends);

/// Makes `pixels::wgpu::PresentMode` known as a type. Nothing is claimed of its
/// values: they are carried from a configuration to the builder call unread.
#[verifier::external_type_specification]
#[verifier::external_body]
pub struct ExPresentMode(pixels::wgpu::PresentMode);

/// Makes `pixels::wgpu::TextureFormat` known as a type. Nothing is claimed of its
/// values: they are carried from a configuration to the builder call unread.
#[verifier::external_type_specification]
#[verifier::external_body]
pub struct ExTextureFormat(pixels::wgpu::TextureFormat);

/// Makes `pixels::wgpu::BlendState` known as a type. Nothing is claimed of its
/// values: they are carried from a configuration to the builder call unread.
#[verifier::external_type_specification]
#[verifier::external_body]
pub struct ExBlendState(pixels::wgpu::BlendState);

/// Makes `pixels::wgpu::Color` known as a type. Nothing is claimed of its
/// values: they are carried from a configuration to the builder call unread.
#[verifier::external_type_specification]
#[verifier::external_body]
pub struct ExColor(pixels::wgpu::Color);

/// Makes `pixels::Pixels`, the backend's buffer, known as a type. Nothing is
/// claimed of its values: the library names the type and never reads one.
#[verifier::external_type_specification]
#[verifier::external_body]
pub struct ExPixels<'win>(pixels::Pixels<'win>);

/// Framebuffer resource for the `pixels` crate. Dereferences to `pixels::Pixels`.
pub type PixelsFrame = FrameBuffer<pixels::Pixels<'static>>;

pub type PixelsConfig = Config;

/// Configuration of the pixel-array backend. A knob left at `None` keeps the
/// default of `pixels::PixelsBuilder`.
#[derive(Debug)]
pub struct Config {
    /// Framebuffer width (in pixels).
    pub width: u32,
    /// Framebuffer height (in pixels).
    pub height: u32,
    /// See `PixelsBuilder::enable_vsync`.
    pub enable_vsync: Option<bool>,
    /// See `PixelsBuilder::wgpu_backend`.
    pub wgpu_backend: Option<pixels::wgpu::Backends>,
    /// See `PixelsBuilder::present_mode`.
    pub present_mode: Option<pixels::wgpu::PresentMode>,
    /// See `PixelsBuilder::texture_format`.
    pub texture_format: Option<pixels::wgpu::TextureFormat>,
    /// See `PixelsBuilder::render_texture_format`.
    pub render_texture_format: Option<pixels::wgpu::TextureFormat>,
    /// See `PixelsBuilder::surface_texture_format`.
    pub surface_texture_format: Option<pixels::wgpu::TextureFormat>,
    /// See `PixelsBuilder::blend_state`.
    pub blend_state: Option<pixels::wgpu::BlendState>,
    /// See `PixelsBuilder::clear_color`.
    pub clear_color: Option<pixels::wgpu::Color>,
}

/// One call on the builder: the method of the same name, with its argument.
#[derive(Debug, PartialEq)]
pub enum Setting {
    EnableVsync(bool),
    WgpuBackend(pixels::wgpu::Backends),
    PresentMode(pixels::wgpu::PresentMode),
    TextureFormat(pixels::wgpu::TextureFormat),
    RenderTextureFormat(pixels::wgpu::TextureFormat),
    SurfaceTextureFormat(pixels::wgpu::TextureFormat),
    BlendState(pixels::wgpu::BlendState),
    ClearColor(pixels::wgpu::Color),
}

/// The calls that one knob stands for: one if it is set, none if it is not.
pub open spec fn knob(setting: Option<Setting>) -> Seq<Setting> {
    match setting {
        Some(s) => seq![s],
        None => Seq::empty(),
    }
}

fn push_knob(calls: &mut Vec<Setting>, setting: Option<Setting>)
    ensures
        final(calls)@ == old(calls)@ + knob(setting),
{
    match setting {
        Some(s) => {
            calls.push(s);
        },
        None => {
            assert(calls@ =~= old(calls)@ + knob(setting));
        },
    }
}

impl Default for Config {
    /// A buffer without extent and every knob unset.
    fn default() -> (config: Self)
        ensures
            config.width == 0,
            config.height == 0,
            config.enable_vsync is None,
            config.wgpu_backend is None,
            config.present_mode is None,
            config.texture_format is None,
            config.render_texture_format is None,
            config.surface_texture_format is None,
            config.blend_state is None,
            config.clear_color is None,
            config.settings() == Seq::<Setting>::empty(),
    {
        let config = Config {
            width: 0,
            height: 0,
            enable_vsync: None,
            wgpu_backend: None,
            present_mode: None,
            texture_format: None,
            render_texture_format: None,
            surface_texture_format: None,
            blend_state: None,
            clear_color: None,
        };
        assert(config.settings() =~= Seq::<Setting>::empty());
        config
    }
}

impl Clone for Config {
    fn clone(&self) -> (copy: Self)
        ensures
            copy == *self,
    {
        Config {
            width: self.width,
            height: self.height,
            enable_vsync: self.enable_vsync,
            wgpu_backend: self.wgpu_backend,
            present_mode: self.present_mode,
            texture_format: self.texture_format,
            render_texture_format: self.render_texture_format,
            surface_texture_format: self.surface_texture_format,
            blend_state: self.blend_state,
            clear_color: self.clear_color,
        }
    }
}

/// Bytes that one pixel of the buffer takes in the default texture format.
pub const BYTES_PER_PIXEL: usize = 4;

/// The presentation surface that is asked for: its size in physical pixels,
/// and the window handle it is bound to.
pub struct SurfaceTexture<W> {
    pub width: u32,
    pub height: u32,
    pub window: W,
}

impl<W> SurfaceTexture<W> {
    /// A surface of `width` by `height` on `window`, unless a dimension is
    /// zero: the backend cannot make such a surface.
    pub fn new(width: u32, height: u32, window: W) -> (outcome: Result<Self, InitError>)
        ensures
            width == 0 || height == 0 ==> outcome == Err::<Self, InitError>(
                InitError::ZeroSize { width, height },
            ),
            width > 0 && height > 0 ==> outcome == Ok::<Self, InitError>(
                (SurfaceTexture { width, height, window }),
            ),
    {
        if width == 0 || height == 0 {
            Err(InitError::ZeroSize { width, height })
        } else {
            Ok(SurfaceTexture { width, height, window })
        }
    }
}

/// What the backend is asked to build: a buffer of `width` by `height` on
/// `surface`, after the builder calls in `settings`, made in that order.
pub struct Plan<W> {
    pub width: u32,
    pub height: u32,
    pub surface: SurfaceTexture<W>,
    pub settings: Vec<Setting>,
}

impl Config {
    /// The builder calls that this configuration asks for, in the order in
    /// which they are made. The order matters where two calls write the same
    /// setting: `present_mode` comes after `enable_vsync` and so overrides it.
    pub open spec fn settings(&self) -> Seq<Setting> {
        knob(
            match self.enable_vsync {
                Some(v) => Some(Setting::EnableVsync(v)),
                None => None,
            },
        ) + knob(
            match self.wgpu_backend {
                Some(v) => Some(Setting::WgpuBackend(v)),
                None => None,
            },
        ) + knob(
            match self.present_mode {
                Some(v) => Some(Setting::PresentMode(v)),
                None => None,
            },
        ) + knob(
            match self.texture_format {
                Some(v) => Some(Setting::TextureFormat(v)),
                None => None,
            },
        ) + knob(
            match self.render_texture_format {
                Some(v) => Some(Setting::RenderTextureFormat(v)),
                None => None,
            },
        ) + knob(
            match self.surface_texture_format {
                Some(v) => Some(Setting::SurfaceTextureFormat(v)),
                None => None,
            },
        ) + knob(
            match self.blend_state {
                Some(v) => Some(Setting::BlendState(v)),
                None => None,
            },
        ) + knob(
            match self.clear_color {
                Some(v) => Some(Setting::ClearColor(v)),
                None => None,
            },
        )
    }

    /// The builder calls of `settings`, as values.
    pub fn builder_calls(&self) -> (calls: Vec<Setting>)
        ensures
            calls@ == self.settings(),
    {
        let mut calls: Vec<Setting> = Vec::new();
        push_knob(
            &mut calls,
            match self.enable_vsync {
                Some(v) => Some(Setting::EnableVsync(v)),
                None => None,
            },
        );
        push_knob(
            &mut calls,
            match self.wgpu_backend {
                Some(v) => Some(Setting::WgpuBackend(v)),
                None => None,
            },
        );
        push_knob(
            &mut calls,
            match self.present_mode {
                Some(v) => Some(Setting::PresentMode(v)),
                None => None,
            },
        );
        push_knob(
            &mut calls,
            match self.texture_format {
                Some(v) => Some(Setting::TextureFormat(v)),
                None => None,
            },
        );
        push_knob(
            &mut calls,
            match self.render_texture_format {
                Some(v) => Some(Setting::RenderTextureFormat(v)),
                None => None,
            },
        );
        push_knob(
            &mut calls,
            match self.surface_texture_format {
                Some(v) => Some(Setting::SurfaceTextureFormat(v)),
                None => None,
            },
        );
        push_knob(
            &mut calls,
            match self.blend_state {
                Some(v) => Some(Setting::BlendState(v)),
                None => None,
            },
        );
        push_knob(
            &mut calls,
            match self.clear_color {
                Some(v) => Some(Setting::ClearColor(v)),
                None => None,
            },
        );
        assert(calls@ =~= self.settings());
        calls
    }

    /// Turns the configuration into the plan for a buffer on `surface`.
    ///
    /// Fails with `ZeroSize` exactly when the configured width or height is
    /// zero. Otherwise the plan asks for a buffer of the configured size, on
    /// the surface as given, with one builder call for each knob that is set.
    pub fn into_pixels<W>(self, surface: SurfaceTexture<W>) -> (outcome: Result<Plan<W>, InitError>)
        ensures
            self.width == 0 || self.height == 0 ==> outcome == Err::<Plan<W>, InitError>(
                InitError::ZeroSize { width: self.width, height: self.height },
            ),
            self.width > 0 && self.height > 0 ==> {
                &&& outcome is Ok
                &&& outcome->Ok_0.width == self.width
                &&& outcome->Ok_0.height == self.height
                &&& outcome->Ok_0.surface == surface
                &&& outcome->Ok_0.settings@ == self.settings()
            },
    {
        if self.width == 0 || self.height == 0 {
            return Err(InitError::ZeroSize { width: self.width, height: self.height });
        }
        let settings = self.builder_calls();
        Ok(Plan { width: self.width, height: self.height, surface, settings })
    }
}

/// What the host resolved for startup, each step as far as it got.
pub struct StartupParams<W> {
    /// The host's identifier of its primary window, if it has one.
    pub primary_window: Option<u64>,
    /// The physical size of the window that the window system holds for the
    /// primary window, if it holds one.
    pub window: Option<Size>,
    /// The platform handle extracted from that window, if that succeeded.
    pub raw_handle: Option<W>,
}

/// The first reason, in the order in which the host resolves them, for which
/// startup cannot go on to build; `None` where everything was resolved and
/// no size has a zero dimension.
pub open spec fn startup_failure<W>(params: StartupParams<W>, config: Config) -> Option<InitError> {
    if params.primary_window is None {
        Some(InitError::NoPrimaryWindow)
    } else if params.window is None {
        Some(InitError::WindowUnresolved)
    } else if params.raw_handle is None {
        Some(InitError::HandleUnavailable)
    } else if !params.window->0.nonzero() {
        Some(InitError::ZeroSize { width: params.window->0.width, height: params.window->0.height })
    } else if config.width == 0 || config.height == 0 {
        Some(InitError::ZeroSize { width: config.width, height: config.height })
    } else {
        None
    }
}

/// Whether `outcome` is what startup decides of `params` and `config`: the
/// failure where there is one, and else the plan for a presentation surface of
/// the window's physical size on the extracted handle and, independently of
/// it, a buffer of the configured resolution, with the configured builder
/// calls.
pub open spec fn startup_decides<W>(
    params: StartupParams<W>,
    config: Config,
    outcome: Result<Plan<W>, InitError>,
) -> bool {
    match startup_failure(params, config) {
        Some(error) => outcome == Err::<Plan<W>, InitError>(error),
        None => {
            &&& outcome is Ok
            &&& outcome->Ok_0.width == config.width
            &&& outcome->Ok_0.height == config.height
            &&& outcome->Ok_0.surface == (SurfaceTexture {
                width: params.window->0.width,
                height: params.window->0.height,
                window: params.raw_handle->0,
            })
            &&& outcome->Ok_0.settings@ == config.settings()
        },
    }
}

/// Decides startup of the pixel-array backend from what the host resolved.
///
/// It fails with the first of: no primary window, window not known to the
/// window system, no platform handle, a zero-sized window, a zero-sized
/// configuration. Otherwise the plan asks for a presentation surface of the
/// window's physical size and, independently of it, a buffer of the configured
/// resolution.
pub fn startup<W>(params: StartupParams<W>, config: Config) -> (outcome: Result<Plan<W>, InitError>)
    ensures
        startup_decides(params, config, outcome),
{
    if params.primary_window.is_none() {
        return Err(InitError::NoPrimaryWindow);
    }
    let size = match params.window {
        Some(size) => size,
        None => {
            return Err(InitError::WindowUnresolved);
        },
    };
    let handle = match params.raw_handle {
        Some(handle) => handle,
        None => {
            return Err(InitError::HandleUnavailable);
        },
    };
    let surface = match SurfaceTexture::new(size.width, size.height, handle) {
        Ok(surface) => surface,
        Err(error) => {
            return Err(error);
        },
    };
    config.into_pixels(surface)
}

impl<W> FrameBufferType<W> for PixelsFrame {
    type Config = Config;

    type StartupParams = StartupParams<W>;

    type Plan = Plan<W>;

    open spec fn decides(
        params: StartupParams<W>,
        config: Config,
        outcome: Result<Plan<W>, InitError>,
    ) -> bool {
        startup_decides(params, config, outcome)
    }

    fn startup(params: StartupParams<W>, config: Config) -> (outcome: Result<Plan<W>, InitError>) {
        startup(params, config)
    }
}

/// The two sizes of a running pixel-array backend. They change independently:
/// the presentation surface follows the window, the buffer keeps its logical
/// resolution until it is resized itself.
#[derive(Clone, Copy, Debug, PartialEq, Eq, Structural)]
pub struct Geometry {
    surface: Size,
    buffer: Size,
}

impl Geometry {
    /// No dimension is zero.
    pub closed spec fn wf(&self) -> bool {
        self.surface.nonzero() && self.buffer.nonzero()
    }

    /// The size of the presentation surface.
    pub closed spec fn surface(&self) -> Size {
        self.surface
    }

    /// The size of the buffer.
    pub closed spec fn buffer(&self) -> Size {
        self.buffer
    }

    /// The number of pixels of the buffer.
    pub open spec fn pixels(&self) -> int {
        self.buffer().area()
    }

    /// The number of bytes that the byte accessor yields in the default
    /// texture format: four to the pixel.
    pub open spec fn bytes(&self) -> int {
        BYTES_PER_PIXEL * self.buffer().area()
    }

    /// The geometry of a backend built to `plan`; `None` where the plan asks
    /// for a zero dimension.
    pub closed spec fn planned<W>(plan: Plan<W>) -> Option<Geometry> {
        if plan.width > 0 && plan.height > 0 && plan.surface.width > 0 && plan.surface.height > 0 {
            Some(
                Geometry {
                    surface: Size { width: plan.surface.width, height: plan.surface.height },
                    buffer: Size { width: plan.width, height: plan.height },
                },
            )
        } else {
            None
        }
    }

    /// What a resize of the presentation surface to `width` by `height` makes
    /// of this geometry: a zero dimension is refused, anything else becomes
    /// the size of the surface, and the buffer stays as it is.
    pub closed spec fn surface_resized(&self, width: u32, height: u32) -> Result<
        Geometry,
        FrameError,
    > {
        if width == 0 || height == 0 {
            Err(FrameError::Dimension { width, height })
        } else {
            Ok(Geometry { surface: Size { width, height }, buffer: self.buffer })
        }
    }

    /// What a resize of the buffer to `width` by `height` makes of this
    /// geometry: a zero dimension is refused, anything else becomes the size
    /// of the buffer, and the surface stays as it is.
    pub closed spec fn buffer_resized(&self, width: u32, height: u32) -> Result<
        Geometry,
        FrameError,
    > {
        if width == 0 || height == 0 {
            Err(FrameError::Dimension { width, height })
        } else {
            Ok(Geometry { surface: self.surface, buffer: Size { width, height } })
        }
    }

    /// The geometry of a backend built to `plan`.
    pub fn of_plan<W>(plan: &Plan<W>) -> (outcome: Option<Geometry>)
        ensures
            outcome == Self::planned(*plan),
            outcome is Some <==> plan.width > 0 && plan.height > 0 && plan.surface.width > 0
                && plan.surface.height > 0,
            outcome matches Some(geometry) ==> {
                &&& geometry.wf()
                &&& geometry.surface() == (Size {
                    width: plan.surface.width,
                    height: plan.surface.height,
                })
                &&& geometry.buffer() == (Size { width: plan.width, height: plan.height })
            },
    {
        let surface = Size { width: plan.surface.width, height: plan.surface.height };
        let buffer = Size { width: plan.width, height: plan.height };
        if surface.is_nonzero() && buffer.is_nonzero() {
            Some(Geometry { surface, buffer })
        } else {
            None
        }
    }

    /// The size of the presentation surface.
    pub fn surface_size(&self) -> (size: Size)
        ensures
            size == self.surface(),
    {
        self.surface
    }

    /// The size of the buffer.
    pub fn buffer_size(&self) -> (size: Size)
        ensures
            size == self.buffer(),
    {
        self.buffer
    }

    /// Resizes the presentation surface only. A zero dimension is refused and
    /// nothing changes.
    pub fn resize_surface(&mut self, width: u32, height: u32) -> (outcome: Result<(), FrameError>)
        requires
            old(self).wf(),
        ensures
            final(self).wf(),
            final(self).buffer() == old(self).buffer(),
            old(self).surface_resized(width, height) == match outcome {
                Ok(()) => Ok::<Geometry, FrameError>(*final(self)),
                Err(error) => Err::<Geometry, FrameError>(error),
            },
            width == 0 || height == 0 ==> outcome == Err::<(), FrameError>(
                FrameError::Dimension { width, height },
            ) && *final(self) == *old(self),
            width > 0 && height > 0 ==> outcome is Ok && final(self).surface() == (Size {
                width,
                height,
            }),
    {
        if width == 0 || height == 0 {
            return Err(FrameError::Dimension { width, height });
        }
        self.surface = Size { width, height };
        Ok(())
    }

    /// Resizes the buffer only; the backend allocates it anew. A zero
    /// dimension is refused and nothing changes.
    pub fn resize_buffer(&mut self, width: u32, height: u32) -> (outcome: Result<(), FrameError>)
        requires
            old(self).wf(),
        ensures
            final(self).wf(),
            final(self).surface() == old(self).surface(),
            old(self).buffer_resized(width, height) == match outcome {
                Ok(()) => Ok::<Geometry, FrameError>(*final(self)),
                Err(error) => Err::<Geometry, FrameError>(error),
            },
            width == 0 || height == 0 ==> outcome == Err::<(), FrameError>(
                FrameError::Dimension { width, height },
            ) && *final(self) == *old(self),
            width > 0 && height > 0 ==> outcome is Ok && final(self).buffer() == (Size {
                width,
                height,
            }),
    {
        if width == 0 || height == 0 {
            return Err(FrameError::Dimension { width, height });
        }
        self.buffer = Size { width, height };
        Ok(())
    }

    /// The number of pixels in the buffer.
    pub fn pixel_count(&self) -> (count: u64)
        ensures
            count == self.pixels(),
    {
        self.buffer.pixel_count()
    }

    /// The length in bytes of the buffer in the default texture format, four
    /// bytes to the pixel, rows from the top and each row from the left;
    /// `None` where that length is more than `usize` holds.
    pub fn frame_len(&self) -> (len: Option<usize>)
        ensures
            len is Some <==> self.bytes() <= usize::MAX,
            len matches Some(n) ==> n == self.bytes(),
    {
        let pixels: u64 = self.buffer.pixel_count();
        if pixels > (usize::MAX / BYTES_PER_PIXEL) as u64 {
            None
        } else {
            Some(BYTES_PER_PIXEL * (pixels as usize))
        }
    }
}

/// A backend that startup has built has a buffer of the configured
/// resolution, whatever the size of the window, and a presentation surface of
/// the window's physical size.
pub proof fn lemma_startup_size<W>(
    params: StartupParams<W>,
    config: Config,
    outcome: Result<Plan<W>, InitError>,
)
    requires
        startup_decides(params, config, outcome),
        outcome is Ok,
    ensures
        config.width > 0 && config.height > 0,
        Geometry::planned(outcome->Ok_0) is Some,
        Geometry::planned(outcome->Ok_0)->0.wf(),
        Geometry::planned(outcome->Ok_0)->0.buffer() == (Size {
            width: config.width,
            height: config.height,
        }),
        Geometry::planned(outcome->Ok_0)->0.surface() == params.window->0,
        Geometry::planned(outcome->Ok_0)->0.pixels() == config.width * config.height,
        Geometry::planned(outcome->Ok_0)->0.bytes() == 4 * (config.width * config.height),
{
}

/// Startup goes as far as a plan exactly when the host resolved its primary
/// window, the window system knows it, its handle was extracted, and neither
/// the window nor the configured size has a zero dimension.
pub proof fn lemma_startup_succeeds<W>(
    params: StartupParams<W>,
    config: Config,
    outcome: Result<Plan<W>, InitError>,
)
    requires
        startup_decides(params, config, outcome),
    ensures
        outcome is Ok <==> params.primary_window is Some && params.window is Some
            && params.raw_handle is Some && params.window->0.nonzero() && config.width > 0
            && config.height > 0,
{
}

/// A resize of the buffer to a size without a zero dimension succeeds,
/// whatever the sizes were before; the buffer then holds exactly
/// `width * height` pixels, four bytes each, and the presentation surface is
/// what it was.
pub proof fn lemma_resize_buffer_nonzero(geometry: Geometry, width: u32, height: u32)
    requires
        width > 0,
        height > 0,
    ensures
        geometry.buffer_resized(width, height) is Ok,
        geometry.wf() ==> geometry.buffer_resized(width, height)->Ok_0.wf(),
        geometry.buffer_resized(width, height)->Ok_0.buffer() == (Size { width, height }),
        geometry.buffer_resized(width, height)->Ok_0.surface() == geometry.surface(),
        geometry.buffer_resized(width, height)->Ok_0.pixels() == width * height,
        geometry.buffer_resized(width, height)->Ok_0.bytes() == 4 * (width * height),
{
}

/// A resize of the presentation surface to a size without a zero dimension
/// succeeds, whatever the sizes were before, and leaves the buffer, and so
/// what the byte accessor yields, as it was.
pub proof fn lemma_resize_surface_nonzero(geometry: Geometry, width: u32, height: u32)
    requires
        width > 0,
        height > 0,
    ensures
        geometry.surface_resized(width, height) is Ok,
        geometry.wf() ==> geometry.surface_resized(width, height)->Ok_0.wf(),
        geometry.surface_resized(width, height)->Ok_0.surface() == (Size { width, height }),
        geometry.surface_resized(width, height)->Ok_0.buffer() == geometry.buffer(),
        geometry.surface_resized(width, height)->Ok_0.bytes() == geometry.bytes(),
{
}

/// A resize of either size to one with a zero dimension fails with a
/// dimension error.
pub proof fn lemma_resize_zero(geometry: Geometry, width: u32, height: u32)
    requires
        width == 0 || height == 0,
    ensures
        geometry.buffer_resized(width, height) == Err::<Geometry, FrameError>(
            FrameError::Dimension { width, height },
        ),
        geometry.surface_resized(width, height) == Err::<Geometry, FrameError>(
            FrameError::Dimension { width, height },
        ),
{
}

} // verus!
