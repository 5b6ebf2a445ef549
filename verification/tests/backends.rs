use std::num::NonZeroU32;

use bevy_framebuffer::error::{constructed, InitError};
use bevy_framebuffer::pixels_impl::{self, Setting};
use bevy_framebuffer::size::Size;
use bevy_framebuffer::softbuffer_impl::{self, RawHandle};
use pixels::raw_window_handle::{
    DisplayHandle, HandleError, HasDisplayHandle, HasWindowHandle, WindowHandle,
};
use pixels::wgpu::{Backends, PresentMode};
use pixels::{Pixels, PixelsBuilder, SurfaceTexture};
use softbuffer::{Context, SoftBufferError, Surface};

/// A window that the platform has already taken away: it has no handle left.
struct Gone;

impl HasWindowHandle for Gone {
    fn window_handle(&self) -> Result<WindowHandle<'_>, HandleError> {
        Err(HandleError::Unavailable)
    }
}

impl HasDisplayHandle for Gone {
    fn display_handle(&self) -> Result<DisplayHandle<'_>, HandleError> {
        Err(HandleError::Unavailable)
    }
}

fn build_pixels(plan: pixels_impl::Plan<Gone>) -> Result<Pixels<'static>, pixels::Error> {
    let surface =
        SurfaceTexture::new(plan.surface.width, plan.surface.height, plan.surface.window);
    let mut builder = PixelsBuilder::new(plan.width, plan.height, surface);
    for setting in plan.settings {
        builder = match setting {
            Setting::EnableVsync(value) => builder.enable_vsync(value),
            Setting::WgpuBackend(value) => builder.wgpu_backend(value),
            Setting::PresentMode(value) => builder.present_mode(value),
            Setting::TextureFormat(value) => builder.texture_format(value),
            Setting::RenderTextureFormat(value) => builder.render_texture_format(value),
            Setting::SurfaceTextureFormat(value) => builder.surface_texture_format(value),
            Setting::BlendState(value) => builder.blend_state(value),
            Setting::ClearColor(value) => builder.clear_color(value),
        };
    }
    builder.build()
}

fn build_surface(
    plan: softbuffer_impl::Plan<Gone, Gone>,
) -> Result<Surface<Gone, Gone>, SoftBufferError> {
    let width = NonZeroU32::new(plan.width).expect("Expected a non-zero width");
    let height = NonZeroU32::new(plan.height).expect("Expected a non-zero height");
    let context = Context::new(plan.display)?;
    let mut surface = Surface::new(&context, plan.window)?;
    surface.resize(width, height)?;
    Ok(surface)
}

#[test]
fn pixels_on_a_lost_window_fail_as_construction() {
    let params = pixels_impl::StartupParams {
        primary_window: Some(1),
        window: Some(Size { width: 500, height: 400 }),
        raw_handle: Some(Gone),
    };
    let config = pixels_impl::Config {
        width: 320,
        height: 180,
        enable_vsync: Some(true),
        wgpu_backend: Some(Backends::GL),
        present_mode: Some(PresentMode::Fifo),
        ..Default::default()
    };
    let plan = pixels_impl::startup(params, config).unwrap();
    assert!(pixels_impl::Geometry::of_plan(&plan).is_some());
    let built = constructed(build_pixels(plan));
    assert!(matches!(built, Err(InitError::Construction)));
}

#[test]
fn surface_on_a_lost_window_fails_as_construction() {
    let params = softbuffer_impl::StartupParams {
        primary_window: Some(1),
        window: Some(Size { width: 500, height: 400 }),
        raw_handle: Some(RawHandle { display: Gone, window: Gone }),
    };
    let config = softbuffer_impl::Config { width: 320, height: 180 };
    let plan = softbuffer_impl::startup(params, config).unwrap();
    assert!(softbuffer_impl::Geometry::of_plan(&plan).is_some());
    let built = constructed(build_surface(plan));
    assert!(matches!(built, Err(InitError::Construction)));
}
