//! Framebuffer access for a frame loop, over interchangeable pixel backends.
//!
//! The crate holds the decisions of the integration: what each backend is
//! asked to build from a configuration, when startup has to give up, and where
//! the surface and render phases stand in the host's frame. The calls into the
//! window system and the pixel libraries are made by the embedding glue, which
//! hands plain values in and acts on the plain values it gets back.
pub mod error;
pub mod framebuffer;
pub mod pixels_impl;
pub mod plugin;
pub mod schedule;
pub mod size;
pub mod softbuffer_impl;

pub use framebuffer::FrameBuffer;
pub use plugin::PixelsPlugin;
pub use plugin::SoftbufferPlugin;
