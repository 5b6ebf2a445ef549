use bevy_framebuffer::error::{constructed, surfaced, ConfigError, FrameError, InitError, Operation};
use bevy_framebuffer::framebuffer::FrameBufferType;
use bevy_framebuffer::pixels_impl;
use bevy_framebuffer::size::Size;
use bevy_framebuffer::softbuffer_impl;
use bevy_framebuffer::FrameBuffer;
use std::ops::{Deref, DerefMut};

// Resolves for a type that is not `Send`, and is ambiguous for one that is.
trait AmbiguousIfSend<A> {
    fn check() {}
}
impl<T: ?Sized> AmbiguousIfSend<()> for T {}
impl<T: ?Sized + Send> AmbiguousIfSend<u8> for T {}

// Resolves for a type that is not `Sync`, and is ambiguous for one that is.
trait AmbiguousIfSync<A> {
    fn check() {}
}
impl<T: ?Sized> AmbiguousIfSync<()> for T {}
impl<T: ?Sized + Sync> AmbiguousIfSync<u8> for T {}

#[test]
fn new_wraps_the_buffer() {
    let frame = FrameBuffer::new(vec![1u32, 2, 3]);
    assert_eq!(*frame, vec![1, 2, 3]);
    assert_eq!(frame.deref().len(), 3);
}

#[test]
fn deref_mut_writes_through() {
    let mut frame = FrameBuffer::new(vec![0u8; 4]);
    frame.deref_mut()[2] = 9;
    frame.push(7);
    assert_eq!(*frame, vec![0, 0, 9, 0, 7]);
    *frame = vec![5];
    assert_eq!(frame.len(), 1);
}

#[test]
fn frame_buffer_stays_on_its_thread() {
    // Both lines compile only while the handle is neither `Send` nor `Sync`,
    // although what it wraps is both.
    <FrameBuffer<u32> as AmbiguousIfSend<_>>::check();
    <FrameBuffer<u32> as AmbiguousIfSync<_>>::check();
}

#[test]
fn init_error_messages() {
    assert_eq!(InitError::NoPrimaryWindow.message(), "Expected PrimaryWindow entity");
    assert_eq!(
        InitError::WindowUnresolved.message(),
        "Expected winit window matching PrimaryWindow entity"
    );
    assert_eq!(InitError::HandleUnavailable.message(), "Expected a raw handle for the window");
    assert_eq!(
        InitError::ZeroSize { width: 0, height: 4 }.message(),
        "Expected a non-zero width and height"
    );
    assert_eq!(InitError::Construction.message(), "Failed building framebuffer");
}

#[test]
fn constructed_keeps_the_value_or_names_construction() {
    assert_eq!(constructed::<u32, String>(Ok(17)), Ok(17));
    assert_eq!(
        constructed::<u32, String>(Err("adapter not found".to_string())),
        Err(InitError::Construction)
    );
}

#[test]
fn surfaced_names_the_operation_that_failed() {
    assert_eq!(surfaced::<u8, ()>(Operation::Resize, Ok(3)), Ok(3));
    assert_eq!(surfaced::<u8, ()>(Operation::Resize, Err(())), Err(FrameError::Resize));
    assert_eq!(surfaced::<u8, ()>(Operation::Acquire, Err(())), Err(FrameError::Acquire));
    assert_eq!(surfaced::<u8, ()>(Operation::Present, Err(())), Err(FrameError::Present));
    assert_eq!(surfaced::<(), u8>(Operation::Present, Ok(())), Ok(()));
}

#[test]
fn errors_are_distinguishable() {
    assert_ne!(FrameError::Resize, FrameError::Acquire);
    assert_ne!(FrameError::Acquire, FrameError::Present);
    assert_ne!(
        FrameError::Dimension { width: 0, height: 1 },
        FrameError::Dimension { width: 1, height: 0 }
    );
    assert_ne!(ConfigError::NoBackend, ConfigError::MultipleBackends);
    assert_ne!(InitError::NoPrimaryWindow, InitError::WindowUnresolved);
}

fn start<H, B: FrameBufferType<H>>(
    params: B::StartupParams,
    config: B::Config,
) -> Result<B::Plan, InitError> {
    B::startup(params, config)
}

#[test]
fn backends_start_through_the_common_contract() {
    let params = pixels_impl::StartupParams {
        primary_window: Some(1),
        window: Some(Size { width: 500, height: 400 }),
        raw_handle: Some("handle"),
    };
    let config = pixels_impl::Config { width: 100, height: 100, ..Default::default() };
    let plan = start::<&str, pixels_impl::PixelsFrame>(params, config).unwrap();
    assert_eq!((plan.width, plan.height), (100, 100));
    assert_eq!((plan.surface.width, plan.surface.height), (500, 400));

    let params = softbuffer_impl::StartupParams {
        primary_window: Some(1),
        window: Some(Size { width: 500, height: 400 }),
        raw_handle: Some(softbuffer_impl::RawHandle { display: 'd', window: 'w' }),
    };
    let config = softbuffer_impl::Config { width: 100, height: 50 };
    let plan = start::<_, softbuffer_impl::SoftBufferFrame<char, char>>(params, config).unwrap();
    assert_eq!((plan.display, plan.window, plan.width, plan.height), ('d', 'w', 100, 50));

    let params = softbuffer_impl::StartupParams::<char, char> {
        primary_window: None,
        window: None,
        raw_handle: None,
    };
    let outcome = start::<_, softbuffer_impl::SoftBufferFrame<char, char>>(params, config);
    assert!(matches!(outcome, Err(InitError::NoPrimaryWindow)));
}
