use bevy_framebuffer::error::{surfaced, FrameError, Operation};
use bevy_framebuffer::pixels_impl;
use bevy_framebuffer::schedule::{MainOrder, Phase, SchedulePlugin, Step};
use bevy_framebuffer::size::Size;
use bevy_framebuffer::softbuffer_impl;

fn line_surface(width: u32, height: u32) -> softbuffer_impl::Geometry {
    let params = softbuffer_impl::StartupParams {
        primary_window: Some(1),
        window: Some(Size { width: 1280, height: 720 }),
        raw_handle: Some(softbuffer_impl::RawHandle { display: (), window: () }),
    };
    let plan = softbuffer_impl::startup(params, softbuffer_impl::Config { width, height }).unwrap();
    softbuffer_impl::Geometry::of_plan(&plan).unwrap()
}

#[test]
fn pixel_array_320_by_180_holds_230400_bytes() {
    let params = pixels_impl::StartupParams {
        primary_window: Some(1),
        window: Some(Size { width: 1280, height: 720 }),
        raw_handle: Some(()),
    };
    let config = pixels_impl::Config { width: 320, height: 180, ..Default::default() };
    let plan = pixels_impl::startup(params, config).unwrap();
    let geometry = pixels_impl::Geometry::of_plan(&plan).unwrap();
    assert_eq!(geometry.frame_len(), Some(230_400));
    assert_eq!(geometry.frame_len(), Some(320 * 180 * 4));
    assert_eq!(geometry.pixel_count(), 57_600);
}

#[test]
fn line_surface_320_by_180_presents_untouched() {
    // Nothing has to be written before a present: the buffer is acquired at
    // its full length and the outcome of the present is handed on as it is.
    let geometry = line_surface(320, 180);
    assert_eq!(geometry.pixel_count(), 57_600);
    let acquired: Result<u64, ()> = Ok(geometry.pixel_count());
    assert_eq!(surfaced(Operation::Acquire, acquired), Ok(57_600));
    let presented: Result<(), ()> = Ok(());
    assert_eq!(surfaced(Operation::Present, presented), Ok(()));
    let lost: Result<(), ()> = Err(());
    assert_eq!(surfaced(Operation::Present, lost), Err(FrameError::Present));
}

#[test]
fn line_surface_resized_to_640_by_360_holds_230400_entries() {
    let mut geometry = line_surface(320, 180);
    assert_eq!(geometry.pixel_count(), 320 * 180);
    assert_eq!(geometry.resize(640, 360), Ok(()));
    assert_eq!(geometry.buffer_size(), Size { width: 640, height: 360 });
    assert_eq!(geometry.pixel_count(), 230_400);
    assert_eq!(geometry.pixel_count(), 640 * 360);
}

#[test]
fn one_frame_runs_surface_operations_before_render_operations() {
    let mut order = MainOrder::new(vec![
        Phase::Host(0),
        Phase::PreUpdate,
        Phase::Host(2),
        Phase::Host(3),
        Phase::Host(4),
        Phase::Host(5),
        Phase::Last,
    ])
    .unwrap();
    SchedulePlugin.build(&mut order).unwrap();
    let steps = order.frame(1, 1);
    let surface: Vec<usize> =
        (0..steps.len()).filter(|&i| steps[i] == Step::Surface(0)).collect();
    let render: Vec<usize> = (0..steps.len()).filter(|&i| steps[i] == Step::Render(0)).collect();
    // Each runs exactly once, the surface operation first.
    assert_eq!(surface, vec![2]);
    assert_eq!(render, vec![7]);
    assert!(surface[0] < render[0]);
    assert_eq!(steps.len(), 9);
    assert_eq!(steps[1], Step::Host(Phase::PreUpdate));
    assert_eq!(steps[8], Step::Host(Phase::Last));
}

#[test]
fn a_resize_in_the_surface_phase_is_seen_by_the_render_phase() {
    let mut order = MainOrder::new(vec![Phase::PreUpdate, Phase::Host(0), Phase::Last]).unwrap();
    SchedulePlugin.build(&mut order).unwrap();
    let mut geometry = line_surface(320, 180);
    let mut seen = Vec::new();
    // Operation 0 of the surface phase resizes; operation 0 of the render
    // phase reads the length of the buffer it is about to present.
    for step in order.frame(1, 1) {
        match step {
            Step::Surface(0) => geometry.resize(640, 360).unwrap(),
            Step::Render(0) => seen.push(geometry.pixel_count()),
            Step::Host(_) => {}
            other => panic!("unregistered operation {:?}", other),
        }
    }
    assert_eq!(seen, vec![640 * 360]);
}

#[test]
fn many_operations_run_once_each_in_registration_order() {
    let mut order = MainOrder::new(vec![Phase::PreUpdate, Phase::Last]).unwrap();
    SchedulePlugin.build(&mut order).unwrap();
    let steps = order.frame(3, 2);
    assert_eq!(
        steps,
        vec![
            Step::Host(Phase::PreUpdate),
            Step::Surface(0),
            Step::Surface(1),
            Step::Surface(2),
            Step::Render(0),
            Step::Render(1),
            Step::Host(Phase::Last),
        ]
    );
}
