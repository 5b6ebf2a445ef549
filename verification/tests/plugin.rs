use bevy_framebuffer::error::ConfigError;
use bevy_framebuffer::pixels_impl::PixelsConfig;
use bevy_framebuffer::plugin::{select, Backend};
use bevy_framebuffer::schedule::{MainOrder, Phase, ScheduleError};
use bevy_framebuffer::softbuffer_impl::SoftBufferConfig;
use bevy_framebuffer::{PixelsPlugin, SoftbufferPlugin};
use pixels::wgpu::PresentMode;

#[test]
fn exactly_one_backend_is_selected() {
    assert_eq!(select(true, false), Ok(Backend::Pixels));
    assert_eq!(select(false, true), Ok(Backend::Softbuffer));
    assert_eq!(select(false, false), Err(ConfigError::NoBackend));
    assert_eq!(select(true, true), Err(ConfigError::MultipleBackends));
}

#[test]
fn pixels_plugin_registers_phases_and_copies_config() {
    let plugin = PixelsPlugin {
        config: PixelsConfig {
            width: 320,
            height: 180,
            present_mode: Some(PresentMode::Fifo),
            ..Default::default()
        },
    };
    let mut order = MainOrder::new(vec![Phase::PreUpdate, Phase::Host(0), Phase::Last]).unwrap();
    let config = plugin.build(&mut order).unwrap();
    assert_eq!((config.width, config.height), (320, 180));
    assert_eq!(config.present_mode, Some(PresentMode::Fifo));
    assert_eq!(config.enable_vsync, None);
    assert_eq!(
        order.labels(),
        &vec![Phase::PreUpdate, Phase::Surface, Phase::Host(0), Phase::Render, Phase::Last]
    );
    // The plugin keeps its own configuration.
    assert_eq!(plugin.config.width, 320);
}

#[test]
fn softbuffer_plugin_registers_phases_and_copies_config() {
    let plugin = SoftbufferPlugin { config: SoftBufferConfig { width: 320, height: 180 } };
    let mut order = MainOrder::new(vec![Phase::PreUpdate, Phase::Last]).unwrap();
    assert_eq!(plugin.build(&mut order), Ok(SoftBufferConfig { width: 320, height: 180 }));
    assert_eq!(
        order.labels(),
        &vec![Phase::PreUpdate, Phase::Surface, Phase::Render, Phase::Last]
    );
}

#[test]
fn plugins_pass_on_a_refusal() {
    let plugin = SoftbufferPlugin { config: SoftBufferConfig { width: 320, height: 180 } };
    let mut order = MainOrder::new(vec![Phase::Last]).unwrap();
    assert_eq!(plugin.build(&mut order), Err(ScheduleError::Missing(Phase::PreUpdate)));
    assert_eq!(order.labels(), &vec![Phase::Last]);

    let plugin = PixelsPlugin { config: PixelsConfig::default() };
    let mut order =
        MainOrder::new(vec![Phase::PreUpdate, Phase::Surface, Phase::Last]).unwrap();
    assert!(matches!(
        plugin.build(&mut order),
        Err(ScheduleError::Duplicate(Phase::Surface))
    ));
    assert_eq!(order.labels(), &vec![Phase::PreUpdate, Phase::Surface, Phase::Last]);
}
