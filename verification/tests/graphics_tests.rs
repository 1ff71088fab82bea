use ked_core::{
    Color, GpuCommand, GraphicsContext, PhysicalSize, PowerPreference, PresentMode, Surface,
    SurfaceConfiguration, WgpuRenderer, WindowConfig,
};

fn config_800_600(mode: PresentMode) -> SurfaceConfiguration {
    SurfaceConfiguration { width: 800, height: 600, present_mode: mode }
}

fn renderer_800_600() -> WgpuRenderer {
    WgpuRenderer::new(PhysicalSize::new(800, 600), &WindowConfig::default())
}

#[test]
fn new_context_is_configured_from_window_and_options() {
    let mut options = WindowConfig::default();
    options.vsync_mode = PresentMode::Mailbox;
    options.power_preference = PowerPreference::LowPower;
    let context = GraphicsContext::new(PhysicalSize::new(800, 600), &options);
    let expected = config_800_600(PresentMode::Mailbox);
    assert_eq!(context.config, expected);
    assert_eq!(context.surface, Some(Surface { configuration: expected }));
    assert!(context.is_ready());
    assert_eq!(
        context.commands,
        vec![GpuCommand::Initialize {
            power_preference: PowerPreference::LowPower,
            configuration: expected,
        }]
    );
}

#[test]
fn new_context_raises_zero_dimensions_to_one() {
    let context = GraphicsContext::new(PhysicalSize::new(0, 0), &WindowConfig::default());
    assert_eq!(context.config.width, 1);
    assert_eq!(context.config.height, 1);
    let context = GraphicsContext::new(PhysicalSize::new(0, 33), &WindowConfig::default());
    assert_eq!((context.config.width, context.config.height), (1, 33));
}

#[test]
fn new_renderer_keeps_the_window_size() {
    let renderer = WgpuRenderer::new(PhysicalSize::new(0, 7), &WindowConfig::default());
    assert_eq!(renderer.size, PhysicalSize { width: 0, height: 7 });
    assert_eq!((renderer.context.config.width, renderer.context.config.height), (1, 7));
}

#[test]
fn resize_stores_positive_sizes() {
    let mut renderer = renderer_800_600();
    renderer.resize(PhysicalSize::new(400, 300));
    assert_eq!(renderer.size, PhysicalSize::new(400, 300));
    assert_eq!(renderer.context.config.width, 400);
    assert_eq!(renderer.context.config.height, 300);
    assert_eq!(renderer.context.config.present_mode, PresentMode::Fifo);
    let applied = SurfaceConfiguration { width: 400, height: 300, present_mode: PresentMode::Fifo };
    assert_eq!(renderer.context.surface, Some(Surface { configuration: applied }));
    assert_eq!(renderer.context.commands.len(), 2);
    assert_eq!(renderer.context.commands[1], GpuCommand::Configure(applied));
}

#[test]
fn resize_with_a_zero_dimension_changes_nothing() {
    let sizes = [(0, 450), (450, 0), (0, 0)];
    for (w, h) in sizes {
        let mut renderer = renderer_800_600();
        renderer.resize(PhysicalSize::new(w, h));
        assert_eq!(renderer.size, PhysicalSize::new(800, 600));
        assert_eq!(renderer.context.config, config_800_600(PresentMode::Fifo));
        assert_eq!(
            renderer.context.surface,
            Some(Surface { configuration: config_800_600(PresentMode::Fifo) })
        );
        assert_eq!(renderer.context.commands.len(), 1);
    }
}

#[test]
fn resize_sequence_follows_the_usable_sizes() {
    let mut renderer = renderer_800_600();
    let sizes = [(1, 1), (0, 5), (1920, 1080), (7, 0), (u32::MAX, 2), (0, 0)];
    let mut expected = (800, 600);
    for (w, h) in sizes {
        renderer.resize(PhysicalSize::new(w, h));
        if w > 0 && h > 0 {
            expected = (w.max(1), h.max(1));
        }
        assert_eq!((renderer.context.config.width, renderer.context.config.height), expected);
    }
    assert_eq!(expected, (u32::MAX, 2));
    let configures = renderer
        .context
        .commands
        .iter()
        .filter(|c| matches!(c, GpuCommand::Configure(_)))
        .count();
    assert_eq!(configures, 3);
}

#[test]
fn resize_twice_gives_the_same_state() {
    let mut once = renderer_800_600();
    once.resize(PhysicalSize::new(640, 480));
    let mut twice = renderer_800_600();
    twice.resize(PhysicalSize::new(640, 480));
    twice.resize(PhysicalSize::new(640, 480));
    assert_eq!(once.size, twice.size);
    assert_eq!(once.context.config, twice.context.config);
    assert_eq!(once.context.surface, twice.context.surface);
}

#[test]
fn resize_without_surface_stores_and_queues_nothing() {
    let mut renderer = renderer_800_600();
    renderer.context.suspend();
    renderer.take_commands();
    renderer.resize(PhysicalSize::new(320, 200));
    assert_eq!((renderer.context.config.width, renderer.context.config.height), (320, 200));
    assert_eq!(renderer.context.surface, None);
    assert!(renderer.context.commands.is_empty());
}

#[test]
fn suspend_lets_go_of_the_surface_only() {
    let mut renderer = renderer_800_600();
    renderer.context.suspend();
    assert_eq!(renderer.context.surface, None);
    assert!(!renderer.context.is_ready());
    assert_eq!(renderer.context.config, config_800_600(PresentMode::Fifo));
    assert_eq!(renderer.context.commands.len(), 2);
    assert_eq!(renderer.context.commands[1], GpuCommand::ReleaseSurface);
    renderer.context.suspend();
    assert_eq!(renderer.context.commands.len(), 2);
}

#[test]
fn suspend_resume_round_trip() {
    let mut options = WindowConfig::default();
    options.vsync_mode = PresentMode::Immediate;
    let mut context = GraphicsContext::new(PhysicalSize::new(800, 600), &options);
    context.take_commands();
    context.suspend();
    assert_eq!(context.surface, None);
    context.resume(PhysicalSize::new(1024, 0));
    let expected =
        SurfaceConfiguration { width: 1024, height: 1, present_mode: PresentMode::Immediate };
    assert_eq!(context.surface, Some(Surface { configuration: expected }));
    assert_eq!(context.config, expected);
    assert_eq!(
        context.commands,
        vec![GpuCommand::ReleaseSurface, GpuCommand::CreateSurface(expected)]
    );
    assert!(!context.commands.iter().any(|c| matches!(c, GpuCommand::Initialize { .. })));
}

#[test]
fn resume_reads_the_size_given_not_the_stored_one() {
    let mut context = GraphicsContext::new(PhysicalSize::new(800, 600), &WindowConfig::default());
    context.suspend();
    context.resume(PhysicalSize::new(0, 0));
    assert_eq!((context.config.width, context.config.height), (1, 1));
    context.resume(PhysicalSize::new(30, 40));
    assert_eq!((context.config.width, context.config.height), (30, 40));
    assert!(context.is_ready());
}

#[test]
fn present_needs_a_surface() {
    let mut renderer = renderer_800_600();
    let color = Color { r: 9, g: 8, b: 7, a: 6 };
    assert!(renderer.present(color));
    assert_eq!(renderer.context.commands.last(), Some(&GpuCommand::Present(color)));
    renderer.context.suspend();
    let queued = renderer.context.commands.len();
    assert!(!renderer.present(color));
    assert_eq!(renderer.context.commands.len(), queued);
}

#[test]
fn take_commands_hands_over_in_order_and_empties() {
    let mut renderer = renderer_800_600();
    renderer.resize(PhysicalSize::new(10, 20));
    renderer.present(Color::blue());
    let first = config_800_600(PresentMode::Fifo);
    let second = SurfaceConfiguration { width: 10, height: 20, present_mode: PresentMode::Fifo };
    let commands = renderer.take_commands();
    assert_eq!(
        commands,
        vec![
            GpuCommand::Initialize {
                power_preference: PowerPreference::NoPreference,
                configuration: first,
            },
            GpuCommand::Configure(second),
            GpuCommand::Present(Color::blue()),
        ]
    );
    assert!(renderer.context.commands.is_empty());
    assert!(renderer.take_commands().is_empty());
    assert_eq!(renderer.context.config, second);
    assert_eq!(renderer.size, PhysicalSize::new(10, 20));
}
