use ked_core::config::MIN_WINDOW_SIZE;
use ked_core::{Color, Msaa, PowerPreference, PresentMode, ResolutionConfig, WindowConfig};

#[test]
fn width_and_height_of_both_kinds() {
    let physical = ResolutionConfig::Physical(1280, 720);
    assert_eq!(physical.width(), 1280);
    assert_eq!(physical.height(), 720);
    let logical = ResolutionConfig::Logical(640, 480);
    assert_eq!(logical.width(), 640);
    assert_eq!(logical.height(), 480);
}

#[test]
fn ensure_non_zero_replaces_zero_width() {
    let mut r = ResolutionConfig::Physical(0, 600);
    let out = r.ensure_non_zero();
    assert_eq!(out, ResolutionConfig::Physical(1, 1));
    assert_eq!(r, ResolutionConfig::Physical(1, 1));
}

#[test]
fn ensure_non_zero_replaces_zero_height() {
    let mut r = ResolutionConfig::Logical(800, 0);
    let out = r.ensure_non_zero();
    assert_eq!(out, ResolutionConfig::Logical(1, 1));
    assert_eq!(r, ResolutionConfig::Logical(1, 1));
}

#[test]
fn ensure_non_zero_replaces_both_zero() {
    let mut r = ResolutionConfig::Physical(0, 0);
    assert_eq!(r.ensure_non_zero(), ResolutionConfig::Physical(1, 1));
    let mut l = ResolutionConfig::Logical(0, 0);
    assert_eq!(l.ensure_non_zero(), ResolutionConfig::Logical(1, 1));
}

#[test]
fn ensure_non_zero_is_identity_on_positive_sizes() {
    let mut r = ResolutionConfig::Physical(800, 600);
    assert_eq!(r.ensure_non_zero(), ResolutionConfig::Physical(800, 600));
    assert_eq!(r, ResolutionConfig::Physical(800, 600));
    let mut one = ResolutionConfig::Logical(1, 1);
    assert_eq!(one.ensure_non_zero(), ResolutionConfig::Logical(1, 1));
    let mut big = ResolutionConfig::Physical(u32::MAX, 1);
    assert_eq!(big.ensure_non_zero(), ResolutionConfig::Physical(u32::MAX, 1));
}

#[test]
fn ensure_non_zero_twice_is_once() {
    let mut r = ResolutionConfig::Logical(0, 9);
    let first = r.ensure_non_zero();
    let second = r.ensure_non_zero();
    assert_eq!(first, second);
    assert!(r.width() >= MIN_WINDOW_SIZE && r.height() >= MIN_WINDOW_SIZE);
}

#[test]
fn msaa_sample_counts() {
    assert_eq!(u32::from(Msaa::Off), 1);
    assert_eq!(u32::from(Msaa::Sample2), 2);
    assert_eq!(u32::from(Msaa::Sample4), 4);
    assert_eq!(u32::from(Msaa::Sample8), 8);
    assert_eq!(Msaa::Sample8.samples(), 8);
    let n: u32 = Msaa::Sample2.into();
    assert_eq!(n, 2);
}

#[test]
fn enum_defaults() {
    assert_eq!(Msaa::default(), Msaa::Sample4);
    assert_eq!(PresentMode::default(), PresentMode::Fifo);
    assert_eq!(PowerPreference::default(), PowerPreference::NoPreference);
}

#[test]
fn window_config_defaults() {
    let config = WindowConfig::default();
    assert_eq!(config.title_name, "New Game");
    assert_eq!(config.version, "New Version");
    assert!(!config.fullscreen);
    assert_eq!(config.resolution, ResolutionConfig::Physical(1280, 720));
    assert_eq!(config.min_resolution, ResolutionConfig::Physical(100, 100));
    assert_eq!(config.sample_count, Msaa::Sample4);
    assert_eq!(config.vsync_mode, PresentMode::Fifo);
    assert_eq!(config.power_preference, PowerPreference::NoPreference);
    assert_eq!(config.clear_color, Color::blue());
    assert_eq!(config.clear_color, Color { r: 0, g: 0, b: 255, a: 255 });
}

#[test]
fn window_config_clone_keeps_every_field() {
    let mut config = WindowConfig::default();
    config.title_name = String::from("Other");
    config.fullscreen = true;
    config.resolution = ResolutionConfig::Logical(3, 4);
    config.vsync_mode = PresentMode::Mailbox;
    config.power_preference = PowerPreference::HighPerformance;
    config.sample_count = Msaa::Off;
    config.clear_color = Color { r: 1, g: 2, b: 3, a: 4 };
    let copy = config.clone();
    assert_eq!(copy.title_name, "Other");
    assert_eq!(copy.version, "New Version");
    assert!(copy.fullscreen);
    assert_eq!(copy.resolution, ResolutionConfig::Logical(3, 4));
    assert_eq!(copy.min_resolution, ResolutionConfig::Physical(100, 100));
    assert_eq!(copy.vsync_mode, PresentMode::Mailbox);
    assert_eq!(copy.power_preference, PowerPreference::HighPerformance);
    assert_eq!(copy.sample_count, Msaa::Off);
    assert_eq!(copy.clear_color, Color { r: 1, g: 2, b: 3, a: 4 });
}
