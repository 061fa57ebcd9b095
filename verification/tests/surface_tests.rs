use render_host::surface::{
    choose_surface_format, initial_config, AlphaMode, PixelFormat, PresentMode,
    SurfaceConfiguration, DESIRED_MAXIMUM_FRAME_LATENCY, RENDER_ATTACHMENT_USAGE,
};

fn sample_config() -> SurfaceConfiguration {
    SurfaceConfiguration {
        usage: RENDER_ATTACHMENT_USAGE,
        format: PixelFormat::Bgra8UnormSrgb,
        width: 800,
        height: 600,
        present_mode: PresentMode::Fifo,
        alpha_mode: AlphaMode::Opaque,
        desired_maximum_frame_latency: DESIRED_MAXIMUM_FRAME_LATENCY,
    }
}

#[test]
fn resize_zero_width_is_a_no_op() {
    let mut c = sample_config();
    let applied = c.resize(0, 300);
    assert!(!applied);
    assert_eq!(c, sample_config());
}

#[test]
fn resize_zero_height_is_a_no_op() {
    let mut c = sample_config();
    let applied = c.resize(300, 0);
    assert!(!applied);
    assert_eq!(c, sample_config());
}

#[test]
fn resize_zero_both_is_a_no_op() {
    let mut c = sample_config();
    let applied = c.resize(0, 0);
    assert!(!applied);
    assert_eq!(c, sample_config());
}

#[test]
fn resize_valid_sets_dimensions_exactly() {
    let mut c = sample_config();
    let applied = c.resize(1024, 768);
    assert!(applied);
    assert_eq!(c.width, 1024);
    assert_eq!(c.height, 768);
    assert_eq!(c.format, PixelFormat::Bgra8UnormSrgb);
    assert_eq!(c.usage, RENDER_ATTACHMENT_USAGE);
    assert_eq!(c.present_mode, PresentMode::Fifo);
    assert_eq!(c.alpha_mode, AlphaMode::Opaque);
}

#[test]
fn resize_to_one_by_one_is_valid() {
    let mut c = sample_config();
    let applied = c.resize(1, 1);
    assert!(applied);
    assert_eq!(c.width, 1);
    assert_eq!(c.height, 1);
}

#[test]
fn srgb_flags() {
    assert!(PixelFormat::Rgba8UnormSrgb.is_srgb());
    assert!(PixelFormat::Bgra8UnormSrgb.is_srgb());
    assert!(!PixelFormat::Rgba8Unorm.is_srgb());
    assert!(!PixelFormat::Bgra8Unorm.is_srgb());
    assert!(!PixelFormat::Rgba16Float.is_srgb());
    assert!(!PixelFormat::Other.is_srgb());
}

#[test]
fn format_selection_prefers_first_srgb() {
    let formats = vec![
        PixelFormat::Bgra8Unorm,
        PixelFormat::Bgra8UnormSrgb,
        PixelFormat::Rgba8UnormSrgb,
    ];
    assert_eq!(choose_surface_format(&formats), PixelFormat::Bgra8UnormSrgb);
}

#[test]
fn format_selection_falls_back_to_first() {
    let formats = vec![
        PixelFormat::Rgba16Float,
        PixelFormat::Bgra8Unorm,
        PixelFormat::Rgba8Unorm,
    ];
    assert_eq!(choose_surface_format(&formats), PixelFormat::Rgba16Float);
}

#[test]
fn format_selection_single_format() {
    let formats = vec![PixelFormat::Rgba8Unorm];
    assert_eq!(choose_surface_format(&formats), PixelFormat::Rgba8Unorm);
}

#[test]
fn initial_config_at_800_by_600_reports_that_size_and_an_srgb_format() {
    let formats = vec![PixelFormat::Bgra8Unorm, PixelFormat::Bgra8UnormSrgb];
    let present_modes = vec![PresentMode::Fifo, PresentMode::Mailbox];
    let alpha_modes = vec![AlphaMode::Opaque, AlphaMode::Auto];
    let c = initial_config(&formats, &present_modes, &alpha_modes, 800, 600);
    assert_eq!(c.width, 800);
    assert_eq!(c.height, 600);
    assert!(c.format.is_srgb());
    assert_eq!(c.format, PixelFormat::Bgra8UnormSrgb);
    assert_eq!(c.usage, RENDER_ATTACHMENT_USAGE);
    assert_eq!(c.present_mode, PresentMode::Fifo);
    assert_eq!(c.alpha_mode, AlphaMode::Opaque);
    assert_eq!(c.desired_maximum_frame_latency, 2);
}

#[test]
fn initial_config_without_srgb_takes_first_format() {
    let formats = vec![PixelFormat::Rgba8Unorm, PixelFormat::Bgra8Unorm];
    let present_modes = vec![PresentMode::AutoVsync];
    let alpha_modes = vec![AlphaMode::Inherit];
    let c = initial_config(&formats, &present_modes, &alpha_modes, 320, 240);
    assert_eq!(c.format, PixelFormat::Rgba8Unorm);
    assert_eq!(c.present_mode, PresentMode::AutoVsync);
    assert_eq!(c.alpha_mode, AlphaMode::Inherit);
}

#[test]
fn initial_config_clamps_zero_window_size() {
    let formats = vec![PixelFormat::Rgba8UnormSrgb];
    let present_modes = vec![PresentMode::Fifo];
    let alpha_modes = vec![AlphaMode::Opaque];
    let c = initial_config(&formats, &present_modes, &alpha_modes, 0, 0);
    assert_eq!(c.width, 1);
    assert_eq!(c.height, 1);
}
