use render_host::frame_loop::{
    clear_color, pacing_sleep_nanos, FrameLoop, HostEvent, Key, Phase, RenderCommand,
    SurfaceError, CLEAR_COLOR_BA_BITS, CLEAR_COLOR_RG_BITS, TARGET_FRAME_NANOS,
};
use render_host::mesh_builder::{make_quad, make_triangle};
use render_host::surface::{
    AlphaMode, PixelFormat, PresentMode, SurfaceConfiguration, RENDER_ATTACHMENT_USAGE,
};

fn config_800_600() -> SurfaceConfiguration {
    SurfaceConfiguration {
        usage: RENDER_ATTACHMENT_USAGE,
        format: PixelFormat::Bgra8UnormSrgb,
        width: 800,
        height: 600,
        present_mode: PresentMode::Fifo,
        alpha_mode: AlphaMode::Opaque,
        desired_maximum_frame_latency: 2,
    }
}

#[test]
fn a_zero_area_resize_then_a_valid_one_leaves_exactly_the_valid_size() {
    let mut fl = FrameLoop::new(config_800_600());
    let r1 = fl.handle_event(&HostEvent::Resized(0, 300));
    assert!(!r1);
    assert_eq!(fl.config.width, 800);
    assert_eq!(fl.config.height, 600);
    let r2 = fl.handle_event(&HostEvent::Resized(640, 480));
    assert!(r2);
    assert_eq!(fl.config.width, 640);
    assert_eq!(fl.config.height, 480);
    assert!(fl.running);
}

#[test]
fn close_request_stops_the_loop() {
    let mut fl = FrameLoop::new(config_800_600());
    fl.handle_event(&HostEvent::CloseRequested);
    assert!(!fl.running);
    assert_eq!(fl.config, config_800_600());
}

#[test]
fn escape_stops_the_loop_and_other_keys_do_not() {
    let mut fl = FrameLoop::new(config_800_600());
    fl.handle_event(&HostEvent::KeyPressed(Key::Other));
    assert!(fl.running);
    fl.handle_event(&HostEvent::KeyPressed(Key::Escape));
    assert!(!fl.running);
}

#[test]
fn redraw_request_changes_nothing() {
    let mut fl = FrameLoop::new(config_800_600());
    let reconfigure = fl.handle_event(&HostEvent::RedrawRequested);
    assert!(!reconfigure);
    assert!(fl.running);
    assert_eq!(fl.config, config_800_600());
}

#[test]
fn lost_surface_forces_recreation_before_the_next_acquisition() {
    let mut fl = FrameLoop::new(config_800_600());
    fl.start_acquire();
    fl.acquire_failed(&SurfaceError::Lost);
    assert_eq!(fl.phase, Phase::Idle);
    assert!(fl.needs_recreate);
    assert!(fl.running);
    let size = fl.recover();
    assert_eq!(size, (800, 600));
    assert!(!fl.needs_recreate);
}

#[test]
fn outdated_surface_forces_recreation_with_the_last_known_size() {
    let mut fl = FrameLoop::new(config_800_600());
    fl.handle_event(&HostEvent::Resized(640, 480));
    fl.start_acquire();
    fl.acquire_failed(&SurfaceError::Outdated);
    assert!(fl.needs_recreate);
    assert!(fl.running);
    let size = fl.recover();
    assert_eq!(size, (640, 480));
}

#[test]
fn out_of_memory_stops_the_loop() {
    let mut fl = FrameLoop::new(config_800_600());
    fl.start_acquire();
    fl.acquire_failed(&SurfaceError::OutOfMemory);
    assert!(!fl.running);
    assert!(!fl.needs_recreate);
    assert_eq!(fl.phase, Phase::Idle);
}

#[test]
fn timeout_only_skips_the_frame() {
    let mut fl = FrameLoop::new(config_800_600());
    fl.start_acquire();
    fl.acquire_failed(&SurfaceError::Timeout);
    assert!(fl.running);
    assert!(!fl.needs_recreate);
    assert_eq!(fl.phase, Phase::Idle);
}

#[test]
fn a_full_frame_walks_every_phase_and_returns_to_idle() {
    let mut fl = FrameLoop::new(config_800_600());
    assert_eq!(fl.phase, Phase::Idle);
    fl.start_acquire();
    assert_eq!(fl.phase, Phase::Acquiring);
    fl.acquire_succeeded();
    assert_eq!(fl.phase, Phase::Recording);
    let t = make_triangle();
    let _ = fl.record_commands(&t);
    assert_eq!(fl.phase, Phase::Submitting);
    fl.submit_frame();
    assert_eq!(fl.phase, Phase::Presenting);
    fl.present_frame();
    assert_eq!(fl.phase, Phase::Idle);
}

#[test]
fn triangle_frame_commands_draw_three_vertices_without_an_index_buffer() {
    let mut fl = FrameLoop::new(config_800_600());
    fl.start_acquire();
    fl.acquire_succeeded();
    let t = make_triangle();
    let cmds = fl.record_commands(&t);
    assert_eq!(
        cmds,
        vec![
            RenderCommand::BeginRenderPass { clear: clear_color() },
            RenderCommand::SetPipeline,
            RenderCommand::SetVertexBuffer { slot: 0 },
            RenderCommand::Draw { vertex_count: 3, instance_count: 1 },
            RenderCommand::EndRenderPass,
            RenderCommand::Submit,
            RenderCommand::Present,
        ]
    );
}

#[test]
fn quad_frame_commands_bind_the_index_buffer_and_draw_six_indices() {
    let mut fl = FrameLoop::new(config_800_600());
    fl.start_acquire();
    fl.acquire_succeeded();
    let q = make_quad();
    let cmds = fl.record_commands(&q);
    assert_eq!(
        cmds,
        vec![
            RenderCommand::BeginRenderPass { clear: clear_color() },
            RenderCommand::SetPipeline,
            RenderCommand::SetVertexBuffer { slot: 0 },
            RenderCommand::SetIndexBuffer,
            RenderCommand::DrawIndexed { index_count: 6, instance_count: 1 },
            RenderCommand::EndRenderPass,
            RenderCommand::Submit,
            RenderCommand::Present,
        ]
    );
}

#[test]
fn clear_color_is_dim_yellow_with_zero_alpha() {
    let c = clear_color();
    assert_eq!(f64::from_bits(c.r_bits), 0.45);
    assert_eq!(f64::from_bits(c.g_bits), 0.45);
    assert_eq!(f64::from_bits(c.b_bits), 0.0);
    assert_eq!(f64::from_bits(c.a_bits), 0.0);
    assert_eq!(c.r_bits, CLEAR_COLOR_RG_BITS);
    assert_eq!(c.b_bits, CLEAR_COLOR_BA_BITS);
}

#[test]
fn pacing_pads_a_fast_iteration_up_to_the_target() {
    let sleep = pacing_sleep_nanos(10_000_000);
    assert_eq!(sleep, TARGET_FRAME_NANOS - 10_000_000);
    assert_eq!(10_000_000 + sleep, TARGET_FRAME_NANOS);
    assert_eq!(pacing_sleep_nanos(0), TARGET_FRAME_NANOS);
}

#[test]
fn pacing_sleeps_not_at_all_once_the_target_is_met() {
    assert_eq!(pacing_sleep_nanos(TARGET_FRAME_NANOS), 0);
    assert_eq!(pacing_sleep_nanos(TARGET_FRAME_NANOS + 1), 0);
    assert_eq!(pacing_sleep_nanos(u64::MAX), 0);
}

#[test]
fn target_interval_is_a_sixtieth_of_a_second() {
    assert_eq!(TARGET_FRAME_NANOS, 16_666_667);
}
