use wgpu_multiplatform::frame::{Demo, Effect, FramePlan, UniformsRaw};
use wgpu_multiplatform::surface::{Platform, PresentMode, SurfaceConfig, TextureFormat};

#[test]
fn platform_formats() {
    assert_eq!(Platform::Native.swap_chain_format(), TextureFormat::Bgra8UnormSrgb);
    assert_eq!(Platform::Web.swap_chain_format(), TextureFormat::Bgra8Unorm);
}

#[test]
fn surface_new_uses_mailbox() {
    let c = SurfaceConfig::new(TextureFormat::Bgra8Unorm, 800, 600);
    assert_eq!(c.format, TextureFormat::Bgra8Unorm);
    assert_eq!((c.width, c.height), (800, 600));
    assert_eq!(c.present_mode, PresentMode::Mailbox);
}

#[test]
fn surface_resize_keeps_format_and_mode() {
    let mut c = SurfaceConfig::new(TextureFormat::Bgra8UnormSrgb, 800, 600);
    c.resize(1024, 0);
    assert_eq!((c.width, c.height), (1024, 0));
    assert_eq!(c.format, TextureFormat::Bgra8UnormSrgb);
    assert_eq!(c.present_mode, PresentMode::Mailbox);
}

#[test]
fn vertex_counts() {
    assert_eq!(Effect::Still.vertex_count(), 3);
    assert_eq!(Effect::Animated.vertex_count(), 6);
    assert!(!Effect::Still.uses_time_uniform());
    assert!(Effect::Animated.uses_time_uniform());
}

#[test]
fn uniforms_accumulate_and_saturate() {
    let mut u = UniformsRaw::new();
    assert_eq!(u.i_time_ns, 0);
    u.update(16_000_000);
    u.update(17_000_000);
    assert_eq!(u.i_time_ns, 33_000_000);
    u.update(u64::MAX);
    assert_eq!(u.i_time_ns, u64::MAX);
}

#[test]
fn demo_resize_updates_stored_size() {
    let mut d = Demo::new(Effect::Animated, TextureFormat::Bgra8Unorm, 800, 600, 5);
    d.resize(320, 240);
    assert_eq!((d.config.width, d.config.height), (320, 240));
    assert_eq!(d.config.format, TextureFormat::Bgra8Unorm);
    assert_eq!(d.last_time_ns, 5);
    assert_eq!(d.uniforms.i_time_ns, 0);
}

#[test]
fn still_frame_draws_three_vertices() {
    let mut d = Demo::new(Effect::Still, TextureFormat::Bgra8UnormSrgb, 800, 600, 0);
    let before = d;
    let p = d.render(true, 1_000);
    assert_eq!(
        p,
        FramePlan::Draw { vertex_count: 3, instance_count: 1, bind_uniforms: false, upload_time: None }
    );
    assert_eq!(d, before);
}

#[test]
fn animated_frames_advance_time() {
    let mut d = Demo::new(Effect::Animated, TextureFormat::Bgra8Unorm, 800, 600, 1_000);
    let p = d.render(true, 17_000);
    assert_eq!(
        p,
        FramePlan::Draw { vertex_count: 6, instance_count: 1, bind_uniforms: true, upload_time: Some(16_000) }
    );
    let p = d.render(true, 20_000);
    assert_eq!(
        p,
        FramePlan::Draw { vertex_count: 6, instance_count: 1, bind_uniforms: true, upload_time: Some(19_000) }
    );
    assert_eq!(d.last_time_ns, 20_000);
    assert_eq!(d.uniforms.i_time_ns, 19_000);
}

#[test]
fn failed_acquisition_skips_frame() {
    let mut d = Demo::new(Effect::Animated, TextureFormat::Bgra8Unorm, 800, 600, 1_000);
    let before = d;
    assert_eq!(d.render(false, 90_000), FramePlan::Skip);
    assert_eq!(d, before);
    // the skipped frame's time is counted by the next rendered one
    let p = d.render(true, 91_000);
    assert_eq!(
        p,
        FramePlan::Draw { vertex_count: 6, instance_count: 1, bind_uniforms: true, upload_time: Some(90_000) }
    );
}

#[test]
fn clock_going_backwards_adds_nothing() {
    let mut d = Demo::new(Effect::Animated, TextureFormat::Bgra8Unorm, 800, 600, 5_000);
    d.render(true, 6_000);
    let p = d.render(true, 4_000);
    assert_eq!(
        p,
        FramePlan::Draw { vertex_count: 6, instance_count: 1, bind_uniforms: true, upload_time: Some(1_000) }
    );
    assert_eq!(d.last_time_ns, 4_000);
}
