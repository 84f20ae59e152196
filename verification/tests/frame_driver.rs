use blueprint::input::{
    after_update_action, close_action, frame_due, frame_wait, requested_window, scene_index,
    KeyCache, MKBState, WindowAction, WinitConfig,
};
use blueprint::pipeline::{
    vertex_stride, RCullMode, RPipelineSetup, RPolyMode, RShader, RShaderKind, RTopology, ShaderType,
};
use blueprint::surface::{
    first_with, screen_format, window_format, RFormatTrait, RFormatTraits, RSurfaceFault,
    RSurfaceRecovery,
};
use blueprint::text::{
    glyph_pixel, pixel_buffer_len, pixel_offset, resolve_font, StringPlacement, TextError,
};
use blueprint::words::{RColor, Vec2};

fn fmt(rgba8_srgb: bool, rgba8: bool, srgb: bool) -> RFormatTraits {
    RFormatTraits { rgba8_srgb, rgba8, srgb }
}

#[test]
fn button_state_machine() {
    assert_eq!(MKBState::Idle.on_event(true, false), MKBState::Pressed);
    assert_eq!(MKBState::Down.on_event(true, true), MKBState::Down);
    assert_eq!(MKBState::Idle.on_event(true, true), MKBState::Idle);
    assert_eq!(MKBState::Down.on_event(false, false), MKBState::Released);
    assert_eq!(MKBState::Pressed.on_event(false, true), MKBState::Released);
    assert_eq!(MKBState::Pressed.end_frame(), MKBState::Down);
    assert_eq!(MKBState::Released.end_frame(), MKBState::Idle);
    assert_eq!(MKBState::Down.end_frame(), MKBState::Down);
    assert_eq!(MKBState::Idle.end_frame(), MKBState::Idle);
    assert!(MKBState::Pressed.is_held() && MKBState::Down.is_held());
    assert!(!MKBState::Released.is_held() && !MKBState::Idle.is_held());
}

#[test]
fn key_cache_follows_a_key_through_frames() {
    let mut c = KeyCache::new();
    assert_eq!(c.state(30), MKBState::Idle);
    c.on_key(30, true, false);
    c.on_key(31, true, false);
    assert_eq!(c.state(30), MKBState::Pressed);
    c.on_key(30, true, true);
    assert_eq!(c.state(30), MKBState::Pressed);
    c.end_frame();
    assert_eq!(c.state(30), MKBState::Down);
    c.on_key(30, true, true);
    assert_eq!(c.state(30), MKBState::Down);
    c.on_key(30, false, false);
    assert_eq!(c.state(30), MKBState::Released);
    assert_eq!(c.find(31), Some(1));
    c.end_frame();
    assert_eq!(c.state(30), MKBState::Idle);
    assert_eq!(c.find(30), None);
    assert_eq!(c.state(31), MKBState::Down);
    assert_eq!(c.keys, vec![31]);
    c.on_key(99, true, true);
    assert_eq!(c.find(99), None);
    c.on_key(99, false, false);
    assert_eq!(c.state(99), MKBState::Released);
}

#[test]
fn frame_pacing() {
    assert_eq!(frame_wait(None), 0);
    assert_eq!(frame_wait(Some(120)), 8333);
    assert_eq!(frame_wait(Some(60)), 16666);
    assert_eq!(frame_wait(Some(1)), 1_000_000);
    assert_eq!(frame_wait(Some(2_000_000)), 0);
    assert!(frame_due(8334, 8333));
    assert!(!frame_due(8333, 8333));
    assert!(frame_due(1, 0));
    assert!(!frame_due(0, 0));
}

#[test]
fn scene_dispatch() {
    assert_eq!(scene_index(-1, 2), None);
    assert_eq!(scene_index(0, 2), Some(0));
    assert_eq!(scene_index(1, 2), Some(1));
    assert_eq!(scene_index(2, 2), None);
    assert_eq!(scene_index(0, 0), None);
    assert_eq!(scene_index(i32::MIN, 5), None);
    assert_eq!(requested_window(-1), None);
    assert_eq!(requested_window(0), Some(0));
    assert_eq!(requested_window(3), Some(3));
}

#[test]
fn window_closing() {
    assert_eq!(close_action(true, 3), WindowAction::ExitLoop);
    assert_eq!(close_action(false, 3), WindowAction::CloseWindow);
    assert_eq!(close_action(false, 1), WindowAction::ExitLoop);
    assert_eq!(after_update_action(false, true), WindowAction::Keep);
    assert_eq!(after_update_action(false, false), WindowAction::Keep);
    assert_eq!(after_update_action(true, true), WindowAction::ExitLoop);
    assert_eq!(after_update_action(true, false), WindowAction::CloseWindow);
}

#[test]
fn window_config_defaults() {
    let c = WinitConfig::default();
    assert_eq!(c.size, (800, 600));
    assert_eq!(c.min_size, (400, 300));
    assert_eq!(c.max_fps, None);
    assert_eq!(c.title, "Blueprint");
    assert_eq!(c.icon, None);
    assert!(!c.debug);
    assert!(c.resizable);
    let mut other = c.clone();
    other.icon = Some("icon.ico".to_owned());
    other.title = "Other".to_owned();
    let copy = other.clone();
    assert_eq!(copy.icon.as_deref(), Some("icon.ico"));
    assert_eq!(copy.title, "Other");
    assert_eq!(c.title, "Blueprint");
}

#[test]
fn pipeline_setup_defaults() {
    let s = RPipelineSetup::default();
    assert_eq!(s.shader, RShader::Texture);
    assert_eq!(s.cull_mode, RCullMode::Off);
    assert_eq!(s.poly_mode, RPolyMode::Fill);
    assert_eq!(s.vertex_fn, "vertexMain");
    assert_eq!(s.fragment_fn, "fragmentMain");
    assert!(!s.has_animations);
    assert_eq!(s.max_obj_count, None);
}

#[test]
fn pipeline_modes() {
    assert_eq!(RPolyMode::Fill.topology(), RTopology::TriangleList);
    assert_eq!(RPolyMode::Line.topology(), RTopology::LineList);
    assert_eq!(RPolyMode::Point.topology(), RTopology::PointList);
    assert!(!RCullMode::Off.culls());
    assert!(RCullMode::Front.culls() && RCullMode::Back.culls());
    assert_eq!(vertex_stride(false), 32);
    assert_eq!(vertex_stride(true), 64);
    assert_eq!(RShader::Custom("abc").custom_source(), Some("abc"));
    assert_eq!(RShader::Text.custom_source(), None);
    assert_eq!(RShader::Custom("abc").kind(), RShaderKind::Custom);
    assert_eq!(RShader::Texture.kind(), RShaderKind::Texture);
    assert_eq!(RShader::Text.kind(), RShaderKind::Text);
    assert_eq!(RShader::FlatColor.kind(), RShaderKind::FlatColor);
    assert_eq!(ShaderType::Custom("xyz").custom_source(), Some("xyz"));
    assert_eq!(ShaderType::Overlay.custom_source(), None);
    assert_eq!(ShaderType::Default.custom_source(), None);
}

#[test]
fn surface_format_choice() {
    let plain = fmt(false, false, false);
    let srgb = fmt(false, false, true);
    let rgba8 = fmt(false, true, false);
    let rgba8_srgb = fmt(true, false, true);
    assert_eq!(screen_format(&vec![plain, srgb, rgba8_srgb]), 1);
    assert_eq!(screen_format(&vec![plain, rgba8]), 0);
    assert_eq!(window_format(&vec![plain, srgb, rgba8, rgba8_srgb]), 3);
    assert_eq!(window_format(&vec![plain, srgb, rgba8, rgba8]), 2);
    assert_eq!(window_format(&vec![plain, plain, srgb]), 2);
    assert_eq!(window_format(&vec![plain, plain]), 0);
    assert_eq!(first_with(&vec![plain, rgba8], RFormatTrait::Rgba8), Some(1));
    assert_eq!(first_with(&vec![plain, rgba8], RFormatTrait::Srgb), None);
    assert_eq!(first_with(&Vec::new(), RFormatTrait::Rgba8Srgb), None);
}

#[test]
fn text_decisions() {
    assert_eq!(resolve_font(2, 0), 0);
    assert_eq!(resolve_font(2, 1), 1);
    assert_eq!(resolve_font(2, 2), 0);
    assert_eq!(resolve_font(0, 5), 0);
    assert_eq!(glyph_pixel([1, 2, 3], 9), [0, 0, 0, 0]);
    assert_eq!(glyph_pixel([1, 2, 3], 10), [1, 2, 3, 10]);
    assert_eq!(glyph_pixel([1, 2, 3], 255), [1, 2, 3, 255]);
    assert_eq!(pixel_offset(0, 0, 10, 400), Ok(0));
    assert_eq!(pixel_offset(3, 2, 10, 400), Ok(92));
    assert_eq!(pixel_offset(9, 9, 10, 400), Ok(396));
    assert_eq!(pixel_offset(9, 9, 10, 399), Err(TextError::ExceedsBounds));
    assert_eq!(pixel_offset(0, 10, 10, 400), Err(TextError::ExceedsBounds));
    assert_eq!(pixel_offset(-1, 0, 10, 400), Err(TextError::ExceedsBounds));
    assert_eq!(pixel_offset(0, -1, 10, 400), Err(TextError::ExceedsBounds));
    assert_eq!(
        pixel_offset(i32::MAX, i32::MAX, u32::MAX, usize::MAX),
        Err(TextError::ExceedsBounds)
    );
    assert_eq!(pixel_buffer_len(10, 10), 400);
    assert_eq!(pixel_buffer_len(0, 10), 0);
    let p = StringPlacement::default();
    assert_eq!(p.string, "");
    assert_eq!(f32::from_bits(p.size), 18.0);
    assert_eq!(f32::from_bits(p.spacing), 2.0);
    assert_eq!(p.color, RColor::white());
    assert_eq!(p.base_point, Vec2::zero());
    assert_ne!(TextError::FileNotFound, TextError::FileLoadError);
    assert_ne!(TextError::GlyphOutlineError, TextError::ExceedsBounds);
}

#[test]
fn surface_faults() {
    assert_eq!(RSurfaceFault::Lost.recovery(), RSurfaceRecovery::Reconfigure);
    assert_eq!(RSurfaceFault::Outdated.recovery(), RSurfaceRecovery::Reconfigure);
    assert_eq!(RSurfaceFault::OutOfMemory.recovery(), RSurfaceRecovery::Exit);
    assert_eq!(RSurfaceFault::Timeout.recovery(), RSurfaceRecovery::Skip);
    assert_eq!(RSurfaceFault::Other.recovery(), RSurfaceRecovery::Skip);
}
