use raycore::camera::{CameraMode, CameraProjection};
use raycore::color::{rgb, Color};
use raycore::events::{AutomationEvent, AutomationEventType, CustomEventType, WindowEventType};
use raycore::gif::MsfGifBuffer;
use raycore::graphics::{Image, PixelFormat, RenderTexture, Texture};
use raycore::rlgl::GlVersion;
use raycore::units::{Ratio, Second};

#[test]
fn rgb_is_opaque() {
    let c = rgb(230, 41, 55);
    assert_eq!(c, Color { r: 230, g: 41, b: 55, a: 255 });
    assert!(c.is_opaque());
}

#[test]
fn color_new_keeps_channels() {
    let c = Color::new(0, 0, 0, 0);
    assert_eq!(c, Color { r: 0, g: 0, b: 0, a: 0 });
    assert!(!c.is_opaque());
}

#[test]
fn pixel_format_codes_start_at_one() {
    assert_eq!(PixelFormat::UncompressedGrayscale.code(), 1);
    assert_eq!(PixelFormat::UncompressedR8G8B8A8.code(), 7);
    assert_eq!(PixelFormat::CompressedDxt1RGB.code(), 14);
    assert_eq!(PixelFormat::CompressedAstc8x8RGBA.code(), 24);
}

#[test]
fn texture_descriptors_hold_their_fields() {
    let texture = Texture {
        id: 3,
        width: 64,
        height: 32,
        mipmap: 1,
        format: PixelFormat::UncompressedR8G8B8A8,
    };
    let target = RenderTexture { id: 7, texture, depth: texture };
    assert_eq!(target.texture.width, 64);
    assert_eq!(target.depth.format, PixelFormat::UncompressedR8G8B8A8);

    let image = Image {
        data: vec![0u8; 16],
        width: 2,
        height: 2,
        mipmap: 1,
        format: PixelFormat::UncompressedR8G8B8A8,
    };
    assert_eq!(image.data.len(), 16);
}

#[test]
fn automation_event_records_frame_and_params() {
    let e = AutomationEvent::new(
        12,
        AutomationEventType::Window(WindowEventType::Resize),
        [800, 600, 0, 0],
    );
    assert_eq!(e.frame, 12);
    assert_eq!(e.ty, AutomationEventType::Window(WindowEventType::Resize));
    assert_eq!(e.params, [800, 600, 0, 0]);

    let custom = AutomationEvent::new(
        0,
        AutomationEventType::Custom(CustomEventType::SetTargetFps),
        [60, 0, 0, 0],
    );
    assert_eq!(custom.params[0], 60);
}

#[test]
fn gif_buffer_starts_empty() {
    let b = MsfGifBuffer::new();
    assert!(b.data.is_empty());
}

#[test]
fn ratio_pairs_quantity_with_marker() {
    let speed: Ratio<f32, Second> = Ratio::new(5.4, Second);
    assert_eq!(speed.quantity(), 5.4);
    let turn: Ratio<f32, Second> = Ratio(0.5, Second);
    assert_eq!(turn.0, 0.5);
}

#[test]
fn per_unit_is_the_rate_per_one_unit() {
    let speed: Ratio<f32, Second> = Ratio(5.4, Second);
    assert_eq!(speed.per_unit(), 5.4);
    let steps: Ratio<u32, Second> = Ratio(60, Second);
    assert_eq!(steps.per_unit(), 60);
}

#[test]
fn defaults_match_engine_conventions() {
    assert_eq!(Color::default(), Color { r: 0, g: 0, b: 0, a: 0 });
    assert_eq!(raycore::TraceLogType::default(), raycore::TraceLogType::Info);
    assert_eq!(raycore::TraceLogLevel::default(), raycore::TraceLogLevel::Info);
    assert_eq!(
        raycore::input::MouseCursor::default(),
        raycore::input::MouseCursor::Standard
    );
    assert_eq!(raycore::window::ConfigFlags::default().0, 0);
    assert_eq!(raycore::window::Point::default(), raycore::window::Point { x: 0, y: 0 });
    let w = raycore::window::Window::default();
    assert!(!w.ready);
    assert_eq!(w.title, "");
}

#[test]
fn camera_and_gl_identifiers_compare() {
    assert_ne!(CameraProjection::Perspective, CameraProjection::Orthographic);
    assert_ne!(CameraMode::Free, CameraMode::Orbital);
    assert_ne!(GlVersion::Gl33, GlVersion::GlES2_0);
}
