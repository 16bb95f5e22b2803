use wgpu::TextureFormat;
use wgpu_graph::pass::PassCommand;
use wgpu_graph::state::{
    AlphaMode, Color, PresentMode, RenderError, State, StateError, SurfaceSize, MAX_FRAME_LATENCY,
};

fn state_at(width: u32, height: u32) -> State {
    State::new(&vec![TextureFormat::Bgra8Unorm, TextureFormat::Rgba8Unorm], SurfaceSize::new(width, height))
        .unwrap()
}

fn axis_commands() -> Vec<PassCommand> {
    vec![
        PassCommand::SetPipeline,
        PassCommand::SetVertexBuffer { slot: 0 },
        PassCommand::Draw { first_vertex: 0, end_vertex: 4, first_instance: 0, end_instance: 1 },
        PassCommand::Draw { first_vertex: 4, end_vertex: 8, first_instance: 0, end_instance: 1 },
    ]
}

#[test]
fn no_surface_format_is_fatal() {
    let r = State::new(&Vec::new(), SurfaceSize::new(800, 600));
    assert!(matches!(r, Err(StateError::NoSurfaceFormat)));
}

#[test]
fn first_reported_format_is_chosen_with_srgb_views() {
    let s = state_at(800, 600);
    assert_eq!(s.surface_format(), TextureFormat::Bgra8Unorm);
    let c = s.config().unwrap();
    assert_eq!(c.format, TextureFormat::Bgra8Unorm);
    assert_eq!(c.view_format, TextureFormat::Bgra8UnormSrgb);
    assert!(c.render_attachment);
    assert_eq!(c.alpha_mode, AlphaMode::Auto);
    assert_eq!(c.present_mode, PresentMode::AutoVsync);
    assert_eq!(c.max_frame_latency, 2);
    assert_eq!(MAX_FRAME_LATENCY, 2);
    assert_eq!((c.width, c.height), (800, 600));
}

#[test]
fn srgb_format_keeps_its_views() {
    let s = State::new(&vec![TextureFormat::Rgba8UnormSrgb], SurfaceSize::new(1, 1)).unwrap();
    assert_eq!(s.config().unwrap().view_format, TextureFormat::Rgba8UnormSrgb);
    let s = State::new(&vec![TextureFormat::Rgba8Unorm], SurfaceSize::new(1, 1)).unwrap();
    assert_eq!(s.render().unwrap().view_format, TextureFormat::Rgba8UnormSrgb);
}

#[test]
fn configure_twice_is_configure_once() {
    let mut s = state_at(640, 480);
    let first = s.configure_surface().unwrap();
    let second = s.configure_surface().unwrap();
    assert_eq!((first.width, first.height), (second.width, second.height));
    assert_eq!(first.format, second.format);
    assert_eq!(first.view_format, second.view_format);
    assert_eq!(s.size(), SurfaceSize::new(640, 480));
    let c = s.config().unwrap();
    assert_eq!((c.width, c.height), (640, 480));
}

#[test]
fn resize_then_render_uses_the_new_size() {
    let mut s = state_at(800, 600);
    let c = s.resize(SurfaceSize::new(1920, 1080)).unwrap();
    assert_eq!((c.width, c.height), (1920, 1080));
    let frame = s.render().unwrap();
    assert_eq!((frame.width, frame.height), (1920, 1080));
    let c = s.resize(SurfaceSize::new(1, u32::MAX)).unwrap();
    assert_eq!((c.width, c.height), (1, u32::MAX));
    let frame = s.render().unwrap();
    assert_eq!((frame.width, frame.height), (1, u32::MAX));
}

#[test]
fn unconfigured_surface_cannot_render() {
    let s = state_at(0, 0);
    assert!(s.config().is_none());
    assert!(matches!(s.render(), Err(RenderError::NotConfigured)));
    let s = state_at(5, 0);
    assert!(matches!(s.render(), Err(RenderError::NotConfigured)));
}

#[test]
fn first_resize_with_area_configures_an_empty_surface() {
    let mut s = state_at(0, 0);
    assert!(s.resize(SurfaceSize::new(0, 7)).is_none());
    assert!(s.render().is_err());
    assert!(s.resize(SurfaceSize::new(3, 7)).is_some());
    let frame = s.render().unwrap();
    assert_eq!((frame.width, frame.height), (3, 7));
}

#[test]
fn end_to_end_resize_cycle() {
    let mut s = state_at(800, 600);

    let frame = s.render().unwrap();
    assert_eq!((frame.width, frame.height), (800, 600));
    assert_eq!(frame.clear, Color { r: 0, g: 0, b: 255, a: 255 });
    assert_eq!(frame.commands, axis_commands());
    assert_eq!(frame.view_format, TextureFormat::Bgra8UnormSrgb);

    let c = s.resize(SurfaceSize::new(400, 300)).unwrap();
    assert_eq!((c.width, c.height), (400, 300));
    let frame = s.render().unwrap();
    assert_eq!((frame.width, frame.height), (400, 300));
    assert_eq!(frame.commands, axis_commands());

    assert!(s.resize(SurfaceSize::new(0, 0)).is_none());
    assert_eq!(s.size(), SurfaceSize::new(0, 0));
    let c = s.config().unwrap();
    assert_eq!((c.width, c.height), (400, 300));

    let c = s.resize(SurfaceSize::new(1024, 768)).unwrap();
    assert_eq!((c.width, c.height), (1024, 768));
    let frame = s.render().unwrap();
    assert_eq!((frame.width, frame.height), (1024, 768));
    assert_eq!(frame.clear, Color { r: 0, g: 0, b: 255, a: 255 });
    assert_eq!(frame.commands, axis_commands());
}

#[test]
fn axis_renderer_follows_the_surface_format() {
    let s = State::new(&vec![TextureFormat::Rgba8Unorm], SurfaceSize::new(10, 10)).unwrap();
    assert_eq!(s.axis().pipeline().targets[0].format, TextureFormat::Rgba8Unorm);
    assert_eq!(s.axis().vertex_count(), 8);
}
