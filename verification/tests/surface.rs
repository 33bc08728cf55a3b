use piet_wgpu::device::DeviceCreationError;
use piet_wgpu::surface::{
    choose_format, pick_format, AlphaMode, PresentMode, Surface, SurfaceAction,
    SurfaceCreationError, FRAME_LATENCY, RENDER_ATTACHMENT,
};
use wgpu::TextureFormat;

fn surface_800_600() -> Surface<u8> {
    match Surface::create(
        Some(7u8),
        Ok(3),
        &vec![TextureFormat::Bgra8Unorm, TextureFormat::Bgra8UnormSrgb],
        800,
        600,
    ) {
        Ok(s) => s,
        Err(e) => panic!("no surface: {:?}", e),
    }
}

#[test]
fn pick_format_takes_the_first_preferred() {
    let a = TextureFormat::Rgba8Unorm;
    let b = TextureFormat::Bgra8Unorm;
    let c = TextureFormat::Rgba16Float;
    assert_eq!(
        pick_format(&vec![(a, false), (b, true), (c, true)]),
        Some(TextureFormat::Bgra8Unorm)
    );
    assert_eq!(
        pick_format(&vec![(a, true), (b, true), (c, true)]),
        Some(TextureFormat::Rgba8Unorm)
    );
    assert_eq!(
        pick_format(&vec![(a, false), (b, false), (c, true)]),
        Some(TextureFormat::Rgba16Float)
    );
}

#[test]
fn pick_format_falls_back_to_the_first() {
    assert_eq!(
        pick_format(&vec![
            (TextureFormat::Rgba16Float, false),
            (TextureFormat::Bgra8Unorm, false)
        ]),
        Some(TextureFormat::Rgba16Float)
    );
}

#[test]
fn pick_format_of_nothing_is_nothing() {
    assert_eq!(pick_format(&vec![]), None);
}

#[test]
fn choose_format_prefers_srgb() {
    let formats = vec![
        TextureFormat::Bgra8Unorm,
        TextureFormat::Rgba8Unorm,
        TextureFormat::Rgba8UnormSrgb,
        TextureFormat::Bgra8UnormSrgb,
    ];
    assert_eq!(choose_format(&formats), Some(TextureFormat::Rgba8UnormSrgb));
}

#[test]
fn choose_format_falls_back_to_the_first_advertised() {
    let formats = vec![TextureFormat::Rgba16Float, TextureFormat::Bgra8Unorm];
    assert_eq!(choose_format(&formats), Some(TextureFormat::Rgba16Float));
}

#[test]
fn choose_format_of_nothing_is_nothing() {
    assert_eq!(choose_format(&vec![]), None);
}

#[test]
fn created_surface_has_the_initial_configuration() {
    let surface = surface_800_600();
    let config = surface.config();
    assert_eq!(config.usage, RENDER_ATTACHMENT);
    assert_eq!(config.usage, wgpu::TextureUsages::RENDER_ATTACHMENT.bits());
    assert_eq!(config.format, TextureFormat::Bgra8UnormSrgb);
    assert_eq!(config.width, 800);
    assert_eq!(config.height, 600);
    assert_eq!(config.present_mode, PresentMode::AutoVsync);
    assert_eq!(config.alpha_mode, AlphaMode::Auto);
    assert_eq!(config.view_formats, vec![TextureFormat::Bgra8Unorm]);
    assert_eq!(config.desired_maximum_frame_latency, FRAME_LATENCY);
    assert_eq!(config.desired_maximum_frame_latency, 2);
    assert_eq!(surface.dev_id(), 3);
    assert_eq!(*surface.binding(), 7u8);
}

#[test]
fn create_refuses_an_empty_size() {
    let formats = vec![TextureFormat::Bgra8UnormSrgb];
    let r: Result<Surface<u8>, SurfaceCreationError> =
        Surface::create(Some(1), Ok(0), &formats, 0, 600);
    assert_eq!(r.err(), Some(SurfaceCreationError::EmptySize));
    let r: Result<Surface<u8>, SurfaceCreationError> =
        Surface::create(Some(1), Ok(0), &formats, 800, 0);
    assert_eq!(r.err(), Some(SurfaceCreationError::EmptySize));
    let r: Result<Surface<u8>, SurfaceCreationError> = Surface::create(
        None,
        Err(DeviceCreationError::NoAdapter),
        &vec![],
        0,
        0,
    );
    assert_eq!(r.err(), Some(SurfaceCreationError::EmptySize));
}

#[test]
fn create_fails_without_a_platform_surface() {
    let formats = vec![TextureFormat::Bgra8UnormSrgb];
    let r: Result<Surface<u8>, SurfaceCreationError> =
        Surface::create(None, Ok(0), &formats, 800, 600);
    assert_eq!(r.err(), Some(SurfaceCreationError::SurfaceUnavailable));
    let r: Result<Surface<u8>, SurfaceCreationError> = Surface::create(
        None,
        Err(DeviceCreationError::NoDevice),
        &vec![],
        800,
        600,
    );
    assert_eq!(r.err(), Some(SurfaceCreationError::SurfaceUnavailable));
}

#[test]
fn create_fails_without_a_device() {
    let formats = vec![TextureFormat::Bgra8UnormSrgb];
    let r: Result<Surface<u8>, SurfaceCreationError> = Surface::create(
        Some(1),
        Err(DeviceCreationError::NoAdapter),
        &formats,
        800,
        600,
    );
    assert_eq!(
        r.err(),
        Some(SurfaceCreationError::Device(DeviceCreationError::NoAdapter))
    );
    let r: Result<Surface<u8>, SurfaceCreationError> = Surface::create(
        Some(1),
        Err(DeviceCreationError::NoDevice),
        &vec![],
        800,
        600,
    );
    assert_eq!(
        r.err(),
        Some(SurfaceCreationError::Device(DeviceCreationError::NoDevice))
    );
}

#[test]
fn create_fails_without_a_format() {
    let r: Result<Surface<u8>, SurfaceCreationError> =
        Surface::create(Some(1), Ok(0), &vec![], 800, 600);
    assert_eq!(r.err(), Some(SurfaceCreationError::NoFormat));
}

#[test]
fn resize_takes_the_new_size_and_asks_to_reconfigure() {
    let mut surface = surface_800_600();
    assert_eq!(surface.resize(1024, 768), SurfaceAction::Reconfigure { wait_for: 3 });
    assert_eq!(surface.config().width, 1024);
    assert_eq!(surface.config().height, 768);
    assert_eq!(surface.config().format, TextureFormat::Bgra8UnormSrgb);
    assert_eq!(surface.config().present_mode, PresentMode::AutoVsync);
    assert_eq!(surface.dev_id(), 3);
}

#[test]
fn resize_to_the_same_size_still_reconfigures() {
    let mut surface = surface_800_600();
    assert_eq!(surface.resize(800, 600), SurfaceAction::Reconfigure { wait_for: 3 });
    assert_eq!(surface.config().width, 800);
    assert_eq!(surface.config().height, 600);
}

#[test]
fn resize_to_zero_width_is_ignored() {
    let mut surface = surface_800_600();
    assert_eq!(surface.resize(0, 768), SurfaceAction::Keep);
    assert_eq!(surface.config().width, 800);
    assert_eq!(surface.config().height, 600);
}

#[test]
fn resize_to_zero_height_is_ignored() {
    let mut surface = surface_800_600();
    assert_eq!(surface.resize(1024, 0), SurfaceAction::Keep);
    assert_eq!(surface.config().width, 800);
    assert_eq!(surface.config().height, 600);
}

#[test]
fn resize_to_zero_by_zero_is_ignored() {
    let mut surface = surface_800_600();
    assert_eq!(surface.resize(0, 0), SurfaceAction::Keep);
    assert_eq!(surface.config().width, 800);
    assert_eq!(surface.config().height, 600);
}

#[test]
fn set_present_mode_takes_the_mode_and_asks_to_reconfigure() {
    let mut surface = surface_800_600();
    assert_eq!(
        surface.set_present_mode(PresentMode::Immediate),
        SurfaceAction::Reconfigure { wait_for: 3 }
    );
    assert_eq!(surface.config().present_mode, PresentMode::Immediate);
    assert_eq!(surface.config().width, 800);
    assert_eq!(surface.config().height, 600);
    assert_eq!(surface.config().alpha_mode, AlphaMode::Auto);
}

#[test]
fn configure_waits_for_the_owning_device() {
    let surface = surface_800_600();
    assert_eq!(
        surface.configure(),
        SurfaceAction::Reconfigure { wait_for: 3 }
    );
    assert_eq!(surface.config().width, 800);
}

#[test]
fn create_configured_asks_to_configure_at_once() {
    let formats = vec![TextureFormat::Bgra8Unorm, TextureFormat::Bgra8UnormSrgb];
    let (surface, action) = match Surface::create_configured(Some(7u8), Ok(3), &formats, 800, 600)
    {
        Ok(made) => made,
        Err(e) => panic!("no surface: {:?}", e),
    };
    assert_eq!(action, SurfaceAction::Reconfigure { wait_for: 3 });
    assert_eq!(surface.config().width, 800);
    assert_eq!(surface.config().height, 600);
    assert_eq!(surface.config().usage, RENDER_ATTACHMENT);
    assert_eq!(surface.config().format, TextureFormat::Bgra8UnormSrgb);
    assert_eq!(surface.config().present_mode, PresentMode::AutoVsync);
    assert_eq!(surface.config().alpha_mode, AlphaMode::Auto);
    assert_eq!(surface.dev_id(), 3);
    assert_eq!(*surface.binding(), 7u8);
}

#[test]
fn create_configured_fails_as_create_does() {
    let formats = vec![TextureFormat::Bgra8UnormSrgb];
    let r: Result<(Surface<u8>, SurfaceAction), SurfaceCreationError> =
        Surface::create_configured(Some(1), Ok(0), &formats, 0, 600);
    assert_eq!(r.err(), Some(SurfaceCreationError::EmptySize));
    let r: Result<(Surface<u8>, SurfaceAction), SurfaceCreationError> =
        Surface::create_configured(None, Ok(0), &formats, 800, 600);
    assert_eq!(r.err(), Some(SurfaceCreationError::SurfaceUnavailable));
    let r: Result<(Surface<u8>, SurfaceAction), SurfaceCreationError> = Surface::create_configured(
        Some(1),
        Err(DeviceCreationError::NoDevice),
        &formats,
        800,
        600,
    );
    assert_eq!(
        r.err(),
        Some(SurfaceCreationError::Device(DeviceCreationError::NoDevice))
    );
    let r: Result<(Surface<u8>, SurfaceAction), SurfaceCreationError> =
        Surface::create_configured(Some(1), Ok(0), &vec![], 800, 600);
    assert_eq!(r.err(), Some(SurfaceCreationError::NoFormat));
}
