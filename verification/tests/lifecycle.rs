use gfx_window_metal::format::{map_format, ChannelType, Format, NativeFormat, SurfaceType};
use gfx_window_metal::surface::{Error, PresentationLayer, PresentationSurface};
use gfx_window_metal::window::{init, init_raw, Device, DeviceCreation, Factory, InitError, Window};

fn test_window() -> Window {
    Window { id: 1, width: 800, height: 600, view: Some(2) }
}

fn test_device() -> DeviceCreation {
    DeviceCreation::Created(Device { device: 3 }, Factory { id: 4 })
}

fn bgra8() -> Format {
    Format(SurfaceType::B8_G8_R8_A8, ChannelType::Unorm)
}

#[test]
fn scenario_a_sixty_presents_distinct_identities() {
    let r = init(Some(test_window()), bgra8(), test_device());
    let (mut mw, _dev, _fac, handle) = r.ok().expect("init should succeed");
    let mut seen: Vec<u64> = Vec::new();
    seen.push(handle.target.drawable_id);
    assert_eq!(handle.target, mw.current_color_target());
    for _frame in 0..60 {
        assert_eq!(mw.swap_buffers(), Ok(()));
        let target = mw.current_color_target();
        assert!(!seen.contains(&target.drawable_id));
        seen.push(target.drawable_id);
    }
    assert_eq!(seen.len(), 61);
}

#[test]
fn scenario_b_exhaustion_then_recovery() {
    let mut s = PresentationSurface::create_configured(
        Some(2),
        320,
        240,
        3,
        NativeFormat::Bgra8Unorm,
        1,
    )
    .ok()
    .expect("creation with a one-deep pool should succeed");
    // The only backing surface is held by the current pair: exhausted.
    assert_eq!(s.free_slot_count(), 0);
    assert_eq!(s.acquire_next(), Err(Error::NoDrawable));
    // One slot comes back from the display pipeline; acquisition succeeds.
    s.recycle_drawable();
    assert_eq!(s.acquire_next(), Ok(()));
}

#[test]
fn scenario_c_unmappable_format_fails_closed() {
    let one_bit_alpha = Format(SurfaceType::R5_G5_B5_A1, ChannelType::Unorm);
    let r = init(Some(test_window()), one_bit_alpha, test_device());
    assert!(matches!(
        r,
        Err(InitError::Format(Format(SurfaceType::R5_G5_B5_A1, ChannelType::Unorm)))
    ));
}

#[test]
fn init_without_window_reports_window_error() {
    let r = init_raw(None, bgra8(), test_device());
    assert!(matches!(r, Err(InitError::Window)));
}

#[test]
fn init_without_driver_reports_driver_type() {
    let r = init_raw(Some(test_window()), bgra8(), DeviceCreation::NoSupportedDriver);
    assert!(matches!(r, Err(InitError::DriverType)));
}

#[test]
fn init_checks_format_before_driver() {
    let unmappable = Format(SurfaceType::R5_G6_B5, ChannelType::Unorm);
    let r = init_raw(Some(test_window()), unmappable, DeviceCreation::NoSupportedDriver);
    assert!(matches!(r, Err(InitError::Format(_))));
}

#[test]
fn size_propagates_to_layer_before_any_acquisition() {
    let layer = PresentationLayer::new(NativeFormat::Bgra8Unorm, 800, 600, 3);
    assert_eq!(layer.drawable_size(), (800, 600));
}

#[test]
fn size_propagates_to_created_surface() {
    let s = PresentationSurface::create(Some(2), 1024, 768, 3).ok().expect("create");
    assert_eq!(s.drawable_size(), (1024, 768));
}

#[test]
fn create_without_view_reports_surface_creation() {
    assert!(matches!(
        PresentationSurface::create(None, 800, 600, 3),
        Err(Error::SurfaceCreation)
    ));
}

#[test]
fn create_with_zero_size_reports_no_drawable() {
    assert!(matches!(PresentationSurface::create(Some(2), 0, 600, 3), Err(Error::NoDrawable)));
    assert!(matches!(PresentationSurface::create(Some(2), 800, 0, 3), Err(Error::NoDrawable)));
}

#[test]
fn target_tracks_the_latest_acquisition() {
    let mut s = PresentationSurface::create(Some(2), 640, 480, 3).ok().expect("create");
    let first = s.current_color_target();
    assert_eq!(s.acquire_next(), Ok(()));
    let second = s.current_color_target();
    assert_ne!(first.drawable_id, second.drawable_id);
    // The target is exactly the image behind the current drawable.
    assert_eq!(second, s.current_color_target());
}

#[test]
fn steady_state_keeps_the_pool_level() {
    let mut s = PresentationSurface::create(Some(2), 640, 480, 3).ok().expect("create");
    // One of the three backing surfaces is held by the current pair.
    assert_eq!(s.free_slot_count(), 2);
    for _frame in 0..10 {
        assert_eq!(s.acquire_next(), Ok(()));
        // Each acquisition retires the previous drawable, so the pool
        // neither leaks nor grows.
        assert_eq!(s.free_slot_count(), 2);
    }
}

#[test]
fn map_format_exact_values() {
    assert_eq!(
        map_format(Format(SurfaceType::B8_G8_R8_A8, ChannelType::Unorm)),
        Some(NativeFormat::Bgra8Unorm)
    );
    assert_eq!(
        map_format(Format(SurfaceType::B8_G8_R8_A8, ChannelType::Srgb)),
        Some(NativeFormat::Bgra8UnormSrgb)
    );
    assert_eq!(
        map_format(Format(SurfaceType::R8_G8_B8_A8, ChannelType::Unorm)),
        Some(NativeFormat::Rgba8Unorm)
    );
    assert_eq!(
        map_format(Format(SurfaceType::R8_G8_B8_A8, ChannelType::Srgb)),
        Some(NativeFormat::Rgba8UnormSrgb)
    );
    assert_eq!(
        map_format(Format(SurfaceType::R16_G16_B16_A16, ChannelType::Float)),
        Some(NativeFormat::Rgba16Float)
    );
    assert_eq!(
        map_format(Format(SurfaceType::D24_S8, ChannelType::Unorm)),
        Some(NativeFormat::Depth24UnormStencil8)
    );
    assert_eq!(map_format(Format(SurfaceType::R4_G4, ChannelType::Unorm)), None);
    assert_eq!(map_format(Format(SurfaceType::R5_G6_B5, ChannelType::Unorm)), None);
    assert_eq!(map_format(Format(SurfaceType::B8_G8_R8_A8, ChannelType::Float)), None);
}

#[test]
fn window_queries_are_forwarded() {
    let w = test_window();
    let (mw, dev, fac, _handle) = init_raw(Some(w), bgra8(), test_device()).ok().expect("init");
    assert_eq!(*mw.window(), w);
    assert_eq!(dev, Device { device: 3 });
    assert_eq!(fac, Factory { id: 4 });
}

#[test]
fn swap_buffers_failure_leaves_state_unchanged() {
    let mut s = PresentationSurface::create_configured(
        Some(2),
        320,
        240,
        3,
        NativeFormat::Bgra8Unorm,
        1,
    )
    .ok()
    .expect("create");
    let before = s.current_color_target();
    assert_eq!(s.acquire_next(), Err(Error::NoDrawable));
    // The failed acquisition left the current pair in place (retryable).
    assert_eq!(s.current_color_target(), before);
    assert_eq!(s.free_slot_count(), 0);
}
