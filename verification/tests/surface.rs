use wgpu::{CompositeAlphaMode, PresentMode, TextureFormat};
use window_shell::geometry::Size;
use window_shell::surface::{choose_format, SurfaceCaps, SurfaceConfig, Usage, FRAME_LATENCY};

fn caps(formats: Vec<TextureFormat>) -> SurfaceCaps {
    SurfaceCaps {
        formats,
        present_modes: vec![PresentMode::Mailbox, PresentMode::Fifo],
        alpha_modes: vec![CompositeAlphaMode::PreMultiplied, CompositeAlphaMode::Opaque],
    }
}

#[test]
fn srgb_format_is_preferred_over_an_earlier_linear_one() {
    let formats = vec![TextureFormat::Bgra8Unorm, TextureFormat::Bgra8UnormSrgb];
    assert_eq!(choose_format(&formats), 1);
}

#[test]
fn first_of_several_srgb_formats_is_chosen() {
    let formats = vec![
        TextureFormat::Rgba16Float,
        TextureFormat::Rgba8UnormSrgb,
        TextureFormat::Bgra8UnormSrgb,
    ];
    assert_eq!(choose_format(&formats), 1);
}

#[test]
fn srgb_format_at_the_front_is_chosen() {
    let formats = vec![TextureFormat::Bgra8UnormSrgb, TextureFormat::Bgra8Unorm];
    assert_eq!(choose_format(&formats), 0);
}

#[test]
fn first_format_is_the_fallback_without_srgb() {
    let formats = vec![
        TextureFormat::Rgba16Float,
        TextureFormat::Bgra8Unorm,
        TextureFormat::Rgb10a2Unorm,
    ];
    assert_eq!(choose_format(&formats), 0);
}

#[test]
fn single_linear_format_is_chosen() {
    assert_eq!(choose_format(&vec![TextureFormat::Rgba8Unorm]), 0);
}

#[test]
fn configuration_takes_first_modes_and_window_extent() {
    let caps = caps(vec![TextureFormat::Bgra8Unorm, TextureFormat::Bgra8UnormSrgb]);
    let config = SurfaceConfig::for_window(Size::new(800, 600), &caps);
    assert_eq!(config.usage, Usage::RenderAttachment);
    assert_eq!(config.format, TextureFormat::Bgra8UnormSrgb);
    assert_eq!(config.width, 800);
    assert_eq!(config.height, 600);
    assert_eq!(config.present_mode, PresentMode::Mailbox);
    assert_eq!(config.alpha_mode, CompositeAlphaMode::PreMultiplied);
    assert_eq!(config.frame_latency, 2);
    assert_eq!(FRAME_LATENCY, 2);
}

#[test]
fn configuration_falls_back_to_first_format() {
    let caps = caps(vec![TextureFormat::Rgba8Unorm, TextureFormat::Bgra8Unorm]);
    let config = SurfaceConfig::for_window(Size::new(1, 1), &caps);
    assert_eq!(config.format, TextureFormat::Rgba8Unorm);
}

#[test]
fn capabilities_are_usable_only_with_every_list_filled() {
    assert!(caps(vec![TextureFormat::Bgra8Unorm]).is_usable());
    assert!(!caps(vec![]).is_usable());
    let mut no_present = caps(vec![TextureFormat::Bgra8Unorm]);
    no_present.present_modes.clear();
    assert!(!no_present.is_usable());
    let mut no_alpha = caps(vec![TextureFormat::Bgra8Unorm]);
    no_alpha.alpha_modes.clear();
    assert!(!no_alpha.is_usable());
}

#[test]
fn size_is_empty_when_either_dimension_is_zero() {
    assert!(Size::new(0, 0).is_empty());
    assert!(Size::new(0, 600).is_empty());
    assert!(Size::new(800, 0).is_empty());
    assert!(!Size::new(800, 600).is_empty());
    assert!(!Size::new(1, 1).is_empty());
    assert_eq!(Size::new(3, 4), Size { width: 3, height: 4 });
}
