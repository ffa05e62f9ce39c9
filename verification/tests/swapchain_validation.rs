use amethyst::format::Format;
use amethyst::swapchain::{
    ColorSpace, PresentMode, SurfaceCapabilities, SwapchainFormat, SwapchainSupport,
};
use amethyst::Extent2D;

fn support() -> SwapchainSupport {
    SwapchainSupport {
        formats: vec![
            SwapchainFormat { format: Format::R8G8B8A8SRGB, color_space: ColorSpace::Undefined },
            SwapchainFormat {
                format: Format::B8G8R8A8SRGB,
                color_space: ColorSpace::SrgbNonLinear,
            },
        ],
        present_modes: vec![PresentMode::Vsync, PresentMode::Mailbox],
        capabilities: SurfaceCapabilities {
            min_image_count: 3,
            max_image_count: 8,
            current_extent: Extent2D { width: 800, height: 600 },
            min_image_extent: Extent2D { width: 320, height: 200 },
            max_image_extent: Extent2D { width: 1920, height: 1080 },
        },
    }
}

#[test]
fn image_count_below_minimum_yields_minimum() {
    // Requesting fewer images than the device minimum yields the
    // device-reported minimum.
    assert_eq!(support().clamp_image_count(2), 3);
    assert_eq!(support().clamp_image_count(0), 3);
}

#[test]
fn image_count_above_maximum_yields_maximum() {
    assert_eq!(support().clamp_image_count(64), 8);
}

#[test]
fn image_count_in_range_is_kept() {
    assert_eq!(support().clamp_image_count(4), 4);
}

#[test]
fn image_count_without_maximum() {
    // A device that reports no maximum (0) still grants one image above
    // its minimum at most.
    let mut s = support();
    s.capabilities.max_image_count = 0;
    assert_eq!(s.clamp_image_count(10), 4);
}

#[test]
fn extent_outside_range_is_clamped() {
    // Requesting an extent outside [min_image_extent, max_image_extent]
    // yields the clamped extent.
    let clamped = support().clamp_extent(Extent2D { width: 10_000, height: 100 });
    assert_eq!(clamped, Extent2D { width: 1920, height: 200 });
    let clamped = support().clamp_extent(Extent2D { width: 1, height: 9_999 });
    assert_eq!(clamped, Extent2D { width: 320, height: 1080 });
}

#[test]
fn extent_in_range_is_kept() {
    let kept = support().clamp_extent(Extent2D { width: 800, height: 600 });
    assert_eq!(kept, Extent2D { width: 800, height: 600 });
}

#[test]
fn unsupported_present_mode_falls_back_to_vsync() {
    // FIFO (vsync) is the fallback, and a conformant device always
    // reports it as supported.
    let s = support();
    assert_eq!(s.choose_present_mode(PresentMode::Immediate), PresentMode::Vsync);
    assert!(s.support_present_mode(PresentMode::Vsync));
}

#[test]
fn supported_present_mode_is_kept() {
    assert_eq!(support().choose_present_mode(PresentMode::Mailbox), PresentMode::Mailbox);
}

#[test]
fn present_mode_support_queries() {
    let s = support();
    assert!(s.support_present_mode(PresentMode::Mailbox));
    assert!(!s.support_present_mode(PresentMode::VsyncRelaxed));
}

#[test]
fn unsupported_format_falls_back_to_first() {
    let s = support();
    assert_eq!(s.choose_format(Format::D32SFLOAT), Format::R8G8B8A8SRGB);
    assert_eq!(s.choose_format(Format::B8G8R8A8SRGB), Format::B8G8R8A8SRGB);
    assert!(s.support_format(Format::R8G8B8A8SRGB));
    assert!(!s.support_format(Format::R32SFLOAT));
}

#[test]
fn color_space_prefers_srgb() {
    let s = support();
    // The chosen format is carried with non-linear sRGB when the device
    // supports that pairing, and otherwise with the first color space
    // reported for the format.
    assert_eq!(s.choose_color_space(Format::B8G8R8A8SRGB), ColorSpace::SrgbNonLinear);
    assert_eq!(s.choose_color_space(Format::R8G8B8A8SRGB), ColorSpace::Undefined);
}
