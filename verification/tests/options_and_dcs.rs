use mipidsi_async::builder::Builder;
use mipidsi_async::dcs::{BitsPerPixel, PixelFormat, SetAddressMode};
use mipidsi_async::models::ili9341::{ILI9341Rgb565, ILI9341Rgb666};
use mipidsi_async::models::Model;
use mipidsi_async::options::{
    ColorInversion, ColorOrder, HorizontalRefreshOrder, ModelOptions, Orientation, RefreshOrder,
    VerticalRefreshOrder,
};

#[test]
fn default_options_are_240_by_320_for_every_variant() {
    let options565 = ILI9341Rgb565::default_options();
    assert_eq!(options565.framebuffer_size, (240, 320));
    assert_eq!(options565.display_size, (240, 320));
    let options666 = ILI9341Rgb666::default_options();
    assert_eq!(options666.framebuffer_size, (240, 320));
    assert_eq!(options666.display_size, (240, 320));
    assert_eq!(options565, options666);
}

#[test]
fn builder_constructors_start_from_the_default_options() {
    let di: u8 = 0;
    let b565 = Builder::<u8, ILI9341Rgb565>::ili9341_rgb565(di);
    assert_eq!(b565.options, ILI9341Rgb565::default_options());
    let b666 = Builder::<u8, ILI9341Rgb666>::ili9341_rgb666(di);
    assert_eq!(b666.options, ILI9341Rgb666::default_options());
}

#[test]
fn builder_overrides_reach_the_options() {
    let b = Builder::<u8, ILI9341Rgb565>::ili9341_rgb565(0)
        .with_invert_colors(ColorInversion::Inverted)
        .with_color_order(ColorOrder::Bgr)
        .with_orientation(Orientation::Landscape(true))
        .with_display_size(100, 200)
        .with_framebuffer_size(120, 220);
    assert_eq!(b.options.invert_colors, ColorInversion::Inverted);
    assert_eq!(b.options.color_order, ColorOrder::Bgr);
    assert_eq!(b.options.orientation, Orientation::Landscape(true));
    assert_eq!(b.options.display_size, (100, 200));
    assert_eq!(b.options.framebuffer_size, (120, 220));
    let (di, _model, options) = b.into_parts();
    assert_eq!(di, 0);
    assert_eq!(options.display_size, (100, 200));
}

#[test]
fn pixel_format_byte_holds_both_interface_depths() {
    assert_eq!(PixelFormat::with_all(BitsPerPixel::Sixteen).as_u8(), 0x55);
    assert_eq!(PixelFormat::with_all(BitsPerPixel::Eighteen).as_u8(), 0x66);
    assert_eq!(PixelFormat::new(BitsPerPixel::Sixteen, BitsPerPixel::TwentyFour).as_u8(), 0x57);
}

#[test]
fn madctl_byte_combines_the_three_settings() {
    let madctl = SetAddressMode::new(
        ColorOrder::Bgr,
        Orientation::LandscapeInverted(true),
        RefreshOrder::new(VerticalRefreshOrder::BottomToTop, HorizontalRefreshOrder::RightToLeft),
    );
    assert_eq!(madctl.value(), 0b1011_1100);
    assert_eq!(madctl.instruction(), 0x36);

    let plain = SetAddressMode::new(
        ColorOrder::Rgb,
        Orientation::Portrait(false),
        RefreshOrder::new(VerticalRefreshOrder::TopToBottom, HorizontalRefreshOrder::LeftToRight),
    );
    assert_eq!(plain.value(), 0x00);
}

#[test]
fn orientation_swaps_the_reported_sizes() {
    let mut options = ModelOptions::with_sizes((240, 320), (240, 320));
    assert_eq!(options.display_size(), (240, 320));
    options.set_orientation(Orientation::Landscape(false));
    assert_eq!(options.display_size(), (320, 240));
    assert_eq!(options.framebuffer_size(), (320, 240));
}

#[test]
fn zero_framebuffer_size_falls_back_to_the_display_size() {
    let options = ModelOptions::with_sizes((240, 320), (0, 0));
    assert_eq!(options.framebuffer_size(), (240, 320));
}
