//! The command dictionary: controller command opcodes and their encodings.
//!
//! Every opcode value and timing constant in this module is mandated by the
//! controller's datasheet and must be reproduced bit-exact on the bus.

use vstd::prelude::*;
use crate::options::{ColorInversion, ColorOrder, ModelOptions, Orientation, RefreshOrder,
    HorizontalRefreshOrder, VerticalRefreshOrder};

verus! {

/// Software Reset opcode.
pub const SOFT_RESET: u8 = 0x01;
/// Exit Sleep Mode opcode.
pub const EXIT_SLEEP_MODE: u8 = 0x11;
/// Enter Normal Mode opcode.
pub const ENTER_NORMAL_MODE: u8 = 0x13;
/// Turn off color inversion opcode.
pub const EXIT_INVERT_MODE: u8 = 0x20;
/// Turn on color inversion opcode.
pub const ENTER_INVERT_MODE: u8 = 0x21;
/// Turn Display On opcode.
pub const SET_DISPLAY_ON: u8 = 0x29;
/// Set Address Mode (MADCTL) opcode.
pub const SET_ADDRESS_MODE: u8 = 0x36;
/// Set Pixel Format (COLMOD) opcode.
pub const SET_PIXEL_FORMAT: u8 = 0x3A;
/// Display Inversion Control register of the ILI934x family.
pub const DISPLAY_INVERSION_CONTROL: u8 = 0xB4;

/// Bits-per-pixel field value for the DBI and DPI parts of [`PixelFormat`].
#[derive(Debug, Clone, Copy, PartialEq, Eq, Structural)]
pub enum BitsPerPixel {
    /// 3 bits per pixel.
    Three,
    /// 8 bits per pixel.
    Eight,
    /// 12 bits per pixel.
    Twelve,
    /// 16 bits per pixel.
    Sixteen,
    /// 18 bits per pixel.
    Eighteen,
    /// 24 bits per pixel.
    TwentyFour,
}

impl BitsPerPixel {
    /// The three-bit field encoding of this depth, per the datasheet.
    pub open spec fn spec_value(self) -> u8 {
        match self {
            BitsPerPixel::Three => 0b001,
            BitsPerPixel::Eight => 0b010,
            BitsPerPixel::Twelve => 0b011,
            BitsPerPixel::Sixteen => 0b101,
            BitsPerPixel::Eighteen => 0b110,
            BitsPerPixel::TwentyFour => 0b111,
        }
    }

    /// Returns the three-bit field encoding of this depth.
    pub fn value(&self) -> (v: u8)
        ensures
            v == self.spec_value(),
            v < 8,
    {
        match self {
            BitsPerPixel::Three => 0b001,
            BitsPerPixel::Eight => 0b010,
            BitsPerPixel::Twelve => 0b011,
            BitsPerPixel::Sixteen => 0b101,
            BitsPerPixel::Eighteen => 0b110,
            BitsPerPixel::TwentyFour => 0b111,
        }
    }
}

/// Pixel format negotiated with the controller: a bits-per-pixel value for
/// each of the two interface paths (DPI and DBI) it can be addressed through.
#[derive(Debug, Clone, Copy, PartialEq, Eq, Structural)]
pub struct PixelFormat {
    /// Bits per pixel of the display pixel interface.
    pub dpi: BitsPerPixel,
    /// Bits per pixel of the display bus interface.
    pub dbi: BitsPerPixel,
}

impl PixelFormat {
    /// Constructs a new pixel format from the two interface depths.
    pub fn new(dpi: BitsPerPixel, dbi: BitsPerPixel) -> (r: Self)
        ensures
            r == (PixelFormat { dpi, dbi }),
    {
        PixelFormat { dpi, dbi }
    }

    /// Constructs a new pixel format with the same depth on both interface
    /// paths.
    pub fn with_all(bpp: BitsPerPixel) -> (r: Self)
        ensures
            r == (PixelFormat { dpi: bpp, dbi: bpp }),
    {
        PixelFormat { dpi: bpp, dbi: bpp }
    }

    /// The single parameter byte of the Set Pixel Format command: DPI bits in
    /// the high nibble, DBI bits in the low nibble.
    pub open spec fn spec_as_u8(self) -> u8 {
        (self.dpi.spec_value() * 16 + self.dbi.spec_value()) as u8
    }

    /// Returns the parameter byte holding both the DPI and the DBI bits.
    pub fn as_u8(&self) -> (v: u8)
        ensures
            v == self.spec_as_u8(),
    {
        let d = self.dpi.value();
        let e = self.dbi.value();
        proof {
            assert((d << 4) | e == d * 16 + e) by (bit_vector)
                requires
                    d < 8 && e < 8,
            ;
        }
        (d << 4) | e
    }
}

/// The Set Address Mode (MADCTL) parameter byte: row/column order, color
/// order and refresh direction the controller is configured with.
///
/// A successful `init` returns this value so that layers above can map
/// logical coordinates to controller memory addresses.
#[derive(Debug, Clone, Copy, PartialEq, Eq, Structural)]
pub struct SetAddressMode(pub u8);

/// The MADCTL bits selected by a color order.
pub open spec fn spec_color_order_bits(color_order: ColorOrder) -> u8 {
    match color_order {
        ColorOrder::Rgb => 0b0000_0000,
        ColorOrder::Bgr => 0b0000_1000,
    }
}

/// The MADCTL bits selected by an orientation.
pub open spec fn spec_orientation_bits(orientation: Orientation) -> u8 {
    match orientation {
        Orientation::Portrait(false) => 0b0000_0000,
        Orientation::Portrait(true) => 0b0100_0000,
        Orientation::PortraitInverted(false) => 0b1100_0000,
        Orientation::PortraitInverted(true) => 0b1000_0000,
        Orientation::Landscape(false) => 0b0010_0000,
        Orientation::Landscape(true) => 0b0110_0000,
        Orientation::LandscapeInverted(false) => 0b1110_0000,
        Orientation::LandscapeInverted(true) => 0b1010_0000,
    }
}

/// The MADCTL bits selected by a refresh order.
pub open spec fn spec_refresh_order_bits(refresh_order: RefreshOrder) -> u8 {
    match (refresh_order.vertical, refresh_order.horizontal) {
        (VerticalRefreshOrder::TopToBottom, HorizontalRefreshOrder::LeftToRight) => 0b0000_0000,
        (VerticalRefreshOrder::TopToBottom, HorizontalRefreshOrder::RightToLeft) => 0b0000_0100,
        (VerticalRefreshOrder::BottomToTop, HorizontalRefreshOrder::LeftToRight) => 0b0001_0000,
        (VerticalRefreshOrder::BottomToTop, HorizontalRefreshOrder::RightToLeft) => 0b0001_0100,
    }
}

impl SetAddressMode {
    /// The MADCTL byte combining the given three settings. The three groups
    /// of bits occupy disjoint positions, so their combination is their sum.
    pub open spec fn spec_new(
        color_order: ColorOrder,
        orientation: Orientation,
        refresh_order: RefreshOrder,
    ) -> SetAddressMode {
        SetAddressMode(
            (spec_color_order_bits(color_order) + spec_orientation_bits(orientation)
                + spec_refresh_order_bits(refresh_order)) as u8,
        )
    }

    /// The MADCTL byte that a given options value configures.
    pub open spec fn spec_from_options(options: ModelOptions) -> SetAddressMode {
        Self::spec_new(options.color_order, options.orientation, options.refresh_order)
    }

    /// Creates a new Set Address Mode command value from its three settings.
    pub fn new(
        color_order: ColorOrder,
        orientation: Orientation,
        refresh_order: RefreshOrder,
    ) -> (r: Self)
        ensures
            r == Self::spec_new(color_order, orientation, refresh_order),
    {
        let c = color_order_bits(color_order);
        let o = orientation_bits(orientation);
        let f = refresh_order_bits(refresh_order);
        proof {
            assert(c == 0x00 || c == 0x08);
            assert(o == 0x00 || o == 0x40 || o == 0xC0 || o == 0x80 || o == 0x20 || o == 0x60
                || o == 0xE0 || o == 0xA0);
            assert(f == 0x00 || f == 0x04 || f == 0x10 || f == 0x14);
            assert(c | o | f == c + o + f) by (bit_vector)
                requires
                    (c == 0x00 || c == 0x08) && (o == 0x00 || o == 0x40 || o == 0xC0 || o == 0x80
                        || o == 0x20 || o == 0x60 || o == 0xE0 || o == 0xA0) && (f == 0x00 || f
                        == 0x04 || f == 0x10 || f == 0x14),
            ;
        }
        SetAddressMode(c | o | f)
    }

    /// Creates the Set Address Mode command value that the given options
    /// configure.
    pub fn from_options(options: &ModelOptions) -> (r: Self)
        ensures
            r == Self::spec_from_options(*options),
    {
        Self::new(options.color_order, options.orientation, options.refresh_order)
    }

    /// Returns the instruction opcode of this command.
    pub fn instruction(&self) -> (i: u8)
        ensures
            i == SET_ADDRESS_MODE,
    {
        SET_ADDRESS_MODE
    }

    /// Returns the single MADCTL parameter byte.
    pub fn value(&self) -> (v: u8)
        ensures
            v == self.0,
    {
        self.0
    }
}

fn color_order_bits(color_order: ColorOrder) -> (v: u8)
    ensures
        v == spec_color_order_bits(color_order),
{
    match color_order {
        ColorOrder::Rgb => 0b0000_0000,
        ColorOrder::Bgr => 0b0000_1000,
    }
}

fn orientation_bits(orientation: Orientation) -> (v: u8)
    ensures
        v == spec_orientation_bits(orientation),
{
    match orientation {
        Orientation::Portrait(false) => 0b0000_0000,
        Orientation::Portrait(true) => 0b0100_0000,
        Orientation::PortraitInverted(false) => 0b1100_0000,
        Orientation::PortraitInverted(true) => 0b1000_0000,
        Orientation::Landscape(false) => 0b0010_0000,
        Orientation::Landscape(true) => 0b0110_0000,
        Orientation::LandscapeInverted(false) => 0b1110_0000,
        Orientation::LandscapeInverted(true) => 0b1010_0000,
    }
}

fn refresh_order_bits(refresh_order: RefreshOrder) -> (v: u8)
    ensures
        v == spec_refresh_order_bits(refresh_order),
{
    match (refresh_order.vertical, refresh_order.horizontal) {
        (VerticalRefreshOrder::TopToBottom, HorizontalRefreshOrder::LeftToRight) => 0b0000_0000,
        (VerticalRefreshOrder::TopToBottom, HorizontalRefreshOrder::RightToLeft) => 0b0000_0100,
        (VerticalRefreshOrder::BottomToTop, HorizontalRefreshOrder::LeftToRight) => 0b0001_0000,
        (VerticalRefreshOrder::BottomToTop, HorizontalRefreshOrder::RightToLeft) => 0b0001_0100,
    }
}

/// The opcode that selects the given color inversion: the controller has one
/// opcode to switch inversion off and another to switch it on.
pub open spec fn spec_invert_mode_instruction(invert: ColorInversion) -> u8 {
    match invert {
        ColorInversion::Normal => EXIT_INVERT_MODE,
        ColorInversion::Inverted => ENTER_INVERT_MODE,
    }
}

/// Returns the Set Invert Mode opcode for the given inversion setting.
pub fn invert_mode_instruction(invert: ColorInversion) -> (i: u8)
    ensures
        i == spec_invert_mode_instruction(invert),
{
    match invert {
        ColorInversion::Normal => EXIT_INVERT_MODE,
        ColorInversion::Inverted => ENTER_INVERT_MODE,
    }
}

} // verus!
