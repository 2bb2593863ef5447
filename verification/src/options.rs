//! Model options and the orientation/order settings they carry.

use vstd::prelude::*;

verus! {

/// Subpixel order of the panel.
#[derive(Debug, Clone, Copy, PartialEq, Eq, Structural)]
pub enum ColorOrder {
    /// RGB subpixel order.
    Rgb,
    /// BGR subpixel order.
    Bgr,
}

impl Default for ColorOrder {
    fn default() -> (r: Self)
        ensures
            r == ColorOrder::Rgb,
    {
        ColorOrder::Rgb
    }
}

/// Display orientation; the `bool` selects a mirror image.
#[derive(Debug, Clone, Copy, PartialEq, Eq, Structural)]
pub enum Orientation {
    /// Portrait orientation, with mirror image parameter.
    Portrait(bool),
    /// Landscape orientation, with mirror image parameter.
    Landscape(bool),
    /// Inverted portrait orientation, with mirror image parameter.
    PortraitInverted(bool),
    /// Inverted landscape orientation, with mirror image parameter.
    LandscapeInverted(bool),
}

impl Default for Orientation {
    fn default() -> (r: Self)
        ensures
            r == Orientation::Portrait(false),
    {
        Orientation::Portrait(false)
    }
}

/// Color inversion setting.
#[derive(Debug, Clone, Copy, PartialEq, Eq, Structural)]
pub enum ColorInversion {
    /// Normal colors.
    Normal,
    /// Inverted colors.
    Inverted,
}

impl Default for ColorInversion {
    fn default() -> (r: Self)
        ensures
            r == ColorInversion::Normal,
    {
        ColorInversion::Normal
    }
}

/// Vertical refresh order.
#[derive(Debug, Clone, Copy, PartialEq, Eq, Structural)]
pub enum VerticalRefreshOrder {
    /// Refresh from top to bottom.
    TopToBottom,
    /// Refresh from bottom to top.
    BottomToTop,
}

impl VerticalRefreshOrder {
    /// Returns the opposite refresh order.
    pub fn flip(self) -> (r: Self)
        ensures
            r == (match self {
                VerticalRefreshOrder::TopToBottom => VerticalRefreshOrder::BottomToTop,
                VerticalRefreshOrder::BottomToTop => VerticalRefreshOrder::TopToBottom,
            }),
    {
        match self {
            VerticalRefreshOrder::TopToBottom => VerticalRefreshOrder::BottomToTop,
            VerticalRefreshOrder::BottomToTop => VerticalRefreshOrder::TopToBottom,
        }
    }
}

impl Default for VerticalRefreshOrder {
    fn default() -> (r: Self)
        ensures
            r == VerticalRefreshOrder::TopToBottom,
    {
        VerticalRefreshOrder::TopToBottom
    }
}

/// Horizontal refresh order.
#[derive(Debug, Clone, Copy, PartialEq, Eq, Structural)]
pub enum HorizontalRefreshOrder {
    /// Refresh from left to right.
    LeftToRight,
    /// Refresh from right to left.
    RightToLeft,
}

impl HorizontalRefreshOrder {
    /// Returns the opposite refresh order.
    pub fn flip(self) -> (r: Self)
        ensures
            r == (match self {
                HorizontalRefreshOrder::LeftToRight => HorizontalRefreshOrder::RightToLeft,
                HorizontalRefreshOrder::RightToLeft => HorizontalRefreshOrder::LeftToRight,
            }),
    {
        match self {
            HorizontalRefreshOrder::LeftToRight => HorizontalRefreshOrder::RightToLeft,
            HorizontalRefreshOrder::RightToLeft => HorizontalRefreshOrder::LeftToRight,
        }
    }
}

impl Default for HorizontalRefreshOrder {
    fn default() -> (r: Self)
        ensures
            r == HorizontalRefreshOrder::LeftToRight,
    {
        HorizontalRefreshOrder::LeftToRight
    }
}

/// Refresh order in both axes; defaults to top-to-bottom, left-to-right.
#[derive(Debug, Clone, Copy, PartialEq, Eq, Structural)]
pub struct RefreshOrder {
    /// Vertical refresh order.
    pub vertical: VerticalRefreshOrder,
    /// Horizontal refresh order.
    pub horizontal: HorizontalRefreshOrder,
}

impl RefreshOrder {
    /// Creates a new refresh order from its two axes.
    pub fn new(vertical: VerticalRefreshOrder, horizontal: HorizontalRefreshOrder) -> (r: Self)
        ensures
            r == (RefreshOrder { vertical, horizontal }),
    {
        RefreshOrder { vertical, horizontal }
    }
}

impl Default for RefreshOrder {
    fn default() -> (r: Self)
        ensures
            r == (RefreshOrder {
                vertical: VerticalRefreshOrder::TopToBottom,
                horizontal: HorizontalRefreshOrder::LeftToRight,
            }),
    {
        RefreshOrder {
            vertical: VerticalRefreshOrder::TopToBottom,
            horizontal: HorizontalRefreshOrder::LeftToRight,
        }
    }
}

/// Settings a model is initialized with.
///
/// The sizes are width/height pairs in pixels. The framebuffer size is the
/// controller's native memory size; the display size is the visible panel and
/// need not equal it.
#[derive(Debug, Clone, Copy, PartialEq, Eq)]
pub struct ModelOptions {
    /// Color ordering of the display.
    pub color_order: ColorOrder,
    /// Initial display orientation.
    pub orientation: Orientation,
    /// Whether colors are inverted for this display.
    pub invert_colors: ColorInversion,
    /// Display refresh order.
    pub refresh_order: RefreshOrder,
    /// Display size (width, height) for the given display.
    pub display_size: (u16, u16),
    /// Framebuffer size (width, height) for the given display.
    pub framebuffer_size: (u16, u16),
}

impl ModelOptions {
    /// The options value with the given sizes and every other setting at its
    /// default.
    pub open spec fn spec_with_sizes(display_size: (u16, u16), framebuffer_size: (u16, u16)) -> ModelOptions {
        ModelOptions {
            color_order: ColorOrder::Rgb,
            orientation: Orientation::Portrait(false),
            invert_colors: ColorInversion::Normal,
            refresh_order: RefreshOrder {
                vertical: VerticalRefreshOrder::TopToBottom,
                horizontal: HorizontalRefreshOrder::LeftToRight,
            },
            display_size,
            framebuffer_size,
        }
    }

    /// Creates model options for the given display and framebuffer sizes,
    /// with all other settings at their default value.
    pub fn with_sizes(display_size: (u16, u16), framebuffer_size: (u16, u16)) -> (r: Self)
        ensures
            r == Self::spec_with_sizes(display_size, framebuffer_size),
    {
        ModelOptions {
            color_order: ColorOrder::Rgb,
            orientation: Orientation::Portrait(false),
            invert_colors: ColorInversion::Normal,
            refresh_order: RefreshOrder {
                vertical: VerticalRefreshOrder::TopToBottom,
                horizontal: HorizontalRefreshOrder::LeftToRight,
            },
            display_size,
            framebuffer_size,
        }
    }

    /// Sets the color inversion setting.
    pub fn set_invert_colors(&mut self, color_inversion: ColorInversion)
        ensures
            *final(self) == (ModelOptions { invert_colors: color_inversion, ..*old(self) }),
    {
        self.invert_colors = color_inversion;
    }

    /// Sets the orientation.
    pub fn set_orientation(&mut self, orientation: Orientation)
        ensures
            *final(self) == (ModelOptions { orientation, ..*old(self) }),
    {
        self.orientation = orientation;
    }

    /// Returns the current orientation.
    pub fn orientation(&self) -> (r: Orientation)
        ensures
            r == self.orientation,
    {
        self.orientation
    }

    /// A size pair as seen under the given orientation: landscape orientations
    /// swap width and height.
    pub open spec fn spec_orient_size(size: (u16, u16), orientation: Orientation) -> (u16, u16) {
        match orientation {
            Orientation::Portrait(_) | Orientation::PortraitInverted(_) => size,
            Orientation::Landscape(_) | Orientation::LandscapeInverted(_) => (size.1, size.0),
        }
    }

    /// Returns the display size under the current orientation.
    pub fn display_size(&self) -> (r: (u16, u16))
        ensures
            r == Self::spec_orient_size(self.display_size, self.orientation),
    {
        Self::orient_size(self.display_size, self.orientation)
    }

    /// Returns the framebuffer size under the current orientation; a zero
    /// framebuffer size falls back to the display size.
    pub fn framebuffer_size(&self) -> (r: (u16, u16))
        ensures
            r == Self::spec_orient_size(
                if self.framebuffer_size == (0u16, 0u16) { self.display_size } else { self.framebuffer_size },
                self.orientation,
            ),
    {
        let size = if self.framebuffer_size.0 == 0 && self.framebuffer_size.1 == 0 {
            self.display_size
        } else {
            self.framebuffer_size
        };
        Self::orient_size(size, self.orientation)
    }

    fn orient_size(size: (u16, u16), orientation: Orientation) -> (r: (u16, u16))
        ensures
            r == Self::spec_orient_size(size, orientation),
    {
        match orientation {
            Orientation::Portrait(_) | Orientation::PortraitInverted(_) => size,
            Orientation::Landscape(_) | Orientation::LandscapeInverted(_) => (size.1, size.0),
        }
    }
}

} // verus!
