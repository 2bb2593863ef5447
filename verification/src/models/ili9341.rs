//! ILI9341 display models, one per supported color format.

use vstd::prelude::*;
use crate::builder::Builder;
use crate::color::{spec_encode_rgb565, spec_encode_rgb666, Rgb565Color, Rgb666Color};
use crate::dcs::{BitsPerPixel, PixelFormat};
use crate::options::ModelOptions;
use crate::plan::{steps_view, InitPlan, ResetMode, Step, StepV};
use super::{hard_reset, ili934x, soft_reset, Model};

verus! {

/// ILI9341 display in Rgb565 color mode.
pub struct ILI9341Rgb565;

/// ILI9341 display in Rgb666 color mode.
pub struct ILI9341Rgb666;

impl Model for ILI9341Rgb565 {
    type ColorFormat = Rgb565Color;

    open spec fn spec_pixel_format() -> PixelFormat {
        PixelFormat { dpi: BitsPerPixel::Sixteen, dbi: BitsPerPixel::Sixteen }
    }

    open spec fn spec_default_options() -> ModelOptions {
        ModelOptions::spec_with_sizes((240u16, 320u16), (240u16, 320u16))
    }

    open spec fn spec_init_steps(options: ModelOptions, reset: ResetMode) -> Seq<StepV> {
        ili934x::spec_init_steps(Self::spec_pixel_format(), options, reset)
    }

    open spec fn spec_encode(c: Rgb565Color) -> Seq<u8> {
        spec_encode_rgb565(c)
    }

    fn init(&self, options: &ModelOptions, reset: ResetMode) -> (plan: InitPlan) {
        let mut steps: Vec<Step> = match reset {
            ResetMode::Hardware => hard_reset(),
            ResetMode::Software => soft_reset(),
        };
        let pf = PixelFormat::with_all(BitsPerPixel::Sixteen);
        let (mut common, madctl) = ili934x::init_common(options, pf);
        steps.append(&mut common);
        proof {
            assert(steps_view(steps@) =~= Self::spec_init_steps(*options, reset));
        }
        InitPlan { steps, madctl }
    }

    fn write_pixels(&self, colors: &Vec<Rgb565Color>) -> (writes: Vec<Vec<u8>>) {
        ili934x::write_pixels_rgb565(colors)
    }

    fn default_options() -> (options: ModelOptions) {
        ModelOptions::with_sizes((240, 320), (240, 320))
    }
}

impl Model for ILI9341Rgb666 {
    type ColorFormat = Rgb666Color;

    open spec fn spec_pixel_format() -> PixelFormat {
        PixelFormat { dpi: BitsPerPixel::Eighteen, dbi: BitsPerPixel::Eighteen }
    }

    open spec fn spec_default_options() -> ModelOptions {
        ModelOptions::spec_with_sizes((240u16, 320u16), (240u16, 320u16))
    }

    open spec fn spec_init_steps(options: ModelOptions, reset: ResetMode) -> Seq<StepV> {
        ili934x::spec_init_steps(Self::spec_pixel_format(), options, reset)
    }

    open spec fn spec_encode(c: Rgb666Color) -> Seq<u8> {
        spec_encode_rgb666(c)
    }

    fn init(&self, options: &ModelOptions, reset: ResetMode) -> (plan: InitPlan) {
        let mut steps: Vec<Step> = match reset {
            ResetMode::Hardware => hard_reset(),
            ResetMode::Software => soft_reset(),
        };
        let pf = PixelFormat::with_all(BitsPerPixel::Eighteen);
        let (mut common, madctl) = ili934x::init_common(options, pf);
        steps.append(&mut common);
        proof {
            assert(steps_view(steps@) =~= Self::spec_init_steps(*options, reset));
        }
        InitPlan { steps, madctl }
    }

    fn write_pixels(&self, colors: &Vec<Rgb666Color>) -> (writes: Vec<Vec<u8>>) {
        ili934x::write_pixels_rgb666(colors)
    }

    fn default_options() -> (options: ModelOptions) {
        ModelOptions::with_sizes((240, 320), (240, 320))
    }
}

impl<DI> Builder<DI, ILI9341Rgb565> {
    /// Creates a new display builder for an ILI9341 display in Rgb565 color
    /// mode, with the default framebuffer and display size of 240x320
    /// pixels.
    pub fn ili9341_rgb565(di: DI) -> (b: Self)
        ensures
            b.options == ILI9341Rgb565::spec_default_options(),
            b.di == di,
    {
        Self::with_model(di, ILI9341Rgb565)
    }
}

impl<DI> Builder<DI, ILI9341Rgb666> {
    /// Creates a new display builder for an ILI9341 display in Rgb666 color
    /// mode, with the default framebuffer and display size of 240x320
    /// pixels.
    pub fn ili9341_rgb666(di: DI) -> (b: Self)
        ensures
            b.options == ILI9341Rgb666::spec_default_options(),
            b.di == di,
    {
        Self::with_model(di, ILI9341Rgb666)
    }
}

} // verus!
