//! Builder for display instances: carries the display interface, the model
//! and the options that initialization will use.

use vstd::prelude::*;
use crate::models::Model;
use crate::options::{ColorInversion, ColorOrder, ModelOptions, Orientation, RefreshOrder};

verus! {

/// Builder for a display bound to a display interface `DI` and a model
/// `MODEL`. The options start at the model's defaults and may be overridden
/// before initialization.
pub struct Builder<DI, MODEL> {
    /// The display interface the display will be driven through.
    pub di: DI,
    /// The model instance.
    pub model: MODEL,
    /// The options that initialization will use.
    pub options: ModelOptions,
}

impl<DI, MODEL: Model> Builder<DI, MODEL> {
    /// Constructs a new builder for the given model, with the model's
    /// default options.
    pub fn with_model(di: DI, model: MODEL) -> (b: Self)
        ensures
            b.di == di,
            b.model == model,
            b.options == MODEL::spec_default_options(),
    {
        let options = MODEL::default_options();
        Builder { di, model, options }
    }
}

impl<DI, MODEL> Builder<DI, MODEL> {
    /// Sets the color inversion setting.
    pub fn with_invert_colors(self, color_inversion: ColorInversion) -> (b: Self)
        ensures
            b.di == self.di,
            b.model == self.model,
            b.options == (ModelOptions { invert_colors: color_inversion, ..self.options }),
    {
        let mut options = self.options;
        options.set_invert_colors(color_inversion);
        Builder { di: self.di, model: self.model, options }
    }

    /// Sets the color order.
    pub fn with_color_order(self, color_order: ColorOrder) -> (b: Self)
        ensures
            b.di == self.di,
            b.model == self.model,
            b.options == (ModelOptions { color_order, ..self.options }),
    {
        let mut options = self.options;
        options.color_order = color_order;
        Builder { di: self.di, model: self.model, options }
    }

    /// Sets the orientation.
    pub fn with_orientation(self, orientation: Orientation) -> (b: Self)
        ensures
            b.di == self.di,
            b.model == self.model,
            b.options == (ModelOptions { orientation, ..self.options }),
    {
        let mut options = self.options;
        options.set_orientation(orientation);
        Builder { di: self.di, model: self.model, options }
    }

    /// Sets the refresh order.
    pub fn with_refresh_order(self, refresh_order: RefreshOrder) -> (b: Self)
        ensures
            b.di == self.di,
            b.model == self.model,
            b.options == (ModelOptions { refresh_order, ..self.options }),
    {
        let mut options = self.options;
        options.refresh_order = refresh_order;
        Builder { di: self.di, model: self.model, options }
    }

    /// Sets the display size.
    pub fn with_display_size(self, width: u16, height: u16) -> (b: Self)
        ensures
            b.di == self.di,
            b.model == self.model,
            b.options == (ModelOptions { display_size: (width, height), ..self.options }),
    {
        let mut options = self.options;
        options.display_size = (width, height);
        Builder { di: self.di, model: self.model, options }
    }

    /// Sets the framebuffer size.
    pub fn with_framebuffer_size(self, width: u16, height: u16) -> (b: Self)
        ensures
            b.di == self.di,
            b.model == self.model,
            b.options == (ModelOptions { framebuffer_size: (width, height), ..self.options }),
    {
        let mut options = self.options;
        options.framebuffer_size = (width, height);
        Builder { di: self.di, model: self.model, options }
    }

    /// Takes the builder apart, for a runner that owns the hardware:
    /// initialization consumes the builder, builds the plan from the options,
    /// and drives the interface with it.
    pub fn into_parts(self) -> (r: (DI, MODEL, ModelOptions))
        ensures
            r.0 == self.di,
            r.1 == self.model,
            r.2 == self.options,
    {
        let Builder { di, model, options } = self;
        (di, model, options)
    }
}

} // verus!
