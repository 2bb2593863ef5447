//! Display models: the per-controller initialization and pixel-streaming
//! logic.

use vstd::prelude::*;
use crate::dcs::{PixelFormat, SetAddressMode, SOFT_RESET};
use crate::options::ModelOptions;
use crate::plan::{steps_view, InitPlan, ResetMode, Step, StepV};

pub mod ili9341;
pub mod ili934x;

verus! {

/// Time the reset line is held low during a hardware reset pulse, in
/// microseconds.
pub const RESET_PULSE_DELAY_US: u32 = 10;

/// The steps of the reset stage. With a reset line the controller is hard
/// reset: the line is driven low, held the mandated time, then released.
/// Without one, the software reset command is sent instead.
pub open spec fn spec_reset_steps(reset: ResetMode) -> Seq<StepV> {
    match reset {
        ResetMode::Hardware => seq![
            StepV::SetResetLow,
            StepV::DelayUs(RESET_PULSE_DELAY_US),
            StepV::SetResetHigh,
        ],
        ResetMode::Software => seq![
            StepV::Send { instruction: SOFT_RESET, params: Seq::empty() },
        ],
    }
}

/// Builds the hardware reset pulse: drive the reset line low, hold it the
/// mandated time, release it.
pub fn hard_reset() -> (steps: Vec<Step>)
    ensures
        steps_view(steps@) == spec_reset_steps(ResetMode::Hardware),
{
    let mut steps: Vec<Step> = Vec::new();
    steps.push(Step::SetResetLow);
    steps.push(Step::DelayUs(RESET_PULSE_DELAY_US));
    steps.push(Step::SetResetHigh);
    proof {
        assert(steps_view(steps@) =~= spec_reset_steps(ResetMode::Hardware));
    }
    steps
}

/// Builds the software reset stage: the single software reset command.
pub fn soft_reset() -> (steps: Vec<Step>)
    ensures
        steps_view(steps@) == spec_reset_steps(ResetMode::Software),
{
    let mut steps: Vec<Step> = Vec::new();
    steps.push(Step::Send { instruction: SOFT_RESET, params: Vec::new() });
    proof {
        assert(steps_view(steps@) =~= spec_reset_steps(ResetMode::Software));
    }
    steps
}

/// A display model: one controller chip in one color format.
///
/// Every implementation must reuse the same reset and sequencing logic and
/// may differ only in the pixel format it negotiates, the bytes a color
/// encodes to, and its default geometry.
pub trait Model {
    /// The color type streamed to a display of this model.
    type ColorFormat;

    /// The pixel format this model negotiates during initialization.
    spec fn spec_pixel_format() -> PixelFormat;

    /// The default options of this model.
    spec fn spec_default_options() -> ModelOptions;

    /// The full initialization step sequence for the given options and reset
    /// mode.
    spec fn spec_init_steps(options: ModelOptions, reset: ResetMode) -> Seq<StepV>;

    /// The bytes one color of this model sends on the bus.
    spec fn spec_encode(c: Self::ColorFormat) -> Seq<u8>;

    /// Builds the initialization plan: the reset stage for the given reset
    /// mode followed by the chip-mandated setup command sequence, and the
    /// addressing mode the controller is left in when every step succeeds.
    fn init(&self, options: &ModelOptions, reset: ResetMode) -> (plan: InitPlan)
        ensures
            plan@ == Self::spec_init_steps(*options, reset),
            plan.madctl == SetAddressMode::spec_from_options(*options),
    ;

    /// Encodes a sequence of colors for streaming: one bus send per color,
    /// carrying exactly that color's complete encoding, in the order given.
    /// An empty sequence yields an empty plan, so nothing is sent.
    fn write_pixels(&self, colors: &Vec<Self::ColorFormat>) -> (writes: Vec<Vec<u8>>)
        ensures
            writes@.len() == colors@.len(),
            forall|i: int|
                0 <= i < colors@.len() ==> (#[trigger] writes@[i])@ == Self::spec_encode(
                    colors@[i],
                ),
    ;

    /// Creates the default options for this model.
    fn default_options() -> (options: ModelOptions)
        ensures
            options == Self::spec_default_options(),
    ;
}

} // verus!
