//! Shared initialization and pixel streaming for the ILI934x controller
//! family.
//!
//! Every color-format variant of this family performs the identical reset and
//! sequencing steps; the variants differ only in the pixel format fed into
//! the sequence and in the per-pixel byte encoding.

use vstd::prelude::*;
use crate::color::{
    spec_encode_rgb565, spec_encode_rgb666, encode_rgb565, encode_rgb666, Rgb565Color, Rgb666Color,
};
use crate::dcs::{
    spec_invert_mode_instruction, invert_mode_instruction, PixelFormat, SetAddressMode,
    DISPLAY_INVERSION_CONTROL, ENTER_NORMAL_MODE, EXIT_SLEEP_MODE, SET_ADDRESS_MODE,
    SET_DISPLAY_ON, SET_PIXEL_FORMAT, SOFT_RESET,
};
use crate::options::ModelOptions;
use crate::plan::{sends_instruction, steps_view, ResetMode, Step, StepV};
use super::spec_reset_steps;

verus! {

/// Wait after releasing the reset line or after a software reset before the
/// first command may follow, in microseconds.
pub const RESET_SETTLE_DELAY_US: u32 = 5_000;

/// Wait before Exit Sleep Mode: leaving sleep may not follow a reset's
/// implicit Enter Sleep Mode sooner than this, in microseconds.
pub const EXIT_SLEEP_GUARD_DELAY_US: u32 = 120_000;

/// Wait after Exit Sleep Mode for the controller's power-on sequence to
/// settle, in microseconds.
pub const EXIT_SLEEP_SETTLE_DELAY_US: u32 = 140_000;

/// The setup command sequence shared by all ILI934x controllers and color
/// formats, as the chip mandates it: settle after reset, then set the
/// addressing mode, the display inversion control register, the color
/// inversion, and the pixel format, enter normal mode, leave sleep with the
/// mandated delays around it, and turn the display on.
pub open spec fn spec_common_init_steps(pixel_format: PixelFormat, options: ModelOptions) -> Seq<
    StepV,
> {
    seq![
        StepV::DelayUs(RESET_SETTLE_DELAY_US),
        StepV::Send {
            instruction: SET_ADDRESS_MODE,
            params: seq![SetAddressMode::spec_from_options(options).0],
        },
        StepV::Send { instruction: DISPLAY_INVERSION_CONTROL, params: seq![0u8] },
        StepV::Send {
            instruction: spec_invert_mode_instruction(options.invert_colors),
            params: Seq::empty(),
        },
        StepV::Send { instruction: SET_PIXEL_FORMAT, params: seq![pixel_format.spec_as_u8()] },
        StepV::Send { instruction: ENTER_NORMAL_MODE, params: Seq::empty() },
        StepV::DelayUs(EXIT_SLEEP_GUARD_DELAY_US),
        StepV::Send { instruction: EXIT_SLEEP_MODE, params: Seq::empty() },
        StepV::DelayUs(EXIT_SLEEP_SETTLE_DELAY_US),
        StepV::Send { instruction: SET_DISPLAY_ON, params: Seq::empty() },
    ]
}

/// The full initialization sequence of an ILI934x model: the reset stage for
/// the given reset mode, then the shared setup commands.
pub open spec fn spec_init_steps(
    pixel_format: PixelFormat,
    options: ModelOptions,
    reset: ResetMode,
) -> Seq<StepV> {
    spec_reset_steps(reset) + spec_common_init_steps(pixel_format, options)
}

fn empty_params() -> (v: Vec<u8>)
    ensures
        v@ == Seq::<u8>::empty(),
{
    Vec::new()
}

fn one_param(b: u8) -> (v: Vec<u8>)
    ensures
        v@ == seq![b],
{
    let mut v: Vec<u8> = Vec::new();
    v.push(b);
    proof {
        assert(v@ =~= seq![b]);
    }
    v
}

/// Builds the setup steps shared by all ILI934x controllers, and the
/// addressing mode value they configure, which `init` returns on success.
pub fn init_common(options: &ModelOptions, pixel_format: PixelFormat) -> (r: (
    Vec<Step>,
    SetAddressMode,
))
    ensures
        steps_view(r.0@) == spec_common_init_steps(pixel_format, *options),
        r.1 == SetAddressMode::spec_from_options(*options),
{
    let madctl = SetAddressMode::from_options(options);
    let mut steps: Vec<Step> = Vec::new();
    steps.push(Step::DelayUs(RESET_SETTLE_DELAY_US));
    steps.push(Step::Send { instruction: SET_ADDRESS_MODE, params: one_param(madctl.value()) });
    steps.push(Step::Send { instruction: DISPLAY_INVERSION_CONTROL, params: one_param(0x00) });
    steps.push(
        Step::Send {
            instruction: invert_mode_instruction(options.invert_colors),
            params: empty_params(),
        },
    );
    steps.push(
        Step::Send { instruction: SET_PIXEL_FORMAT, params: one_param(pixel_format.as_u8()) },
    );
    steps.push(Step::Send { instruction: ENTER_NORMAL_MODE, params: empty_params() });
    steps.push(Step::DelayUs(EXIT_SLEEP_GUARD_DELAY_US));
    steps.push(Step::Send { instruction: EXIT_SLEEP_MODE, params: empty_params() });
    steps.push(Step::DelayUs(EXIT_SLEEP_SETTLE_DELAY_US));
    steps.push(Step::Send { instruction: SET_DISPLAY_ON, params: empty_params() });
    proof {
        assert(steps_view(steps@) =~= spec_common_init_steps(pixel_format, *options));
    }
    (steps, madctl)
}

/// The per-color bus sends of a 16-bit pixel stream: entry `i` holds the
/// complete two-byte encoding of color `i`.
pub open spec fn spec_pixel_writes_rgb565(colors: Seq<Rgb565Color>) -> Seq<Seq<u8>> {
    colors.map_values(|c: Rgb565Color| spec_encode_rgb565(c))
}

/// The per-color bus sends of an 18-bit pixel stream: entry `i` holds the
/// complete three-byte encoding of color `i`.
pub open spec fn spec_pixel_writes_rgb666(colors: Seq<Rgb666Color>) -> Seq<Seq<u8>> {
    colors.map_values(|c: Rgb666Color| spec_encode_rgb666(c))
}

/// Encodes a 16-bit color sequence for streaming: one send per color, in
/// order, each carrying that color's complete two bytes.
pub fn write_pixels_rgb565(colors: &Vec<Rgb565Color>) -> (writes: Vec<Vec<u8>>)
    ensures
        writes@.len() == colors@.len(),
        forall|i: int|
            0 <= i < colors@.len() ==> (#[trigger] writes@[i])@ == spec_encode_rgb565(colors@[i]),
{
    let mut writes: Vec<Vec<u8>> = Vec::new();
    let mut idx: usize = 0;
    while idx < colors.len()
        invariant
            idx <= colors@.len(),
            writes@.len() == idx,
            forall|i: int|
                0 <= i < idx ==> (#[trigger] writes@[i])@ == spec_encode_rgb565(colors@[i]),
        decreases colors@.len() - idx,
    {
        writes.push(encode_rgb565(&colors[idx]));
        idx = idx + 1;
    }
    writes
}

/// Encodes an 18-bit color sequence for streaming: one send per color, in
/// order, each carrying that color's complete three bytes.
pub fn write_pixels_rgb666(colors: &Vec<Rgb666Color>) -> (writes: Vec<Vec<u8>>)
    ensures
        writes@.len() == colors@.len(),
        forall|i: int|
            0 <= i < colors@.len() ==> (#[trigger] writes@[i])@ == spec_encode_rgb666(colors@[i]),
{
    let mut writes: Vec<Vec<u8>> = Vec::new();
    let mut idx: usize = 0;
    while idx < colors.len()
        invariant
            idx <= colors@.len(),
            writes@.len() == idx,
            forall|i: int|
                0 <= i < idx ==> (#[trigger] writes@[i])@ == spec_encode_rgb666(colors@[i]),
        decreases colors@.len() - idx,
    {
        writes.push(encode_rgb666(&colors[idx]));
        idx = idx + 1;
    }
    writes
}

/// With a reset line supplied, initialization never sends the software reset
/// command over the channel: reset happens exclusively through the pin. This
/// holds for every pixel format, so for every color-format variant.
pub proof fn lemma_init_with_reset_line_never_soft_resets(
    pixel_format: PixelFormat,
    options: ModelOptions,
)
    ensures
        forall|i: int|
            0 <= i < spec_init_steps(pixel_format, options, ResetMode::Hardware).len()
                ==> !sends_instruction(
                #[trigger] spec_init_steps(pixel_format, options, ResetMode::Hardware)[i],
                SOFT_RESET,
            ),
{
    let s = spec_init_steps(pixel_format, options, ResetMode::Hardware);
    let r = spec_reset_steps(ResetMode::Hardware);
    let c = spec_common_init_steps(pixel_format, options);
    assert forall|i: int| 0 <= i < s.len() implies !sends_instruction(s[i], SOFT_RESET) by {
        if i < r.len() {
            assert(s[i] == r[i]);
        } else {
            assert(s[i] == c[i - r.len()]);
            lemma_common_init_steps_never_soft_reset(pixel_format, options, i - r.len());
        }
    }
}

/// No step of the shared setup sequence sends the software reset command.
proof fn lemma_common_init_steps_never_soft_reset(
    pixel_format: PixelFormat,
    options: ModelOptions,
    i: int,
)
    requires
        0 <= i < spec_common_init_steps(pixel_format, options).len(),
    ensures
        !sends_instruction(spec_common_init_steps(pixel_format, options)[i], SOFT_RESET),
{
    assert(spec_invert_mode_instruction(options.invert_colors) != SOFT_RESET);
}

/// With no reset line supplied, initialization sends the software reset
/// command exactly once, as its very first step, before any other command.
/// This holds for every pixel format, so for every color-format variant.
pub proof fn lemma_init_without_reset_line_soft_resets_first(
    pixel_format: PixelFormat,
    options: ModelOptions,
)
    ensures
        spec_init_steps(pixel_format, options, ResetMode::Software)[0] == (StepV::Send {
            instruction: SOFT_RESET,
            params: Seq::<u8>::empty(),
        }),
        forall|i: int|
            1 <= i < spec_init_steps(pixel_format, options, ResetMode::Software).len()
                ==> !sends_instruction(
                #[trigger] spec_init_steps(pixel_format, options, ResetMode::Software)[i],
                SOFT_RESET,
            ),
{
    let s = spec_init_steps(pixel_format, options, ResetMode::Software);
    let r = spec_reset_steps(ResetMode::Software);
    let c = spec_common_init_steps(pixel_format, options);
    assert(s[0] == r[0]);
    assert forall|i: int| 1 <= i < s.len() implies !sends_instruction(s[i], SOFT_RESET) by {
        assert(s[i] == c[i - 1]);
        lemma_common_init_steps_never_soft_reset(pixel_format, options, i - 1);
    }
}

/// Two pixel formats produce initialization sequences of equal length that
/// agree at every step except the pixel-format command, whose parameter is
/// the respective format byte: a new color-format variant cannot diverge in
/// its reset or sequencing logic.
pub proof fn lemma_variants_share_sequencing(
    pf1: PixelFormat,
    pf2: PixelFormat,
    options: ModelOptions,
    reset: ResetMode,
)
    ensures
        spec_init_steps(pf1, options, reset).len() == spec_init_steps(pf2, options, reset).len(),
        forall|i: int|
            0 <= i < spec_init_steps(pf1, options, reset).len() && #[trigger] spec_init_steps(
                pf1,
                options,
                reset,
            )[i] != #[trigger] spec_init_steps(pf2, options, reset)[i] ==> spec_init_steps(
                pf1,
                options,
                reset,
            )[i] == (StepV::Send {
                instruction: SET_PIXEL_FORMAT,
                params: seq![pf1.spec_as_u8()],
            }) && spec_init_steps(pf2, options, reset)[i] == (StepV::Send {
                instruction: SET_PIXEL_FORMAT,
                params: seq![pf2.spec_as_u8()],
            }),
{
    let s1 = spec_init_steps(pf1, options, reset);
    let s2 = spec_init_steps(pf2, options, reset);
    let r = spec_reset_steps(reset);
    let c1 = spec_common_init_steps(pf1, options);
    let c2 = spec_common_init_steps(pf2, options);
    assert forall|i: int|
        0 <= i < s1.len() && s1[i] != s2[i] implies s1[i] == (StepV::Send {
        instruction: SET_PIXEL_FORMAT,
        params: seq![pf1.spec_as_u8()],
    }) && s2[i] == (StepV::Send {
        instruction: SET_PIXEL_FORMAT,
        params: seq![pf2.spec_as_u8()],
    }) by {
        if i < r.len() {
            assert(s1[i] == r[i] && s2[i] == r[i]);
        } else {
            let j = i - r.len();
            assert(s1[i] == c1[j] && s2[i] == c2[j]);
        }
    }
}

/// If streaming fails on one color of a sequence, the sends already made are
/// the complete encodings of exactly the earlier colors: the pending writes
/// up to any position are the writes of the color prefix of that length, so
/// no partial pixel precedes the failure.
pub proof fn lemma_pixel_writes_prefix_rgb565(colors: Seq<Rgb565Color>, n: int)
    requires
        0 <= n <= colors.len(),
    ensures
        spec_pixel_writes_rgb565(colors).take(n) == spec_pixel_writes_rgb565(colors.take(n)),
{
    assert(spec_pixel_writes_rgb565(colors).take(n) =~= spec_pixel_writes_rgb565(colors.take(n)));
}

/// The 18-bit counterpart of [`lemma_pixel_writes_prefix_rgb565`].
pub proof fn lemma_pixel_writes_prefix_rgb666(colors: Seq<Rgb666Color>, n: int)
    requires
        0 <= n <= colors.len(),
    ensures
        spec_pixel_writes_rgb666(colors).take(n) == spec_pixel_writes_rgb666(colors.take(n)),
{
    assert(spec_pixel_writes_rgb666(colors).take(n) =~= spec_pixel_writes_rgb666(colors.take(n)));
}

} // verus!
