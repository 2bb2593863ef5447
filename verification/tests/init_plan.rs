use mipidsi_async::color::Rgb565Color;
use mipidsi_async::dcs::{
    SetAddressMode, DISPLAY_INVERSION_CONTROL, ENTER_INVERT_MODE, ENTER_NORMAL_MODE,
    EXIT_INVERT_MODE, EXIT_SLEEP_MODE, SET_ADDRESS_MODE, SET_DISPLAY_ON, SET_PIXEL_FORMAT,
    SOFT_RESET,
};
use mipidsi_async::models::ili9341::{ILI9341Rgb565, ILI9341Rgb666};
use mipidsi_async::models::Model;
use mipidsi_async::options::{ColorInversion, ModelOptions};
use mipidsi_async::plan::{FailureKind, InitPlan, ResetMode, Step};

/// A record of what a runner would observe while performing a plan whose
/// collaborators all succeed.
#[derive(Debug, Clone, PartialEq, Eq)]
enum Observed {
    PinLow,
    PinHigh,
    WaitedUs(u32),
    Command(u8, Vec<u8>),
}

fn run_plan(plan: &InitPlan) -> Vec<Observed> {
    let mut log = Vec::new();
    for step in &plan.steps {
        match step {
            Step::SetResetLow => log.push(Observed::PinLow),
            Step::SetResetHigh => log.push(Observed::PinHigh),
            Step::DelayUs(us) => log.push(Observed::WaitedUs(*us)),
            Step::Send { instruction, params } => {
                log.push(Observed::Command(*instruction, params.clone()))
            }
        }
    }
    log
}

fn soft_reset_sends(plan: &InitPlan) -> Vec<usize> {
    let mut positions = Vec::new();
    for (i, step) in plan.steps.iter().enumerate() {
        if let Step::Send { instruction, .. } = step {
            if *instruction == SOFT_RESET {
                positions.push(i);
            }
        }
    }
    positions
}

#[test]
fn hard_reset_init_never_sends_soft_reset() {
    let options = ILI9341Rgb565::default_options();
    let plan565 = ILI9341Rgb565.init(&options, ResetMode::Hardware);
    let plan666 = ILI9341Rgb666.init(&options, ResetMode::Hardware);
    assert!(soft_reset_sends(&plan565).is_empty());
    assert!(soft_reset_sends(&plan666).is_empty());
}

#[test]
fn soft_reset_init_sends_exactly_one_reset_first() {
    let options = ILI9341Rgb666::default_options();
    let plan565 = ILI9341Rgb565.init(&options, ResetMode::Software);
    let plan666 = ILI9341Rgb666.init(&options, ResetMode::Software);
    for plan in [&plan565, &plan666] {
        assert_eq!(soft_reset_sends(plan), vec![0]);
        assert_eq!(
            plan.steps[0],
            Step::Send { instruction: SOFT_RESET, params: Vec::new() }
        );
        // The reset precedes every pixel-format and addressing command.
        let log = run_plan(plan);
        let first_other_command = log
            .iter()
            .position(|o| matches!(o, Observed::Command(i, _) if *i != SOFT_RESET))
            .unwrap();
        assert!(first_other_command > 0);
    }
}

#[test]
fn hard_reset_init_full_scenario() {
    // Reset line present, pin and transport always succeeding: the pin is
    // driven low, held 10 us, driven high, and after the mandated settle time
    // the setup commands follow; the returned addressing mode is the one the
    // options configure.
    let options = ILI9341Rgb565::default_options();
    let plan = ILI9341Rgb565.init(&options, ResetMode::Hardware);
    let log = run_plan(&plan);
    let expected = vec![
        Observed::PinLow,
        Observed::WaitedUs(10),
        Observed::PinHigh,
        Observed::WaitedUs(5_000),
        Observed::Command(SET_ADDRESS_MODE, vec![0x00]),
        Observed::Command(DISPLAY_INVERSION_CONTROL, vec![0x00]),
        Observed::Command(EXIT_INVERT_MODE, vec![]),
        Observed::Command(SET_PIXEL_FORMAT, vec![0x55]),
        Observed::Command(ENTER_NORMAL_MODE, vec![]),
        Observed::WaitedUs(120_000),
        Observed::Command(EXIT_SLEEP_MODE, vec![]),
        Observed::WaitedUs(140_000),
        Observed::Command(SET_DISPLAY_ON, vec![]),
    ];
    assert_eq!(log, expected);
    assert_eq!(plan.madctl, SetAddressMode::from_options(&options));
    assert_eq!(plan.madctl.value(), 0x00);
}

#[test]
fn soft_reset_init_full_scenario() {
    // Reset line absent: exactly one software-reset command byte on the
    // channel before any other command.
    let options = ILI9341Rgb666::default_options();
    let plan = ILI9341Rgb666.init(&options, ResetMode::Software);
    let log = run_plan(&plan);
    let expected = vec![
        Observed::Command(SOFT_RESET, vec![]),
        Observed::WaitedUs(5_000),
        Observed::Command(SET_ADDRESS_MODE, vec![0x00]),
        Observed::Command(DISPLAY_INVERSION_CONTROL, vec![0x00]),
        Observed::Command(EXIT_INVERT_MODE, vec![]),
        Observed::Command(SET_PIXEL_FORMAT, vec![0x66]),
        Observed::Command(ENTER_NORMAL_MODE, vec![]),
        Observed::WaitedUs(120_000),
        Observed::Command(EXIT_SLEEP_MODE, vec![]),
        Observed::WaitedUs(140_000),
        Observed::Command(SET_DISPLAY_ON, vec![]),
    ];
    assert_eq!(log, expected);
}

#[test]
fn variants_differ_only_in_pixel_format() {
    let options = ModelOptions::with_sizes((240, 320), (240, 320));
    for reset in [ResetMode::Hardware, ResetMode::Software] {
        let plan565 = ILI9341Rgb565.init(&options, reset);
        let plan666 = ILI9341Rgb666.init(&options, reset);
        assert_eq!(plan565.steps.len(), plan666.steps.len());
        for (a, b) in plan565.steps.iter().zip(plan666.steps.iter()) {
            match (a, b) {
                (
                    Step::Send { instruction: ia, params: pa },
                    Step::Send { instruction: ib, params: pb },
                ) if *ia == SET_PIXEL_FORMAT => {
                    assert_eq!(*ib, SET_PIXEL_FORMAT);
                    assert_eq!(pa, &vec![0x55]);
                    assert_eq!(pb, &vec![0x66]);
                }
                _ => assert_eq!(a, b),
            }
        }
    }
}

#[test]
fn inverted_colors_use_the_invert_on_opcode() {
    let mut options = ILI9341Rgb565::default_options();
    options.set_invert_colors(ColorInversion::Inverted);
    let plan = ILI9341Rgb565.init(&options, ResetMode::Hardware);
    let log = run_plan(&plan);
    assert!(log.contains(&Observed::Command(ENTER_INVERT_MODE, vec![])));
    assert!(!log.contains(&Observed::Command(EXIT_INVERT_MODE, vec![])));
}

#[test]
fn only_pin_steps_fail_with_the_pin_error() {
    let options = ILI9341Rgb565::default_options();
    let plan = ILI9341Rgb565.init(&options, ResetMode::Hardware);
    for step in &plan.steps {
        let expected = match step {
            Step::SetResetLow | Step::SetResetHigh => Some(FailureKind::ResetPin),
            Step::DelayUs(_) => None,
            Step::Send { .. } => Some(FailureKind::Transport),
        };
        assert_eq!(step.failure_kind(), expected);
    }
}

#[test]
fn init_plan_is_pure_of_the_color_values() {
    // The init plan depends on the options and reset mode alone; the colors
    // streamed later never change it.
    let options = ILI9341Rgb565::default_options();
    let first = ILI9341Rgb565.init(&options, ResetMode::Hardware);
    let _ = ILI9341Rgb565.write_pixels(&vec![Rgb565Color::new(1, 2, 3)]);
    let second = ILI9341Rgb565.init(&options, ResetMode::Hardware);
    assert_eq!(first.steps, second.steps);
    assert_eq!(first.madctl, second.madctl);
}
