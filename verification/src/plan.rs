//! Step plans: the bus, reset-pin and delay operations an initialization or
//! pixel stream consists of.
//!
//! The model functions return plans; a runner that owns the hardware performs
//! the steps in order. Driving the reset pin may fail with the pin's error,
//! sending a command may fail with the transport's error, and a delay cannot
//! fail. A runner must stop at the first failing step.

use vstd::prelude::*;
use crate::dcs::SetAddressMode;

verus! {

/// How the controller is to be reset: through a dedicated reset line, or by a
/// software reset command when no such line is wired.
#[derive(Debug, Clone, Copy, PartialEq, Eq, Structural)]
pub enum ResetMode {
    /// A reset line is available; reset by pulsing it.
    Hardware,
    /// No reset line; reset by sending the software reset command.
    Software,
}

/// One operation of a plan.
#[derive(Debug, Clone, PartialEq, Eq)]
pub enum Step {
    /// Drive the reset line low. Fails with the pin's error.
    SetResetLow,
    /// Drive the reset line high. Fails with the pin's error.
    SetResetHigh,
    /// Wait the given number of microseconds. Infallible.
    DelayUs(u32),
    /// Send one command: the opcode byte, then the parameter bytes. Fails
    /// with the transport's error.
    Send { instruction: u8, params: Vec<u8> },
}

/// The mathematical value of a [`Step`], with the parameter bytes as a
/// sequence.
pub enum StepV {
    /// Drive the reset line low.
    SetResetLow,
    /// Drive the reset line high.
    SetResetHigh,
    /// Wait the given number of microseconds.
    DelayUs(u32),
    /// Send one command with the given parameter bytes.
    Send { instruction: u8, params: Seq<u8> },
}

impl View for Step {
    type V = StepV;

    open spec fn view(&self) -> StepV {
        match self {
            Step::SetResetLow => StepV::SetResetLow,
            Step::SetResetHigh => StepV::SetResetHigh,
            Step::DelayUs(us) => StepV::DelayUs(*us),
            Step::Send { instruction, params } => StepV::Send {
                instruction: *instruction,
                params: params@,
            },
        }
    }
}

/// The view of a whole step vector.
pub open spec fn steps_view(steps: Seq<Step>) -> Seq<StepV> {
    steps.map_values(|step: Step| step@)
}

/// Whether a step sends the given opcode over the channel.
pub open spec fn sends_instruction(step: StepV, instruction: u8) -> bool {
    step matches StepV::Send { instruction: i, .. } && i == instruction
}

/// The class of collaborator failure a step can surface. Initialization can
/// fail either way and wraps the two apart; pixel streaming only ever sends,
/// so it only sees transport failures.
#[derive(Debug, Clone, Copy, PartialEq, Eq, Structural)]
pub enum FailureKind {
    /// Driving the reset line failed with the pin's error.
    ResetPin,
    /// The command/data channel failed to send.
    Transport,
}

impl Step {
    /// The failure this step can surface, if it can fail at all: reset-pin
    /// steps fail with the pin's error, sends with the transport's error,
    /// and a delay cannot fail.
    pub fn failure_kind(&self) -> (kind: Option<FailureKind>)
        ensures
            kind == (match self@ {
                StepV::SetResetLow => Some(FailureKind::ResetPin),
                StepV::SetResetHigh => Some(FailureKind::ResetPin),
                StepV::DelayUs(_) => None::<FailureKind>,
                StepV::Send { .. } => Some(FailureKind::Transport),
            }),
    {
        match self {
            Step::SetResetLow => Some(FailureKind::ResetPin),
            Step::SetResetHigh => Some(FailureKind::ResetPin),
            Step::DelayUs(_) => None,
            Step::Send { .. } => Some(FailureKind::Transport),
        }
    }
}

/// An initialization plan: the steps to perform in order, and the addressing
/// mode the controller is left in when every step succeeds.
#[derive(Debug, Clone, PartialEq, Eq)]
pub struct InitPlan {
    /// The steps, to be performed first to last.
    pub steps: Vec<Step>,
    /// The addressing-mode configuration established by the plan, returned to
    /// the caller on success.
    pub madctl: SetAddressMode,
}

impl View for InitPlan {
    type V = Seq<StepV>;

    open spec fn view(&self) -> Seq<StepV> {
        steps_view(self.steps@)
    }
}

} // verus!
