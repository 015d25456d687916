//! The shared mode word and its button transition table.
//!
//! The controller's behavior is selected by a single enumerated value held
//! in one process-wide word. Button edge handlers compute the next mode
//! purely from the current mode and which button fired; the poll loop reads
//! the mode each iteration and dispatches to the matching behavior. The
//! platform layer keeps the word in an atomic cell and calls into this
//! module for every decision, so no transition logic lives outside the
//! verified table.

use vstd::prelude::*;

verus! {

/// The control mode held in the process-wide shared state word.
#[derive(Clone, Copy, PartialEq, Eq, Structural, Debug)]
pub enum Mode {
    /// Waiting for a button press.
    Idle,
    /// An offset calibration session is running.
    OffsetCorrection,
    /// The operator ended the calibration session; commit the new offset.
    OffsetCorrectionEnd,
    /// The operator cancelled the calibration session; discard changes.
    OffsetCorrectionCancel,
    /// Capturing the potentiometer's minimum raw value.
    PotentiometerMin,
    /// Capturing the potentiometer's maximum raw value.
    PotentiometerMax,
    /// The operator cancelled a potentiometer capture session.
    PotentiometerCancel,
    /// Running an episode under the automatic policy.
    AutoPolicy,
    /// A manual session was requested; the evaluator hands control over.
    ManualPolicyStart,
    /// Running an episode under the manual policy.
    ManualPolicy,
    /// Shut the control loop down.
    Terminate,
}

/// Which of the four physical buttons fired.
#[derive(Clone, Copy, PartialEq, Eq, Structural, Debug)]
pub enum Button {
    /// The reset/cancel button.
    Reset,
    /// The offset calibration button.
    OffsetCalibrate,
    /// The run-episode button.
    RunEpisode,
    /// The manual toggle button.
    ManualToggle,
}

/// Numeric code of each mode: the value stored in the shared state word.
pub open spec fn mode_code(m: Mode) -> u8 {
    match m {
        Mode::Idle => 0,
        Mode::OffsetCorrection => 10,
        Mode::OffsetCorrectionEnd => 11,
        Mode::OffsetCorrectionCancel => 12,
        Mode::PotentiometerMin => 13,
        Mode::PotentiometerMax => 14,
        Mode::PotentiometerCancel => 15,
        Mode::AutoPolicy => 21,
        Mode::ManualPolicyStart => 22,
        Mode::ManualPolicy => 23,
        Mode::Terminate => 255,
    }
}

/// The button transition table: the mode that a button press moves the
/// controller to, as a pure function of the current mode and the button.
/// Pairs without a listed row leave the mode unchanged.
pub open spec fn spec_next_mode(m: Mode, b: Button) -> Mode {
    match b {
        Button::Reset => match m {
            Mode::OffsetCorrection => Mode::OffsetCorrectionCancel,
            Mode::AutoPolicy => Mode::Idle,
            Mode::Idle => Mode::Terminate,
            _ => m,
        },
        Button::OffsetCalibrate => match m {
            Mode::Idle => Mode::OffsetCorrection,
            Mode::OffsetCorrection => Mode::OffsetCorrectionEnd,
            _ => m,
        },
        Button::RunEpisode => match m {
            Mode::Idle => Mode::AutoPolicy,
            _ => m,
        },
        Button::ManualToggle => Mode::ManualPolicyStart,
    }
}

/// Whether the transition table has a row for this (mode, button) pair.
pub open spec fn spec_pair_listed(m: Mode, b: Button) -> bool {
    match b {
        Button::Reset => m is OffsetCorrection || m is AutoPolicy || m is Idle,
        Button::OffsetCalibrate => m is Idle || m is OffsetCorrection,
        Button::RunEpisode => m is Idle,
        Button::ManualToggle => true,
    }
}

/// Compute the mode that a button press moves the controller to.
pub fn next_mode(m: Mode, b: Button) -> (r: Mode)
    ensures
        r == spec_next_mode(m, b),
{
    match b {
        Button::Reset => match m {
            Mode::OffsetCorrection => Mode::OffsetCorrectionCancel,
            Mode::AutoPolicy => Mode::Idle,
            Mode::Idle => Mode::Terminate,
            _ => m,
        },
        Button::OffsetCalibrate => match m {
            Mode::Idle => Mode::OffsetCorrection,
            Mode::OffsetCorrection => Mode::OffsetCorrectionEnd,
            _ => m,
        },
        Button::RunEpisode => match m {
            Mode::Idle => Mode::AutoPolicy,
            _ => m,
        },
        Button::ManualToggle => Mode::ManualPolicyStart,
    }
}

/// The transition table is deterministic: the same button applied to the
/// same starting mode always yields the same resulting mode.
pub proof fn lemma_next_mode_deterministic(m1: Mode, b1: Button, m2: Mode, b2: Button)
    requires
        m1 == m2,
        b1 == b2,
    ensures
        spec_next_mode(m1, b1) == spec_next_mode(m2, b2),
{
}

/// A button press on a (mode, button) pair without a row in the transition
/// table leaves the mode unchanged.
pub proof fn lemma_unlisted_button_no_op(m: Mode, b: Button)
    requires
        !spec_pair_listed(m, b),
    ensures
        spec_next_mode(m, b) == m,
{
}

/// The single shared mode word behind its load/store interface.
///
/// This is the injected abstraction over the process-wide atomic cell: the
/// platform layer performs the actual atomic store/load (a mode is one
/// word, so no torn intermediate state is observable) and mirrors every
/// operation of this type onto the cell.
pub struct ModeController {
    mode: Mode,
}

impl ModeController {
    /// The mode currently held in the word.
    pub closed spec fn mode_spec(&self) -> Mode {
        self.mode
    }

    /// A freshly created controller is idle.
    pub fn new() -> (c: Self)
        ensures
            c.mode_spec() == Mode::Idle,
    {
        ModeController { mode: Mode::Idle }
    }

    /// Read the current mode.
    pub fn get(&self) -> (m: Mode)
        ensures
            m == self.mode_spec(),
    {
        self.mode
    }

    /// Store a new mode.
    pub fn set(&mut self, m: Mode)
        ensures
            final(self).mode_spec() == m,
    {
        self.mode = m;
    }

    /// Read the shared state word as its numeric code.
    pub fn get_state(&self) -> (s: u8)
        ensures
            s == mode_code(self.mode_spec()),
    {
        match self.mode {
            Mode::Idle => 0,
            Mode::OffsetCorrection => 10,
            Mode::OffsetCorrectionEnd => 11,
            Mode::OffsetCorrectionCancel => 12,
            Mode::PotentiometerMin => 13,
            Mode::PotentiometerMax => 14,
            Mode::PotentiometerCancel => 15,
            Mode::AutoPolicy => 21,
            Mode::ManualPolicyStart => 22,
            Mode::ManualPolicy => 23,
            Mode::Terminate => 255,
        }
    }

    /// Apply one button press: step the mode through the transition table.
    pub fn press(&mut self, b: Button)
        ensures
            final(self).mode_spec() == spec_next_mode(old(self).mode_spec(), b),
    {
        let m = self.get();
        let next = next_mode(m, b);
        self.set(next);
    }

    /// Hand control from a finished offset calibration session to the
    /// potentiometer minimum capture session. The poll loop calls this
    /// whichever way the calibration session ended, so control never
    /// returns to the calibration mode directly.
    pub fn end_offset_session(&mut self)
        ensures
            final(self).mode_spec() == Mode::PotentiometerMin,
    {
        self.set(Mode::PotentiometerMin);
    }

    /// Close a potentiometer capture session: if the operator cancelled,
    /// fall back to idle and report the cancellation so the captured value
    /// is discarded; otherwise leave the mode word alone.
    pub fn end_capture_session(&mut self) -> (cancelled: bool)
        ensures
            cancelled == (old(self).mode_spec() == Mode::PotentiometerCancel),
            cancelled ==> final(self).mode_spec() == Mode::Idle,
            !cancelled ==> *final(self) == *old(self),
    {
        let m = self.get();
        if m == Mode::PotentiometerCancel {
            self.set(Mode::Idle);
            true
        } else {
            false
        }
    }
}

/// The behavior the poll loop dispatches to for a given mode.
#[derive(Clone, Copy, PartialEq, Eq, Structural, Debug)]
pub enum PollBehavior {
    /// Nothing to do: sleep briefly and poll again.
    SleepIdle,
    /// Run the blocking offset calibration session.
    RunOffsetCorrection,
    /// Capture the potentiometer's minimum raw value.
    CaptureMin,
    /// Capture the potentiometer's maximum raw value.
    CaptureMax,
    /// Run the evaluator with the automatic policy.
    RunAuto,
    /// Run the evaluator with the manual policy.
    RunManual,
    /// Leave the poll loop.
    Shutdown,
    /// A transient mode another component consumes: do nothing this turn.
    Ignore,
}

/// The poll loop's dispatch table.
pub open spec fn spec_poll_behavior(m: Mode) -> PollBehavior {
    match m {
        Mode::Idle => PollBehavior::SleepIdle,
        Mode::OffsetCorrection => PollBehavior::RunOffsetCorrection,
        Mode::PotentiometerMin => PollBehavior::CaptureMin,
        Mode::PotentiometerMax => PollBehavior::CaptureMax,
        Mode::AutoPolicy => PollBehavior::RunAuto,
        Mode::ManualPolicy => PollBehavior::RunManual,
        Mode::Terminate => PollBehavior::Shutdown,
        _ => PollBehavior::Ignore,
    }
}

/// Select the behavior the poll loop runs for the current mode.
pub fn poll_behavior(m: Mode) -> (r: PollBehavior)
    ensures
        r == spec_poll_behavior(m),
{
    match m {
        Mode::Idle => PollBehavior::SleepIdle,
        Mode::OffsetCorrection => PollBehavior::RunOffsetCorrection,
        Mode::PotentiometerMin => PollBehavior::CaptureMin,
        Mode::PotentiometerMax => PollBehavior::CaptureMax,
        Mode::AutoPolicy => PollBehavior::RunAuto,
        Mode::ManualPolicy => PollBehavior::RunManual,
        Mode::Terminate => PollBehavior::Shutdown,
        _ => PollBehavior::Ignore,
    }
}

} // verus!
