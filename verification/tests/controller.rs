use pendulum::evaluator::{evaluate_tick_control, PendulumEvaluator};
use pendulum::mode::{next_mode, poll_behavior, Button, Mode, ModeController, PollBehavior};

#[test]
fn reset_button_rows() {
    assert_eq!(
        next_mode(Mode::OffsetCorrection, Button::Reset),
        Mode::OffsetCorrectionCancel
    );
    assert_eq!(next_mode(Mode::AutoPolicy, Button::Reset), Mode::Idle);
    assert_eq!(next_mode(Mode::Idle, Button::Reset), Mode::Terminate);
}

#[test]
fn offset_calibrate_button_rows() {
    assert_eq!(
        next_mode(Mode::Idle, Button::OffsetCalibrate),
        Mode::OffsetCorrection
    );
    assert_eq!(
        next_mode(Mode::OffsetCorrection, Button::OffsetCalibrate),
        Mode::OffsetCorrectionEnd
    );
}

#[test]
fn run_episode_button_rows() {
    assert_eq!(next_mode(Mode::Idle, Button::RunEpisode), Mode::AutoPolicy);
}

#[test]
fn manual_toggle_is_unconditional() {
    let all = [
        Mode::Idle,
        Mode::OffsetCorrection,
        Mode::OffsetCorrectionEnd,
        Mode::OffsetCorrectionCancel,
        Mode::PotentiometerMin,
        Mode::PotentiometerMax,
        Mode::PotentiometerCancel,
        Mode::AutoPolicy,
        Mode::ManualPolicyStart,
        Mode::ManualPolicy,
        Mode::Terminate,
    ];
    for m in all {
        assert_eq!(next_mode(m, Button::ManualToggle), Mode::ManualPolicyStart);
    }
}

#[test]
fn unlisted_pairs_leave_mode_unchanged() {
    assert_eq!(next_mode(Mode::ManualPolicy, Button::Reset), Mode::ManualPolicy);
    assert_eq!(next_mode(Mode::Terminate, Button::Reset), Mode::Terminate);
    assert_eq!(
        next_mode(Mode::PotentiometerMin, Button::OffsetCalibrate),
        Mode::PotentiometerMin
    );
    assert_eq!(next_mode(Mode::AutoPolicy, Button::RunEpisode), Mode::AutoPolicy);
    assert_eq!(next_mode(Mode::Terminate, Button::RunEpisode), Mode::Terminate);
}

#[test]
fn transition_table_is_deterministic() {
    let all = [
        Mode::Idle,
        Mode::OffsetCorrection,
        Mode::OffsetCorrectionEnd,
        Mode::OffsetCorrectionCancel,
        Mode::PotentiometerMin,
        Mode::PotentiometerMax,
        Mode::PotentiometerCancel,
        Mode::AutoPolicy,
        Mode::ManualPolicyStart,
        Mode::ManualPolicy,
        Mode::Terminate,
    ];
    let buttons = [
        Button::Reset,
        Button::OffsetCalibrate,
        Button::RunEpisode,
        Button::ManualToggle,
    ];
    for m in all {
        for b in buttons {
            assert_eq!(next_mode(m, b), next_mode(m, b));
        }
    }
}

#[test]
fn controller_starts_idle_and_presses_step_the_table() {
    let mut ctrl = ModeController::new();
    assert_eq!(ctrl.get(), Mode::Idle);
    ctrl.press(Button::RunEpisode);
    assert_eq!(ctrl.get(), Mode::AutoPolicy);
    ctrl.press(Button::Reset);
    assert_eq!(ctrl.get(), Mode::Idle);
    ctrl.press(Button::Reset);
    assert_eq!(ctrl.get(), Mode::Terminate);
}

#[test]
fn state_word_codes() {
    let mut ctrl = ModeController::new();
    assert_eq!(ctrl.get_state(), 0);
    ctrl.set(Mode::OffsetCorrection);
    assert_eq!(ctrl.get_state(), 10);
    ctrl.set(Mode::OffsetCorrectionEnd);
    assert_eq!(ctrl.get_state(), 11);
    ctrl.set(Mode::OffsetCorrectionCancel);
    assert_eq!(ctrl.get_state(), 12);
    ctrl.set(Mode::PotentiometerMin);
    assert_eq!(ctrl.get_state(), 13);
    ctrl.set(Mode::PotentiometerMax);
    assert_eq!(ctrl.get_state(), 14);
    ctrl.set(Mode::PotentiometerCancel);
    assert_eq!(ctrl.get_state(), 15);
    ctrl.set(Mode::AutoPolicy);
    assert_eq!(ctrl.get_state(), 21);
    ctrl.set(Mode::ManualPolicyStart);
    assert_eq!(ctrl.get_state(), 22);
    ctrl.set(Mode::ManualPolicy);
    assert_eq!(ctrl.get_state(), 23);
    ctrl.set(Mode::Terminate);
    assert_eq!(ctrl.get_state(), 255);
}

#[test]
fn poll_dispatch_table() {
    assert_eq!(poll_behavior(Mode::Idle), PollBehavior::SleepIdle);
    assert_eq!(
        poll_behavior(Mode::OffsetCorrection),
        PollBehavior::RunOffsetCorrection
    );
    assert_eq!(poll_behavior(Mode::PotentiometerMin), PollBehavior::CaptureMin);
    assert_eq!(poll_behavior(Mode::PotentiometerMax), PollBehavior::CaptureMax);
    assert_eq!(poll_behavior(Mode::AutoPolicy), PollBehavior::RunAuto);
    assert_eq!(poll_behavior(Mode::ManualPolicy), PollBehavior::RunManual);
    assert_eq!(poll_behavior(Mode::Terminate), PollBehavior::Shutdown);
    assert_eq!(poll_behavior(Mode::OffsetCorrectionEnd), PollBehavior::Ignore);
    assert_eq!(poll_behavior(Mode::ManualPolicyStart), PollBehavior::Ignore);
    assert_eq!(poll_behavior(Mode::PotentiometerCancel), PollBehavior::Ignore);
}

#[test]
fn capture_session_cancel_falls_back_to_idle() {
    let mut ctrl = ModeController::new();
    ctrl.set(Mode::PotentiometerCancel);
    let cancelled = ctrl.end_capture_session();
    assert!(cancelled);
    assert_eq!(ctrl.get(), Mode::Idle);

    ctrl.set(Mode::PotentiometerMax);
    let cancelled = ctrl.end_capture_session();
    assert!(!cancelled);
    assert_eq!(ctrl.get(), Mode::PotentiometerMax);
}

#[test]
fn compute_wait_is_period_minus_elapsed() {
    let ev = PendulumEvaluator::new();
    // A zero-duration tick body sleeps for the whole period.
    assert_eq!(ev.compute_wait(0), Some(20));
    assert_eq!(ev.compute_wait(5_000), Some(15));
    assert_eq!(ev.compute_wait(19_999), Some(1));
    // An overrun skips the wait and proceeds immediately.
    assert_eq!(ev.compute_wait(20_000), None);
    assert_eq!(ev.compute_wait(1_000_000), None);
}

#[test]
fn tick_control_stops_within_one_tick_of_leaving_the_running_mode() {
    // While the episode mode stands, the loop keeps running.
    let mut ctrl = ModeController::new();
    ctrl.set(Mode::AutoPolicy);
    assert!(!evaluate_tick_control(&mut ctrl));
    assert_eq!(ctrl.get(), Mode::AutoPolicy);

    // The first tick check after the mode fell back to idle stops the loop.
    ctrl.set(Mode::Idle);
    assert!(evaluate_tick_control(&mut ctrl));
    assert_eq!(ctrl.get(), Mode::Idle);

    // A requested manual session stops the loop and arms the manual mode.
    ctrl.set(Mode::ManualPolicyStart);
    assert!(evaluate_tick_control(&mut ctrl));
    assert_eq!(ctrl.get(), Mode::ManualPolicy);
}
