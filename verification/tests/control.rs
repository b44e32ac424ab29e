use xr_hotas::codes::{ABS_RX, ABS_RY, ABS_RZ, ABS_X, ABS_Y, ABS_Z};
use xr_hotas::layout::Hand;
use xr_hotas::operation::{
    center_stick_reports, initial_operation_of, step, trigger_axis_of, HandAction, Operation, STICK_PITCH_AXIS, STICK_ROLL_AXIS,
    STICK_YAW_AXIS, THROTTLE_AXIS,
};
use xr_hotas::session::{
    choose_extensions, handle_event, ExtensionChoice, InitError, SessionAction, SessionError,
    SessionState, XrEvent,
};
use xr_hotas::signal::{on_signal, ControlSignal, RunFlags};

type Op = Operation<i32, i32>;

fn is_throttle_at(op: Op, at: i32) -> bool {
    matches!(op, Operation::Throttle(p) if p == at)
}

#[test]
fn throttle_follows_the_controller_while_gripped() {
    let op: Op = initial_operation_of(Hand::Left);
    assert!(matches!(op, Operation::NoThrottle));
    let (op, action) = step(op, false, 1, 0);
    assert!(matches!(op, Operation::NoThrottle));
    assert!(matches!(action, HandAction::Idle));
    let (op, action) = step(op, true, 10, 0);
    assert!(is_throttle_at(op, 10));
    assert!(matches!(action, HandAction::ThrottleGrabbed));
    let (op, action) = step(op, true, 15, 0);
    assert!(is_throttle_at(op, 15));
    assert!(matches!(action, HandAction::MoveThrottle { from: 10 }));
    let (op, action) = step(op, false, 20, 0);
    assert!(matches!(op, Operation::NoThrottle));
    assert!(matches!(action, HandAction::ThrottleReleased));
}

#[test]
fn stick_deflects_from_grab_orientation_and_recenters() {
    let op: Op = initial_operation_of(Hand::Right);
    assert!(matches!(op, Operation::NoStick));
    let (op, action) = step(op, true, 0, 7);
    assert!(matches!(op, Operation::Stick(7)));
    assert!(matches!(action, HandAction::StickGrabbed));
    let (op, action) = step(op, true, 0, 9);
    assert!(matches!(op, Operation::Stick(7)));
    assert!(matches!(action, HandAction::DeflectStick { start: 7 }));
    let (op, action) = step(op, false, 0, 9);
    assert!(matches!(op, Operation::NoStick));
    assert!(matches!(action, HandAction::CenterStick));
}

#[test]
fn axes_of_the_hotas() {
    assert_eq!(trigger_axis_of(Hand::Left), ABS_Z);
    assert_eq!(trigger_axis_of(Hand::Right), ABS_RZ);
    assert_eq!(THROTTLE_AXIS, ABS_RY);
    assert_eq!((STICK_ROLL_AXIS, STICK_PITCH_AXIS, STICK_YAW_AXIS), (ABS_X, ABS_Y, ABS_RX));
}

#[test]
fn session_events() {
    assert_eq!(
        handle_event(false, XrEvent::SessionStateChanged(SessionState::Ready)),
        Ok((true, SessionAction::Begin))
    );
    assert_eq!(
        handle_event(true, XrEvent::SessionStateChanged(SessionState::Stopping)),
        Ok((false, SessionAction::End))
    );
    assert_eq!(
        handle_event(true, XrEvent::SessionStateChanged(SessionState::Exiting)),
        Err(SessionError::SessionExiting)
    );
    assert_eq!(
        handle_event(true, XrEvent::SessionStateChanged(SessionState::LossPending)),
        Err(SessionError::SessionExiting)
    );
    assert_eq!(handle_event(false, XrEvent::InstanceLossPending), Err(SessionError::InstanceLossPending));
    assert_eq!(handle_event(true, XrEvent::EventsLost(3)), Ok((true, SessionAction::WarnEventsLost(3))));
    assert_eq!(
        handle_event(false, XrEvent::SessionStateChanged(SessionState::Other)),
        Ok((false, SessionAction::Nothing))
    );
    assert_eq!(handle_event(true, XrEvent::Other), Ok((true, SessionAction::Nothing)));
}

#[test]
fn extensions() {
    assert_eq!(choose_extensions(false, true), Err(InitError::MissingHeadless));
    assert_eq!(
        choose_extensions(true, false),
        Ok(ExtensionChoice { mnd_headless: true, khr_convert_timespec_time: true, ext_hand_tracking: false })
    );
    assert_eq!(
        choose_extensions(true, true),
        Ok(ExtensionChoice { mnd_headless: true, khr_convert_timespec_time: true, ext_hand_tracking: true })
    );
}

#[test]
fn signals() {
    let flags = RunFlags { running: true, binding: false };
    let (flags, listen) = on_signal(flags, ControlSignal::ToggleBinding);
    assert_eq!(flags, RunFlags { running: true, binding: true });
    assert!(listen);
    let (flags, _) = on_signal(flags, ControlSignal::ToggleBinding);
    assert_eq!(flags, RunFlags { running: true, binding: false });
    let (flags, listen) = on_signal(flags, ControlSignal::Terminate);
    assert_eq!(flags, RunFlags { running: false, binding: false });
    assert!(!listen);
}

#[test]
fn releasing_the_stick_centers_roll_pitch_and_yaw() {
    let reports = center_stick_reports();
    assert_eq!(
        reports,
        vec![
            xr_hotas::event::axis_report(ABS_X, 0),
            xr_hotas::event::axis_report(ABS_Y, 0),
            xr_hotas::event::axis_report(ABS_RX, 0),
        ]
    );
    assert_eq!(xr_hotas::operation::AXIS_CENTER, xr_hotas::codes::axis_value(32768));
}

#[test]
fn binding_mode_follows_toggle_parity_and_terminate_stops() {
    let mut flags = RunFlags { running: true, binding: false };
    for n in 1..=7 {
        let (next, listen) = on_signal(flags, ControlSignal::ToggleBinding);
        assert!(listen);
        assert_eq!(next.binding, n % 2 == 1);
        assert!(next.running);
        flags = next;
    }
    let (stopped, listen) = on_signal(flags, ControlSignal::Terminate);
    assert!(!stopped.running);
    assert!(!listen);
}
