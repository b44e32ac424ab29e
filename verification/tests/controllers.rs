use xr_hotas::bindings::{hand_binding_list, suggested_bindings, BindingTarget, InputComponent, Profile, SuggestedBinding};
use xr_hotas::codes::{
    BTN_DPAD_DOWN, BTN_DPAD_LEFT, BTN_DPAD_RIGHT, BTN_DPAD_UP, BTN_EAST, BTN_NORTH, BTN_SELECT,
    BTN_SOUTH, BTN_START, BTN_THUMBL, BTN_THUMBR, BTN_TL, BTN_TL2, BTN_TR, BTN_TR2, BTN_WEST,
};
use xr_hotas::layout::{
    action_name_of, controller_button_specs, dpad_button_specs, press_input_name, ActionKind, ButtonSource,
    DpadAxis, DpadDirection, Hand, PressInput, A, B, DPAD_X, DPAD_Y, T2, THUMB,
};

#[test]
fn left_controller_layout() {
    let codes: Vec<u16> = controller_button_specs(Hand::Left).iter().map(|b| b.code).collect();
    assert_eq!(
        codes,
        vec![BTN_TL2, BTN_WEST, BTN_NORTH, BTN_THUMBL, BTN_DPAD_UP, BTN_DPAD_RIGHT, BTN_DPAD_DOWN, BTN_DPAD_LEFT]
    );
}

#[test]
fn right_controller_layout() {
    let buttons = controller_button_specs(Hand::Right);
    let codes: Vec<u16> = buttons.iter().map(|b| b.code).collect();
    assert_eq!(
        codes,
        vec![BTN_TR2, BTN_SOUTH, BTN_EAST, BTN_THUMBR, BTN_SELECT, BTN_TR, BTN_START, BTN_TL]
    );
    assert_eq!(buttons[T2].source, ButtonSource::Press(PressInput::TriggerClick));
    assert_eq!(buttons[A].source, ButtonSource::Press(PressInput::Primary));
    assert_eq!(buttons[B].source, ButtonSource::Press(PressInput::Secondary));
    assert_eq!(buttons[THUMB].source, ButtonSource::Press(PressInput::StickClick));
    assert_eq!(buttons[DPAD_Y].source, ButtonSource::Dpad(DpadDirection::North));
    assert_eq!(buttons[DPAD_X].source, ButtonSource::Dpad(DpadDirection::East));
}

#[test]
fn dpad_directions() {
    let buttons = dpad_button_specs([1, 2, 3, 4]);
    let dirs: Vec<DpadDirection> = buttons
        .iter()
        .map(|b| match b.source {
            ButtonSource::Dpad(d) => d,
            ButtonSource::Press(_) => panic!("not a D-pad button"),
        })
        .collect();
    assert_eq!(dirs, vec![DpadDirection::North, DpadDirection::East, DpadDirection::South, DpadDirection::West]);
    assert_eq!(buttons[2].code, 3);
    assert_eq!(DpadDirection::North.axis(), DpadAxis::Y);
    assert_eq!(DpadDirection::West.axis(), DpadAxis::X);
    assert!(!DpadDirection::East.negated());
    assert!(DpadDirection::South.negated());
}

#[test]
fn action_names() {
    assert_eq!(action_name_of(Hand::Left, ActionKind::Aim), "left_aim");
    assert_eq!(action_name_of(Hand::Right, ActionKind::Grip), "right_grip");
    assert_eq!(action_name_of(Hand::Left, ActionKind::Trigger), "left_trigger");
    assert_eq!(action_name_of(Hand::Left, ActionKind::PressBool(PressInput::Primary)), "left_x_bool");
    assert_eq!(action_name_of(Hand::Right, ActionKind::PressFloat(PressInput::Secondary)), "right_b_float");
    assert_eq!(
        action_name_of(Hand::Left, ActionKind::PressBool(PressInput::TriggerClick)),
        "left_trigger_2nd_bool"
    );
    assert_eq!(
        action_name_of(Hand::Right, ActionKind::PressFloat(PressInput::StickClick)),
        "right_stick_depress_float"
    );
    assert_eq!(action_name_of(Hand::Right, ActionKind::Dpad(DpadAxis::Y)), "right_stick_dpad_y");
    assert_eq!(action_name_of(Hand::Left, ActionKind::Dpad(DpadAxis::X)), "left_stick_dpad_x");
    assert_eq!(press_input_name(Hand::Right, PressInput::Primary), "a");
    assert_eq!(Hand::Right.name(), "right");
    assert_eq!(Hand::Right.index(), 1);
}

#[test]
fn touch_bindings() {
    let left = hand_binding_list(Profile::OculusTouch, Hand::Left);
    let paths: Vec<String> = left.iter().map(|b| b.path()).collect();
    assert_eq!(
        paths,
        vec![
            "/user/hand/left/input/aim/pose",
            "/user/hand/left/input/squeeze/value",
            "/user/hand/left/input/trigger/value",
            "/user/hand/left/input/x/click",
            "/user/hand/left/input/y/click",
            "/user/hand/left/input/thumbstick/click",
            "/user/hand/left/input/thumbstick/y",
            "/user/hand/left/input/thumbstick/x",
        ]
    );
    assert_eq!(left[3].target, BindingTarget::ButtonBool(A));
    assert_eq!(left[6].target, BindingTarget::ButtonDpad(DPAD_Y));
    let right = hand_binding_list(Profile::OculusTouch, Hand::Right);
    assert_eq!(right[3].path(), "/user/hand/right/input/a/click");
    assert_eq!(right[4].path(), "/user/hand/right/input/b/click");
    assert_eq!(Profile::OculusTouch.path(), "/interaction_profiles/oculus/touch_controller");
}

#[test]
fn index_bindings() {
    let all = suggested_bindings(Profile::ValveIndex);
    assert_eq!(all.len(), 18);
    assert_eq!(
        all[3],
        SuggestedBinding { hand: Hand::Left, target: BindingTarget::ButtonBool(T2), component: InputComponent::TriggerClick }
    );
    assert_eq!(all[3].path(), "/user/hand/left/input/trigger/click");
    assert_eq!(all[4].path(), "/user/hand/left/input/a/click");
    assert_eq!(all[9].hand, Hand::Right);
    assert_eq!(all[17].path(), "/user/hand/right/input/thumbstick/x");
    assert_eq!(Profile::ValveIndex.path(), "/interaction_profiles/valve/index_controller");
    assert_eq!(suggested_bindings(Profile::OculusTouch).len(), 16);
}
