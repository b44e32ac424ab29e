use std::collections::HashSet;

use xr_hotas::bindings::{suggested_bindings, BindingTarget, InputComponent, Profile};
use xr_hotas::codes::{hotas_button_codes, keyboard_key_codes, ABS_RX, ABS_RY, ABS_X, ABS_Y, AXIS_MAX, AXIS_MIN};
use xr_hotas::device::{hotas_commands, keyboard_commands, AxisSetup, UinputCommand};
use xr_hotas::ioctl::ioc;
use xr_hotas::keyboard::PressedKeys;
use xr_hotas::layout::{
    action_name_of, controller_button_specs, ActionKind, ButtonSource, DpadAxis, Hand, PressInput,
};
use xr_hotas::operation::trigger_axis_of;
use xr_hotas::signal::{on_signal, ControlSignal, RunFlags};

fn all_actions() -> Vec<ActionKind> {
    let mut actions = vec![ActionKind::Aim, ActionKind::Grip, ActionKind::Trigger];
    for input in [PressInput::TriggerClick, PressInput::Primary, PressInput::Secondary, PressInput::StickClick] {
        actions.push(ActionKind::PressBool(input));
        actions.push(ActionKind::PressFloat(input));
    }
    actions.push(ActionKind::Dpad(DpadAxis::X));
    actions.push(ActionKind::Dpad(DpadAxis::Y));
    actions
}

#[test]
fn action_names_are_all_distinct() {
    let mut names = HashSet::new();
    for hand in [Hand::Left, Hand::Right] {
        for action in all_actions() {
            assert!(names.insert(action_name_of(hand, action)));
        }
    }
    assert_eq!(names.len(), 26);
}

#[test]
fn bindings_fit_the_controller_layout() {
    for profile in [Profile::OculusTouch, Profile::ValveIndex] {
        for b in suggested_bindings(profile) {
            let buttons = controller_button_specs(b.hand);
            match b.target {
                BindingTarget::ButtonBool(i) => {
                    let expected = match b.component {
                        InputComponent::TriggerClick => PressInput::TriggerClick,
                        InputComponent::XClick | InputComponent::AClick => PressInput::Primary,
                        InputComponent::YClick | InputComponent::BClick => PressInput::Secondary,
                        InputComponent::ThumbstickClick => PressInput::StickClick,
                        other => panic!("boolean binding to {other:?}"),
                    };
                    assert_eq!(buttons[i].source, ButtonSource::Press(expected));
                }
                BindingTarget::ButtonDpad(i) => match buttons[i].source {
                    ButtonSource::Dpad(d) => {
                        let axis = if b.component == InputComponent::ThumbstickX { DpadAxis::X } else { DpadAxis::Y };
                        assert_eq!(d.axis(), axis);
                    }
                    ButtonSource::Press(_) => panic!("axis binding to a press button"),
                },
                BindingTarget::Aim => assert_eq!(b.component, InputComponent::AimPose),
                BindingTarget::Grip => assert_eq!(b.component, InputComponent::SqueezeValue),
                BindingTarget::Trigger => assert_eq!(b.component, InputComponent::TriggerValue),
            }
        }
    }
}

#[test]
fn each_hotas_button_is_driven_once() {
    let mut driven: Vec<u16> = controller_button_specs(Hand::Left).iter().map(|b| b.code).collect();
    driven.extend(controller_button_specs(Hand::Right).iter().map(|b| b.code));
    let driven_set: HashSet<u16> = driven.iter().copied().collect();
    let hotas_set: HashSet<u16> = hotas_button_codes().into_iter().collect();
    assert_eq!(driven.len(), 16);
    assert_eq!(driven_set, hotas_set);
    let cmds = hotas_commands();
    for code in driven {
        assert!(cmds.contains(&UinputCommand::EnableKey(code)));
    }
}

#[test]
fn driven_axes_are_configured() {
    let cmds = hotas_commands();
    for code in [trigger_axis_of(Hand::Left), trigger_axis_of(Hand::Right), ABS_RY, ABS_X, ABS_Y, ABS_RX] {
        assert!(cmds.contains(&UinputCommand::EnableAxis(code)));
        assert!(cmds.contains(&UinputCommand::ConfigureAxis(AxisSetup {
            code,
            minimum: AXIS_MIN,
            maximum: AXIS_MAX,
            flat: 0
        })));
    }
}

#[test]
fn keyboard_accepts_exactly_the_keys_it_enables() {
    let cmds = keyboard_commands();
    for code in 0u16..0x300 {
        let mut keys = PressedKeys::new();
        let enabled = cmds.contains(&UinputCommand::EnableKey(code));
        assert_eq!(keys.set_key(code, true).is_ok(), enabled);
        assert_eq!(enabled, keyboard_key_codes().contains(&code));
    }
}

#[test]
fn request_fields_read_back() {
    let r = ioc(1, 0x55, 0x6c, 8);
    assert_eq!(r >> 30, 1);
    assert_eq!((r >> 16) & 0x3fff, 8);
    assert_eq!((r >> 8) & 0xff, 0x55);
    assert_eq!(r & 0xff, 0x6c);
}

#[test]
fn press_then_release_restores_and_repeats_are_silent() {
    let mut keys = PressedKeys::new();
    let first = keys.set_key(103, true).unwrap();
    assert!(first.is_some());
    assert_eq!(keys.set_key(103, true), Ok(None));
    assert!(keys.set_key(103, false).unwrap().is_some());
    assert!(!keys.is_pressed(103));
    assert_eq!(keys.release_all(), Vec::<u16>::new());
}

#[test]
fn toggling_twice_restores_binding_mode() {
    let flags = RunFlags { running: true, binding: true };
    let (once, _) = on_signal(flags, ControlSignal::ToggleBinding);
    let (twice, _) = on_signal(once, ControlSignal::ToggleBinding);
    assert_eq!(twice, flags);
}
