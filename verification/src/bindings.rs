use vstd::prelude::*;
use vstd::string::StringExecFns;
use crate::layout::{
    controller_buttons, direction_axis, hand_name, ButtonSource, DpadAxis, Hand, PressInput, A, B,
    DPAD_X, DPAD_Y, T2, THUMB,
};

verus! {

/// The controller types for which bindings are suggested.
#[derive(Clone, Copy, Debug, PartialEq, Eq, Structural)]
pub enum Profile {
    OculusTouch,
    ValveIndex,
}

/// An input of a controller that an action can be bound to.
#[derive(Clone, Copy, Debug, PartialEq, Eq, Structural)]
pub enum InputComponent {
    AimPose,
    SqueezeValue,
    TriggerValue,
    TriggerClick,
    XClick,
    YClick,
    AClick,
    BClick,
    ThumbstickClick,
    ThumbstickY,
    ThumbstickX,
}

/// The action a binding feeds.
#[derive(Clone, Copy, Debug, PartialEq, Eq, Structural)]
pub enum BindingTarget {
    /// The aim pose of the controller.
    Aim,
    /// The grip squeeze.
    Grip,
    /// The analog trigger.
    Trigger,
    /// The boolean action of the button at this position of the controller's
    /// list of buttons.
    ButtonBool(usize),
    /// The thumbstick axis action of the D-pad button at this position.
    ButtonDpad(usize),
}

/// One suggested binding: an action of a controller and the input it reads.
#[derive(Clone, Copy, Debug, PartialEq, Eq, Structural)]
pub struct SuggestedBinding {
    pub hand: Hand,
    pub target: BindingTarget,
    pub component: InputComponent,
}

/// The path of each controller type.
pub open spec fn profile_path(profile: Profile) -> Seq<char> {
    match profile {
        Profile::OculusTouch => "/interaction_profiles/oculus/touch_controller"@,
        Profile::ValveIndex => "/interaction_profiles/valve/index_controller"@,
    }
}

/// The path of each input below a hand's `input` node.
pub open spec fn component_path(component: InputComponent) -> Seq<char> {
    match component {
        InputComponent::AimPose => "aim/pose"@,
        InputComponent::SqueezeValue => "squeeze/value"@,
        InputComponent::TriggerValue => "trigger/value"@,
        InputComponent::TriggerClick => "trigger/click"@,
        InputComponent::XClick => "x/click"@,
        InputComponent::YClick => "y/click"@,
        InputComponent::AClick => "a/click"@,
        InputComponent::BClick => "b/click"@,
        InputComponent::ThumbstickClick => "thumbstick/click"@,
        InputComponent::ThumbstickY => "thumbstick/y"@,
        InputComponent::ThumbstickX => "thumbstick/x"@,
    }
}

/// The full path of an input of the controller in `hand`.
pub open spec fn input_path(hand: Hand, component: InputComponent) -> Seq<char> {
    "/user/hand/"@ + hand_name(hand) + "/input/"@ + component_path(component)
}

/// A binding of the controller in `hand`.
pub open spec fn bind(hand: Hand, target: BindingTarget, component: InputComponent) -> SuggestedBinding {
    SuggestedBinding { hand, target, component }
}

/// The bindings suggested for one controller of a controller type. Both
/// types bind the aim pose, the squeeze, the trigger, the face buttons, the
/// thumbstick click and the thumbstick axes; the Touch's left face buttons
/// are labelled X and Y; only the Index binds the trigger click.
pub open spec fn hand_bindings(profile: Profile, hand: Hand) -> Seq<SuggestedBinding> {
    let common = seq![
        bind(hand, BindingTarget::Aim, InputComponent::AimPose),
        bind(hand, BindingTarget::Grip, InputComponent::SqueezeValue),
        bind(hand, BindingTarget::Trigger, InputComponent::TriggerValue),
    ];
    let stick = seq![
        bind(hand, BindingTarget::ButtonBool(THUMB), InputComponent::ThumbstickClick),
        bind(hand, BindingTarget::ButtonDpad(DPAD_Y), InputComponent::ThumbstickY),
        bind(hand, BindingTarget::ButtonDpad(DPAD_X), InputComponent::ThumbstickX),
    ];
    match (profile, hand) {
        (Profile::OculusTouch, Hand::Left) => common + seq![
            bind(hand, BindingTarget::ButtonBool(A), InputComponent::XClick),
            bind(hand, BindingTarget::ButtonBool(B), InputComponent::YClick),
        ] + stick,
        (Profile::OculusTouch, Hand::Right) => common + seq![
            bind(hand, BindingTarget::ButtonBool(A), InputComponent::AClick),
            bind(hand, BindingTarget::ButtonBool(B), InputComponent::BClick),
        ] + stick,
        (Profile::ValveIndex, _) => common + seq![
            bind(hand, BindingTarget::ButtonBool(T2), InputComponent::TriggerClick),
            bind(hand, BindingTarget::ButtonBool(A), InputComponent::AClick),
            bind(hand, BindingTarget::ButtonBool(B), InputComponent::BClick),
        ] + stick,
    }
}

/// The bindings suggested for a controller type: the left hand's, then
/// the right hand's.
pub open spec fn profile_bindings(profile: Profile) -> Seq<SuggestedBinding> {
    hand_bindings(profile, Hand::Left) + hand_bindings(profile, Hand::Right)
}

impl Profile {
    /// The path of this controller type.
    pub fn path(&self) -> (p: String)
        ensures
            p@ == profile_path(*self),
    {
        match self {
            Profile::OculusTouch => String::from_str("/interaction_profiles/oculus/touch_controller"),
            Profile::ValveIndex => String::from_str("/interaction_profiles/valve/index_controller"),
        }
    }
}

impl InputComponent {
    /// The path of this input below a hand's `input` node.
    pub fn path(&self) -> (p: &'static str)
        ensures
            p@ == component_path(*self),
    {
        match self {
            InputComponent::AimPose => "aim/pose",
            InputComponent::SqueezeValue => "squeeze/value",
            InputComponent::TriggerValue => "trigger/value",
            InputComponent::TriggerClick => "trigger/click",
            InputComponent::XClick => "x/click",
            InputComponent::YClick => "y/click",
            InputComponent::AClick => "a/click",
            InputComponent::BClick => "b/click",
            InputComponent::ThumbstickClick => "thumbstick/click",
            InputComponent::ThumbstickY => "thumbstick/y",
            InputComponent::ThumbstickX => "thumbstick/x",
        }
    }
}

impl SuggestedBinding {
    /// The full path of the input this binding reads.
    pub fn path(&self) -> (p: String)
        ensures
            p@ == input_path(self.hand, self.component),
    {
        let mut p = String::from_str("/user/hand/");
        p.append(self.hand.name());
        p.append("/input/");
        p.append(self.component.path());
        assert(p@ =~= input_path(self.hand, self.component));
        p
    }
}

/// The bindings suggested for one controller of a controller type.
pub fn hand_binding_list(profile: Profile, hand: Hand) -> (r: Vec<SuggestedBinding>)
    ensures
        r@ == hand_bindings(profile, hand),
{
    let mut r: Vec<SuggestedBinding> = Vec::new();
    r.push(SuggestedBinding { hand, target: BindingTarget::Aim, component: InputComponent::AimPose });
    r.push(
        SuggestedBinding {
            hand,
            target: BindingTarget::Grip,
            component: InputComponent::SqueezeValue,
        },
    );
    r.push(
        SuggestedBinding {
            hand,
            target: BindingTarget::Trigger,
            component: InputComponent::TriggerValue,
        },
    );
    match profile {
        Profile::OculusTouch => {
            let (primary, secondary) = match hand {
                Hand::Left => (InputComponent::XClick, InputComponent::YClick),
                Hand::Right => (InputComponent::AClick, InputComponent::BClick),
            };
            r.push(SuggestedBinding { hand, target: BindingTarget::ButtonBool(A), component: primary });
            r.push(
                SuggestedBinding { hand, target: BindingTarget::ButtonBool(B), component: secondary },
            );
        },
        Profile::ValveIndex => {
            r.push(
                SuggestedBinding {
                    hand,
                    target: BindingTarget::ButtonBool(T2),
                    component: InputComponent::TriggerClick,
                },
            );
            r.push(
                SuggestedBinding {
                    hand,
                    target: BindingTarget::ButtonBool(A),
                    component: InputComponent::AClick,
                },
            );
            r.push(
                SuggestedBinding {
                    hand,
                    target: BindingTarget::ButtonBool(B),
                    component: InputComponent::BClick,
                },
            );
        },
    }
    r.push(
        SuggestedBinding {
            hand,
            target: BindingTarget::ButtonBool(THUMB),
            component: InputComponent::ThumbstickClick,
        },
    );
    r.push(
        SuggestedBinding {
            hand,
            target: BindingTarget::ButtonDpad(DPAD_Y),
            component: InputComponent::ThumbstickY,
        },
    );
    r.push(
        SuggestedBinding {
            hand,
            target: BindingTarget::ButtonDpad(DPAD_X),
            component: InputComponent::ThumbstickX,
        },
    );
    assert(r@ =~= hand_bindings(profile, hand));
    r
}

/// The bindings suggested for a controller type, both hands.
pub fn suggested_bindings(profile: Profile) -> (r: Vec<SuggestedBinding>)
    ensures
        r@ == profile_bindings(profile),
{
    let mut r = hand_binding_list(profile, Hand::Left);
    let mut right = hand_binding_list(profile, Hand::Right);
    r.append(&mut right);
    r
}

/// The press input an input of the controller stands for, if it is one.
pub open spec fn component_press(component: InputComponent) -> Option<PressInput> {
    match component {
        InputComponent::TriggerClick => Some(PressInput::TriggerClick),
        InputComponent::XClick => Some(PressInput::Primary),
        InputComponent::AClick => Some(PressInput::Primary),
        InputComponent::YClick => Some(PressInput::Secondary),
        InputComponent::BClick => Some(PressInput::Secondary),
        InputComponent::ThumbstickClick => Some(PressInput::StickClick),
        _ => None,
    }
}

/// The thumbstick axis an input of the controller is, if it is one.
pub open spec fn component_axis(component: InputComponent) -> Option<DpadAxis> {
    match component {
        InputComponent::ThumbstickX => Some(DpadAxis::X),
        InputComponent::ThumbstickY => Some(DpadAxis::Y),
        _ => None,
    }
}

/// Whether a binding names a button of its controller that has the action
/// it binds, and binds it to the input that button stands for: a button's
/// boolean action to its own press input, a D-pad button's axis action to
/// the thumbstick axis that button reads.
pub open spec fn binding_fits_layout(b: SuggestedBinding) -> bool {
    let buttons = controller_buttons(b.hand);
    match b.target {
        BindingTarget::ButtonBool(i) => {
            &&& i < buttons.len()
            &&& component_press(b.component) matches Some(input)
            &&& buttons[i as int].source == ButtonSource::Press(input)
        },
        BindingTarget::ButtonDpad(i) => {
            &&& i < buttons.len()
            &&& buttons[i as int].source matches ButtonSource::Dpad(d)
            &&& component_axis(b.component) == Some(direction_axis(d))
        },
        BindingTarget::Aim => b.component == InputComponent::AimPose,
        BindingTarget::Grip => b.component == InputComponent::SqueezeValue,
        BindingTarget::Trigger => b.component == InputComponent::TriggerValue,
    }
}

/// Every suggested binding fits the controllers' layout: each button it
/// names exists and has the kind of action bound, and reads the input the
/// binding gives it.
pub proof fn lemma_bindings_fit_layout(profile: Profile)
    ensures
        forall|i: int|
            0 <= i < profile_bindings(profile).len() ==> binding_fits_layout(
                #[trigger] profile_bindings(profile)[i],
            ),
{
    assert forall|i: int| 0 <= i < profile_bindings(profile).len() implies binding_fits_layout(
        #[trigger] profile_bindings(profile)[i],
    ) by {
        let left = hand_bindings(profile, Hand::Left);
        if i < left.len() {
            assert(profile_bindings(profile)[i] == left[i]);
        } else {
            assert(profile_bindings(profile)[i] == hand_bindings(profile, Hand::Right)[i
                - left.len()]);
        }
    }
}

/// Whether the controller of a type, held in `hand`, has an input. Both
/// types have the aim pose, the squeeze, the trigger and the thumbstick.
/// The Touch's face buttons are X and Y on the left controller and A and B
/// on the right, and it has no trigger click; the Index has A and B on both
/// controllers, and a trigger click.
pub open spec fn controller_has_input(profile: Profile, hand: Hand, component: InputComponent) -> bool {
    match component {
        InputComponent::XClick | InputComponent::YClick => profile == Profile::OculusTouch && hand
            == Hand::Left,
        InputComponent::AClick | InputComponent::BClick => !(profile == Profile::OculusTouch && hand
            == Hand::Left),
        InputComponent::TriggerClick => profile == Profile::ValveIndex,
        _ => true,
    }
}

/// Whether the bindings of a controller type contain `target` of `hand`
/// bound to `component`.
pub open spec fn binds(profile: Profile, hand: Hand, target: BindingTarget, component: InputComponent) -> bool {
    profile_bindings(profile).contains(SuggestedBinding { hand, target, component })
}

/// Each controller type is given only inputs its controllers have, and
/// every action of each controller is bound: the aim pose, squeeze and
/// trigger, both face buttons to the face buttons that sit in their place
/// (X and Y on the left Touch, A and B otherwise), the thumbstick click and
/// both thumbstick axes, and on the Index the trigger click.
pub proof fn lemma_bindings_use_real_inputs(profile: Profile, hand: Hand)
    ensures
        forall|i: int|
            0 <= i < profile_bindings(profile).len() ==> controller_has_input(
                profile,
                (#[trigger] profile_bindings(profile)[i]).hand,
                profile_bindings(profile)[i].component,
            ),
        binds(profile, hand, BindingTarget::Aim, InputComponent::AimPose),
        binds(profile, hand, BindingTarget::Grip, InputComponent::SqueezeValue),
        binds(profile, hand, BindingTarget::Trigger, InputComponent::TriggerValue),
        binds(profile, hand, BindingTarget::ButtonBool(THUMB), InputComponent::ThumbstickClick),
        binds(profile, hand, BindingTarget::ButtonDpad(DPAD_Y), InputComponent::ThumbstickY),
        binds(profile, hand, BindingTarget::ButtonDpad(DPAD_X), InputComponent::ThumbstickX),
        profile == Profile::OculusTouch && hand == Hand::Left ==> binds(
            profile,
            hand,
            BindingTarget::ButtonBool(A),
            InputComponent::XClick,
        ) && binds(profile, hand, BindingTarget::ButtonBool(B), InputComponent::YClick),
        !(profile == Profile::OculusTouch && hand == Hand::Left) ==> binds(
            profile,
            hand,
            BindingTarget::ButtonBool(A),
            InputComponent::AClick,
        ) && binds(profile, hand, BindingTarget::ButtonBool(B), InputComponent::BClick),
        profile == Profile::ValveIndex ==> binds(
            profile,
            hand,
            BindingTarget::ButtonBool(T2),
            InputComponent::TriggerClick,
        ),
{
    let all = profile_bindings(profile);
    let left = hand_bindings(profile, Hand::Left);
    let right = hand_bindings(profile, Hand::Right);
    assert forall|i: int| 0 <= i < all.len() implies controller_has_input(
        profile,
        (#[trigger] all[i]).hand,
        all[i].component,
    ) by {
        if i < left.len() {
            assert(all[i] == left[i]);
        } else {
            assert(all[i] == right[i - left.len()]);
        }
    }
    let mine = hand_bindings(profile, hand);
    let off: int = if hand == Hand::Left { 0 } else { left.len() as int };
    assert forall|j: int| 0 <= j < mine.len() implies all.contains(#[trigger] mine[j]) by {
        assert(all[off + j] == mine[j]);
    }
    assert(all.contains(mine[0]));
    assert(all.contains(mine[1]));
    assert(all.contains(mine[2]));
    assert(all.contains(mine[3]));
    assert(all.contains(mine[4]));
    assert(all.contains(mine[mine.len() - 3]));
    assert(all.contains(mine[mine.len() - 2]));
    assert(all.contains(mine[mine.len() - 1]));
    if profile == Profile::ValveIndex {
        assert(all.contains(mine[5]));
    }
}

} // verus!
