use vstd::prelude::*;
use vstd::string::StringExecFns;
use crate::codes::{
    BTN_DPAD_DOWN, BTN_DPAD_LEFT, BTN_DPAD_RIGHT, BTN_DPAD_UP, BTN_EAST, BTN_NORTH, BTN_SELECT,
    BTN_SOUTH, BTN_START, BTN_THUMBL, BTN_THUMBR, BTN_TL, BTN_TL2, BTN_TR, BTN_TR2, BTN_WEST,
};

verus! {

/// The two motion controllers.
#[derive(Clone, Copy, Debug, PartialEq, Eq, Structural)]
pub enum Hand {
    Left,
    Right,
}

/// A direction of a thumbstick used as a D-pad.
#[derive(Clone, Copy, Debug, PartialEq, Eq, Structural)]
pub enum DpadDirection {
    North,
    East,
    South,
    West,
}

/// An axis of a thumbstick.
#[derive(Clone, Copy, Debug, PartialEq, Eq, Structural)]
pub enum DpadAxis {
    X,
    Y,
}

/// The inputs of a controller that are read as pressed or not, each from a
/// boolean action and a float action.
#[derive(Clone, Copy, Debug, PartialEq, Eq, Structural)]
pub enum PressInput {
    /// The click at the end of the trigger's travel.
    TriggerClick,
    /// The lower face button: X on the left controller, A on the right.
    Primary,
    /// The upper face button: Y on the left controller, B on the right.
    Secondary,
    /// Pressing the thumbstick down.
    StickClick,
}

/// Where a virtual button takes its state from.
#[derive(Clone, Copy, Debug, PartialEq, Eq, Structural)]
pub enum ButtonSource {
    Press(PressInput),
    Dpad(DpadDirection),
}

/// One virtual button driven by a controller.
#[derive(Clone, Copy, Debug, PartialEq, Eq, Structural)]
pub struct ButtonSpec {
    pub code: u16,
    pub source: ButtonSource,
}

/// The actions a controller creates.
#[derive(Clone, Copy, Debug, PartialEq, Eq, Structural)]
pub enum ActionKind {
    Aim,
    Grip,
    Trigger,
    PressBool(PressInput),
    PressFloat(PressInput),
    Dpad(DpadAxis),
}

// Positions of the buttons in a controller's list.
/// The trigger click.
pub const T2: usize = 0;

/// A or X.
pub const A: usize = 1;

/// B or Y.
pub const B: usize = 2;

/// The thumbstick click.
pub const THUMB: usize = 3;

/// The D-pad button fed by the thumbstick's Y axis.
pub const DPAD_Y: usize = 4;

/// The D-pad button fed by the thumbstick's X axis.
pub const DPAD_X: usize = 5;

/// The axis a D-pad direction reads.
pub open spec fn direction_axis(d: DpadDirection) -> DpadAxis {
    match d {
        DpadDirection::North => DpadAxis::Y,
        DpadDirection::South => DpadAxis::Y,
        DpadDirection::East => DpadAxis::X,
        DpadDirection::West => DpadAxis::X,
    }
}

/// Whether a D-pad direction reads its axis negated.
pub open spec fn direction_negated(d: DpadDirection) -> bool {
    d == DpadDirection::South || d == DpadDirection::West
}

impl DpadDirection {
    /// The axis this direction reads: Y for north and south, X for east
    /// and west.
    pub fn axis(&self) -> (a: DpadAxis)
        ensures
            a == direction_axis(*self),
    {
        match self {
            DpadDirection::North => DpadAxis::Y,
            DpadDirection::East => DpadAxis::X,
            DpadDirection::South => DpadAxis::Y,
            DpadDirection::West => DpadAxis::X,
        }
    }

    /// Whether this direction reads its axis negated: south and west do,
    /// so that pushing the stick that way gives a positive value.
    pub fn negated(&self) -> (r: bool)
        ensures
            r == direction_negated(*self),
    {
        match self {
            DpadDirection::North => false,
            DpadDirection::East => false,
            DpadDirection::South => true,
            DpadDirection::West => true,
        }
    }
}

/// The unit step of each direction on the thumbstick, as (x, y): OpenXR's
/// thumbstick reads x positive to the right and y positive forward (up).
pub open spec fn direction_step(d: DpadDirection) -> (int, int) {
    match d {
        DpadDirection::North => (0, 1),
        DpadDirection::East => (1, 0),
        DpadDirection::South => (0, -1),
        DpadDirection::West => (-1, 0),
    }
}

/// The opposite direction.
pub open spec fn opposite(d: DpadDirection) -> DpadDirection {
    match d {
        DpadDirection::North => DpadDirection::South,
        DpadDirection::East => DpadDirection::West,
        DpadDirection::South => DpadDirection::North,
        DpadDirection::West => DpadDirection::East,
    }
}

/// What a D-pad button reads from the thumbstick at (x, y): the axis its
/// direction reads, negated when the direction says so.
pub open spec fn dpad_reading(d: DpadDirection, x: int, y: int) -> int {
    let v = match direction_axis(d) {
        DpadAxis::X => x,
        DpadAxis::Y => y,
    };
    if direction_negated(d) {
        -v
    } else {
        v
    }
}

/// A D-pad button reads how far the thumbstick is pushed its way: the
/// projection of the stick's position on the direction's unit step. So
/// pushing the stick fully one way reads 1 on that button, and opposite
/// buttons read opposite values, so they are never pressed together.
pub proof fn lemma_dpad_reads_projection(d: DpadDirection, x: int, y: int)
    ensures
        dpad_reading(d, x, y) == direction_step(d).0 * x + direction_step(d).1 * y,
        dpad_reading(d, direction_step(d).0, direction_step(d).1) == 1,
        dpad_reading(opposite(d), x, y) == -dpad_reading(d, x, y),
        direction_axis(opposite(d)) == direction_axis(d),
{
}

/// The Xbox face button with a given letter: A below, B right, X left,
/// Y above.
pub open spec fn xbox_face_button(letter: char) -> u16 {
    if letter == 'a' {
        BTN_SOUTH
    } else if letter == 'b' {
        BTN_EAST
    } else if letter == 'x' {
        BTN_WEST
    } else {
        BTN_NORTH
    }
}

/// The D-pad button pointing each way.
pub open spec fn dpad_button_toward(d: DpadDirection) -> u16 {
    match d {
        DpadDirection::North => BTN_DPAD_UP,
        DpadDirection::East => BTN_DPAD_RIGHT,
        DpadDirection::South => BTN_DPAD_DOWN,
        DpadDirection::West => BTN_DPAD_LEFT,
    }
}

/// The gamepad layout: each controller's trigger click is the trigger
/// button on its own side (LT, RT) and its stick click the stick button on
/// its own side; each face button drives the Xbox face button with the same
/// letter as its action name (AB to AB, XY to XY); the left stick is the
/// D-pad, each direction driving the D-pad button that points that way; the
/// right stick gives the bumpers left and right (LB, RB) and select and
/// start up and down.
pub proof fn lemma_gamepad_layout(hand: Hand, input: PressInput, d: DpadDirection)
    ensures
        input == PressInput::TriggerClick ==> press_code(hand, input) == if hand == Hand::Left {
            BTN_TL2
        } else {
            BTN_TR2
        },
        input == PressInput::StickClick ==> press_code(hand, input) == if hand == Hand::Left {
            BTN_THUMBL
        } else {
            BTN_THUMBR
        },
        (input == PressInput::Primary || input == PressInput::Secondary) ==> press_code(hand, input)
            == xbox_face_button(press_name(hand, input)[0]),
        dpad_buttons(dpad_codes(Hand::Left)).contains(
            ButtonSpec { code: dpad_button_toward(d), source: ButtonSource::Dpad(d) },
        ),
        dpad_buttons(dpad_codes(Hand::Right)).contains(
            ButtonSpec { code: BTN_TL, source: ButtonSource::Dpad(DpadDirection::West) },
        ),
        dpad_buttons(dpad_codes(Hand::Right)).contains(
            ButtonSpec { code: BTN_TR, source: ButtonSource::Dpad(DpadDirection::East) },
        ),
        dpad_buttons(dpad_codes(Hand::Right)).contains(
            ButtonSpec { code: BTN_SELECT, source: ButtonSource::Dpad(DpadDirection::North) },
        ),
        dpad_buttons(dpad_codes(Hand::Right)).contains(
            ButtonSpec { code: BTN_START, source: ButtonSource::Dpad(DpadDirection::South) },
        ),
{
    reveal_strlit("x");
    reveal_strlit("y");
    reveal_strlit("a");
    reveal_strlit("b");
    let l = dpad_buttons(dpad_codes(Hand::Left));
    let r = dpad_buttons(dpad_codes(Hand::Right));
    let i: int = match d {
        DpadDirection::North => 0,
        DpadDirection::East => 1,
        DpadDirection::South => 2,
        DpadDirection::West => 3,
    };
    assert(l[i] == ButtonSpec { code: dpad_button_toward(d), source: ButtonSource::Dpad(d) });
    assert(r[0].code == BTN_SELECT);
    assert(r[1].code == BTN_TR);
    assert(r[2].code == BTN_START);
    assert(r[3].code == BTN_TL);
}

/// The D-pad buttons of a thumbstick: north, east, south and west, with the
/// codes given in that order.
pub open spec fn dpad_buttons(codes: [u16; 4]) -> Seq<ButtonSpec> {
    seq![
        ButtonSpec { code: codes[0], source: ButtonSource::Dpad(DpadDirection::North) },
        ButtonSpec { code: codes[1], source: ButtonSource::Dpad(DpadDirection::East) },
        ButtonSpec { code: codes[2], source: ButtonSource::Dpad(DpadDirection::South) },
        ButtonSpec { code: codes[3], source: ButtonSource::Dpad(DpadDirection::West) },
    ]
}

/// The codes of the four D-pad buttons of each controller's thumbstick:
/// the left stick is the D-pad; the right stick gives select and start
/// up and down, and the bumpers right and left.
pub open spec fn dpad_codes(hand: Hand) -> [u16; 4] {
    match hand {
        Hand::Left => [BTN_DPAD_UP, BTN_DPAD_RIGHT, BTN_DPAD_DOWN, BTN_DPAD_LEFT],
        Hand::Right => [BTN_SELECT, BTN_TR, BTN_START, BTN_TL],
    }
}

/// The gamepad button each press input of a controller drives: the trigger
/// clicks are the left and right trigger buttons (LT, RT), the face buttons
/// keep their labels, the stick clicks are the stick buttons.
pub open spec fn press_code(hand: Hand, input: PressInput) -> u16 {
    match (hand, input) {
        (Hand::Left, PressInput::TriggerClick) => BTN_TL2,
        (Hand::Left, PressInput::Primary) => BTN_WEST,
        (Hand::Left, PressInput::Secondary) => BTN_NORTH,
        (Hand::Left, PressInput::StickClick) => BTN_THUMBL,
        (Hand::Right, PressInput::TriggerClick) => BTN_TR2,
        (Hand::Right, PressInput::Primary) => BTN_SOUTH,
        (Hand::Right, PressInput::Secondary) => BTN_EAST,
        (Hand::Right, PressInput::StickClick) => BTN_THUMBR,
    }
}

/// The press button of `input` on `hand`.
pub open spec fn press_button(hand: Hand, input: PressInput) -> ButtonSpec {
    ButtonSpec { code: press_code(hand, input), source: ButtonSource::Press(input) }
}

/// The virtual buttons of a controller, in order: trigger click, the two
/// face buttons, the thumbstick click, then the four D-pad directions.
pub open spec fn controller_buttons(hand: Hand) -> Seq<ButtonSpec> {
    seq![
        press_button(hand, PressInput::TriggerClick),
        press_button(hand, PressInput::Primary),
        press_button(hand, PressInput::Secondary),
        press_button(hand, PressInput::StickClick),
    ] + dpad_buttons(dpad_codes(hand))
}

/// The D-pad buttons of a thumbstick whose north, east, south and west
/// directions drive `codes`.
pub fn dpad_button_specs(codes: [u16; 4]) -> (r: Vec<ButtonSpec>)
    ensures
        r@ == dpad_buttons(codes),
{
    let directions = [
        DpadDirection::North,
        DpadDirection::East,
        DpadDirection::South,
        DpadDirection::West,
    ];
    let mut r: Vec<ButtonSpec> = Vec::new();
    let mut i: usize = 0;
    while i < 4
        invariant
            i <= 4,
            directions@ == seq![
                DpadDirection::North,
                DpadDirection::East,
                DpadDirection::South,
                DpadDirection::West,
            ],
            r@ == dpad_buttons(codes).take(i as int),
        decreases 4 - i,
    {
        r.push(ButtonSpec { code: codes[i], source: ButtonSource::Dpad(directions[i]) });
        i = i + 1;
        assert(r@ =~= dpad_buttons(codes).take(i as int));
    }
    assert(dpad_buttons(codes).take(4) =~= dpad_buttons(codes));
    r
}

/// The gamepad button of a press input on a controller.
pub fn press_button_code(hand: Hand, input: PressInput) -> (code: u16)
    ensures
        code == press_code(hand, input),
{
    match (hand, input) {
        (Hand::Left, PressInput::TriggerClick) => BTN_TL2,
        (Hand::Left, PressInput::Primary) => BTN_WEST,
        (Hand::Left, PressInput::Secondary) => BTN_NORTH,
        (Hand::Left, PressInput::StickClick) => BTN_THUMBL,
        (Hand::Right, PressInput::TriggerClick) => BTN_TR2,
        (Hand::Right, PressInput::Primary) => BTN_SOUTH,
        (Hand::Right, PressInput::Secondary) => BTN_EAST,
        (Hand::Right, PressInput::StickClick) => BTN_THUMBR,
    }
}

/// The virtual buttons of a controller.
pub fn controller_button_specs(hand: Hand) -> (r: Vec<ButtonSpec>)
    ensures
        r@ == controller_buttons(hand),
{
    let mut r: Vec<ButtonSpec> = Vec::new();
    r.push(
        ButtonSpec {
            code: press_button_code(hand, PressInput::TriggerClick),
            source: ButtonSource::Press(PressInput::TriggerClick),
        },
    );
    r.push(
        ButtonSpec {
            code: press_button_code(hand, PressInput::Primary),
            source: ButtonSource::Press(PressInput::Primary),
        },
    );
    r.push(
        ButtonSpec {
            code: press_button_code(hand, PressInput::Secondary),
            source: ButtonSource::Press(PressInput::Secondary),
        },
    );
    r.push(
        ButtonSpec {
            code: press_button_code(hand, PressInput::StickClick),
            source: ButtonSource::Press(PressInput::StickClick),
        },
    );
    let codes = match hand {
        Hand::Left => [BTN_DPAD_UP, BTN_DPAD_RIGHT, BTN_DPAD_DOWN, BTN_DPAD_LEFT],
        Hand::Right => [BTN_SELECT, BTN_TR, BTN_START, BTN_TL],
    };
    assert(codes == dpad_codes(hand));
    let mut dpad = dpad_button_specs(codes);
    r.append(&mut dpad);
    assert(r@ =~= controller_buttons(hand));
    r
}

/// The name of each hand as it appears in action names and paths.
pub open spec fn hand_name(hand: Hand) -> Seq<char> {
    match hand {
        Hand::Left => "left"@,
        Hand::Right => "right"@,
    }
}

/// The name of a press input in action names. The face buttons are named
/// after their labels, which differ between the hands.
pub open spec fn press_name(hand: Hand, input: PressInput) -> Seq<char> {
    match (hand, input) {
        (_, PressInput::TriggerClick) => "trigger_2nd"@,
        (Hand::Left, PressInput::Primary) => "x"@,
        (Hand::Left, PressInput::Secondary) => "y"@,
        (Hand::Right, PressInput::Primary) => "a"@,
        (Hand::Right, PressInput::Secondary) => "b"@,
        (_, PressInput::StickClick) => "stick_depress"@,
    }
}

/// The part of an action's name after the hand.
pub open spec fn action_suffix(hand: Hand, action: ActionKind) -> Seq<char> {
    match action {
        ActionKind::Aim => "aim"@,
        ActionKind::Grip => "grip"@,
        ActionKind::Trigger => "trigger"@,
        ActionKind::PressBool(input) => press_name(hand, input) + "_bool"@,
        ActionKind::PressFloat(input) => press_name(hand, input) + "_float"@,
        ActionKind::Dpad(DpadAxis::X) => "stick_dpad_x"@,
        ActionKind::Dpad(DpadAxis::Y) => "stick_dpad_y"@,
    }
}

/// The name of an action of a controller: the hand, an underscore, then
/// what the action reads.
pub open spec fn action_name(hand: Hand, action: ActionKind) -> Seq<char> {
    hand_name(hand) + "_"@ + action_suffix(hand, action)
}

impl Hand {
    /// The name of this hand.
    pub fn name(&self) -> (s: &'static str)
        ensures
            s@ == hand_name(*self),
    {
        match self {
            Hand::Left => "left",
            Hand::Right => "right",
        }
    }

    /// The position of this controller in the list of controllers.
    pub fn index(&self) -> (i: usize)
        ensures
            i == (if *self == Hand::Left { 0usize } else { 1usize }),
    {
        match self {
            Hand::Left => 0,
            Hand::Right => 1,
        }
    }
}

/// The name of a press input in action names.
pub fn press_input_name(hand: Hand, input: PressInput) -> (s: &'static str)
    ensures
        s@ == press_name(hand, input),
{
    match (hand, input) {
        (_, PressInput::TriggerClick) => "trigger_2nd",
        (Hand::Left, PressInput::Primary) => "x",
        (Hand::Left, PressInput::Secondary) => "y",
        (Hand::Right, PressInput::Primary) => "a",
        (Hand::Right, PressInput::Secondary) => "b",
        (_, PressInput::StickClick) => "stick_depress",
    }
}

/// The name of the action `action` of the controller in `hand`.
pub fn action_name_of(hand: Hand, action: ActionKind) -> (name: String)
    ensures
        name@ == action_name(hand, action),
{
    let mut name = String::from_str(hand.name());
    name.append("_");
    match action {
        ActionKind::Aim => name.append("aim"),
        ActionKind::Grip => name.append("grip"),
        ActionKind::Trigger => name.append("trigger"),
        ActionKind::PressBool(input) => {
            name.append(press_input_name(hand, input));
            name.append("_bool");
        },
        ActionKind::PressFloat(input) => {
            name.append(press_input_name(hand, input));
            name.append("_float");
        },
        ActionKind::Dpad(DpadAxis::X) => name.append("stick_dpad_x"),
        ActionKind::Dpad(DpadAxis::Y) => name.append("stick_dpad_y"),
    }
    assert(name@ =~= action_name(hand, action));
    name
}

/// The length, first and last character of a sequence.
spec fn fingerprint(s: Seq<char>) -> (nat, char, char) {
    (s.len(), s[0], s[s.len() - 1])
}

/// Tells the actions of one controller apart by the part of their names
/// after the hand.
proof fn lemma_action_suffix_injective(hand: Hand, a1: ActionKind, a2: ActionKind)
    requires
        action_suffix(hand, a1) == action_suffix(hand, a2),
    ensures
        a1 == a2,
{
    reveal_strlit("aim");
    reveal_strlit("grip");
    reveal_strlit("trigger");
    reveal_strlit("trigger_2nd");
    reveal_strlit("x");
    reveal_strlit("y");
    reveal_strlit("a");
    reveal_strlit("b");
    reveal_strlit("stick_depress");
    reveal_strlit("_bool");
    reveal_strlit("_float");
    reveal_strlit("stick_dpad_x");
    reveal_strlit("stick_dpad_y");
    assert(fingerprint(action_suffix(hand, a1)) == fingerprint(action_suffix(hand, a2)));
}

/// No two actions of the two controllers share a name, as the runtime
/// requires of the actions of one action set.
pub proof fn lemma_action_names_distinct(h1: Hand, a1: ActionKind, h2: Hand, a2: ActionKind)
    requires
        action_name(h1, a1) == action_name(h2, a2),
    ensures
        h1 == h2,
        a1 == a2,
{
    reveal_strlit("left");
    reveal_strlit("right");
    reveal_strlit("_");
    let n1 = action_name(h1, a1);
    let n2 = action_name(h2, a2);
    assert(n1[0] == hand_name(h1)[0]);
    assert(n2[0] == hand_name(h2)[0]);
    let k = hand_name(h1).len() + 1;
    assert(n1.subrange(k as int, n1.len() as int) =~= action_suffix(h1, a1));
    assert(n2.subrange(k as int, n2.len() as int) =~= action_suffix(h2, a2));
    lemma_action_suffix_injective(h1, a1, a2);
}

} // verus!
