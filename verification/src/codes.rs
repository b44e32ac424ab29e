use vstd::prelude::*;

verus! {

// Axes of the left stick.
pub const ABS_X: u16 = 0x00;

pub const ABS_Y: u16 = 0x01;

// Axes of the right stick.
pub const ABS_RX: u16 = 0x03;

pub const ABS_RY: u16 = 0x04;

// The analog triggers.
pub const ABS_Z: u16 = 0x02;

pub const ABS_RZ: u16 = 0x05;

/// Xbox A.
pub const BTN_SOUTH: u16 = 0x130;

/// Xbox B.
pub const BTN_EAST: u16 = 0x131;

/// Xbox Y.
pub const BTN_NORTH: u16 = 0x133;

/// Xbox X.
pub const BTN_WEST: u16 = 0x134;

/// Left bumper.
pub const BTN_TL: u16 = 0x136;

/// Right bumper.
pub const BTN_TR: u16 = 0x137;

/// Left trigger button.
pub const BTN_TL2: u16 = 0x138;

/// Right trigger button.
pub const BTN_TR2: u16 = 0x139;

pub const BTN_SELECT: u16 = 0x13a;

pub const BTN_START: u16 = 0x13b;

/// Left stick click.
pub const BTN_THUMBL: u16 = 0x13d;

/// Right stick click.
pub const BTN_THUMBR: u16 = 0x13e;

pub const BTN_DPAD_UP: u16 = 0x220;

pub const BTN_DPAD_DOWN: u16 = 0x221;

pub const BTN_DPAD_LEFT: u16 = 0x222;

pub const BTN_DPAD_RIGHT: u16 = 0x223;

// Keyboard keys of the modifier layer of the right trigger.
pub const KEY_M: u16 = 50;

pub const KEY_UP: u16 = 103;

pub const KEY_LEFT: u16 = 105;

pub const KEY_RIGHT: u16 = 106;

pub const KEY_DOWN: u16 = 108;

/// The bus type of a virtual device.
pub const BUS_VIRTUAL: u16 = 0x06;

/// Number of distinct positions of a HOTAS axis.
pub const AXIS_LEVELS: i32 = 65_536;

/// Lowest position of a HOTAS axis: minus half of `AXIS_LEVELS`.
pub const AXIS_MIN: i32 = -32_768;

/// Highest position of a HOTAS axis.
pub const AXIS_MAX: i32 = AXIS_MIN + AXIS_LEVELS - 1;

/// The axes that the virtual HOTAS has, in the order they are set up.
pub open spec fn hotas_axes() -> Seq<u16> {
    seq![ABS_X, ABS_Y, ABS_Z, ABS_RX, ABS_RY, ABS_RZ]
}

/// The buttons that the virtual HOTAS has, in the order they are set up.
pub open spec fn hotas_buttons() -> Seq<u16> {
    seq![
        BTN_SOUTH,
        BTN_EAST,
        BTN_NORTH,
        BTN_WEST,
        BTN_TL,
        BTN_TR,
        BTN_TL2,
        BTN_TR2,
        BTN_SELECT,
        BTN_START,
        BTN_THUMBL,
        BTN_THUMBR,
        BTN_DPAD_UP,
        BTN_DPAD_RIGHT,
        BTN_DPAD_DOWN,
        BTN_DPAD_LEFT,
    ]
}

/// The keys that the virtual keyboard has, in the order they are set up.
pub open spec fn keyboard_keys() -> Seq<u16> {
    seq![KEY_M, KEY_UP, KEY_LEFT, KEY_RIGHT, KEY_DOWN]
}

/// The axes of the virtual HOTAS.
pub fn hotas_axis_codes() -> (r: Vec<u16>)
    ensures
        r@ == hotas_axes(),
{
    let r = vec![ABS_X, ABS_Y, ABS_Z, ABS_RX, ABS_RY, ABS_RZ];
    assert(r@ =~= hotas_axes());
    r
}

/// The buttons of the virtual HOTAS.
pub fn hotas_button_codes() -> (r: Vec<u16>)
    ensures
        r@ == hotas_buttons(),
{
    let r = vec![
        BTN_SOUTH,
        BTN_EAST,
        BTN_NORTH,
        BTN_WEST,
        BTN_TL,
        BTN_TR,
        BTN_TL2,
        BTN_TR2,
        BTN_SELECT,
        BTN_START,
        BTN_THUMBL,
        BTN_THUMBR,
        BTN_DPAD_UP,
        BTN_DPAD_RIGHT,
        BTN_DPAD_DOWN,
        BTN_DPAD_LEFT,
    ];
    assert(r@ =~= hotas_buttons());
    r
}

/// The keys of the virtual keyboard.
pub fn keyboard_key_codes() -> (r: Vec<u16>)
    ensures
        r@ == keyboard_keys(),
{
    let r = vec![KEY_M, KEY_UP, KEY_LEFT, KEY_RIGHT, KEY_DOWN];
    assert(r@ =~= keyboard_keys());
    r
}

/// Whether the virtual keyboard has the key `code`.
pub fn is_keyboard_key(code: u16) -> (r: bool)
    ensures
        r == keyboard_keys().contains(code),
{
    let r = code == KEY_M || code == KEY_UP || code == KEY_LEFT || code == KEY_RIGHT || code
        == KEY_DOWN;
    proof {
        if r {
            if code == KEY_M {
                assert(keyboard_keys()[0] == code);
            } else if code == KEY_UP {
                assert(keyboard_keys()[1] == code);
            } else if code == KEY_LEFT {
                assert(keyboard_keys()[2] == code);
            } else if code == KEY_RIGHT {
                assert(keyboard_keys()[3] == code);
            } else {
                assert(keyboard_keys()[4] == code);
            }
        }
    }
    r
}

/// The position of an axis `offset` steps above its lowest one.
pub fn axis_value(offset: u16) -> (v: i32)
    ensures
        v == AXIS_MIN + offset,
        AXIS_MIN <= v <= AXIS_MAX,
{
    AXIS_MIN + offset as i32
}

} // verus!
