use vstd::prelude::*;
use crate::codes::{hotas_axes, hotas_buttons, keyboard_keys, ABS_RX, ABS_RY, ABS_X, ABS_Y};
use crate::device::{
    abs_setup_bytes, axis_commands, command_request, device_name, device_id, hotas_axis_setup,
    hotas_setup_commands, key_commands, keyboard_setup_commands, setup_bytes, AxisSetup, Device,
    UinputCommand, UINPUT_ABS_SETUP_SIZE, UINPUT_IOCTL_BASE, UINPUT_SETUP_SIZE, UI_SET_PHYS,
};
use crate::ioctl::{request_number, IOC_WRITE};
use crate::layout::{controller_buttons, Hand};
use crate::operation::trigger_axis;

verus! {

/// The button codes both controllers drive: the left's, then the right's.
pub open spec fn driven_buttons() -> Seq<u16> {
    (controller_buttons(Hand::Left) + controller_buttons(Hand::Right)).map_values(
        |b: crate::layout::ButtonSpec| b.code,
    )
}

/// The axes the program moves: both triggers, the throttle and the three
/// stick axes.
pub open spec fn driven_axes() -> Seq<u16> {
    seq![trigger_axis(Hand::Left), trigger_axis(Hand::Right), ABS_RY, ABS_X, ABS_Y, ABS_RX]
}

proof fn lemma_axis_commands_len(axes: Seq<u16>)
    ensures
        axis_commands(axes).len() == 2 * axes.len(),
    decreases axes.len(),
{
    if axes.len() > 0 {
        lemma_axis_commands_len(axes.drop_last());
    }
}

proof fn lemma_axis_commands_index(axes: Seq<u16>, j: int)
    requires
        0 <= j < axes.len(),
    ensures
        axis_commands(axes)[2 * j] == UinputCommand::EnableAxis(axes[j]),
        axis_commands(axes)[2 * j + 1] == UinputCommand::ConfigureAxis(hotas_axis_setup(axes[j])),
    decreases axes.len(),
{
    lemma_axis_commands_len(axes.drop_last());
    if j < axes.len() - 1 {
        lemma_axis_commands_index(axes.drop_last(), j);
    }
}

/// Every button a controller drives is one of the HOTAS's buttons, and
/// every HOTAS button is driven by exactly one input of one controller.
pub proof fn lemma_controllers_drive_each_hotas_button_once()
    ensures
        driven_buttons().len() == hotas_buttons().len(),
        driven_buttons().no_duplicates(),
        hotas_buttons().no_duplicates(),
        forall|i: int| 0 <= i < driven_buttons().len() ==> hotas_buttons().contains(
            #[trigger] driven_buttons()[i],
        ),
        forall|i: int|
            0 <= i < hotas_buttons().len() ==> driven_buttons().contains(#[trigger] hotas_buttons()[i]),
{
    let d = driven_buttons();
    let h = hotas_buttons();
    assert(d =~= seq![
        crate::codes::BTN_TL2, crate::codes::BTN_WEST, crate::codes::BTN_NORTH,
        crate::codes::BTN_THUMBL, crate::codes::BTN_DPAD_UP, crate::codes::BTN_DPAD_RIGHT,
        crate::codes::BTN_DPAD_DOWN, crate::codes::BTN_DPAD_LEFT, crate::codes::BTN_TR2,
        crate::codes::BTN_SOUTH, crate::codes::BTN_EAST, crate::codes::BTN_THUMBR,
        crate::codes::BTN_SELECT, crate::codes::BTN_TR, crate::codes::BTN_START,
        crate::codes::BTN_TL,
    ]);
    assert forall|i: int| 0 <= i < d.len() implies h.contains(#[trigger] d[i]) by {
        let j = choose|j: int| 0 <= j < h.len() && h[j] == d[i];
        assert(h[j] == d[i]);
    }
    assert forall|i: int| 0 <= i < h.len() implies d.contains(#[trigger] h[i]) by {
        let j = choose|j: int| 0 <= j < d.len() && d[j] == h[i];
        assert(d[j] == h[i]);
    }
}

/// Every button a controller drives is enabled when the HOTAS is created.
pub proof fn lemma_driven_buttons_enabled(code: u16)
    requires
        driven_buttons().contains(code),
    ensures
        hotas_setup_commands().contains(UinputCommand::EnableKey(code)),
{
    lemma_controllers_drive_each_hotas_button_once();
    let i = choose|i: int| 0 <= i < driven_buttons().len() && driven_buttons()[i] == code;
    let j = choose|j: int| 0 <= j < hotas_buttons().len() && hotas_buttons()[j] == code;
    lemma_axis_commands_len(hotas_axes());
    let cmds = hotas_setup_commands();
    let at = 1 + 12 + 1 + j;
    assert(key_commands(hotas_buttons())[j] == UinputCommand::EnableKey(code));
    assert(cmds[at] == UinputCommand::EnableKey(code));
}

/// Every axis the program moves is enabled and given the full range when
/// the HOTAS is created.
pub proof fn lemma_driven_axes_configured(code: u16)
    requires
        driven_axes().contains(code),
    ensures
        hotas_setup_commands().contains(UinputCommand::EnableAxis(code)),
        hotas_setup_commands().contains(UinputCommand::ConfigureAxis(hotas_axis_setup(code))),
{
    let i = choose|i: int| 0 <= i < driven_axes().len() && driven_axes()[i] == code;
    let axes = hotas_axes();
    let j: int = if code == axes[0] {
        0
    } else if code == axes[1] {
        1
    } else if code == axes[2] {
        2
    } else if code == axes[3] {
        3
    } else if code == axes[4] {
        4
    } else {
        5
    };
    assert(axes[j] == code);
    lemma_axis_commands_len(axes);
    lemma_axis_commands_index(axes, j);
    let cmds = hotas_setup_commands();
    assert(cmds[1 + 2 * j] == UinputCommand::EnableAxis(code));
    assert(cmds[2 + 2 * j] == UinputCommand::ConfigureAxis(hotas_axis_setup(code)));
}

/// The keyboard is created with exactly the keys it accepts.
pub proof fn lemma_keyboard_enables_its_keys(code: u16)
    ensures
        keyboard_setup_commands().contains(UinputCommand::EnableKey(code)) <==> keyboard_keys().contains(
            code,
        ),
{
    let cmds = keyboard_setup_commands();
    let keys = keyboard_keys();
    if keys.contains(code) {
        let j = choose|j: int| 0 <= j < keys.len() && keys[j] == code;
        assert(cmds[1 + j] == UinputCommand::EnableKey(code));
    }
    if cmds.contains(UinputCommand::EnableKey(code)) {
        let j = choose|j: int| 0 <= j < cmds.len() && cmds[j] == UinputCommand::EnableKey(code);
        assert(1 <= j < 1 + keys.len());
        assert(keys[j - 1] == code);
    }
}

/// The size that each request announces is the size of what it passes:
/// the axis and device setups have exactly the sizes of the kernel's
/// structures, and the physical path is passed as one pointer.
pub proof fn lemma_request_sizes_match_payloads(axis: AxisSetup, device: Device)
    ensures
        abs_setup_bytes(axis).len() == UINPUT_ABS_SETUP_SIZE,
        command_request(UinputCommand::ConfigureAxis(axis)) == request_number(
            IOC_WRITE as int,
            UINPUT_IOCTL_BASE as int,
            4,
            abs_setup_bytes(axis).len() as int,
        ),
        setup_bytes(device_id(device), device_name(device)).len() == UINPUT_SETUP_SIZE,
        command_request(UinputCommand::Setup(device)) == request_number(
            IOC_WRITE as int,
            UINPUT_IOCTL_BASE as int,
            3,
            setup_bytes(device_id(device), device_name(device)).len() as int,
        ),
        UI_SET_PHYS == request_number(IOC_WRITE as int, UINPUT_IOCTL_BASE as int, 108, 8),
{
}

} // verus!
