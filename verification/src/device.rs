use vstd::prelude::*;
use crate::codes::{
    hotas_axes, hotas_axis_codes, hotas_button_codes, hotas_buttons, keyboard_key_codes,
    keyboard_keys, AXIS_MAX, AXIS_MIN, BUS_VIRTUAL,
};
use crate::event::{
    le_bytes_i32, le_bytes_u16, le_bytes_u32, le_value, lemma_le_bytes_read_back, push_le_u16,
    push_le_u32, zero_bytes, EV_ABS, EV_KEY,
};
use crate::ioctl::{io, iow, request_number, IOC_NONE, IOC_WRITE};

verus! {

/// Room for the device name in a `uinput_setup`, terminator included.
pub const UINPUT_MAX_NAME_SIZE: usize = 80;

/// Size in bytes of a `uinput_setup`: the id, the name, and the number of
/// force-feedback effects.
pub const UINPUT_SETUP_SIZE: usize = 92;

/// Size in bytes of a `uinput_abs_setup`: the axis code, two bytes of
/// padding, and the six fields of an `input_absinfo`.
pub const UINPUT_ABS_SETUP_SIZE: usize = 28;

/// Size in bytes of the integer argument of the `UI_SET_*BIT` requests.
pub const INT_ARGUMENT_SIZE: usize = 4;

/// The ioctl type letter of uinput.
pub const UINPUT_IOCTL_BASE: u8 = 0x55;

/// `UI_SET_PHYS`, as the kernel headers give it for a 64-bit target.
pub const UI_SET_PHYS: u64 = 0x4008_556c;

/// The identity a virtual device reports.
#[derive(Clone, Copy, Debug, PartialEq, Eq, Structural)]
pub struct InputId {
    pub bustype: u16,
    pub vendor: u16,
    pub product: u16,
    pub version: u16,
}

/// The range and dead zone of one absolute axis.
#[derive(Clone, Copy, Debug, PartialEq, Eq, Structural)]
pub struct AxisSetup {
    pub code: u16,
    pub minimum: i32,
    pub maximum: i32,
    pub flat: i32,
}

/// The two virtual devices this program creates.
#[derive(Clone, Copy, Debug, PartialEq, Eq, Structural)]
pub enum Device {
    Hotas,
    Keyboard,
}

/// One step of creating or removing a virtual device.
#[derive(Clone, Copy, Debug, PartialEq, Eq, Structural)]
pub enum UinputCommand {
    /// Enables an event type (`UI_SET_EVBIT`).
    EnableEventType(u16),
    /// Enables an absolute axis (`UI_SET_ABSBIT`).
    EnableAxis(u16),
    /// Sets the range of an absolute axis (`UI_ABS_SETUP`).
    ConfigureAxis(AxisSetup),
    /// Enables a key or button (`UI_SET_KEYBIT`).
    EnableKey(u16),
    /// Sets the physical path of the device (`UI_SET_PHYS`).
    SetPhys(Device),
    /// Sets the identity and name of the device (`UI_DEV_SETUP`).
    Setup(Device),
    /// Creates the device (`UI_DEV_CREATE`).
    Create,
    /// Removes the device (`UI_DEV_DESTROY`).
    Destroy,
}

/// What a request passes to the kernel besides its number.
#[derive(Debug)]
pub enum CommandArgument {
    Nothing,
    Int(i32),
    Bytes(Vec<u8>),
}

/// The identity of each virtual device.
pub open spec fn device_id(device: Device) -> InputId {
    match device {
        Device::Hotas => InputId { bustype: BUS_VIRTUAL, vendor: 0x045e, product: 0x028e, version: 1 },
        Device::Keyboard => InputId { bustype: BUS_VIRTUAL, vendor: 0, product: 0, version: 1 },
    }
}

/// The name of each virtual device, with its terminating zero:
/// "XR Fake-HOTAS" and "XR HOTAS Keyboard".
pub open spec fn device_name(device: Device) -> Seq<u8> {
    match device {
        Device::Hotas => seq![
            'X' as u8, 'R' as u8, ' ' as u8, 'F' as u8, 'a' as u8, 'k' as u8, 'e' as u8, '-' as u8, 'H' as u8, 'O' as u8, 'T' as u8, 'A' as u8, 'S' as u8, 0u8,
        ],
        Device::Keyboard => seq![
            'X' as u8, 'R' as u8, ' ' as u8, 'H' as u8, 'O' as u8, 'T' as u8, 'A' as u8, 'S' as u8, ' ' as u8, 'K' as u8, 'e' as u8, 'y' as u8, 'b' as u8, 'o' as u8,
            'a' as u8, 'r' as u8, 'd' as u8, 0u8,
        ],
    }
}

/// The physical path of each virtual device, with its terminating zero:
/// "xr-hotas" and "xr-hotas-keyboard".
pub open spec fn device_phys(device: Device) -> Seq<u8> {
    match device {
        Device::Hotas => seq!['x' as u8, 'r' as u8, '-' as u8, 'h' as u8, 'o' as u8, 't' as u8, 'a' as u8, 's' as u8, 0u8],
        Device::Keyboard => seq![
            'x' as u8, 'r' as u8, '-' as u8, 'h' as u8, 'o' as u8, 't' as u8, 'a' as u8, 's' as u8, '-' as u8, 'k' as u8, 'e' as u8, 'y' as u8, 'b' as u8, 'o' as u8,
            'a' as u8, 'r' as u8, 'd' as u8, 0u8,
        ],
    }
}

/// The bytes of a `uinput_setup`: the id, the name padded with zeros to
/// `UINPUT_MAX_NAME_SIZE` bytes, and no force-feedback effects.
pub open spec fn setup_bytes(id: InputId, name: Seq<u8>) -> Seq<u8> {
    le_bytes_u16(id.bustype) + le_bytes_u16(id.vendor) + le_bytes_u16(id.product) + le_bytes_u16(
        id.version,
    ) + name + zero_bytes((UINPUT_MAX_NAME_SIZE - name.len()) as nat) + zero_bytes(4)
}

/// The bytes of a `uinput_abs_setup`: the code, padding, then the axis
/// information with a current value, fuzz and resolution of zero.
pub open spec fn abs_setup_bytes(axis: AxisSetup) -> Seq<u8> {
    le_bytes_u16(axis.code) + zero_bytes(2) + le_bytes_i32(0) + le_bytes_i32(axis.minimum)
        + le_bytes_i32(axis.maximum) + le_bytes_i32(0) + le_bytes_i32(axis.flat) + le_bytes_i32(0)
}

/// The request number of each command.
pub open spec fn command_request(cmd: UinputCommand) -> int {
    let base = UINPUT_IOCTL_BASE as int;
    match cmd {
        UinputCommand::EnableEventType(_) => request_number(
            IOC_WRITE as int,
            base,
            100,
            INT_ARGUMENT_SIZE as int,
        ),
        UinputCommand::EnableKey(_) => request_number(
            IOC_WRITE as int,
            base,
            101,
            INT_ARGUMENT_SIZE as int,
        ),
        UinputCommand::EnableAxis(_) => request_number(
            IOC_WRITE as int,
            base,
            103,
            INT_ARGUMENT_SIZE as int,
        ),
        UinputCommand::ConfigureAxis(_) => request_number(
            IOC_WRITE as int,
            base,
            4,
            UINPUT_ABS_SETUP_SIZE as int,
        ),
        UinputCommand::SetPhys(_) => UI_SET_PHYS as int,
        UinputCommand::Setup(_) => request_number(
            IOC_WRITE as int,
            base,
            3,
            UINPUT_SETUP_SIZE as int,
        ),
        UinputCommand::Create => request_number(IOC_NONE as int, base, 1, 0),
        UinputCommand::Destroy => request_number(IOC_NONE as int, base, 2, 0),
    }
}

/// Whether `arg` is what `cmd` passes to the kernel.
pub open spec fn argument_of(cmd: UinputCommand, arg: CommandArgument) -> bool {
    match cmd {
        UinputCommand::EnableEventType(t) => arg == CommandArgument::Int(t as i32),
        UinputCommand::EnableKey(c) => arg == CommandArgument::Int(c as i32),
        UinputCommand::EnableAxis(c) => arg == CommandArgument::Int(c as i32),
        UinputCommand::ConfigureAxis(a) => arg matches CommandArgument::Bytes(b) && b@
            == abs_setup_bytes(a),
        UinputCommand::SetPhys(d) => arg matches CommandArgument::Bytes(b) && b@ == device_phys(d),
        UinputCommand::Setup(d) => arg matches CommandArgument::Bytes(b) && b@ == setup_bytes(
            device_id(d),
            device_name(d),
        ),
        UinputCommand::Create => arg is Nothing,
        UinputCommand::Destroy => arg is Nothing,
    }
}

/// The bytes of a `uinput_setup` for a device called `name`.
pub fn encode_setup(id: InputId, name: &[u8]) -> (bytes: Vec<u8>)
    requires
        name@.len() <= UINPUT_MAX_NAME_SIZE,
    ensures
        bytes@ == setup_bytes(id, name@),
        bytes@.len() == UINPUT_SETUP_SIZE,
{
    let mut out: Vec<u8> = Vec::new();
    push_le_u16(&mut out, id.bustype);
    push_le_u16(&mut out, id.vendor);
    push_le_u16(&mut out, id.product);
    push_le_u16(&mut out, id.version);
    let ghost head = out@;
    let mut i: usize = 0;
    while i < name.len()
        invariant
            i <= name@.len(),
            out@ == head + name@.take(i as int),
        decreases name@.len() - i,
    {
        out.push(name[i]);
        i = i + 1;
        assert(out@ =~= head + name@.take(i as int));
    }
    assert(name@.take(name@.len() as int) =~= name@);
    let ghost named = out@;
    let mut j: usize = name.len();
    while j < UINPUT_MAX_NAME_SIZE + 4
        invariant
            name@.len() <= j <= UINPUT_MAX_NAME_SIZE + 4,
            out@ == named + zero_bytes((j - name@.len()) as nat),
        decreases UINPUT_MAX_NAME_SIZE + 4 - j,
    {
        out.push(0u8);
        j = j + 1;
        assert(out@ =~= named + zero_bytes((j - name@.len()) as nat));
    }
    assert(out@ =~= setup_bytes(id, name@));
    out
}

/// The bytes of a `uinput_abs_setup` for one axis.
pub fn encode_abs_setup(axis: AxisSetup) -> (bytes: Vec<u8>)
    ensures
        bytes@ == abs_setup_bytes(axis),
        bytes@.len() == UINPUT_ABS_SETUP_SIZE,
{
    let mut out: Vec<u8> = Vec::new();
    push_le_u16(&mut out, axis.code);
    out.push(0u8);
    out.push(0u8);
    push_le_u32(&mut out, 0u32);
    push_le_u32(&mut out, axis.minimum as u32);
    push_le_u32(&mut out, axis.maximum as u32);
    push_le_u32(&mut out, 0u32);
    push_le_u32(&mut out, axis.flat as u32);
    push_le_u32(&mut out, 0u32);
    assert(0i32 as u32 == 0u32);
    assert(out@ =~= abs_setup_bytes(axis));
    out
}

impl Device {
    /// The identity of this device.
    pub fn id(&self) -> (id: InputId)
        ensures
            id == device_id(*self),
    {
        match self {
            Device::Hotas => InputId {
                bustype: BUS_VIRTUAL,
                vendor: 0x045e,
                product: 0x028e,
                version: 0x0001,
            },
            Device::Keyboard => InputId { bustype: BUS_VIRTUAL, vendor: 0, product: 0, version: 0x0001 },
        }
    }

    /// The name of this device, with its terminating zero.
    pub fn name(&self) -> (name: Vec<u8>)
        ensures
            name@ == device_name(*self),
    {
        let name = match self {
            Device::Hotas => vec![
                'X' as u8, 'R' as u8, ' ' as u8, 'F' as u8, 'a' as u8, 'k' as u8, 'e' as u8, '-' as u8, 'H' as u8, 'O' as u8, 'T' as u8, 'A' as u8, 'S' as u8, 0u8,
            ],
            Device::Keyboard => vec![
                'X' as u8, 'R' as u8, ' ' as u8, 'H' as u8, 'O' as u8, 'T' as u8, 'A' as u8, 'S' as u8, ' ' as u8, 'K' as u8, 'e' as u8, 'y' as u8, 'b' as u8, 'o' as u8,
                'a' as u8, 'r' as u8, 'd' as u8, 0u8,
            ],
        };
        assert(name@ =~= device_name(*self));
        name
    }

    /// The physical path of this device, with its terminating zero.
    pub fn phys(&self) -> (phys: Vec<u8>)
        ensures
            phys@ == device_phys(*self),
    {
        let phys = match self {
            Device::Hotas => vec!['x' as u8, 'r' as u8, '-' as u8, 'h' as u8, 'o' as u8, 't' as u8, 'a' as u8, 's' as u8, 0u8],
            Device::Keyboard => vec![
                'x' as u8, 'r' as u8, '-' as u8, 'h' as u8, 'o' as u8, 't' as u8, 'a' as u8, 's' as u8, '-' as u8, 'k' as u8, 'e' as u8, 'y' as u8, 'b' as u8, 'o' as u8,
                'a' as u8, 'r' as u8, 'd' as u8, 0u8,
            ],
        };
        assert(phys@ =~= device_phys(*self));
        phys
    }
}

impl UinputCommand {
    /// The ioctl request number of this command.
    pub fn request(&self) -> (r: u64)
        ensures
            r == command_request(*self),
    {
        match self {
            UinputCommand::EnableEventType(_) => iow(UINPUT_IOCTL_BASE, 100, INT_ARGUMENT_SIZE),
            UinputCommand::EnableKey(_) => iow(UINPUT_IOCTL_BASE, 101, INT_ARGUMENT_SIZE),
            UinputCommand::EnableAxis(_) => iow(UINPUT_IOCTL_BASE, 103, INT_ARGUMENT_SIZE),
            UinputCommand::ConfigureAxis(_) => iow(UINPUT_IOCTL_BASE, 4, UINPUT_ABS_SETUP_SIZE),
            UinputCommand::SetPhys(_) => UI_SET_PHYS,
            UinputCommand::Setup(_) => iow(UINPUT_IOCTL_BASE, 3, UINPUT_SETUP_SIZE),
            UinputCommand::Create => io(UINPUT_IOCTL_BASE, 1),
            UinputCommand::Destroy => io(UINPUT_IOCTL_BASE, 2),
        }
    }

    /// What this command passes to the kernel besides its number.
    pub fn argument(&self) -> (arg: CommandArgument)
        ensures
            argument_of(*self, arg),
    {
        match self {
            UinputCommand::EnableEventType(t) => CommandArgument::Int(*t as i32),
            UinputCommand::EnableKey(c) => CommandArgument::Int(*c as i32),
            UinputCommand::EnableAxis(c) => CommandArgument::Int(*c as i32),
            UinputCommand::ConfigureAxis(a) => CommandArgument::Bytes(encode_abs_setup(*a)),
            UinputCommand::SetPhys(d) => CommandArgument::Bytes(d.phys()),
            UinputCommand::Setup(d) => {
                let name = d.name();
                CommandArgument::Bytes(encode_setup(d.id(), name.as_slice()))
            },
            UinputCommand::Create => CommandArgument::Nothing,
            UinputCommand::Destroy => CommandArgument::Nothing,
        }
    }
}

/// The kernel finds each field of an axis setup at its place in the
/// structure: the code in the first two bytes, the minimum, maximum and
/// dead zone at offsets 8, 12 and 20, and zero elsewhere.
pub proof fn lemma_abs_setup_fields_read_back(axis: AxisSetup)
    ensures
        abs_setup_bytes(axis).len() == UINPUT_ABS_SETUP_SIZE,
        le_value(abs_setup_bytes(axis).subrange(0, 2)) == axis.code,
        le_value(abs_setup_bytes(axis).subrange(8, 12)) == axis.minimum as u32,
        le_value(abs_setup_bytes(axis).subrange(12, 16)) == axis.maximum as u32,
        le_value(abs_setup_bytes(axis).subrange(20, 24)) == axis.flat as u32,
        forall|i: int|
            (2 <= i < 8 || 16 <= i < 20 || 24 <= i < 28) ==> #[trigger] abs_setup_bytes(axis)[i]
                == 0,
{
    lemma_le_bytes_read_back(axis.code, axis.minimum as u32);
    lemma_le_bytes_read_back(0, axis.maximum as u32);
    lemma_le_bytes_read_back(0, axis.flat as u32);
    let b = abs_setup_bytes(axis);
    assert(b.subrange(0, 2) =~= le_bytes_u16(axis.code));
    assert(b.subrange(8, 12) =~= le_bytes_u32(axis.minimum as u32));
    assert(b.subrange(12, 16) =~= le_bytes_u32(axis.maximum as u32));
    assert(b.subrange(20, 24) =~= le_bytes_u32(axis.flat as u32));
    assert(0i32 as u32 == 0u32);
}

/// A device setup holds the name right after the eight bytes of the id,
/// followed by zeros to the end.
pub proof fn lemma_setup_name_read_back(id: InputId, name: Seq<u8>)
    requires
        name.len() <= UINPUT_MAX_NAME_SIZE,
    ensures
        setup_bytes(id, name).len() == UINPUT_SETUP_SIZE,
        setup_bytes(id, name).subrange(8, 8 + name.len() as int) == name,
        forall|i: int|
            8 + name.len() <= i < UINPUT_SETUP_SIZE ==> #[trigger] setup_bytes(id, name)[i] == 0,
{
    assert(setup_bytes(id, name).subrange(8, 8 + name.len() as int) =~= name);
}

/// Microsoft's USB vendor id.
pub const MICROSOFT_VENDOR: u16 = 0x045e;

/// The USB product id of the wired Xbox 360 controller.
pub const XBOX360_WIRED_PRODUCT: u16 = 0x028e;

/// Both devices are virtual devices of version 1; the HOTAS presents itself
/// as a wired Xbox 360 controller, so that games take it for a gamepad they
/// know, and the keyboard has no vendor or product. The setup passed when
/// each is created starts with exactly these eight bytes.
pub proof fn lemma_device_identity(device: Device)
    ensures
        device_id(device).bustype == BUS_VIRTUAL,
        device_id(device).version == 1,
        device == Device::Hotas ==> device_id(device).vendor == MICROSOFT_VENDOR
            && device_id(device).product == XBOX360_WIRED_PRODUCT,
        device == Device::Keyboard ==> device_id(device).vendor == 0 && device_id(device).product
            == 0,
        device == Device::Hotas ==> setup_bytes(device_id(device), device_name(device)).subrange(0, 8)
            == seq![6u8, 0u8, 0x5eu8, 0x04u8, 0x8eu8, 0x02u8, 1u8, 0u8],
        device == Device::Keyboard ==> setup_bytes(device_id(device), device_name(device)).subrange(
            0,
            8,
        ) == seq![6u8, 0u8, 0u8, 0u8, 0u8, 0u8, 1u8, 0u8],
{
    let b = setup_bytes(device_id(device), device_name(device));
    assert(b.subrange(0, 8) =~= le_bytes_u16(device_id(device).bustype) + le_bytes_u16(
        device_id(device).vendor,
    ) + le_bytes_u16(device_id(device).product) + le_bytes_u16(device_id(device).version));
}

/// The setup of one HOTAS axis: the full range, no dead zone.
pub open spec fn hotas_axis_setup(code: u16) -> AxisSetup {
    AxisSetup { code, minimum: AXIS_MIN, maximum: AXIS_MAX, flat: 0 }
}

/// Enabling and configuring each of `axes`, in order.
pub open spec fn axis_commands(axes: Seq<u16>) -> Seq<UinputCommand>
    decreases axes.len(),
{
    if axes.len() == 0 {
        seq![]
    } else {
        axis_commands(axes.drop_last()) + seq![
            UinputCommand::EnableAxis(axes.last()),
            UinputCommand::ConfigureAxis(hotas_axis_setup(axes.last())),
        ]
    }
}

/// Enabling each of `keys`, in order.
pub open spec fn key_commands(keys: Seq<u16>) -> Seq<UinputCommand> {
    keys.map_values(|k: u16| UinputCommand::EnableKey(k))
}

/// The steps that create the virtual HOTAS: its axes, its buttons, its
/// physical path and identity, then the device itself.
pub open spec fn hotas_setup_commands() -> Seq<UinputCommand> {
    seq![UinputCommand::EnableEventType(EV_ABS)] + axis_commands(hotas_axes()) + seq![
        UinputCommand::EnableEventType(EV_KEY),
    ] + key_commands(hotas_buttons()) + seq![
        UinputCommand::SetPhys(Device::Hotas),
        UinputCommand::Setup(Device::Hotas),
        UinputCommand::Create,
    ]
}

/// The steps that create the virtual keyboard: its keys, its physical
/// path and identity, then the device itself.
pub open spec fn keyboard_setup_commands() -> Seq<UinputCommand> {
    seq![UinputCommand::EnableEventType(EV_KEY)] + key_commands(keyboard_keys()) + seq![
        UinputCommand::SetPhys(Device::Keyboard),
        UinputCommand::Setup(Device::Keyboard),
        UinputCommand::Create,
    ]
}

/// Appends the commands that enable each of `keys`.
fn push_key_commands(out: &mut Vec<UinputCommand>, keys: &Vec<u16>)
    ensures
        final(out)@ == old(out)@ + key_commands(keys@),
{
    let ghost head = out@;
    let mut i: usize = 0;
    while i < keys.len()
        invariant
            i <= keys@.len(),
            out@ == head + key_commands(keys@.take(i as int)),
        decreases keys@.len() - i,
    {
        out.push(UinputCommand::EnableKey(keys[i]));
        i = i + 1;
        assert(out@ =~= head + key_commands(keys@.take(i as int)));
    }
    assert(keys@.take(keys@.len() as int) =~= keys@);
}

/// The steps that create the virtual HOTAS.
pub fn hotas_commands() -> (cmds: Vec<UinputCommand>)
    ensures
        cmds@ == hotas_setup_commands(),
{
    let mut cmds: Vec<UinputCommand> = Vec::new();
    cmds.push(UinputCommand::EnableEventType(EV_ABS));
    let axes = hotas_axis_codes();
    let ghost head = cmds@;
    let mut i: usize = 0;
    while i < axes.len()
        invariant
            i <= axes@.len(),
            axes@ == hotas_axes(),
            cmds@ == head + axis_commands(axes@.take(i as int)),
        decreases axes@.len() - i,
    {
        let code = axes[i];
        cmds.push(UinputCommand::EnableAxis(code));
        cmds.push(
            UinputCommand::ConfigureAxis(
                AxisSetup { code, minimum: AXIS_MIN, maximum: AXIS_MAX, flat: 0 },
            ),
        );
        i = i + 1;
        assert(axes@.take(i as int).drop_last() =~= axes@.take(i - 1));
        assert(cmds@ =~= head + axis_commands(axes@.take(i as int)));
    }
    assert(axes@.take(axes@.len() as int) =~= axes@);
    cmds.push(UinputCommand::EnableEventType(EV_KEY));
    let buttons = hotas_button_codes();
    push_key_commands(&mut cmds, &buttons);
    cmds.push(UinputCommand::SetPhys(Device::Hotas));
    cmds.push(UinputCommand::Setup(Device::Hotas));
    cmds.push(UinputCommand::Create);
    assert(cmds@ =~= hotas_setup_commands());
    cmds
}

/// The steps that create the virtual keyboard.
pub fn keyboard_commands() -> (cmds: Vec<UinputCommand>)
    ensures
        cmds@ == keyboard_setup_commands(),
{
    let mut cmds: Vec<UinputCommand> = Vec::new();
    cmds.push(UinputCommand::EnableEventType(EV_KEY));
    let keys = keyboard_key_codes();
    push_key_commands(&mut cmds, &keys);
    cmds.push(UinputCommand::SetPhys(Device::Keyboard));
    cmds.push(UinputCommand::Setup(Device::Keyboard));
    cmds.push(UinputCommand::Create);
    assert(cmds@ =~= keyboard_setup_commands());
    cmds
}

} // verus!
