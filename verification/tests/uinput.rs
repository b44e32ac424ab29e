use xr_hotas::codes::{
    axis_value, hotas_axis_codes, hotas_button_codes, is_keyboard_key, keyboard_key_codes, ABS_RZ,
    ABS_X, AXIS_MAX, AXIS_MIN, BTN_SOUTH, KEY_DOWN, KEY_M,
};
use xr_hotas::device::{
    encode_abs_setup, encode_setup, hotas_commands, keyboard_commands, AxisSetup, CommandArgument,
    Device, InputId, UinputCommand, UINPUT_SETUP_SIZE,
};
use xr_hotas::event::{axis_report, key_report, synced_report, InputEvent, EV_ABS, EV_KEY, EV_SYN};
use xr_hotas::ioctl::{io, ioc, iow, IOC_WRITE};

#[test]
fn request_numbers_match_the_kernel_headers() {
    assert_eq!(io(b'U', 1), 0x5501);
    assert_eq!(io(b'U', 2), 0x5502);
    assert_eq!(iow(b'U', 3, 92), 0x405c_5503);
    assert_eq!(iow(b'U', 4, 28), 0x401c_5504);
    assert_eq!(iow(b'U', 100, 4), 0x4004_5564);
    assert_eq!(iow(b'U', 101, 4), 0x4004_5565);
    assert_eq!(iow(b'U', 103, 4), 0x4004_5567);
    assert_eq!(iow(b'U', 108, 8), 0x4008_556c);
}

#[test]
fn ioc_combines_overlapping_fields_bitwise() {
    assert_eq!(ioc(IOC_WRITE, 0, 0, 0x4000), (1u64 << 30) | (0x4000u64 << 16));
    assert_eq!(ioc(5, 0, 0, 0), 5u64 << 30);
}

#[test]
fn commands_have_their_request_numbers() {
    assert_eq!(UinputCommand::Create.request(), 0x5501);
    assert_eq!(UinputCommand::Destroy.request(), 0x5502);
    assert_eq!(UinputCommand::Setup(Device::Hotas).request(), 0x405c_5503);
    let axis = AxisSetup { code: ABS_X, minimum: AXIS_MIN, maximum: AXIS_MAX, flat: 0 };
    assert_eq!(UinputCommand::ConfigureAxis(axis).request(), 0x401c_5504);
    assert_eq!(UinputCommand::EnableEventType(EV_KEY).request(), 0x4004_5564);
    assert_eq!(UinputCommand::EnableKey(BTN_SOUTH).request(), 0x4004_5565);
    assert_eq!(UinputCommand::EnableAxis(ABS_X).request(), 0x4004_5567);
    assert_eq!(UinputCommand::SetPhys(Device::Keyboard).request(), 0x4008_556c);
}

#[test]
fn event_encoding_is_little_endian_with_zero_time() {
    let bytes = InputEvent::new(EV_KEY, 0x130, 1).to_bytes();
    let mut expected = vec![0u8; 16];
    expected.extend_from_slice(&[0x01, 0x00, 0x30, 0x01, 0x01, 0x00, 0x00, 0x00]);
    assert_eq!(bytes, expected);

    let negative = InputEvent::new(EV_ABS, ABS_X, -32768).to_bytes();
    assert_eq!(&negative[16..], &[0x03, 0x00, 0x00, 0x00, 0x00, 0x80, 0xff, 0xff]);
}

#[test]
fn every_report_ends_with_a_sync() {
    let bytes = synced_report(EV_ABS, ABS_RZ, 1234);
    assert_eq!(bytes.len(), 48);
    assert_eq!(&bytes[..24], InputEvent::new(EV_ABS, ABS_RZ, 1234).to_bytes().as_slice());
    assert_eq!(&bytes[24..], InputEvent::new(EV_SYN, 0, 0).to_bytes().as_slice());
    assert_eq!(&bytes[24..], vec![0u8; 24].as_slice());
}

#[test]
fn button_and_axis_reports() {
    assert_eq!(key_report(BTN_SOUTH, true), synced_report(EV_KEY, BTN_SOUTH, 1));
    assert_eq!(key_report(BTN_SOUTH, false), synced_report(EV_KEY, BTN_SOUTH, 0));
    assert_eq!(axis_report(ABS_X, -5), synced_report(EV_ABS, ABS_X, -5));
    assert_eq!(key_report(KEY_M, true)[18], 50);
}

#[test]
fn axis_values_span_the_range() {
    assert_eq!(axis_value(0), -32768);
    assert_eq!(axis_value(32768), 0);
    assert_eq!(axis_value(65535), 32767);
    assert_eq!(AXIS_MIN, -32768);
    assert_eq!(AXIS_MAX, 32767);
}

#[test]
fn setup_holds_id_name_and_padding() {
    let id = InputId { bustype: 6, vendor: 0x045e, product: 0x028e, version: 1 };
    let bytes = encode_setup(id, b"XR Fake-HOTAS\0");
    assert_eq!(bytes.len(), UINPUT_SETUP_SIZE);
    assert_eq!(&bytes[..8], &[6, 0, 0x5e, 0x04, 0x8e, 0x02, 1, 0]);
    assert_eq!(&bytes[8..22], b"XR Fake-HOTAS\0");
    assert!(bytes[22..].iter().all(|b| *b == 0));
}

#[test]
fn abs_setup_layout() {
    let bytes = encode_abs_setup(AxisSetup { code: 0x05, minimum: -32768, maximum: 32767, flat: 7 });
    let expected: Vec<u8> = vec![
        0x05, 0x00, 0, 0, // code and padding
        0, 0, 0, 0, // value
        0x00, 0x80, 0xff, 0xff, // minimum
        0xff, 0x7f, 0x00, 0x00, // maximum
        0, 0, 0, 0, // fuzz
        7, 0, 0, 0, // flat
        0, 0, 0, 0, // resolution
    ];
    assert_eq!(bytes, expected);
}

#[test]
fn device_names_and_paths() {
    assert_eq!(Device::Hotas.name(), b"XR Fake-HOTAS\0".to_vec());
    assert_eq!(Device::Keyboard.name(), b"XR HOTAS Keyboard\0".to_vec());
    assert_eq!(Device::Hotas.phys(), b"xr-hotas\0".to_vec());
    assert_eq!(Device::Keyboard.phys(), b"xr-hotas-keyboard\0".to_vec());
    let keyboard_id = Device::Keyboard.id();
    assert_eq!((keyboard_id.bustype, keyboard_id.vendor, keyboard_id.product, keyboard_id.version), (6, 0, 0, 1));
}

#[test]
fn command_arguments() {
    match UinputCommand::EnableKey(BTN_SOUTH).argument() {
        CommandArgument::Int(v) => assert_eq!(v, 0x130),
        other => panic!("unexpected {other:?}"),
    }
    match UinputCommand::SetPhys(Device::Hotas).argument() {
        CommandArgument::Bytes(b) => assert_eq!(b, b"xr-hotas\0".to_vec()),
        other => panic!("unexpected {other:?}"),
    }
    match UinputCommand::Setup(Device::Keyboard).argument() {
        CommandArgument::Bytes(b) => {
            assert_eq!(b.len(), 92);
            assert_eq!(&b[8..26], b"XR HOTAS Keyboard\0");
        }
        other => panic!("unexpected {other:?}"),
    }
    assert!(matches!(UinputCommand::Create.argument(), CommandArgument::Nothing));
}

#[test]
fn hotas_is_created_axes_then_buttons() {
    let cmds = hotas_commands();
    assert_eq!(cmds.len(), 1 + 12 + 1 + 16 + 3);
    assert_eq!(cmds[0], UinputCommand::EnableEventType(EV_ABS));
    assert_eq!(cmds[1], UinputCommand::EnableAxis(ABS_X));
    assert_eq!(
        cmds[2],
        UinputCommand::ConfigureAxis(AxisSetup { code: ABS_X, minimum: -32768, maximum: 32767, flat: 0 })
    );
    assert_eq!(cmds[11], UinputCommand::EnableAxis(ABS_RZ));
    assert_eq!(cmds[13], UinputCommand::EnableEventType(EV_KEY));
    assert_eq!(cmds[14], UinputCommand::EnableKey(BTN_SOUTH));
    assert_eq!(cmds[30], UinputCommand::SetPhys(Device::Hotas));
    assert_eq!(cmds[31], UinputCommand::Setup(Device::Hotas));
    assert_eq!(cmds[32], UinputCommand::Create);
    assert_eq!(hotas_axis_codes(), vec![0, 1, 2, 3, 4, 5]);
    assert_eq!(hotas_button_codes().len(), 16);
}

#[test]
fn keyboard_is_created_with_its_keys() {
    let cmds = keyboard_commands();
    assert_eq!(
        cmds,
        vec![
            UinputCommand::EnableEventType(EV_KEY),
            UinputCommand::EnableKey(50),
            UinputCommand::EnableKey(103),
            UinputCommand::EnableKey(105),
            UinputCommand::EnableKey(106),
            UinputCommand::EnableKey(108),
            UinputCommand::SetPhys(Device::Keyboard),
            UinputCommand::Setup(Device::Keyboard),
            UinputCommand::Create,
        ]
    );
    assert_eq!(keyboard_key_codes(), vec![50, 103, 105, 106, 108]);
    assert!(is_keyboard_key(KEY_DOWN));
    assert!(!is_keyboard_key(BTN_SOUTH));
}
