use vimputti::client::{
    get_base_path, socket_path_of_instance, check_response, fresh_request_id, request_id, expect_device_created, expect_device_list, expect_input_sent, expect_pong,
    BatchManager, ClientError, CommandKind, VimputtiClient, VirtualController,
};
use vimputti::consumer::{
    arg_kind, check_handshake_len, config_or_default, handle_uinput_write, ioctl_result,
    handle_uinput_ioctl, ArgKind, UinputIoctl,
};
use vimputti::feedback::RumbleDecoder;
use vimputti::protocol::{
    Axis, AxisConfig, BusType, Button, ControlCommand, ControlMessage, ControlResponse,
    ControlResult, DeviceConfig, DeviceInfo, DeviceSetup, FeedbackEvent, InputEvent,
    LinuxAbsEvent, LinuxInputEvent, TimeVal, UinputRequest, UinputResponse,
};
use vimputti::templates::{ControllerBuilder, ControllerTemplates};
use vimputti::uinput::{translate_records, ui_get_sysname, UinputDeviceState};
use vimputti::wire::ByteOrder;

fn stick(axis: Axis) -> AxisConfig {
    AxisConfig::new(axis, -32768, 32767)
}

fn hat(axis: Axis) -> AxisConfig {
    AxisConfig::new(axis, -1, 1)
}

fn full_axes() -> Vec<AxisConfig> {
    vec![
        stick(Axis::LeftStickX),
        stick(Axis::LeftStickY),
        stick(Axis::RightStickX),
        stick(Axis::RightStickY),
        stick(Axis::LeftTrigger),
        stick(Axis::RightTrigger),
        hat(Axis::DPadX),
        hat(Axis::DPadY),
    ]
}

#[test]
fn templates_describe_the_real_controllers() {
    let xbox_buttons = vec![
        Button::A,
        Button::B,
        Button::X,
        Button::Y,
        Button::LeftBumper,
        Button::RightBumper,
        Button::Select,
        Button::Start,
        Button::Guide,
        Button::LeftStick,
        Button::RightStick,
    ];
    assert_eq!(
        ControllerTemplates::xbox360(),
        DeviceConfig {
            name: "Microsoft X-Box 360 pad".to_string(),
            vendor_id: 0x045e,
            product_id: 0x028e,
            version: 0x0110,
            bustype: BusType::Usb,
            buttons: xbox_buttons.clone(),
            axes: full_axes(),
        }
    );
    assert_eq!(
        ControllerTemplates::xbox_one(),
        DeviceConfig {
            name: "Microsoft X-Box One pad".to_string(),
            vendor_id: 0x045e,
            product_id: 0x02ea,
            version: 0x0408,
            bustype: BusType::Usb,
            buttons: xbox_buttons,
            axes: full_axes(),
        }
    );
    let ps_buttons = vec![
        Button::X,
        Button::A,
        Button::B,
        Button::Y,
        Button::LeftBumper,
        Button::RightBumper,
        Button::LeftTrigger,
        Button::RightTrigger,
        Button::Select,
        Button::Start,
        Button::Guide,
        Button::LeftStick,
        Button::RightStick,
    ];
    assert_eq!(
        ControllerTemplates::ps4(),
        DeviceConfig {
            name: "Sony Interactive Entertainment Wireless Controller".to_string(),
            vendor_id: 0x054c,
            product_id: 0x09cc,
            version: 0x8111,
            bustype: BusType::Usb,
            buttons: ps_buttons.clone(),
            axes: full_axes(),
        }
    );
    assert_eq!(
        ControllerTemplates::ps5(),
        DeviceConfig {
            name: "Sony Interactive Entertainment DualSense Wireless Controller".to_string(),
            vendor_id: 0x054c,
            product_id: 0x0ce6,
            version: 0x8111,
            bustype: BusType::Usb,
            buttons: ps_buttons,
            axes: full_axes(),
        }
    );
    let switch = ControllerTemplates::switch_pro();
    assert_eq!(switch.name, "Nintendo Switch Pro Controller");
    assert_eq!((switch.vendor_id, switch.product_id, switch.version), (0x057e, 0x2009, 0x8111));
    assert_eq!(switch.buttons.len(), 14);
    assert_eq!(&switch.buttons[..4], &[Button::B, Button::A, Button::Y, Button::X]);
    assert_eq!(switch.buttons[13], Button::Custom(317));
    assert_eq!(
        switch.axes,
        vec![
            stick(Axis::LeftStickX),
            stick(Axis::LeftStickY),
            stick(Axis::RightStickX),
            stick(Axis::RightStickY),
            hat(Axis::DPadX),
            hat(Axis::DPadY),
        ]
    );
    let generic = ControllerTemplates::generic_gamepad();
    assert_eq!(generic.name, "Generic USB Gamepad");
    assert_eq!((generic.vendor_id, generic.product_id, generic.version), (0x0079, 0x0006, 0x0110));
    assert_eq!(generic.buttons.len(), 8);
    assert_eq!(generic.buttons[7], Button::Start);
    assert_eq!(generic.axes.len(), 4);
    let steam = ControllerTemplates::steam_controller();
    assert_eq!(steam.name, "Steam Controller");
    assert_eq!((steam.vendor_id, steam.product_id, steam.version), (0x28de, 0x1142, 0x0111));
    assert_eq!(steam.buttons.len(), 15);
    assert_eq!(&steam.buttons[13..], &[Button::Custom(289), Button::Custom(290)]);
    assert_eq!(
        steam.axes,
        vec![
            stick(Axis::LeftStickX),
            stick(Axis::LeftStickY),
            stick(Axis::Custom(3)),
            stick(Axis::Custom(4)),
            stick(Axis::Custom(5)),
            stick(Axis::Custom(6)),
            stick(Axis::LeftTrigger),
            stick(Axis::RightTrigger),
        ]
    );
}

#[test]
fn the_builder_collects_what_it_is_given() {
    let empty = ControllerBuilder::new("Mine".to_string()).build();
    assert_eq!(
        empty,
        DeviceConfig {
            name: "Mine".to_string(),
            vendor_id: 0,
            product_id: 0,
            version: 0x0100,
            bustype: BusType::Virtual,
            buttons: vec![],
            axes: vec![],
        }
    );
    let config = ControllerBuilder::new("Mine".to_string())
        .vendor_id(0x1234)
        .product_id(0x5678)
        .version(0x0200)
        .bustype(BusType::Bluetooth)
        .button(Button::Guide)
        .buttons(&[Button::Custom(1), Button::Custom(2)])
        .face_buttons()
        .shoulder_buttons()
        .menu_buttons()
        .stick_buttons()
        .dpad_buttons()
        .axis(Axis::Custom(40), -7, 7)
        .axis_config(AxisConfig { axis: Axis::Custom(41), min: 0, max: 1, fuzz: 2, flat: 3 })
        .axes(&[hat(Axis::Custom(42))])
        .dual_analog_sticks()
        .analog_triggers()
        .dpad_axes()
        .build();
    assert_eq!(
        config,
        DeviceConfig {
            name: "Mine".to_string(),
            vendor_id: 0x1234,
            product_id: 0x5678,
            version: 0x0200,
            bustype: BusType::Bluetooth,
            buttons: vec![
                Button::Guide,
                Button::Custom(1),
                Button::Custom(2),
                Button::A,
                Button::B,
                Button::X,
                Button::Y,
                Button::LeftBumper,
                Button::RightBumper,
                Button::LeftTrigger,
                Button::RightTrigger,
                Button::Start,
                Button::Select,
                Button::Guide,
                Button::LeftStick,
                Button::RightStick,
                Button::DPadUp,
                Button::DPadDown,
                Button::DPadLeft,
                Button::DPadRight,
            ],
            axes: vec![
                AxisConfig::new(Axis::Custom(40), -7, 7),
                AxisConfig { axis: Axis::Custom(41), min: 0, max: 1, fuzz: 2, flat: 3 },
                hat(Axis::Custom(42)),
                stick(Axis::LeftStickX),
                stick(Axis::LeftStickY),
                stick(Axis::RightStickX),
                stick(Axis::RightStickY),
                AxisConfig::new(Axis::LeftTrigger, 0, 255),
                AxisConfig::new(Axis::RightTrigger, 0, 255),
                hat(Axis::DPadX),
                hat(Axis::DPadY),
            ],
        }
    );
}

#[test]
fn setup_accumulates() {
    let mut state = UinputDeviceState::new();
    let absinfo = |min: i32, max: i32| LinuxAbsEvent {
        value: 0,
        minimum: min,
        maximum: max,
        fuzz: 1,
        flat: 2,
        resolution: 3,
    };
    for request in [
        UinputRequest::SetEvBit { ev_type: 1 },
        UinputRequest::SetEvBit { ev_type: 3 },
        UinputRequest::SetEvBit { ev_type: 1 },
        UinputRequest::SetKeyBit { key_code: 0x131 },
        UinputRequest::SetKeyBit { key_code: 0x999 },
        UinputRequest::SetKeyBit { key_code: 0x130 },
        UinputRequest::SetKeyBit { key_code: 0x131 },
        UinputRequest::SetRelBit { rel_code: 8 },
        UinputRequest::SetAbsBit { abs_code: 0x01 },
        UinputRequest::AbsSetup { code: 0x00, absinfo: absinfo(-5, 5) },
        UinputRequest::SetAbsBit { abs_code: 0x00 },
        UinputRequest::AbsSetup { code: 0x01, absinfo: absinfo(0, 255) },
        UinputRequest::SetAbsBit { abs_code: 0x28 },
        UinputRequest::DevSetup {
            setup: DeviceSetup {
                name: "first".to_string(),
                vendor_id: 1,
                product_id: 2,
                version: 3,
                bustype: 3,
            },
        },
        UinputRequest::DevSetup {
            setup: DeviceSetup {
                name: "remap".to_string(),
                vendor_id: 0x28de,
                product_id: 0x11ff,
                version: 1,
                bustype: 5,
            },
        },
    ] {
        state.apply(request);
    }
    assert_eq!(state.ev_types, vec![1, 3]);
    assert_eq!(state.keys, vec![0x131, 0x999, 0x130]);
    assert_eq!(state.rel_axes, vec![8]);
    assert_eq!(state.abs_axes.len(), 3);
    assert_eq!(
        state.to_device_config(),
        DeviceConfig {
            name: "remap".to_string(),
            vendor_id: 0x28de,
            product_id: 0x11ff,
            version: 1,
            bustype: BusType::Bluetooth,
            buttons: vec![Button::B, Button::A],
            axes: vec![
                AxisConfig { axis: Axis::LeftStickY, min: 0, max: 255, fuzz: 1, flat: 2 },
                AxisConfig { axis: Axis::LeftStickX, min: -5, max: 5, fuzz: 1, flat: 2 },
            ],
        }
    );
    let mut fresh = UinputDeviceState::new();
    fresh.apply(UinputRequest::SetAbsBit { abs_code: 0x10 });
    assert_eq!(
        fresh.to_device_config().axes,
        vec![AxisConfig { axis: Axis::DPadX, min: -32768, max: 32767, fuzz: 16, flat: 128 }]
    );
    assert_eq!(fresh.to_device_config().name, "virtual uinput Device");
    assert_eq!(fresh.to_device_config().bustype, BusType::Virtual);
}

#[test]
fn records_become_logical_events() {
    let t = TimeVal { tv_sec: 0, tv_usec: 0 };
    let rec = |ty: u16, code: u16, value: i32| LinuxInputEvent::new(t, ty, code, value);
    assert_eq!(
        translate_records(&vec![
            rec(1, 0x130, 1),
            rec(1, 0x130, 0),
            rec(1, 0x130, -3),
            rec(1, 0x100, 1),
            rec(3, 0x11, -1),
            rec(3, 0x20, 5),
            rec(0, 0, 0),
            rec(0, 3, 1),
            rec(0x15, 0x50, 1),
        ]),
        vec![
            InputEvent::Button { button: Button::A, pressed: true },
            InputEvent::Button { button: Button::A, pressed: false },
            InputEvent::Button { button: Button::A, pressed: true },
            InputEvent::Axis { axis: Axis::DPadY, value: -1 },
            InputEvent::Sync,
            InputEvent::Sync,
        ]
    );
}

#[test]
fn sysname_request_number() {
    assert_eq!(ui_get_sysname(0), 0x8000_552c);
    assert_eq!(ui_get_sysname(64), 0x8040_552c);
    assert_eq!(ui_get_sysname(0x1fff), 0x9fff_552c);
    assert_eq!(ui_get_sysname(0x2000), 0x8000_552c);
    for len in [0usize, 1, 16, 80, 0x1fff, 0x2001, 123456] {
        let expected = 0x8000_0000u64 | ((len as u64 & 0x1fff) << 16) | (b'U' as u64) << 8 | 0x2c;
        assert_eq!(ui_get_sysname(len), expected);
    }
}

fn setup_bytes(name: &[u8], ids: [u16; 4]) -> Vec<u8> {
    let mut b = Vec::new();
    for id in ids {
        b.extend_from_slice(&id.to_le_bytes());
    }
    let mut field = [0u8; 80];
    field[..name.len()].copy_from_slice(name);
    b.extend_from_slice(&field);
    b.extend_from_slice(&16u32.to_le_bytes());
    b
}

#[test]
fn uinput_ioctls_become_messages() {
    let le = ByteOrder::Little;
    let send = |request| UinputIoctl::Send { request };
    assert_eq!(
        handle_uinput_ioctl(0x4004_5564, 1, None, le),
        send(UinputRequest::SetEvBit { ev_type: 1 })
    );
    assert_eq!(
        handle_uinput_ioctl(0x4004_5565, 0x1_0130, None, le),
        send(UinputRequest::SetKeyBit { key_code: 0x130 })
    );
    assert_eq!(
        handle_uinput_ioctl(0x4004_5567, 3, None, le),
        send(UinputRequest::SetAbsBit { abs_code: 3 })
    );
    assert_eq!(
        handle_uinput_ioctl(0x4004_5566, 8, None, le),
        send(UinputRequest::SetRelBit { rel_code: 8 })
    );
    assert_eq!(handle_uinput_ioctl(0x5501, 0, None, le), send(UinputRequest::DevCreate));
    assert_eq!(handle_uinput_ioctl(0x5502, 0, None, le), send(UinputRequest::DevDestroy));
    assert_eq!(handle_uinput_ioctl(0x5421, 0, None, le), UinputIoctl::WriteZero);
    for ignored in [0x4004_5568u32, 0x4004_5569, 0x4004_556a, 0x4004_556b, 0x4004_556c, 0x4004_556d, 0x4004_556e, 0x1234] {
        assert_eq!(handle_uinput_ioctl(ignored, 5, None, le), UinputIoctl::Ignore);
    }

    let mut abs = Vec::new();
    abs.extend_from_slice(&0x03u16.to_le_bytes());
    abs.extend_from_slice(&[0xaa, 0xbb]);
    for v in [7i32, -32768, 32767, 16, 128, 0] {
        abs.extend_from_slice(&v.to_le_bytes());
    }
    assert_eq!(
        handle_uinput_ioctl(0x401c_5504, 0, Some(&abs), le),
        send(UinputRequest::AbsSetup {
            code: 3,
            absinfo: LinuxAbsEvent {
                value: 7,
                minimum: -32768,
                maximum: 32767,
                fuzz: 16,
                flat: 128,
                resolution: 0
            }
        })
    );
    assert_eq!(handle_uinput_ioctl(0x401c_5504, 0, Some(&abs[..27]), le), UinputIoctl::Ignore);
    assert_eq!(handle_uinput_ioctl(0x401c_5504, 0, None, le), UinputIoctl::Ignore);

    let setup = setup_bytes("remäp".as_bytes(), [3, 0x28de, 0x11ff, 1]);
    assert_eq!(setup.len(), 92);
    assert_eq!(
        handle_uinput_ioctl(0x405c_5503, 0, Some(&setup), le),
        send(UinputRequest::DevSetup {
            setup: DeviceSetup {
                name: "remäp".to_string(),
                vendor_id: 0x28de,
                product_id: 0x11ff,
                version: 1,
                bustype: 3
            }
        })
    );
    let named = |name: &[u8]| match handle_uinput_ioctl(
        0x405c_5503,
        0,
        Some(&setup_bytes(name, [0; 4])),
        le,
    ) {
        UinputIoctl::Send { request: UinputRequest::DevSetup { setup } } => setup.name,
        other => panic!("{:?}", other),
    };
    assert_eq!(named(b""), "");
    assert_eq!(named(b"a\0b"), "a");
    assert_eq!(named(&[0xff, 0xfe]), "virtual uinput device");
    assert_eq!(named(&[b'x'; 80]), "virtual uinput device");
    assert_eq!(named(&[b'x'; 79]), "x".repeat(79));
    assert_eq!(handle_uinput_ioctl(0x405c_5503, 0, Some(&setup[..91]), le), UinputIoctl::Ignore);
    assert_eq!(handle_uinput_ioctl(0x405c_5503, 0, None, le), UinputIoctl::Ignore);
}

#[test]
fn ioctl_arguments_and_results() {
    assert_eq!(arg_kind(0x4004_5564), ArgKind::Value);
    assert_eq!(arg_kind(0x4004_5567), ArgKind::Value);
    assert_eq!(arg_kind(0x401c_5504), ArgKind::Struct { len: 28 });
    assert_eq!(arg_kind(0x405c_5503), ArgKind::Struct { len: 92 });
    assert_eq!(arg_kind(0x5421), ArgKind::Out);
    assert_eq!(arg_kind(0x5501), ArgKind::Unused);
    let ok = UinputResponse { success: true, device_id: Some(1), error: None };
    let bad = UinputResponse { success: false, device_id: None, error: Some("x".to_string()) };
    assert_eq!(ioctl_result(Some(&ok)), 0);
    assert_eq!(ioctl_result(Some(&bad)), -1);
    assert_eq!(ioctl_result(None), -1);
    assert!(check_handshake_len(0));
    assert!(check_handshake_len(1_048_576));
    assert!(!check_handshake_len(1_048_577));
    assert_eq!(config_or_default(None), ControllerTemplates::xbox360());
    let own = ControllerBuilder::new("own".to_string()).build();
    assert_eq!(config_or_default(Some(own.clone())), own);
}

#[test]
fn written_bytes_become_events() {
    let t = TimeVal { tv_sec: 12, tv_usec: 34 };
    let a = LinuxInputEvent::new(t, 1, 0x130, 1);
    let b = LinuxInputEvent::new(t, 0, 0, 0);
    let mut wide = a.to_bytes().to_vec();
    wide.extend_from_slice(&b.to_bytes());
    assert_eq!(handle_uinput_write(&wide), Some(UinputRequest::WriteEvents { events: vec![a, b] }));
    let mut narrow = Vec::new();
    for (sec, usec, ty, code, value) in [(12i32, 34i32, 3u16, 0x10u16, -1i32), (-1, -2, 0, 0, 0)] {
        narrow.extend_from_slice(&sec.to_le_bytes());
        narrow.extend_from_slice(&usec.to_le_bytes());
        narrow.extend_from_slice(&ty.to_le_bytes());
        narrow.extend_from_slice(&code.to_le_bytes());
        narrow.extend_from_slice(&value.to_le_bytes());
    }
    assert_eq!(
        handle_uinput_write(&narrow),
        Some(UinputRequest::WriteEvents {
            events: vec![
                LinuxInputEvent::new(t, 3, 0x10, -1),
                LinuxInputEvent::new(TimeVal { tv_sec: -1, tv_usec: -2 }, 0, 0, 0)
            ]
        })
    );
    // 48 bytes are two wide records, not three narrow ones.
    match handle_uinput_write(&[0u8; 48]) {
        Some(UinputRequest::WriteEvents { events }) => assert_eq!(events.len(), 2),
        other => panic!("{:?}", other),
    }
    assert_eq!(handle_uinput_write(&[]), None);
    assert_eq!(handle_uinput_write(&[0u8; 20]), None);
    assert_eq!(handle_uinput_write(&[0u8; 25]), None);
}

#[test]
fn rumble_effects_are_put_together() {
    let t = TimeVal { tv_sec: 0, tv_usec: 0 };
    let mut d = RumbleDecoder::new();
    let ff = |code: u16, value: i32| LinuxInputEvent::new(t, 0x15, code, value);
    assert_eq!(d.feed(&ff(0x51, 100)), Some(FeedbackEvent::Rumble {
        strong_magnitude: 0,
        weak_magnitude: 0,
        duration_ms: 100
    }));
    assert_eq!(d.feed(&ff(0x50, (0x1234 << 16) | 0x5678)), None);
    assert_eq!(d, RumbleDecoder { strong: 0x1234, weak: 0x5678 });
    assert_eq!(d.feed(&ff(0x50, -1)), None);
    assert_eq!(d, RumbleDecoder { strong: 0xffff, weak: 0xffff });
    assert_eq!(d.feed(&LinuxInputEvent::new(t, 1, 0x50, 5)), None);
    assert_eq!(d.feed(&ff(0x52, 5)), None);
    assert_eq!(d.feed(&ff(0x51, 0x1_0010)), Some(FeedbackEvent::Rumble {
        strong_magnitude: 0xffff,
        weak_magnitude: 0xffff,
        duration_ms: 0x10
    }));
    assert_eq!(d.feed(&ff(0x50, 0)), Some(FeedbackEvent::RumbleStop));
    assert_eq!(d, RumbleDecoder { strong: 0xffff, weak: 0xffff });
}

#[test]
fn answers_are_matched_by_id() {
    let response = |id: &str| ControlResponse { id: id.to_string(), result: ControlResult::Pong };
    assert_eq!(check_response("abc", response("abc")), Ok(ControlResult::Pong));
    let e = check_response("abc", response("abd")).unwrap_err();
    assert_eq!(
        e,
        ClientError::IdMismatch { expected: "abc".to_string(), got: "abd".to_string() }
    );
    assert_eq!(e.describe(CommandKind::Ping), "Response ID mismatch: expected abc, got abd");
}

#[test]
fn answers_are_read_for_their_command() {
    let error = || ControlResult::Error { message: "boom".to_string() };
    assert_eq!(expect_pong(ControlResult::Pong), Ok(()));
    assert_eq!(expect_pong(error()), Err(ClientError::Refused { message: "boom".to_string() }));
    assert_eq!(expect_pong(ControlResult::InputSent), Err(ClientError::Unexpected));
    assert_eq!(expect_input_sent(ControlResult::InputSent), Ok(()));
    assert_eq!(expect_input_sent(ControlResult::Pong), Err(ClientError::Unexpected));
    assert_eq!(
        expect_input_sent(error()),
        Err(ClientError::Refused { message: "boom".to_string() })
    );
    let info = DeviceInfo {
        device_id: 1,
        name: "n".to_string(),
        event_node: "event1".to_string(),
        joystick_node: None,
        vendor_id: 2,
        product_id: 3,
    };
    assert_eq!(
        expect_device_list(ControlResult::DeviceList(vec![info.clone()])),
        Ok(vec![info])
    );
    assert_eq!(expect_device_list(ControlResult::DeviceDestroyed), Err(ClientError::Unexpected));
    assert_eq!(
        expect_device_created(ControlResult::DeviceCreated {
            device_id: 4,
            event_node: "event4".to_string()
        }),
        Ok(VirtualController { device_id: 4, event_node: "event4".to_string() })
    );
    assert_eq!(
        expect_device_created(error()),
        Err(ClientError::Refused { message: "boom".to_string() })
    );
    let refused = ClientError::Refused { message: "boom".to_string() };
    assert_eq!(refused.describe(CommandKind::Ping), "Manager returned error: boom");
    assert_eq!(refused.describe(CommandKind::CreateDevice), "Failed to create device: boom");
    assert_eq!(refused.describe(CommandKind::ListDevices), "Failed to list devices: boom");
    assert_eq!(refused.describe(CommandKind::SendInput), "Failed to send input: boom");
    assert_eq!(ClientError::Unexpected.describe(CommandKind::Ping), "Unexpected response to ping");
    assert_eq!(
        ClientError::Unexpected.describe(CommandKind::CreateDevice),
        "Unexpected response to CreateDevice"
    );
    assert_eq!(
        ClientError::Unexpected.describe(CommandKind::SendInput),
        "Unexpected response to SendInput"
    );
}

#[test]
fn a_controller_handle_makes_commands() {
    let c = VirtualController { device_id: 3, event_node: "event3".to_string() };
    assert_eq!(c.device_id(), 3);
    assert_eq!(c.event_node(), "event3");
    let sent = |events: Vec<InputEvent>| ControlCommand::SendInput { device_id: 3, events };
    assert_eq!(
        c.button(Button::A, true),
        sent(vec![InputEvent::Button { button: Button::A, pressed: true }])
    );
    assert_eq!(c.button_press(Button::B), c.button(Button::B, true));
    assert_eq!(c.button_release(Button::B), c.button(Button::B, false));
    assert_eq!(
        c.axis(Axis::DPadX, -1),
        sent(vec![InputEvent::Axis { axis: Axis::DPadX, value: -1 }])
    );
    assert_eq!(
        c.raw_event(4, 4, 9),
        sent(vec![InputEvent::Raw { event_type: 4, code: 4, value: 9 }])
    );
    assert_eq!(c.sync(), sent(vec![InputEvent::Sync]));
    assert_eq!(c.send_events(vec![]), sent(vec![]));
    assert_eq!(c.destroy(), ControlCommand::DestroyDevice { device_id: 3 });
    assert_eq!(c.poll_feedback(), ControlCommand::PollFeedback { device_id: 3 });
    assert_eq!(c.feedback_socket_path("/tmp/vimputti"), "/tmp/vimputti/devices/event3.feedback");
    assert_eq!(VimputtiClient::ping(), ControlCommand::Ping);
    assert_eq!(VimputtiClient::list_devices(), ControlCommand::ListDevices);
    assert_eq!(VimputtiClient::default_socket_path(), "/tmp/vimputti-0");
    let config = ControllerTemplates::generic_gamepad();
    assert_eq!(
        VimputtiClient::create_device(config.clone()),
        ControlCommand::CreateDevice { config }
    );
    assert_eq!(
        VimputtiClient::send_command("id1".to_string(), ControlCommand::Ping),
        ControlMessage { id: "id1".to_string(), command: ControlCommand::Ping }
    );
}

#[test]
fn events_wait_for_the_timeout() {
    let mut b = BatchManager::new(2, 1000);
    assert!(!b.should_flush(5000));
    assert_eq!(b.flush(), None);
    b.queue_event(InputEvent::Sync, 100);
    b.queue_event(InputEvent::Button { button: Button::A, pressed: true }, 400);
    assert!(!b.should_flush(1399));
    assert_eq!(b.auto_flush(1399), None);
    assert_eq!(b.pending_events.len(), 2);
    assert!(!b.should_flush(300));
    assert!(b.should_flush(1400));
    assert_eq!(
        b.auto_flush(1400),
        Some(ControlCommand::SendInput {
            device_id: 2,
            events: vec![InputEvent::Sync, InputEvent::Button { button: Button::A, pressed: true }]
        })
    );
    assert!(b.pending_events.is_empty());
    assert_eq!(b.last_event_time, None);
    assert!(!b.should_flush(u64::MAX));
    b.set_timeout(0);
    b.queue_event(InputEvent::Sync, 7);
    assert!(b.should_flush(7));
    assert_eq!(
        b.flush(),
        Some(ControlCommand::SendInput { device_id: 2, events: vec![InputEvent::Sync] })
    );
    assert_eq!(b.flush(), None);
}

#[test]
fn request_ids_are_crockford_base_32() {
    assert_eq!(request_id(0), "00000000000000000000000000");
    assert_eq!(request_id(1), "00000000000000000000000001");
    assert_eq!(request_id(31), "0000000000000000000000000Z");
    assert_eq!(request_id(32), "00000000000000000000000010");
    assert_eq!(request_id(u128::MAX), "7ZZZZZZZZZZZZZZZZZZZZZZZZZ");
    let text = "01D39ZY06FGSCTVN4T2V9PKHFZ";
    let value = ulid::Ulid::from_string(text).unwrap().0;
    assert_eq!(request_id(value), text);
    let a = fresh_request_id();
    let b = fresh_request_id();
    assert_eq!(a.len(), 26);
    assert!(a.chars().all(|c| "0123456789ABCDEFGHJKMNPQRSTVWXYZ".contains(c)));
    assert_ne!(a, b);
    let m = VimputtiClient::new_message(ControlCommand::Ping);
    assert_eq!(m.command, ControlCommand::Ping);
    assert_eq!(m.id.len(), 26);
}

#[test]
fn the_filesystem_surface_lies_beside_the_socket() {
    assert_eq!(socket_path_of_instance(0), "/tmp/vimputti-0");
    assert_eq!(socket_path_of_instance(17), "/tmp/vimputti-17");
    assert_eq!(get_base_path(None, "/tmp/vimputti-0"), "/tmp/vimputti");
    assert_eq!(get_base_path(None, "/run/user/1000/vimputti-3"), "/run/user/1000/vimputti");
    assert_eq!(get_base_path(None, "/vimputti-0"), "/vimputti");
    assert_eq!(get_base_path(None, "vimputti-0"), "vimputti");
    assert_eq!(get_base_path(None, "a/b"), "a/vimputti");
    assert_eq!(get_base_path(Some("/custom".to_string()), "/tmp/vimputti-0"), "/custom");
}
