use vimputti::legacy::{
    DeviceCommand, DeviceResponse, EventType, InputManager, Message, Response, VirtualDevice,
};
use vimputti::libudev::{
    create_fake_device_from_config, node_name_of, parse_udev_message,
    udev_device_get_property_value, FakeUdevDevice,
};
use vimputti::protocol::{BusType, Button, DeviceConfig};

fn pad(bustype: BusType) -> DeviceConfig {
    DeviceConfig {
        name: "Wireless Controller".to_string(),
        vendor_id: 0x054c,
        product_id: 0x09cc,
        version: 0x8111,
        bustype,
        buttons: vec![Button::A],
        axes: vec![],
    }
}

fn pairs(list: &[(&str, &str)]) -> Vec<(String, String)> {
    list.iter().map(|(k, v)| (k.to_string(), v.to_string())).collect()
}

#[test]
fn node_names() {
    assert_eq!(node_name_of("/tmp/vimputti/devices/event3"), "event3");
    assert_eq!(node_name_of("js0"), "js0");
    assert_eq!(node_name_of("/js0"), "js0");
    assert_eq!(node_name_of("/tmp/vimputti/devices/"), "unknown");
    assert_eq!(node_name_of(""), "unknown");
    assert_eq!(node_name_of("/"), "unknown");
}

#[test]
fn a_device_found_by_enumeration() {
    let d = create_fake_device_from_config(
        "/tmp/vimputti/devices/event3".to_string(),
        &pad(BusType::Usb),
        "/tmp/vimputti",
    );
    assert_eq!(d.syspath, "/tmp/vimputti/sys/devices/virtual/input/event3");
    assert_eq!(d.devnode, "/tmp/vimputti/devices/event3");
    assert_eq!(d.subsystem, "input");
    assert_eq!(
        d.properties,
        pairs(&[
            ("ID_INPUT", "1"),
            ("ID_INPUT_JOYSTICK", "1"),
            ("SUBSYSTEM", "input"),
            ("ID_VENDOR_ID", "054c"),
            ("ID_MODEL_ID", "09cc"),
            ("ID_VENDOR", "054c"),
            ("ID_MODEL", "09cc"),
            ("ID_VENDOR_ENC", "Sony"),
            ("ID_VENDOR_FROM_DATABASE", "Sony"),
            ("ID_MODEL_ENC", "Wireless\\x20Controller"),
            ("ID_MODEL_FROM_DATABASE", "Wireless Controller"),
            ("ID_PRODUCT_FROM_DATABASE", "Wireless Controller"),
            ("ID_BUS", "usb"),
            ("ID_USB_INTERFACES", ":030000:"),
            ("ID_USB_INTERFACE_NUM", "00"),
            ("ID_PATH", "platform-vimputti-event3"),
            ("ID_PATH_TAG", "platform-vimputti-event3"),
            ("ID_SERIAL", "vimputti_event3"),
            ("DEVNAME", "/tmp/vimputti/devices/event3"),
            ("DEVPATH", "/devices/virtual/input/event3"),
            ("MAJOR", "13"),
            ("MINOR", "64"),
            ("TAGS", ":uaccess:"),
        ])
    );
    assert_eq!(udev_device_get_property_value(&d, "ID_BUS"), Some("usb"));
    assert_eq!(udev_device_get_property_value(&d, "MINOR"), Some("64"));
    assert_eq!(udev_device_get_property_value(&d, "NOPE"), None);
}

#[test]
fn other_nodes_found_by_enumeration() {
    let js = create_fake_device_from_config("d/js1".to_string(), &pad(BusType::Bluetooth), "/b");
    assert_eq!(js.syspath, "/b/sys/devices/virtual/input/js1");
    assert_eq!(js.properties.len(), 21);
    assert_eq!(udev_device_get_property_value(&js, "MINOR"), Some("0"));
    assert_eq!(udev_device_get_property_value(&js, "ID_INPUT"), Some("1"));
    assert_eq!(udev_device_get_property_value(&js, "ID_BUS"), Some("bluetooth"));
    assert_eq!(udev_device_get_property_value(&js, "ID_USB_INTERFACES"), None);
    let other = create_fake_device_from_config("d/uinput".to_string(), &pad(BusType::Virtual), "");
    assert_eq!(other.syspath, "/sys/devices/virtual/input/uinput");
    assert_eq!(other.properties.len(), 18);
    assert_eq!(udev_device_get_property_value(&other, "ID_INPUT"), None);
    assert_eq!(udev_device_get_property_value(&other, "MINOR"), Some("0"));
    assert_eq!(other.properties[0], ("ID_VENDOR_ID".to_string(), "054c".to_string()));
}

#[test]
fn a_textual_record_is_read() {
    let text = "ACTION=add\nDEVPATH=/devices/virtual/input/input0/event0\nSUBSYSTEM=input\nDEVNAME=/dev/input/event0\nID_INPUT=1\nNAME=\"a=b\"\nnoise\nID_INPUT=2\r\n\nIGNORED=1\n";
    let d = parse_udev_message(text, "/tmp/vimputti").unwrap();
    assert_eq!(
        d,
        FakeUdevDevice {
            syspath: "/tmp/vimputti/sysfs/devices/virtual/input/input0/event0".to_string(),
            devnode: "/dev/input/event0".to_string(),
            subsystem: "input".to_string(),
            properties: pairs(&[("ID_INPUT", "1"), ("NAME", "\"a=b\""), ("ID_INPUT", "2")]),
        }
    );
    assert_eq!(udev_device_get_property_value(&d, "ID_INPUT"), Some("2"));
}

#[test]
fn records_without_a_node_describe_nothing() {
    assert_eq!(parse_udev_message("", "/b"), None);
    assert_eq!(parse_udev_message("ACTION=add\nSUBSYSTEM=input\n", "/b"), None);
    assert_eq!(parse_udev_message("\nDEVNAME=/dev/input/event0\n", "/b"), None);
    assert_eq!(parse_udev_message("DEVNAME=\n", "/b"), None);
    let d = parse_udev_message("DEVNAME=/dev/input/js0", "/b").unwrap();
    assert_eq!(
        d,
        FakeUdevDevice {
            syspath: "".to_string(),
            devnode: "/dev/input/js0".to_string(),
            subsystem: "".to_string(),
            properties: vec![],
        }
    );
    let d = parse_udev_message("DEVNAME=a\nDEVNAME=b\r\nX=\n=y\nDEVPATH=/p\r", "/b").unwrap();
    assert_eq!(d.devnode, "b");
    assert_eq!(d.syspath, "/b/sysfs/p\r");
    assert_eq!(d.properties, pairs(&[("X", ""), ("", "y")]));
}

fn ok(m: &mut InputManager, command: DeviceCommand) {
    assert_eq!(m.process_command(command), DeviceResponse::Success);
}

#[test]
fn a_device_is_described_call_by_call() {
    let mut m = InputManager::new();
    ok(&mut m, DeviceCommand::New { ptr: 7 });
    assert_eq!(m.devices.get(&7), Some(&VirtualDevice::new()));
    ok(&mut m, DeviceCommand::SetName { ptr: 7, name: "pad".to_string() });
    ok(&mut m, DeviceCommand::SetPhys { ptr: 7, phys: "phys0".to_string() });
    ok(&mut m, DeviceCommand::SetUniq { ptr: 7, uniq: "u".to_string() });
    ok(&mut m, DeviceCommand::SetIdBustype { ptr: 7, bustype: 3 });
    ok(&mut m, DeviceCommand::SetIdVendor { ptr: 7, vendor: 0x45e });
    ok(&mut m, DeviceCommand::SetIdProduct { ptr: 7, product: 0x28e });
    ok(&mut m, DeviceCommand::SetIdVersion { ptr: 7, version: 0x110 });
    ok(&mut m, DeviceCommand::SetDriverVersion { ptr: 7, version: 0x010001 });
    ok(&mut m, DeviceCommand::EnableEventType { ptr: 7, type_: 1 });
    ok(&mut m, DeviceCommand::EnableEventCode { ptr: 7, type_: 3, code: 0 });
    ok(&mut m, DeviceCommand::EnableEventCode { ptr: 7, type_: 1, code: 0x130 });
    ok(&mut m, DeviceCommand::EnableEventCode { ptr: 7, type_: 1, code: 0x130 });
    ok(&mut m, DeviceCommand::EnableEventType { ptr: 7, type_: 3 });
    let expected = VirtualDevice {
        name: "pad".to_string(),
        phys: "phys0".to_string(),
        uniq: "u".to_string(),
        id_bustype: 3,
        id_vendor: 0x45e,
        id_product: 0x28e,
        id_version: 0x110,
        driver_version: 0x010001,
        enabled_event_types: vec![
            EventType { type_: 1, codes: vec![0x130, 0x130] },
            EventType { type_: 3, codes: vec![0] },
        ],
    };
    assert_eq!(m.devices.get(&7), Some(&expected));
    assert_eq!(
        m.process_command(DeviceCommand::UinputCreateFromDevice { ptr: 7, uinput_ptr: 70 }),
        DeviceResponse::UinputCreated { uinput_ptr: 70 }
    );
    ok(&mut m, DeviceCommand::SetName { ptr: 7, name: "later".to_string() });
    let made = m.uinput_devices.get(&70).unwrap();
    assert_eq!(made.device_ptr, 7);
    assert_eq!(made.device, expected);
    ok(&mut m, DeviceCommand::UinputWriteEvent { uinput_ptr: 70, type_: 1, code: 0x130, value: 1 });
    ok(&mut m, DeviceCommand::Free { ptr: 7 });
    ok(&mut m, DeviceCommand::Free { ptr: 7 });
    assert_eq!(m.devices.len(), 0);
    assert_eq!(m.uinput_devices.len(), 1);
    ok(&mut m, DeviceCommand::UinputDestroy { uinput_ptr: 70 });
    ok(&mut m, DeviceCommand::UinputDestroy { uinput_ptr: 70 });
    assert_eq!(m.uinput_devices.len(), 0);
    // A new device under a handle in use starts blank.
    ok(&mut m, DeviceCommand::New { ptr: 1 });
    ok(&mut m, DeviceCommand::SetName { ptr: 1, name: "x".to_string() });
    ok(&mut m, DeviceCommand::New { ptr: 1 });
    assert_eq!(m.devices.get(&1), Some(&VirtualDevice::new()));
}

#[test]
fn calls_on_missing_devices_are_errors() {
    let mut m = InputManager::new();
    let missing = DeviceResponse::Error { message: "Device 9 not found".to_string() };
    for command in [
        DeviceCommand::SetName { ptr: 9, name: "pad".to_string() },
        DeviceCommand::SetPhys { ptr: 9, phys: "p".to_string() },
        DeviceCommand::SetUniq { ptr: 9, uniq: "u".to_string() },
        DeviceCommand::SetIdBustype { ptr: 9, bustype: 3 },
        DeviceCommand::SetIdVendor { ptr: 9, vendor: 1 },
        DeviceCommand::SetIdProduct { ptr: 9, product: 1 },
        DeviceCommand::SetIdVersion { ptr: 9, version: 1 },
        DeviceCommand::SetDriverVersion { ptr: 9, version: 1 },
        DeviceCommand::EnableEventType { ptr: 9, type_: 1 },
        DeviceCommand::EnableEventCode { ptr: 9, type_: 1, code: 2 },
        DeviceCommand::UinputCreateFromDevice { ptr: 9, uinput_ptr: 1 },
    ] {
        assert_eq!(m.process_command(command), missing);
    }
    assert_eq!(
        m.process_command(DeviceCommand::UinputWriteEvent {
            uinput_ptr: 12,
            type_: 1,
            code: 2,
            value: 3
        }),
        DeviceResponse::Error { message: "Uinput device 12 not found".to_string() }
    );
    assert_eq!(m.devices.len(), 0);
    assert_eq!(m.uinput_devices.len(), 0);
}

#[test]
fn answers_echo_the_id() {
    let mut m = InputManager::new();
    let r = m.process_message(Message {
        id: "01ARZ3NDEKTSV4RRFFQ69G5FAV".to_string(),
        command: DeviceCommand::New { ptr: 1 },
    });
    assert_eq!(
        r,
        Response { id: "01ARZ3NDEKTSV4RRFFQ69G5FAV".to_string(), response: DeviceResponse::Success }
    );
}
