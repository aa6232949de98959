use vimputti::murmur::murmur_hash2;
use vimputti::protocol::{Axis, AxisConfig, BusType, Button, DeviceConfig};
use vimputti::sysfs::{SysfsEntry, SysfsGenerator, SysfsKind};
use vimputti::udev::{
    build_event, format_monitor_message, format_netlink_message, keeps_subscriber,
    NetlinkBroadcaster, Transport, UdevAction, UdevBroadcaster, UdevDeviceInfo, UdevEvent,
    WriteOutcome,
};
use vimputti::wire::ByteOrder;

fn pad(bustype: BusType) -> DeviceConfig {
    DeviceConfig {
        name: "Microsoft X-Box 360 pad".to_string(),
        vendor_id: 0x045e,
        product_id: 0x028e,
        version: 0x0110,
        bustype,
        buttons: vec![Button::A, Button::B],
        axes: vec![AxisConfig::new(Axis::LeftStickX, -32768, 32767)],
    }
}

fn pairs(list: &[(&str, &str)]) -> Vec<(String, String)> {
    list.iter().map(|(k, v)| (k.to_string(), v.to_string())).collect()
}

// MurmurHash2 as libudev computes it.
fn reference_hash(data: &[u8], seed: u32) -> u32 {
    let m: u32 = 0x5bd1e995;
    let mut h: u32 = seed ^ (data.len() as u32);
    let mut chunks = data.chunks_exact(4);
    for chunk in &mut chunks {
        let mut k = u32::from_le_bytes([chunk[0], chunk[1], chunk[2], chunk[3]]);
        k = k.wrapping_mul(m);
        k ^= k >> 24;
        k = k.wrapping_mul(m);
        h = h.wrapping_mul(m);
        h ^= k;
    }
    let rest = chunks.remainder();
    if rest.len() >= 3 {
        h ^= (rest[2] as u32) << 16;
    }
    if rest.len() >= 2 {
        h ^= (rest[1] as u32) << 8;
    }
    if rest.len() >= 1 {
        h ^= rest[0] as u32;
        h = h.wrapping_mul(m);
    }
    h ^= h >> 13;
    h = h.wrapping_mul(m);
    h ^= h >> 15;
    h
}

#[test]
fn murmur_hash_of_known_inputs() {
    for data in [
        &b""[..],
        b"a",
        b"ab",
        b"abc",
        b"abcd",
        b"input",
        b"usb_device",
        b"The quick brown fox jumps over the lazy dog",
        &[0xff, 0x00, 0x80, 0x7f, 0x01],
    ] {
        for seed in [0u32, 1, 0xdead_beef] {
            assert_eq!(murmur_hash2(data, seed), reference_hash(data, seed));
        }
    }
    assert_eq!(murmur_hash2(b"", 0), 0);
    assert_ne!(murmur_hash2(b"input", 0), murmur_hash2(b"inpus", 0));
}

#[test]
fn add_record_for_the_monitor_socket() {
    let e = build_event(UdevAction::Add, 0, &pad(BusType::Usb), Transport::Monitor);
    assert_eq!(e.action, UdevAction::Add);
    assert_eq!(e.device_info.subsystem, "input");
    assert_eq!(e.device_info.devtype, "");
    assert_eq!(e.device_info.devname, "/dev/input/event0");
    assert_eq!(e.device_info.devpath, "/devices/virtual/input/input0/event0");
    assert_eq!(e.device_info.syspath, "/sys/devices/virtual/input/input0/event0");
    assert_eq!(
        e.device_info.properties,
        pairs(&[
            ("ID_INPUT", "1"),
            ("ID_INPUT_JOYSTICK", "1"),
            ("ID_MODEL", "Microsoft_X-Box_360_pad_0"),
            ("ID_VENDOR_ID", "045e"),
            ("ID_MODEL_ID", "028e"),
            ("ID_BUS", "usb"),
            ("NAME", "\"Microsoft X-Box 360 pad (event0)\""),
            ("PRODUCT", "3/45e/28e/110"),
            ("ID_SERIAL", "vimputti_event0"),
            ("ID_SERIAL_SHORT", "event0"),
            ("UNIQ", "event0"),
            ("BUSNUM", "253"),
            ("DEVNUM", "001"),
        ])
    );
}

#[test]
fn remove_record_for_the_monitor_socket() {
    let e = build_event(UdevAction::Remove, 41, &pad(BusType::Bluetooth), Transport::Monitor);
    assert_eq!(e.action, UdevAction::Remove);
    assert_eq!(e.device_info.devname, "/dev/input/event41");
    assert_eq!(e.device_info.devpath, "/devices/virtual/input/input41/event41");
    assert_eq!(
        e.device_info.properties,
        pairs(&[
            ("NAME", "\"Microsoft X-Box 360 pad (event41)\""),
            ("ID_MODEL", "Microsoft_X-Box_360_pad_41"),
            ("ID_SERIAL", "vimputti_event41"),
            ("ID_SERIAL_SHORT", "event41"),
            ("UNIQ", "event41"),
        ])
    );
}

#[test]
fn records_for_the_netlink_socket() {
    let e = build_event(UdevAction::Add, 998, &pad(BusType::Usb), Transport::Netlink);
    assert_eq!(
        e.device_info.properties,
        pairs(&[
            ("ID_INPUT", "1"),
            ("ID_INPUT_JOYSTICK", "1"),
            ("ID_MODEL", "Microsoft_X-Box_360_pad_998"),
            ("ID_VENDOR_ID", "045e"),
            ("ID_MODEL_ID", "028e"),
            ("ID_BUS", "usb"),
            ("NAME", "\"Microsoft X-Box 360 pad\""),
            ("PRODUCT", "3/45e/28e/110"),
            ("BUSNUM", "253"),
            ("DEVNUM", "999"),
        ])
    );
    let e = build_event(UdevAction::Remove, 2, &pad(BusType::Virtual), Transport::Netlink);
    assert_eq!(
        e.device_info.properties,
        pairs(&[
            ("NAME", "\"Microsoft X-Box 360 pad\""),
            ("ID_MODEL", "Microsoft_X-Box_360_pad_2"),
            ("ID_SERIAL", "vimputti_event2"),
            ("ID_SERIAL_SHORT", "event2"),
            ("UNIQ", "event2"),
        ])
    );
    let e = build_event(UdevAction::Change, 2, &pad(BusType::Virtual), Transport::Netlink);
    assert_eq!(e.action, UdevAction::Change);
    assert_eq!(e.device_info.properties.len(), 8);
    assert_eq!(e.device_info.properties[5], ("ID_BUS".to_string(), "virtual".to_string()));
    assert_eq!(e.device_info.properties[7], ("PRODUCT".to_string(), "6/45e/28e/110".to_string()));
}

fn small_event(devname: &str, devtype: &str) -> UdevEvent {
    UdevEvent {
        action: UdevAction::Change,
        device_info: UdevDeviceInfo {
            subsystem: "input".to_string(),
            devtype: devtype.to_string(),
            devname: devname.to_string(),
            devpath: "/devices/x".to_string(),
            syspath: "/sys/devices/x".to_string(),
            properties: pairs(&[("A", "1"), ("NAME", "\"ä\"")]),
        },
    }
}

#[test]
fn monitor_message_on_the_wire() {
    let e = small_event("/dev/input/event3", "");
    let block = "ACTION=change\0DEVPATH=/devices/x\0SUBSYSTEM=input\0DEVNAME=/dev/input/event3\0SEQNUM=17\0A=1\0NAME=\"ä\"\0\0";
    for order in [ByteOrder::Little, ByteOrder::Big] {
        let native = |x: u32| match order {
            ByteOrder::Little => x.to_le_bytes(),
            ByteOrder::Big => x.to_be_bytes(),
        };
        let mut expected = Vec::new();
        expected.extend_from_slice(b"libudev\0");
        expected.extend_from_slice(&0xfeed_cafeu32.to_be_bytes());
        expected.extend_from_slice(&native(40));
        expected.extend_from_slice(&native(40));
        expected.extend_from_slice(&native(block.len() as u32));
        expected.extend_from_slice(&reference_hash(b"input", 0).to_be_bytes());
        expected.extend_from_slice(&0u32.to_be_bytes());
        expected.extend_from_slice(&[0u8; 8]);
        assert_eq!(expected.len(), 40);
        expected.extend_from_slice(block.as_bytes());
        assert_eq!(format_monitor_message(&e, 17, order), expected);
        assert_eq!(UdevBroadcaster::format_udev_message(&e, 17, order), expected);
    }
}

#[test]
fn monitor_message_with_a_device_type_and_without_a_node() {
    let e = small_event("", "usb_device");
    let wire = format_monitor_message(&e, 0, ByteOrder::Little);
    assert_eq!(&wire[28..32], &reference_hash(b"usb_device", 0).to_be_bytes());
    assert_eq!(
        &wire[40..],
        "ACTION=change\0DEVPATH=/devices/x\0SUBSYSTEM=input\0SEQNUM=0\0A=1\0NAME=\"ä\"\0\0"
            .as_bytes()
    );
}

#[test]
fn netlink_message_on_the_wire() {
    let e = small_event("/dev/input/event3", "");
    let expected = "change@/devices/x\0ACTION=change\0DEVPATH=/devices/x\0SUBSYSTEM=input\0DEVNAME=/dev/input/event3\0SEQNUM=1700000000\0A=1\0NAME=\"ä\"\0";
    assert_eq!(format_netlink_message(&e, 1_700_000_000), expected.as_bytes());
    assert_eq!(NetlinkBroadcaster::format_event(&e, 1_700_000_000), expected.as_bytes());
    let wire = NetlinkBroadcaster::broadcast_add(1, &pad(BusType::Usb), 5);
    let text = String::from_utf8(wire).unwrap();
    assert!(text.starts_with(
        "add@/devices/virtual/input/input1/event1\0ACTION=add\0DEVPATH=/devices/virtual/input/input1/event1\0SUBSYSTEM=input\0DEVNAME=/dev/input/event1\0SEQNUM=5\0ID_INPUT=1\0"
    ));
    assert!(text.ends_with("BUSNUM=253\0DEVNUM=002\0"));
    let wire = NetlinkBroadcaster::broadcast_remove(1, &pad(BusType::Usb), 6);
    let text = String::from_utf8(wire).unwrap();
    assert!(text.starts_with("remove@/devices/virtual/input/input1/event1\0ACTION=remove\0"));
    assert!(text.contains("\0SEQNUM=6\0NAME=\"Microsoft X-Box 360 pad\"\0"));
}

#[test]
fn the_largest_id_has_a_device_number_too() {
    let e = build_event(UdevAction::Add, u64::MAX, &pad(BusType::Usb), Transport::Netlink);
    assert_eq!(
        e.device_info.properties[9],
        ("DEVNUM".to_string(), "18446744073709551616".to_string())
    );
    assert_eq!(e.device_info.devname, "/dev/input/event18446744073709551615");
}

#[test]
fn the_broadcaster_numbers_its_records() {
    let mut b = UdevBroadcaster::new();
    b.subscribe(1);
    let first = b.broadcast_add(0, &pad(BusType::Usb));
    b.subscribe(2);
    let second = b.broadcast_remove(0, &pad(BusType::Usb));
    assert_eq!((first.seqnum, second.seqnum), (0, 1));
    assert_eq!(first.recipients, vec![1]);
    assert_eq!(second.recipients, vec![1, 2]);
    assert_eq!(first.event.action, UdevAction::Add);
    assert_eq!(second.event.action, UdevAction::Remove);
    b.next_seqnum = u64::MAX;
    assert_eq!(b.broadcast_add(1, &pad(BusType::Usb)).seqnum, u64::MAX);
    assert_eq!(b.next_seqnum, u64::MAX);
    b.drop_subscribers(&vec![0]);
    assert_eq!(b.subscribers, vec![2]);
}

#[test]
fn a_subscriber_leaves_on_a_write_error_only() {
    assert!(keeps_subscriber(WriteOutcome::Written));
    assert!(keeps_subscriber(WriteOutcome::Lagged));
    assert!(!keeps_subscriber(WriteOutcome::Failed));
}

fn buttons_only() -> DeviceConfig {
    DeviceConfig {
        name: "Two Buttons".to_string(),
        vendor_id: 0x054c,
        product_id: 0x09cc,
        version: 0x8111,
        bustype: BusType::Bluetooth,
        buttons: vec![Button::A, Button::B],
        axes: vec![],
    }
}

fn parse_groups(text: &str) -> Vec<u64> {
    // High group first in the text; the result has the low group first.
    let mut groups: Vec<u64> =
        text.split(' ').map(|g| u64::from_str_radix(g, 16).unwrap()).collect();
    groups.reverse();
    groups
}

#[test]
fn sysfs_capability_bits() {
    let config = buttons_only();
    assert_eq!(SysfsGenerator::calculate_ev_bits(&config), "3");
    assert_eq!(SysfsGenerator::calculate_abs_bits(&config), "0");
    let key = SysfsGenerator::calculate_key_bits(&config);
    assert_eq!(key, "3000000000000 0 0 0 0");
    let groups = parse_groups(&key);
    for bit in 0..768usize {
        let set = bit / 64 < groups.len() && (groups[bit / 64] >> (bit % 64)) & 1 == 1;
        assert_eq!(set, bit == 0x130 || bit == 0x131);
    }
}

#[test]
fn capability_bits_of_other_devices() {
    let mut config = pad(BusType::Usb);
    assert_eq!(SysfsGenerator::calculate_ev_bits(&config), "b");
    assert_eq!(SysfsGenerator::calculate_abs_bits(&config), "1");
    config.buttons = vec![];
    config.axes = vec![
        AxisConfig::new(Axis::LeftStickX, 0, 1),
        AxisConfig::new(Axis::DPadY, 0, 1),
        AxisConfig::new(Axis::Custom(63), 0, 1),
        AxisConfig::new(Axis::Custom(64), 0, 1),
        AxisConfig::new(Axis::DPadY, 0, 1),
    ];
    assert_eq!(SysfsGenerator::calculate_ev_bits(&config), "9");
    assert_eq!(SysfsGenerator::calculate_key_bits(&config), "0");
    assert_eq!(SysfsGenerator::calculate_abs_bits(&config), "8000000000020001");
    config.axes = vec![];
    config.buttons = vec![
        Button::DPadUp,
        Button::A,
        Button::Custom(0),
        Button::Custom(767),
        Button::Custom(768),
        Button::Custom(0xffff),
        Button::A,
    ];
    assert_eq!(SysfsGenerator::calculate_ev_bits(&config), "3");
    assert_eq!(
        SysfsGenerator::calculate_key_bits(&config),
        "8000000000000000 0 0 100000000 0 0 0 1000000000000 0 0 0 1"
    );
    config.buttons = vec![Button::Custom(768)];
    assert_eq!(SysfsGenerator::calculate_key_bits(&config), "0");
    config.buttons = vec![Button::Custom(5)];
    assert_eq!(SysfsGenerator::calculate_key_bits(&config), "20");
}

fn find<'a>(entries: &'a [SysfsEntry], path: &str) -> &'a SysfsEntry {
    entries.iter().find(|e| e.path == path).unwrap_or_else(|| panic!("no entry {}", path))
}

#[test]
fn the_sysfs_tree_of_a_device() {
    let config = buttons_only();
    let entries = SysfsGenerator::create_device_files(5, &config);
    let base = "sysfs/devices/virtual/input/input5";
    let paths: Vec<&str> = entries.iter().map(|e| e.path.as_str()).collect();
    assert_eq!(
        paths,
        vec![
            "sysfs/devices/virtual/input/input5",
            "sysfs/devices/virtual/input/input5/event5",
            "sysfs/devices/virtual/input/input5/id",
            "sysfs/devices/virtual/input/input5/capabilities",
            "sysfs/devices/virtual/input/input5/name",
            "sysfs/devices/virtual/input/input5/phys",
            "sysfs/devices/virtual/input/input5/uniq",
            "sysfs/devices/virtual/input/input5/id/bustype",
            "sysfs/devices/virtual/input/input5/id/vendor",
            "sysfs/devices/virtual/input/input5/id/product",
            "sysfs/devices/virtual/input/input5/id/version",
            "sysfs/devices/virtual/input/input5/capabilities/ev",
            "sysfs/devices/virtual/input/input5/capabilities/key",
            "sysfs/devices/virtual/input/input5/capabilities/abs",
            "sysfs/devices/virtual/input/input5/capabilities/rel",
            "sysfs/devices/virtual/input/input5/capabilities/msc",
            "sysfs/devices/virtual/input/input5/capabilities/led",
            "sysfs/devices/virtual/input/input5/capabilities/snd",
            "sysfs/devices/virtual/input/input5/capabilities/ff",
            "sysfs/devices/virtual/input/input5/capabilities/sw",
            "sysfs/devices/virtual/input/input5/modalias",
            "sysfs/devices/virtual/input/input5/uevent",
            "sysfs/devices/virtual/input/input5/event5/dev",
            "sysfs/devices/virtual/input/input5/event5/subsystem",
            "sysfs/devices/virtual/input/input5/event5/device",
            "sysfs/devices/virtual/input/input5/event5/uevent",
            "sysfs/class/input",
            "sysfs/class/input/event5",
            "udev_data",
            "udev_data/c13:69",
        ]
    );
    for e in &entries[..4] {
        assert_eq!((e.kind, e.content.as_str()), (SysfsKind::Dir, ""));
    }
    let content = |name: &str| find(&entries, &format!("{}/{}", base, name)).content.clone();
    assert_eq!(content("name"), "Two Buttons (event5)\n");
    assert_eq!(content("phys"), "vimputti-event5\n");
    assert_eq!(content("uniq"), "event5\n");
    assert_eq!(content("id/bustype"), "0005\n");
    assert_eq!(content("id/vendor"), "054c\n");
    assert_eq!(content("id/product"), "09cc\n");
    assert_eq!(content("id/version"), "8111\n");
    assert_eq!(content("capabilities/ev"), "3\n");
    assert_eq!(content("capabilities/key"), "3000000000000 0 0 0 0\n");
    assert_eq!(content("capabilities/abs"), "0\n");
    for name in ["rel", "msc", "led", "snd", "ff", "sw"] {
        assert_eq!(content(&format!("capabilities/{}", name)), "0\n");
    }
    assert_eq!(content("modalias"), "input:b0005v054Cp09CCe8111\n");
    assert_eq!(
        content("uevent"),
        "PRODUCT=5/54c/9cc/8111\nNAME=\"Two Buttons (event5)\"\nPHYS=\"vimputti-event5\"\nUNIQ=\"event5\"\nEV=3\nKEY=3000000000000 0 0 0 0\nABS=0\n"
    );
    assert_eq!(content("event5/dev"), "13:69\n");
    assert_eq!(content("event5/uevent"), "MAJOR=13\nMINOR=69\nDEVNAME=input/event5\n");
    let subsystem = find(&entries, &format!("{}/event5/subsystem", base));
    assert_eq!(
        (subsystem.kind, subsystem.content.as_str()),
        (SysfsKind::Symlink, "../../../../class/input")
    );
    let device = find(&entries, &format!("{}/event5/device", base));
    assert_eq!((device.kind, device.content.as_str()), (SysfsKind::Symlink, ".."));
    let class = find(&entries, "sysfs/class/input/event5");
    assert_eq!(
        (class.kind, class.content.as_str()),
        (SysfsKind::Symlink, "../../devices/virtual/input/input5/event5")
    );
    let data = find(&entries, "udev_data/c13:69");
    assert_eq!(data.kind, SysfsKind::File);
    assert_eq!(
        data.content,
        "E:ID_INPUT=1\nE:ID_INPUT_JOYSTICK=1\nE:ID_VENDOR_ID=054c\nE:ID_MODEL_ID=09cc\nE:ID_BUS=bluetooth\nE:ID_VENDOR_ENC=Sony\nE:ID_VENDOR_FROM_DATABASE=Sony\nE:ID_MODEL_ENC=Two\\x20Buttons\nE:ID_MODEL_FROM_DATABASE=Two Buttons\nE:ID_PATH=platform-vimputti-event5\nE:ID_PATH_TAG=platform-vimputti-event5\nE:ID_SERIAL=vimputti_event5\nE:TAGS=:uaccess:\nG:uaccess\n"
    );
    assert_eq!(SysfsGenerator::create_udev_data_file(5, &config), *data);
    // Writing the tree again gives the same tree.
    assert_eq!(SysfsGenerator::create_device_files(5, &config), entries);
}

#[test]
fn everything_written_is_removed() {
    let config = buttons_only();
    let entries = SysfsGenerator::create_device_files(5, &config);
    let roots = SysfsGenerator::remove_device_files(5);
    assert_eq!(
        roots,
        vec![
            "sysfs/class/input/event5".to_string(),
            "sysfs/devices/virtual/input/input5".to_string(),
            "udev_data/c13:69".to_string()
        ]
    );
    for e in &entries {
        let shared = e.path == "sysfs/class/input" || e.path == "udev_data";
        assert!(shared || roots.iter().any(|r| e.path.starts_with(r.as_str())), "{}", e.path);
    }
    assert_eq!(
        SysfsGenerator::remove_device_files(u64::MAX),
        vec![
            "sysfs/class/input/event18446744073709551615".to_string(),
            "sysfs/devices/virtual/input/input18446744073709551615".to_string(),
            "udev_data/c13:18446744073709551679".to_string()
        ]
    );
}

#[test]
fn vendors_are_named() {
    for (vendor, name) in
        [(0x045eu16, "Microsoft"), (0x054c, "Sony"), (0x057e, "Nintendo"), (0x28de, "Unknown")]
    {
        let mut config = buttons_only();
        config.vendor_id = vendor;
        let data = SysfsGenerator::create_udev_data_file(0, &config);
        assert!(data.content.contains(&format!("\nE:ID_VENDOR_ENC={}\n", name)));
        assert!(data.content.contains(&format!("\nE:ID_VENDOR_FROM_DATABASE={}\n", name)));
    }
}
