//! The hotplug plane: the record a device's arrival or departure becomes,
//! and the wire formats in which monitors receive it.

use vstd::prelude::*;
use vstd::string::{StringExecFns, StringSliceAdditionalSpecFns};
use vstd::utf8::encode_utf8;
use crate::device::{event_node, event_node_name, ConnId};
use crate::fanout::{keep_unmarked, marks, remove_positions, rising_below};
use crate::murmur::{murmur2, murmur_hash2};
use crate::protocol::{BusType, DeviceConfig, DeviceConfigView, DeviceId};
use crate::text::{
    decimal, decimal3, hex, hex4, push_decimal, push_decimal3, push_hex, push_hex4,
    push_str_bytes, replace_char, replace_spaces,
};
use crate::wire::{push_u32_be, push_u32_in, u32_be, u32_in, ByteOrder};

verus! {

/// What happened to a device.
#[derive(Debug, Clone, Copy, PartialEq, Eq, Structural)]
pub enum UdevAction {
    Add,
    Remove,
    Change,
}

/// What a hotplug record tells of the device.
#[derive(Debug, Clone, PartialEq, Eq)]
pub struct UdevDeviceInfo {
    pub subsystem: String,
    pub devtype: String,
    pub devname: String,
    pub devpath: String,
    pub syspath: String,
    pub properties: Vec<(String, String)>,
}

/// One hotplug record.
#[derive(Debug, Clone, PartialEq, Eq)]
pub struct UdevEvent {
    pub action: UdevAction,
    pub device_info: UdevDeviceInfo,
}

/// What a `UdevDeviceInfo` holds, as mathematical values.
pub struct UdevDeviceInfoView {
    pub subsystem: Seq<char>,
    pub devtype: Seq<char>,
    pub devname: Seq<char>,
    pub devpath: Seq<char>,
    pub syspath: Seq<char>,
    pub properties: Seq<(Seq<char>, Seq<char>)>,
}

/// What a `UdevEvent` holds, as mathematical values.
pub struct UdevEventView {
    pub action: UdevAction,
    pub device_info: UdevDeviceInfoView,
}

/// Keys and values of a property list.
pub open spec fn properties_view(props: Seq<(String, String)>) -> Seq<(Seq<char>, Seq<char>)> {
    props.map(|i: int, p: (String, String)| (p.0@, p.1@))
}

impl View for UdevDeviceInfo {
    type V = UdevDeviceInfoView;

    open spec fn view(&self) -> UdevDeviceInfoView {
        UdevDeviceInfoView {
            subsystem: self.subsystem@,
            devtype: self.devtype@,
            devname: self.devname@,
            devpath: self.devpath@,
            syspath: self.syspath@,
            properties: properties_view(self.properties@),
        }
    }
}

impl View for UdevEvent {
    type V = UdevEventView;

    open spec fn view(&self) -> UdevEventView {
        UdevEventView { action: self.action, device_info: self.device_info@ }
    }
}

/// Which of the two transports a record is made for. They differ in how
/// they name the device: the monitor socket adds the event node to the
/// name, the netlink socket gives the name as configured.
#[derive(Debug, Clone, Copy, PartialEq, Eq, Structural)]
pub enum Transport {
    Monitor,
    Netlink,
}

/// The word of an action.
pub open spec fn action_name(action: UdevAction) -> Seq<char> {
    match action {
        UdevAction::Add => "add"@,
        UdevAction::Remove => "remove"@,
        UdevAction::Change => "change"@,
    }
}

/// The word of a bus.
pub open spec fn bus_name(bus: BusType) -> Seq<char> {
    match bus {
        BusType::Usb => "usb"@,
        BusType::Bluetooth => "bluetooth"@,
        BusType::Virtual => "virtual"@,
    }
}

/// Name of the input node of device `id`.
pub open spec fn input_node_name(id: DeviceId) -> Seq<char> {
    "input"@ + decimal(id as nat)
}

/// The name under which a transport shows a device.
pub open spec fn shown_name(id: DeviceId, config: DeviceConfigView, transport: Transport) -> Seq<
    char,
> {
    match transport {
        Transport::Monitor => config.name + " ("@ + event_node_name(id) + ")"@,
        Transport::Netlink => config.name,
    }
}

/// Path of a device below `/sys`.
pub open spec fn device_path(id: DeviceId) -> Seq<char> {
    "/devices/virtual/input/"@ + input_node_name(id) + "/"@ + event_node_name(id)
}

/// The properties only a USB device has.
pub open spec fn usb_properties(id: DeviceId, bus: BusType) -> Seq<(Seq<char>, Seq<char>)> {
    if bus == BusType::Usb {
        seq![("BUSNUM"@, "253"@), ("DEVNUM"@, decimal3((id + 1) as nat))]
    } else {
        Seq::empty()
    }
}

/// `PRODUCT`: bus, vendor, product and version in hexadecimal.
pub open spec fn product_text(config: DeviceConfigView) -> Seq<char> {
    hex(config.bustype.spec_code() as nat) + "/"@ + hex(config.vendor_id as nat) + "/"@ + hex(
        config.product_id as nat,
    ) + "/"@ + hex(config.version as nat)
}

/// `ID_MODEL`: the name with underscores for spaces, then the id.
pub open spec fn model_text(id: DeviceId, config: DeviceConfigView) -> Seq<char> {
    replace_char(config.name, ' ', "_"@) + "_"@ + decimal(id as nat)
}

/// The properties of an `add` record.
pub open spec fn add_properties(id: DeviceId, config: DeviceConfigView, transport: Transport) -> Seq<
    (Seq<char>, Seq<char>),
> {
    let common = seq![
        ("ID_INPUT"@, "1"@),
        ("ID_INPUT_JOYSTICK"@, "1"@),
        ("ID_MODEL"@, model_text(id, config)),
        ("ID_VENDOR_ID"@, hex4(config.vendor_id)),
        ("ID_MODEL_ID"@, hex4(config.product_id)),
        ("ID_BUS"@, bus_name(config.bustype)),
        ("NAME"@, "\""@ + shown_name(id, config, transport) + "\""@),
        ("PRODUCT"@, product_text(config)),
    ];
    let serial = seq![
        ("ID_SERIAL"@, "vimputti_"@ + event_node_name(id)),
        ("ID_SERIAL_SHORT"@, event_node_name(id)),
        ("UNIQ"@, event_node_name(id)),
    ];
    match transport {
        Transport::Monitor => common + serial + usb_properties(id, config.bustype),
        Transport::Netlink => common + usb_properties(id, config.bustype),
    }
}

/// The properties of a `remove` record.
pub open spec fn remove_properties(
    id: DeviceId,
    config: DeviceConfigView,
    transport: Transport,
) -> Seq<(Seq<char>, Seq<char>)> {
    seq![
        ("NAME"@, "\""@ + shown_name(id, config, transport) + "\""@),
        ("ID_MODEL"@, model_text(id, config)),
        ("ID_SERIAL"@, "vimputti_"@ + event_node_name(id)),
        ("ID_SERIAL_SHORT"@, event_node_name(id)),
        ("UNIQ"@, event_node_name(id)),
    ] + usb_properties(id, config.bustype)
}

/// The record of an arrival or a departure of device `id`.
pub open spec fn device_event(
    action: UdevAction,
    id: DeviceId,
    config: DeviceConfigView,
    transport: Transport,
) -> UdevEventView {
    UdevEventView {
        action,
        device_info: UdevDeviceInfoView {
            subsystem: "input"@,
            devtype: Seq::empty(),
            devname: "/dev/input/"@ + event_node_name(id),
            devpath: device_path(id),
            syspath: "/sys"@ + device_path(id),
            properties: if action == UdevAction::Remove {
                remove_properties(id, config, transport)
            } else {
                add_properties(id, config, transport)
            },
        },
    }
}

/// The text of a property list: `KEY=VALUE` and a NUL for each.
pub open spec fn properties_text(props: Seq<(Seq<char>, Seq<char>)>) -> Seq<char>
    decreases props.len(),
{
    if props.len() == 0 {
        Seq::empty()
    } else {
        properties_text(props.drop_last()) + props.last().0 + "="@ + props.last().1 + "\0"@
    }
}

/// `DEVNAME` and a NUL, where the record names a device node.
pub open spec fn devname_text(devname: Seq<char>) -> Seq<char> {
    if devname.len() == 0 {
        Seq::empty()
    } else {
        "DEVNAME="@ + devname + "\0"@
    }
}

/// The properties every record starts with: `ACTION`, `DEVPATH`,
/// `SUBSYSTEM`, `DEVNAME` where there is one, and `SEQNUM`.
pub open spec fn leading_text(e: UdevEventView, seqnum: u64) -> Seq<char> {
    "ACTION="@ + action_name(e.action) + "\0"@ + "DEVPATH="@ + e.device_info.devpath + "\0"@
        + "SUBSYSTEM="@ + e.device_info.subsystem + "\0"@ + devname_text(e.device_info.devname)
        + "SEQNUM="@ + decimal(seqnum as nat) + "\0"@
}

/// The properties block of a monitor record: the leading properties, the
/// device's own, and one more NUL.
pub open spec fn monitor_block(e: UdevEventView, seqnum: u64) -> Seq<char> {
    leading_text(e, seqnum) + properties_text(e.device_info.properties) + "\0"@
}

/// The hash by which monitors filter on the device type: zero where the
/// record has none.
pub open spec fn devtype_hash(devtype: Seq<char>) -> u32 {
    if devtype.len() == 0 {
        0
    } else {
        murmur2(encode_utf8(devtype), 0)
    }
}

/// The eight bytes every monitor record starts with: `libudev` and a NUL.
pub open spec fn monitor_prefix() -> Seq<u8> {
    seq![0x6cu8, 0x69u8, 0x62u8, 0x75u8, 0x64u8, 0x65u8, 0x76u8, 0u8]
}

/// The tag filter of a monitor record: eight zero bytes.
pub open spec fn empty_tag_bloom() -> Seq<u8> {
    seq![0u8, 0u8, 0u8, 0u8, 0u8, 0u8, 0u8, 0u8]
}

/// The 40 bytes in front of a monitor record: the prefix, the magic number
/// big-endian, the header size and the offset and length of the properties
/// block in the machine's order, the two filter hashes big-endian, and the
/// empty tag filter.
pub open spec fn monitor_header(
    block_len: nat,
    subsystem_hash: u32,
    devtype_hash: u32,
    order: ByteOrder,
) -> Seq<u8> {
    monitor_prefix() + u32_be(0xfeedcafeu32) + u32_in(order, 40) + u32_in(order, 40) + u32_in(
        order,
        (block_len % 0x1_0000_0000) as u32,
    ) + u32_be(subsystem_hash) + u32_be(devtype_hash) + empty_tag_bloom()
}

/// A monitor record on the wire: header, then the properties block.
pub open spec fn monitor_message(e: UdevEventView, seqnum: u64, order: ByteOrder) -> Seq<u8> {
    let block = encode_utf8(monitor_block(e, seqnum));
    monitor_header(
        block.len(),
        murmur2(encode_utf8(e.device_info.subsystem), 0),
        devtype_hash(e.device_info.devtype),
        order,
    ) + block
}

/// A kernel-style record on the wire: `action@devpath`, a NUL, the leading
/// properties and the device's own.
pub open spec fn netlink_message(e: UdevEventView, seqnum: u64) -> Seq<u8> {
    encode_utf8(
        action_name(e.action) + "@"@ + e.device_info.devpath + "\0"@ + leading_text(e, seqnum)
            + properties_text(e.device_info.properties),
    )
}

/// The header of a monitor record is 40 bytes long.
pub proof fn lemma_header_len(block_len: nat, subsystem_hash: u32, devtype_hash: u32, order: ByteOrder)
    ensures
        monitor_header(block_len, subsystem_hash, devtype_hash, order).len() == 40,
{
}

fn action_word(action: UdevAction) -> (s: &'static str)
    ensures
        s@ == action_name(action),
{
    match action {
        UdevAction::Add => "add",
        UdevAction::Remove => "remove",
        UdevAction::Change => "change",
    }
}

fn bus_word(bus: BusType) -> (s: &'static str)
    ensures
        s@ == bus_name(bus),
{
    match bus {
        BusType::Usb => "usb",
        BusType::Bluetooth => "bluetooth",
        BusType::Virtual => "virtual",
    }
}

/// Appends one property to a list.
fn push_property(props: &mut Vec<(String, String)>, key: &str, value: String)
    ensures
        properties_view(final(props)@) == properties_view(old(props)@).push((key@, value@)),
{
    props.push((String::from_str(key), value));
    assert(properties_view(props@) =~= properties_view(old(props)@).push((key@, value@)));
}

fn shown_name_string(id: DeviceId, config: &DeviceConfig, transport: Transport) -> (s: String)
    ensures
        s@ == "\""@ + shown_name(id, config@, transport) + "\""@,
{
    let mut s = String::from_str("\"");
    s.append(config.name.as_str());
    match transport {
        Transport::Monitor => {
            s.append(" (");
            let node = event_node(id);
            s.append(node.as_str());
            s.append(")");
        },
        Transport::Netlink => {},
    }
    s.append("\"");
    proof {
        assert(s@ =~= "\""@ + shown_name(id, config@, transport) + "\""@);
    }
    s
}

fn model_string(id: DeviceId, config: &DeviceConfig) -> (s: String)
    ensures
        s@ == model_text(id, config@),
{
    let mut s = replace_spaces(config.name.as_str(), "_");
    s.append("_");
    push_decimal(&mut s, id);
    assert(s@ =~= model_text(id, config@));
    s
}

fn serial_string(id: DeviceId) -> (s: String)
    ensures
        s@ == "vimputti_"@ + event_node_name(id),
{
    let mut s = String::from_str("vimputti_");
    let node = event_node(id);
    s.append(node.as_str());
    s
}

fn product_string(config: &DeviceConfig) -> (s: String)
    ensures
        s@ == product_text(config@),
{
    let mut s = String::new();
    push_hex(&mut s, config.bustype.code() as u64);
    s.append("/");
    push_hex(&mut s, config.vendor_id as u64);
    s.append("/");
    push_hex(&mut s, config.product_id as u64);
    s.append("/");
    push_hex(&mut s, config.version as u64);
    assert(s@ =~= product_text(config@));
    s
}

fn hex4_string(n: u16) -> (s: String)
    ensures
        s@ == hex4(n),
{
    let mut s = String::new();
    push_hex4(&mut s, n);
    assert(s@ =~= hex4(n));
    s
}

/// Appends the properties only a USB device has.
fn push_usb_properties(props: &mut Vec<(String, String)>, id: DeviceId, bus: BusType)
    ensures
        properties_view(final(props)@) == properties_view(old(props)@) + usb_properties(id, bus),
{
    match bus {
        BusType::Usb => {
            push_property(props, "BUSNUM", String::from_str("253"));
            let mut devnum = String::new();
            push_decimal3(&mut devnum, id as u128 + 1);
            assert(devnum@ =~= decimal3((id + 1) as nat));
            push_property(props, "DEVNUM", devnum);
            assert(properties_view(props@) =~= properties_view(old(props)@) + usb_properties(
                id,
                bus,
            ));
        },
        _ => {
            assert(properties_view(props@) =~= properties_view(old(props)@) + usb_properties(
                id,
                bus,
            ));
        },
    }
}

/// Appends `ID_SERIAL`, `ID_SERIAL_SHORT` and `UNIQ`.
fn push_serial_properties(props: &mut Vec<(String, String)>, id: DeviceId)
    ensures
        properties_view(final(props)@) == properties_view(old(props)@) + seq![
            ("ID_SERIAL"@, "vimputti_"@ + event_node_name(id)),
            ("ID_SERIAL_SHORT"@, event_node_name(id)),
            ("UNIQ"@, event_node_name(id)),
        ],
{
    push_property(props, "ID_SERIAL", serial_string(id));
    push_property(props, "ID_SERIAL_SHORT", event_node(id));
    push_property(props, "UNIQ", event_node(id));
    assert(properties_view(props@) =~= properties_view(old(props)@) + seq![
        ("ID_SERIAL"@, "vimputti_"@ + event_node_name(id)),
        ("ID_SERIAL_SHORT"@, event_node_name(id)),
        ("UNIQ"@, event_node_name(id)),
    ]);
}

/// The property list of an `add` record.
fn build_add_properties(id: DeviceId, config: &DeviceConfig, transport: Transport) -> (props: Vec<
    (String, String),
>)
    ensures
        properties_view(props@) == add_properties(id, config@, transport),
{
    let mut props: Vec<(String, String)> = Vec::new();
    assert(properties_view(props@) =~= Seq::empty());
    push_property(&mut props, "ID_INPUT", String::from_str("1"));
    push_property(&mut props, "ID_INPUT_JOYSTICK", String::from_str("1"));
    push_property(&mut props, "ID_MODEL", model_string(id, config));
    push_property(&mut props, "ID_VENDOR_ID", hex4_string(config.vendor_id));
    push_property(&mut props, "ID_MODEL_ID", hex4_string(config.product_id));
    push_property(&mut props, "ID_BUS", String::from_str(bus_word(config.bustype)));
    push_property(&mut props, "NAME", shown_name_string(id, config, transport));
    push_property(&mut props, "PRODUCT", product_string(config));
    let ghost common = properties_view(props@);
    assert(common =~= seq![
        ("ID_INPUT"@, "1"@),
        ("ID_INPUT_JOYSTICK"@, "1"@),
        ("ID_MODEL"@, model_text(id, config@)),
        ("ID_VENDOR_ID"@, hex4(config.vendor_id)),
        ("ID_MODEL_ID"@, hex4(config.product_id)),
        ("ID_BUS"@, bus_name(config.bustype)),
        ("NAME"@, "\""@ + shown_name(id, config@, transport) + "\""@),
        ("PRODUCT"@, product_text(config@)),
    ]);
    match transport {
        Transport::Monitor => {
            push_serial_properties(&mut props, id);
        },
        Transport::Netlink => {},
    }
    push_usb_properties(&mut props, id, config.bustype);
    props
}

/// The property list of a `remove` record.
fn build_remove_properties(
    id: DeviceId,
    config: &DeviceConfig,
    transport: Transport,
) -> (props: Vec<(String, String)>)
    ensures
        properties_view(props@) == remove_properties(id, config@, transport),
{
    let mut props: Vec<(String, String)> = Vec::new();
    assert(properties_view(props@) =~= Seq::empty());
    push_property(&mut props, "NAME", shown_name_string(id, config, transport));
    push_property(&mut props, "ID_MODEL", model_string(id, config));
    push_serial_properties(&mut props, id);
    let ghost head = properties_view(props@);
    assert(head =~= seq![
        ("NAME"@, "\""@ + shown_name(id, config@, transport) + "\""@),
        ("ID_MODEL"@, model_text(id, config@)),
        ("ID_SERIAL"@, "vimputti_"@ + event_node_name(id)),
        ("ID_SERIAL_SHORT"@, event_node_name(id)),
        ("UNIQ"@, event_node_name(id)),
    ]);
    push_usb_properties(&mut props, id, config.bustype);
    props
}

fn device_path_string(id: DeviceId, prefix: &str) -> (s: String)
    ensures
        s@ == prefix@ + device_path(id),
{
    let mut s = String::from_str(prefix);
    s.append("/devices/virtual/input/");
    s.append("input");
    push_decimal(&mut s, id);
    s.append("/");
    let node = event_node(id);
    s.append(node.as_str());
    assert(s@ =~= prefix@ + device_path(id));
    s
}

/// The record of an arrival (`Add`, `Change`) or a departure (`Remove`)
/// of device `id`, as the given transport shows it.
pub fn build_event(
    action: UdevAction,
    id: DeviceId,
    config: &DeviceConfig,
    transport: Transport,
) -> (e: UdevEvent)
    ensures
        e@ == device_event(action, id, config@, transport),
{
    let properties = match action {
        UdevAction::Remove => build_remove_properties(id, config, transport),
        _ => build_add_properties(id, config, transport),
    };
    let mut devname = String::from_str("/dev/input/");
    let node = event_node(id);
    devname.append(node.as_str());
    let devpath = device_path_string(id, "");
    let syspath = device_path_string(id, "/sys");
    proof {
        reveal_strlit("");
        assert(""@ + device_path(id) =~= device_path(id));
    }
    UdevEvent {
        action,
        device_info: UdevDeviceInfo {
            subsystem: String::from_str("input"),
            devtype: String::new(),
            devname,
            devpath,
            syspath,
            properties,
        },
    }
}

/// Appends the text of a property list.
fn push_properties_text(s: &mut String, props: &Vec<(String, String)>)
    ensures
        final(s)@ == old(s)@ + properties_text(properties_view(props@)),
{
    let ghost view = properties_view(props@);
    let mut i: usize = 0;
    assert(s@ =~= old(s)@ + properties_text(view.subrange(0, 0)));
    while i < props.len()
        invariant
            i <= props.len(),
            view == properties_view(props@),
            s@ == old(s)@ + properties_text(view.subrange(0, i as int)),
        decreases props.len() - i,
    {
        proof {
            let next = view.subrange(0, i + 1);
            assert(next.drop_last() =~= view.subrange(0, i as int));
            assert(next.last() == view[i as int]);
        }
        let ghost before = s@;
        s.append(props[i].0.as_str());
        s.append("=");
        s.append(props[i].1.as_str());
        s.append("\0");
        i = i + 1;
        assert(s@ =~= old(s)@ + properties_text(view.subrange(0, i as int)));
    }
    assert(view.subrange(0, i as int) =~= view);
}

/// Appends the properties every record starts with.
fn push_leading_text(s: &mut String, e: &UdevEvent, seqnum: u64)
    ensures
        final(s)@ == old(s)@ + leading_text(e@, seqnum),
{
    s.append("ACTION=");
    s.append(action_word(e.action));
    s.append("\0");
    s.append("DEVPATH=");
    s.append(e.device_info.devpath.as_str());
    s.append("\0");
    s.append("SUBSYSTEM=");
    s.append(e.device_info.subsystem.as_str());
    s.append("\0");
    let ghost mid = s@;
    if e.device_info.devname.as_str().unicode_len() > 0 {
        s.append("DEVNAME=");
        s.append(e.device_info.devname.as_str());
        s.append("\0");
    }
    assert(s@ =~= mid + devname_text(e@.device_info.devname));
    s.append("SEQNUM=");
    push_decimal(s, seqnum);
    s.append("\0");
    assert(s@ =~= old(s)@ + leading_text(e@, seqnum));
}

/// Appends eight bytes.
fn push_eight(buf: &mut Vec<u8>, bytes: [u8; 8])
    ensures
        final(buf)@ == old(buf)@ + bytes@,
{
    let mut i: usize = 0;
    while i < 8
        invariant
            i <= 8,
            buf@ == old(buf)@ + bytes@.subrange(0, i as int),
        decreases 8 - i,
    {
        buf.push(bytes[i]);
        i = i + 1;
        assert(buf@ =~= old(buf)@ + bytes@.subrange(0, i as int));
    }
    assert(bytes@.subrange(0, 8) =~= bytes@);
}

/// The header of a monitor record.
fn build_monitor_header(
    block_len: usize,
    subsystem_hash: u32,
    devtype_hash: u32,
    order: ByteOrder,
) -> (bytes: Vec<u8>)
    ensures
        bytes@ == monitor_header(block_len as nat, subsystem_hash, devtype_hash, order),
{
    let mut bytes: Vec<u8> = Vec::new();
    let prefix: [u8; 8] = [0x6c, 0x69, 0x62, 0x75, 0x64, 0x65, 0x76, 0];
    assert(prefix@ =~= monitor_prefix());
    push_eight(&mut bytes, prefix);
    push_u32_be(&mut bytes, 0xfeedcafe);
    push_u32_in(&mut bytes, order, 40);
    push_u32_in(&mut bytes, order, 40);
    push_u32_in(&mut bytes, order, (block_len as u64 % 0x1_0000_0000) as u32);
    push_u32_be(&mut bytes, subsystem_hash);
    push_u32_be(&mut bytes, devtype_hash);
    let zeros: [u8; 8] = [0, 0, 0, 0, 0, 0, 0, 0];
    assert(zeros@ =~= empty_tag_bloom());
    push_eight(&mut bytes, zeros);
    assert(bytes@ =~= monitor_header(block_len as nat, subsystem_hash, devtype_hash, order));
    bytes
}

/// A monitor record on the wire.
pub fn format_monitor_message(e: &UdevEvent, seqnum: u64, order: ByteOrder) -> (bytes: Vec<u8>)
    ensures
        bytes@ == monitor_message(e@, seqnum, order),
{
    let mut block = String::new();
    push_leading_text(&mut block, e, seqnum);
    push_properties_text(&mut block, &e.device_info.properties);
    block.append("\0");
    assert(block@ =~= monitor_block(e@, seqnum));
    let subsystem_hash = murmur_hash2(e.device_info.subsystem.as_str().as_bytes(), 0);
    let devtype_hash = if e.device_info.devtype.as_str().unicode_len() > 0 {
        murmur_hash2(e.device_info.devtype.as_str().as_bytes(), 0)
    } else {
        0
    };
    let block_len: usize = block.as_str().as_bytes().len();
    let mut bytes = build_monitor_header(block_len, subsystem_hash, devtype_hash, order);
    push_str_bytes(&mut bytes, block.as_str());
    bytes
}

/// A kernel-style record on the wire.
pub fn format_netlink_message(e: &UdevEvent, seqnum: u64) -> (bytes: Vec<u8>)
    ensures
        bytes@ == netlink_message(e@, seqnum),
{
    let mut text = String::from_str(action_word(e.action));
    text.append("@");
    text.append(e.device_info.devpath.as_str());
    text.append("\0");
    push_leading_text(&mut text, e, seqnum);
    push_properties_text(&mut text, &e.device_info.properties);
    assert(text@ =~= action_name(e.action) + "@"@ + e@.device_info.devpath + "\0"@ + leading_text(
        e@,
        seqnum,
    ) + properties_text(e@.device_info.properties));
    let mut bytes: Vec<u8> = Vec::new();
    push_str_bytes(&mut bytes, text.as_str());
    assert(bytes@ =~= netlink_message(e@, seqnum));
    bytes
}

/// How one write to a subscriber ended.
#[derive(Debug, Clone, Copy, PartialEq, Eq, Structural)]
pub enum WriteOutcome {
    /// The record went out.
    Written,
    /// The subscriber fell behind the channel and missed records.
    Lagged,
    /// The write half reported an error.
    Failed,
}

/// Whether a subscriber stays after a write: it leaves on a write error
/// and on nothing else; one that lags is kept.
pub fn keeps_subscriber(outcome: WriteOutcome) -> (keep: bool)
    ensures
        keep == (outcome != WriteOutcome::Failed),
{
    match outcome {
        WriteOutcome::Failed => false,
        _ => true,
    }
}

/// Records a monitor channel holds at most; a subscriber further behind
/// skips to the latest.
pub const CHANNEL_CAPACITY: usize = 100;

/// One record on its way to the subscribers.
#[derive(Debug)]
pub struct Broadcast {
    pub event: UdevEvent,
    pub seqnum: u64,
    /// Every subscriber connected when the record was made.
    pub recipients: Vec<ConnId>,
}

/// The hotplug broadcaster: its subscribers and the next sequence number.
#[derive(Debug)]
pub struct UdevBroadcaster {
    pub subscribers: Vec<ConnId>,
    pub next_seqnum: u64,
}

/// The sequence number after `n`: the next one, until the largest is
/// reached.
pub open spec fn bump(n: u64) -> u64 {
    if n < u64::MAX {
        (n + 1) as u64
    } else {
        u64::MAX
    }
}

/// Whether `b` is the record of `action` on device `id` made by a
/// broadcaster in state `pre`, which is in state `post` afterwards: the
/// record carries the broadcaster's sequence number and goes to every
/// subscriber connected at that instant.
pub open spec fn is_broadcast(
    pre: UdevBroadcaster,
    post: UdevBroadcaster,
    action: UdevAction,
    id: DeviceId,
    config: DeviceConfigView,
    b: Broadcast,
) -> bool {
    &&& b.event@ == device_event(action, id, config, Transport::Monitor)
    &&& b.seqnum == pre.next_seqnum
    &&& b.recipients@ == pre.subscribers@
    &&& post.subscribers@ == pre.subscribers@
    &&& post.next_seqnum == bump(pre.next_seqnum)
}

/// A copy of a list of connection handles.
pub fn copy_conns(src: &Vec<ConnId>) -> (dst: Vec<ConnId>)
    ensures
        dst@ == src@,
{
    let mut dst: Vec<ConnId> = Vec::new();
    let mut i: usize = 0;
    while i < src.len()
        invariant
            i <= src.len(),
            dst@ == src@.subrange(0, i as int),
        decreases src.len() - i,
    {
        dst.push(src[i]);
        i = i + 1;
        assert(dst@ =~= src@.subrange(0, i as int));
    }
    assert(dst@ =~= src@);
    dst
}

impl UdevBroadcaster {
    /// A broadcaster without subscribers.
    pub fn new() -> (r: UdevBroadcaster)
        ensures
            r.subscribers@.len() == 0,
            r.next_seqnum == 0,
    {
        UdevBroadcaster { subscribers: Vec::new(), next_seqnum: 0 }
    }

    /// Takes a monitor that has connected in.
    pub fn subscribe(&mut self, conn: ConnId)
        ensures
            final(self).subscribers@ == old(self).subscribers@.push(conn),
            final(self).next_seqnum == old(self).next_seqnum,
    {
        self.subscribers.push(conn);
    }

    /// Takes the subscribers at `failed` out after a write round.
    pub fn drop_subscribers(&mut self, failed: &Vec<usize>)
        requires
            rising_below(failed@, old(self).subscribers@.len() as int),
        ensures
            final(self).subscribers@ == keep_unmarked(old(self).subscribers@, marks(failed@)),
            final(self).next_seqnum == old(self).next_seqnum,
    {
        remove_positions(&mut self.subscribers, failed);
    }

    /// The record of one event of device `device_id`, numbered and
    /// addressed to every subscriber connected now. Sequence numbers never
    /// fall, and rise with each record until the largest is reached.
    pub fn broadcast(&mut self, action: UdevAction, device_id: DeviceId, config: &DeviceConfig) -> (b:
        Broadcast)
        ensures
            is_broadcast(*old(self), *final(self), action, device_id, config@, b),
    {
        let seqnum = self.next_seqnum;
        if seqnum < u64::MAX {
            self.next_seqnum = seqnum + 1;
        }
        Broadcast {
            event: build_event(action, device_id, config, Transport::Monitor),
            seqnum,
            recipients: copy_conns(&self.subscribers),
        }
    }

    /// Broadcast a device add event.
    pub fn broadcast_add(&mut self, device_id: DeviceId, config: &DeviceConfig) -> (b: Broadcast)
        ensures
            is_broadcast(*old(self), *final(self), UdevAction::Add, device_id, config@, b),
    {
        self.broadcast(UdevAction::Add, device_id, config)
    }

    /// Broadcast a device remove event.
    pub fn broadcast_remove(&mut self, device_id: DeviceId, config: &DeviceConfig) -> (b: Broadcast)
        ensures
            is_broadcast(*old(self), *final(self), UdevAction::Remove, device_id, config@, b),
    {
        self.broadcast(UdevAction::Remove, device_id, config)
    }

    /// Format a udev event for the monitor socket.
    pub fn format_udev_message(event: &UdevEvent, seqnum: u64, order: ByteOrder) -> (bytes: Vec<u8>)
        ensures
            bytes@ == monitor_message(event@, seqnum, order),
    {
        format_monitor_message(event, seqnum, order)
    }
}

/// The kernel-style side of the hotplug plane.
#[derive(Debug, Clone, Copy, PartialEq, Eq, Structural)]
pub struct NetlinkBroadcaster;

impl NetlinkBroadcaster {
    /// The datagram that announces the arrival of device `device_id`.
    pub fn broadcast_add(device_id: DeviceId, config: &DeviceConfig, seqnum: u64) -> (bytes: Vec<
        u8,
    >)
        ensures
            bytes@ == netlink_message(
                device_event(UdevAction::Add, device_id, config@, Transport::Netlink),
                seqnum,
            ),
    {
        let event = build_event(UdevAction::Add, device_id, config, Transport::Netlink);
        format_netlink_message(&event, seqnum)
    }

    /// The datagram that announces the departure of device `device_id`.
    pub fn broadcast_remove(device_id: DeviceId, config: &DeviceConfig, seqnum: u64) -> (bytes:
        Vec<u8>)
        ensures
            bytes@ == netlink_message(
                device_event(UdevAction::Remove, device_id, config@, Transport::Netlink),
                seqnum,
            ),
    {
        let event = build_event(UdevAction::Remove, device_id, config, Transport::Netlink);
        format_netlink_message(&event, seqnum)
    }

    /// The datagram of any record.
    pub fn format_event(event: &UdevEvent, seqnum: u64) -> (bytes: Vec<u8>)
        ensures
            bytes@ == netlink_message(event@, seqnum),
    {
        format_netlink_message(event, seqnum)
    }
}

} // verus!
