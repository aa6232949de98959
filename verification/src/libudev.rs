//! What a consumer's udev library is shown of a device: the properties of
//! a device found by enumeration, and the device that a textual hotplug
//! record describes.

use vstd::prelude::*;
use vstd::string::{StrSliceExecFns, StringExecFns};
use crate::protocol::{BusType, DeviceConfig, DeviceConfigView};
use crate::sysfs::vendor_name;
use crate::text::{
    has_prefix, hex4, push_hex4, replace_char, replace_spaces, starts_with, str_equals,
};
use crate::udev::bus_name;

verus! {

/// A device as the udev library of a consumer sees it.
#[derive(Debug, Clone, PartialEq, Eq)]
pub struct FakeUdevDevice {
    pub syspath: String,
    pub devnode: String,
    pub subsystem: String,
    /// Keys and values in the order in which they were set; where a key
    /// stands more than once its last value counts.
    pub properties: Vec<(String, String)>,
}

/// What a `FakeUdevDevice` holds, as mathematical values.
pub struct FakeUdevDeviceView {
    pub syspath: Seq<char>,
    pub devnode: Seq<char>,
    pub subsystem: Seq<char>,
    pub properties: Seq<(Seq<char>, Seq<char>)>,
}

impl View for FakeUdevDevice {
    type V = FakeUdevDeviceView;

    open spec fn view(&self) -> FakeUdevDeviceView {
        FakeUdevDeviceView {
            syspath: self.syspath@,
            devnode: self.devnode@,
            subsystem: self.subsystem@,
            properties: crate::udev::properties_view(self.properties@),
        }
    }
}

/// The index behind the last slash of a path; 0 where it has none.
pub open spec fn after_last_slash(path: Seq<char>) -> int
    decreases path.len(),
{
    if path.len() == 0 {
        0
    } else if path.last() == '/' {
        path.len() as int
    } else {
        after_last_slash(path.drop_last())
    }
}

/// The name of the node at a path: what follows the last slash, or
/// `unknown` where nothing does.
pub open spec fn node_name(path: Seq<char>) -> Seq<char> {
    let name = path.subrange(after_last_slash(path), path.len() as int);
    if name.len() == 0 {
        "unknown"@
    } else {
        name
    }
}

/// Whether a node name is that of an event or a joystick node.
pub open spec fn is_input_node(name: Seq<char>) -> bool {
    has_prefix(name, "event"@) || has_prefix(name, "js"@)
}

/// The properties that mark an input node.
pub open spec fn input_properties(name: Seq<char>) -> Seq<(Seq<char>, Seq<char>)> {
    if is_input_node(name) {
        seq![("ID_INPUT"@, "1"@), ("ID_INPUT_JOYSTICK"@, "1"@), ("SUBSYSTEM"@, "input"@)]
    } else {
        Seq::empty()
    }
}

/// The properties that tell who made the device and what it is.
pub open spec fn identity_properties(config: DeviceConfigView) -> Seq<(Seq<char>, Seq<char>)> {
    seq![
        ("ID_VENDOR_ID"@, hex4(config.vendor_id)),
        ("ID_MODEL_ID"@, hex4(config.product_id)),
        ("ID_VENDOR"@, hex4(config.vendor_id)),
        ("ID_MODEL"@, hex4(config.product_id)),
        ("ID_VENDOR_ENC"@, vendor_name(config.vendor_id)),
        ("ID_VENDOR_FROM_DATABASE"@, vendor_name(config.vendor_id)),
        ("ID_MODEL_ENC"@, replace_char(config.name, ' ', "\\x20"@)),
        ("ID_MODEL_FROM_DATABASE"@, config.name),
        ("ID_PRODUCT_FROM_DATABASE"@, config.name),
        ("ID_BUS"@, bus_name(config.bustype)),
    ]
}

/// The properties only a USB device has.
pub open spec fn usb_interface_properties(bus: BusType) -> Seq<(Seq<char>, Seq<char>)> {
    if bus == BusType::Usb {
        seq![("ID_USB_INTERFACES"@, ":030000:"@), ("ID_USB_INTERFACE_NUM"@, "00"@)]
    } else {
        Seq::empty()
    }
}

/// The properties that tell where the node is.
pub open spec fn node_properties(devnode: Seq<char>, name: Seq<char>) -> Seq<(Seq<char>, Seq<char>)> {
    seq![
        ("ID_PATH"@, "platform-vimputti-"@ + name),
        ("ID_PATH_TAG"@, "platform-vimputti-"@ + name),
        ("ID_SERIAL"@, "vimputti_"@ + name),
        ("DEVNAME"@, devnode),
        ("DEVPATH"@, "/devices/virtual/input/"@ + name),
        ("MAJOR"@, "13"@),
        (
            "MINOR"@,
            if has_prefix(name, "event"@) {
                "64"@
            } else {
                "0"@
            },
        ),
        ("TAGS"@, ":uaccess:"@),
    ]
}

/// The device that enumeration shows for the node at `devnode` with the
/// configuration `config`.
pub open spec fn fake_device(devnode: Seq<char>, config: DeviceConfigView, base: Seq<char>) -> FakeUdevDeviceView {
    let name = node_name(devnode);
    FakeUdevDeviceView {
        syspath: base + "/sys/devices/virtual/input/"@ + name,
        devnode,
        subsystem: "input"@,
        properties: input_properties(name) + identity_properties(config) + usb_interface_properties(
            config.bustype,
        ) + node_properties(devnode, name),
    }
}

/// The value of a property: that of the last entry with the key.
pub open spec fn property_of(props: Seq<(Seq<char>, Seq<char>)>, key: Seq<char>) -> Option<Seq<char>>
    decreases props.len(),
{
    if props.len() == 0 {
        None
    } else if props.last().0 == key {
        Some(props.last().1)
    } else {
        property_of(props.drop_last(), key)
    }
}

fn push_property(props: &mut Vec<(String, String)>, key: &str, value: String)
    ensures
        crate::udev::properties_view(final(props)@) == crate::udev::properties_view(
            old(props)@,
        ).push((key@, value@)),
{
    props.push((String::from_str(key), value));
    assert(crate::udev::properties_view(props@) =~= crate::udev::properties_view(
        old(props)@,
    ).push((key@, value@)));
}

fn hex4_string(n: u16) -> (s: String)
    ensures
        s@ == hex4(n),
{
    let mut s = String::new();
    push_hex4(&mut s, n);
    assert(s@ =~= hex4(n));
    s
}

fn prefixed(prefix: &str, text: &str) -> (s: String)
    ensures
        s@ == prefix@ + text@,
{
    let mut s = String::from_str(prefix);
    s.append(text);
    s
}

/// The name of the node at a path.
pub fn node_name_of(path: &str) -> (name: String)
    ensures
        name@ == node_name(path@),
{
    let n: usize = path.unicode_len();
    let mut k: usize = n;
    assert(path@.subrange(0, n as int) =~= path@);
    while k > 0 && path.get_char(k - 1) != '/'
        invariant
            k <= n,
            n == path@.len(),
            after_last_slash(path@) == after_last_slash(path@.subrange(0, k as int)),
        decreases k,
    {
        proof {
            let cur = path@.subrange(0, k as int);
            assert(cur.last() == path@[k - 1]);
            assert(cur.drop_last() =~= path@.subrange(0, k - 1));
        }
        k = k - 1;
    }
    proof {
        let cur = path@.subrange(0, k as int);
        if k > 0 {
            assert(cur.last() == path@[k - 1]);
        }
        assert(after_last_slash(path@) == k);
    }
    if k == n {
        String::from_str("unknown")
    } else {
        String::from_str(path.substring_char(k, n))
    }
}

fn vendor_word(vendor_id: u16) -> (s: &'static str)
    ensures
        s@ == vendor_name(vendor_id),
{
    if vendor_id == 0x045e {
        "Microsoft"
    } else if vendor_id == 0x054c {
        "Sony"
    } else if vendor_id == 0x057e {
        "Nintendo"
    } else {
        "Unknown"
    }
}

fn bus_word(bus: BusType) -> (s: &'static str)
    ensures
        s@ == bus_name(bus),
{
    match bus {
        BusType::Usb => "usb",
        BusType::Bluetooth => "bluetooth",
        BusType::Virtual => "virtual",
    }
}

/// Create a fake udev device from a device configuration.
pub fn create_fake_device_from_config(devnode: String, config: &DeviceConfig, base_path: &str) -> (d:
    FakeUdevDevice)
    ensures
        d@ == fake_device(devnode@, config@, base_path@),
{
    let name = node_name_of(devnode.as_str());
    let mut syspath = String::from_str(base_path);
    syspath.append("/sys/devices/virtual/input/");
    syspath.append(name.as_str());
    let mut props: Vec<(String, String)> = Vec::new();
    assert(crate::udev::properties_view(props@) =~= Seq::empty());
    let is_event = starts_with(name.as_str(), "event");
    if is_event || starts_with(name.as_str(), "js") {
        push_property(&mut props, "ID_INPUT", String::from_str("1"));
        push_property(&mut props, "ID_INPUT_JOYSTICK", String::from_str("1"));
        push_property(&mut props, "SUBSYSTEM", String::from_str("input"));
    }
    let ghost first = crate::udev::properties_view(props@);
    assert(first =~= input_properties(name@));
    push_property(&mut props, "ID_VENDOR_ID", hex4_string(config.vendor_id));
    push_property(&mut props, "ID_MODEL_ID", hex4_string(config.product_id));
    push_property(&mut props, "ID_VENDOR", hex4_string(config.vendor_id));
    push_property(&mut props, "ID_MODEL", hex4_string(config.product_id));
    push_property(&mut props, "ID_VENDOR_ENC", String::from_str(vendor_word(config.vendor_id)));
    push_property(
        &mut props,
        "ID_VENDOR_FROM_DATABASE",
        String::from_str(vendor_word(config.vendor_id)),
    );
    push_property(&mut props, "ID_MODEL_ENC", replace_spaces(config.name.as_str(), "\\x20"));
    push_property(&mut props, "ID_MODEL_FROM_DATABASE", config.name.clone());
    push_property(&mut props, "ID_PRODUCT_FROM_DATABASE", config.name.clone());
    push_property(&mut props, "ID_BUS", String::from_str(bus_word(config.bustype)));
    let ghost second = crate::udev::properties_view(props@);
    assert(second =~= first + identity_properties(config@));
    match config.bustype {
        BusType::Usb => {
            push_property(&mut props, "ID_USB_INTERFACES", String::from_str(":030000:"));
            push_property(&mut props, "ID_USB_INTERFACE_NUM", String::from_str("00"));
        },
        _ => {},
    }
    let ghost third = crate::udev::properties_view(props@);
    assert(third =~= second + usb_interface_properties(config.bustype));
    push_property(&mut props, "ID_PATH", prefixed("platform-vimputti-", name.as_str()));
    push_property(&mut props, "ID_PATH_TAG", prefixed("platform-vimputti-", name.as_str()));
    push_property(&mut props, "ID_SERIAL", prefixed("vimputti_", name.as_str()));
    push_property(&mut props, "DEVNAME", devnode.clone());
    push_property(&mut props, "DEVPATH", prefixed("/devices/virtual/input/", name.as_str()));
    push_property(&mut props, "MAJOR", String::from_str("13"));
    push_property(
        &mut props,
        "MINOR",
        if is_event {
            String::from_str("64")
        } else {
            String::from_str("0")
        },
    );
    push_property(&mut props, "TAGS", String::from_str(":uaccess:"));
    assert(crate::udev::properties_view(props@) =~= third + node_properties(devnode@, name@));
    FakeUdevDevice { syspath, devnode, subsystem: String::from_str("input"), properties: props }
}

/// The value of a property of a device.
pub fn udev_device_get_property_value<'a>(device: &'a FakeUdevDevice, key: &str) -> (r: Option<
    &'a str,
>)
    ensures
        match r {
            Some(v) => property_of(device@.properties, key@) == Some(v@),
            None => property_of(device@.properties, key@) is None,
        },
{
    let ghost all = device@.properties;
    let mut k: usize = device.properties.len();
    assert(all.subrange(0, k as int) =~= all);
    while k > 0
        invariant
            k <= device.properties.len(),
            all == device@.properties,
            property_of(all, key@) == property_of(all.subrange(0, k as int), key@),
        decreases k,
    {
        proof {
            let cur = all.subrange(0, k as int);
            assert(cur.last() == all[k - 1]);
            assert(cur.drop_last() =~= all.subrange(0, k - 1));
        }
        if str_equals(device.properties[k - 1].0.as_str(), key) {
            return Some(device.properties[k - 1].1.as_str());
        }
        k = k - 1;
    }
    None
}

/// The index at which the line that starts at `from` ends: that of the
/// next line feed, or the length of the text.
pub open spec fn line_end(s: Seq<char>, from: int) -> int
    decreases s.len() - from,
{
    if from >= s.len() {
        s.len() as int
    } else if s[from] == '\n' {
        from
    } else {
        line_end(s, from + 1)
    }
}

/// The line that starts at `from`, without its line ending: the line feed
/// and a carriage return in front of it.
pub open spec fn line_at(s: Seq<char>, from: int) -> Seq<char> {
    let end = line_end(s, from);
    if from < end && end < s.len() && s[end - 1] == '\r' {
        s.subrange(from, end - 1)
    } else if from <= end {
        s.subrange(from, end)
    } else {
        Seq::empty()
    }
}

/// The index of the first `=` of a line; its length where it has none.
pub open spec fn equals_at(line: Seq<char>, from: int) -> int
    decreases line.len() - from,
{
    if from >= line.len() {
        line.len() as int
    } else if line[from] == '=' {
        from
    } else {
        equals_at(line, from + 1)
    }
}

/// What has been read of a record so far.
pub struct RecordView {
    pub devname: Seq<char>,
    pub devpath: Seq<char>,
    pub subsystem: Seq<char>,
    pub properties: Seq<(Seq<char>, Seq<char>)>,
}

/// A record with one more line taken in: a line without `=` changes
/// nothing; `DEVNAME`, `DEVPATH` and `SUBSYSTEM` set the fields of the
/// device; `ACTION` is passed over; any other key becomes a property.
pub open spec fn with_line(r: RecordView, line: Seq<char>) -> RecordView {
    let at = equals_at(line, 0);
    if at >= line.len() {
        r
    } else {
        let key = line.subrange(0, at);
        let value = line.subrange(at + 1, line.len() as int);
        if key == "DEVNAME"@ {
            RecordView { devname: value, ..r }
        } else if key == "DEVPATH"@ {
            RecordView { devpath: value, ..r }
        } else if key == "SUBSYSTEM"@ {
            RecordView { subsystem: value, ..r }
        } else if key == "ACTION"@ {
            r
        } else {
            RecordView { properties: r.properties.push((key, value)), ..r }
        }
    }
}

/// How many characters stand at or behind `from`.
pub open spec fn left_from(s: Seq<char>, from: int) -> nat {
    if 0 <= from <= s.len() {
        (s.len() - from) as nat
    } else {
        0
    }
}

/// Where the line after the one that starts at `from` starts.
pub open spec fn next_line(s: Seq<char>, from: int) -> int {
    if line_end(s, from) > from {
        line_end(s, from) + 1
    } else {
        from + 1
    }
}

/// A record with the lines from `from` on taken in, up to the first empty
/// line or the end of the text.
pub open spec fn with_lines(s: Seq<char>, from: int, r: RecordView) -> RecordView
    decreases left_from(s, from),
{
    if from >= s.len() || from < 0 {
        r
    } else {
        let line = line_at(s, from);
        if line.len() == 0 {
            r
        } else {
            with_lines(s, next_line(s, from), with_line(r, line))
        }
    }
}

/// The record that a text holds.
pub open spec fn record_of(s: Seq<char>) -> RecordView {
    with_lines(
        s,
        0,
        RecordView {
            devname: Seq::empty(),
            devpath: Seq::empty(),
            subsystem: Seq::empty(),
            properties: Seq::empty(),
        },
    )
}

/// The device that a textual hotplug record describes: none where the
/// record names no device node. Its path below `/sys` is that of the
/// record, inside the sysfs tree of the base directory.
pub open spec fn parsed_device(s: Seq<char>, base: Seq<char>) -> Option<FakeUdevDeviceView> {
    let r = record_of(s);
    if r.devname.len() == 0 {
        None
    } else {
        Some(
            FakeUdevDeviceView {
                syspath: if r.devpath.len() == 0 {
                    Seq::empty()
                } else {
                    base + "/sysfs"@ + r.devpath
                },
                devnode: r.devname,
                subsystem: r.subsystem,
                properties: r.properties,
            },
        )
    }
}

/// A position without a line feed in front of it and with one at it, or at
/// the end of the text, is the line end.
pub proof fn lemma_line_end_is(s: Seq<char>, from: int, end: int)
    requires
        0 <= from <= end <= s.len(),
        forall|i: int| from <= i < end ==> s[i] != '\n',
        end < s.len() ==> s[end] == '\n',
    ensures
        line_end(s, from) == end,
    decreases end - from,
{
    if from < end {
        lemma_line_end_is(s, from + 1, end);
    }
}

/// A position without `=` in front of it and with one at it, or at the
/// end of the line, is where the first `=` is.
pub proof fn lemma_equals_at_is(line: Seq<char>, from: int, at: int)
    requires
        0 <= from <= at <= line.len(),
        forall|i: int| from <= i < at ==> line[i] != '=',
        at < line.len() ==> line[at] == '=',
    ensures
        equals_at(line, from) == at,
    decreases at - from,
{
    if from < at {
        lemma_equals_at_is(line, from + 1, at);
    }
}

/// What has been read of a record so far.
struct Record {
    devname: String,
    devpath: String,
    subsystem: String,
    properties: Vec<(String, String)>,
}

impl Record {
    spec fn view(&self) -> RecordView {
        RecordView {
            devname: self.devname@,
            devpath: self.devpath@,
            subsystem: self.subsystem@,
            properties: crate::udev::properties_view(self.properties@),
        }
    }
}

/// Takes one line in.
fn take_line(record: &mut Record, line: &str)
    ensures
        final(record).view() == with_line(old(record).view(), line@),
{
    let n: usize = line.unicode_len();
    let mut at: usize = 0;
    while at < n && line.get_char(at) != '='
        invariant
            at <= n,
            n == line@.len(),
            forall|i: int| 0 <= i < at ==> line@[i] != '=',
        decreases n - at,
    {
        at = at + 1;
    }
    proof {
        lemma_equals_at_is(line@, 0, at as int);
    }
    if at >= n {
        return ;
    }
    let key = line.substring_char(0, at);
    let value = String::from_str(line.substring_char(at + 1, n));
    if str_equals(key, "DEVNAME") {
        record.devname = value;
    } else if str_equals(key, "DEVPATH") {
        record.devpath = value;
    } else if str_equals(key, "SUBSYSTEM") {
        record.subsystem = value;
    } else if str_equals(key, "ACTION") {
    } else {
        push_property(&mut record.properties, key, value);
    }
}

/// Parse a textual hotplug record into the device it describes.
pub fn parse_udev_message(message: &str, base_path: &str) -> (r: Option<FakeUdevDevice>)
    ensures
        match r {
            Some(d) => parsed_device(message@, base_path@) == Some(d@),
            None => parsed_device(message@, base_path@) is None,
        },
{
    let n: usize = message.unicode_len();
    let mut record = Record {
        devname: String::new(),
        devpath: String::new(),
        subsystem: String::new(),
        properties: Vec::new(),
    };
    assert(crate::udev::properties_view(record.properties@) =~= Seq::empty());
    let mut from: usize = 0;
    let mut done: bool = false;
    while from < n && !done
        invariant
            from <= n,
            n == message@.len(),
            !done ==> record_of(message@) == with_lines(message@, from as int, record.view()),
            done ==> record_of(message@) == record.view(),
        decreases n - from + if done { 0int } else { 1int },
    {
        let mut end: usize = from;
        while end < n && message.get_char(end) != '\n'
            invariant
                from <= end <= n,
                n == message@.len(),
                forall|i: int| from <= i < end ==> message@[i] != '\n',
            decreases n - end,
        {
            end = end + 1;
        }
        proof {
            lemma_line_end_is(message@, from as int, end as int);
        }
        let stop: usize = if from < end && end < n && message.get_char(end - 1) == '\r' {
            end - 1
        } else {
            end
        };
        let line = message.substring_char(from, stop);
        assert(line@ == line_at(message@, from as int));
        if stop == from {
            done = true;
        } else {
            let ghost before = record.view();
            take_line(&mut record, line);
            proof {
                assert(next_line(message@, from as int) == end + 1);
                assert(record_of(message@) == with_lines(message@, end + 1, record.view()));
                if end >= n {
                    assert(with_lines(message@, end + 1, record.view()) == record.view());
                    assert(with_lines(message@, n as int, record.view()) == record.view());
                }
            }
            from = if end < n {
                end + 1
            } else {
                n
            };
        }
    }
    if record.devname.as_str().unicode_len() == 0 {
        return None;
    }
    let syspath = if record.devpath.as_str().unicode_len() == 0 {
        String::new()
    } else {
        let mut s = String::from_str(base_path);
        s.append("/sysfs");
        s.append(record.devpath.as_str());
        s
    };
    assert(record.devpath@.len() == 0 ==> syspath@ =~= Seq::<char>::empty());
    Some(
        FakeUdevDevice {
            syspath,
            devnode: record.devname,
            subsystem: record.subsystem,
            properties: record.properties,
        },
    )
}

} // verus!
