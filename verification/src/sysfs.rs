//! The sysfs projector: the directory tree a consumer walks to learn the
//! identity and the capabilities of a device, as a list of entries for the
//! I/O side to write below the base directory.

use vstd::prelude::*;
use vstd::string::StringExecFns;
use crate::caps::{
    abs_text, as_nats, axis_codes, button_codes, compute_group, compute_groups, ev_mask, ev_text,
    format_groups, group_value, groups, groups_text, key_text,
};
use crate::device::{event_node, event_node_name};
use crate::protocol::{BusType, DeviceConfig, DeviceConfigView, DeviceId};
use crate::text::{
    decimal, hex, hex4, hex4_upper, push_decimal, push_decimal_wide, push_hex, push_hex4,
    push_hex4_upper, replace_char, replace_spaces,
};
use crate::udev::{bus_name, input_node_name, shown_name, Transport};

verus! {

/// What an entry of the tree is.
#[derive(Debug, Clone, Copy, PartialEq, Eq, Structural)]
pub enum SysfsKind {
    /// A directory.
    Dir,
    /// A file with the entry's content.
    File,
    /// A symbolic link to the entry's content.
    Symlink,
}

/// One entry of the tree.
#[derive(Debug, Clone, PartialEq, Eq)]
pub struct SysfsEntry {
    pub kind: SysfsKind,
    /// Where the entry stands, below the base directory.
    pub path: String,
    /// The content of a file or the target of a link; empty for a directory.
    pub content: String,
}

/// What a `SysfsEntry` holds, as mathematical values.
pub struct SysfsEntryView {
    pub kind: SysfsKind,
    pub path: Seq<char>,
    pub content: Seq<char>,
}

impl View for SysfsEntry {
    type V = SysfsEntryView;

    open spec fn view(&self) -> SysfsEntryView {
        SysfsEntryView { kind: self.kind, path: self.path@, content: self.content@ }
    }
}

/// The entries of a list, as mathematical values.
pub open spec fn entries_view(entries: Seq<SysfsEntry>) -> Seq<SysfsEntryView> {
    entries.map(|i: int, e: SysfsEntry| e@)
}

/// A directory at `path`.
pub open spec fn dir(path: Seq<char>) -> SysfsEntryView {
    SysfsEntryView { kind: SysfsKind::Dir, path, content: Seq::empty() }
}

/// A file at `path`.
pub open spec fn file(path: Seq<char>, content: Seq<char>) -> SysfsEntryView {
    SysfsEntryView { kind: SysfsKind::File, path, content }
}

/// A link at `path`.
pub open spec fn link(path: Seq<char>, target: Seq<char>) -> SysfsEntryView {
    SysfsEntryView { kind: SysfsKind::Symlink, path, content: target }
}

/// The directory of device `id` in the tree.
pub open spec fn input_dir(id: DeviceId) -> Seq<char> {
    "sysfs/devices/virtual/input/"@ + input_node_name(id)
}

/// The directory of the event node of device `id` in the tree.
pub open spec fn event_dir(id: DeviceId) -> Seq<char> {
    input_dir(id) + "/"@ + event_node_name(id)
}

/// The link to the event node of device `id` in the class directory.
pub open spec fn class_link(id: DeviceId) -> Seq<char> {
    "sysfs/class/input/"@ + event_node_name(id)
}

/// The minor device number of the event node of device `id`.
pub open spec fn minor(id: DeviceId) -> nat {
    (64 + id) as nat
}

/// The udev data file of device `id`.
pub open spec fn udev_data_file(id: DeviceId) -> Seq<char> {
    "udev_data/c13:"@ + decimal(minor(id))
}

/// The name of the maker with the given vendor id.
pub open spec fn vendor_name(vendor_id: u16) -> Seq<char> {
    if vendor_id == 0x045e {
        "Microsoft"@
    } else if vendor_id == 0x054c {
        "Sony"@
    } else if vendor_id == 0x057e {
        "Nintendo"@
    } else {
        "Unknown"@
    }
}

/// Content of `modalias`.
pub open spec fn modalias_text(config: DeviceConfigView) -> Seq<char> {
    "input:b"@ + hex4_upper(config.bustype.spec_code()) + "v"@ + hex4_upper(config.vendor_id)
        + "p"@ + hex4_upper(config.product_id) + "e"@ + hex4_upper(config.version) + "\n"@
}

/// Content of the device's `uevent`.
pub open spec fn uevent_text(id: DeviceId, config: DeviceConfigView) -> Seq<char> {
    "PRODUCT="@ + hex(config.bustype.spec_code() as nat) + "/"@ + hex(config.vendor_id as nat)
        + "/"@ + hex(config.product_id as nat) + "/"@ + hex(config.version as nat) + "\n"@
        + "NAME=\""@ + shown_name(id, config, Transport::Monitor) + "\"\n"@ + "PHYS=\"vimputti-"@
        + event_node_name(id) + "\"\n"@ + "UNIQ=\""@ + event_node_name(id) + "\"\n"@ + "EV="@
        + ev_text(config) + "\n"@ + "KEY="@ + key_text(config) + "\n"@ + "ABS="@ + abs_text(config)
        + "\n"@
}

/// Content of the event node's `uevent`.
pub open spec fn event_uevent_text(id: DeviceId) -> Seq<char> {
    "MAJOR=13\nMINOR="@ + decimal(minor(id)) + "\nDEVNAME=input/"@ + event_node_name(id) + "\n"@
}

/// Content of the udev data file.
pub open spec fn udev_data_text(id: DeviceId, config: DeviceConfigView) -> Seq<char> {
    "E:ID_INPUT=1\nE:ID_INPUT_JOYSTICK=1\nE:ID_VENDOR_ID="@ + hex4(config.vendor_id)
        + "\nE:ID_MODEL_ID="@ + hex4(config.product_id) + "\nE:ID_BUS="@ + bus_name(config.bustype)
        + "\nE:ID_VENDOR_ENC="@ + vendor_name(config.vendor_id) + "\nE:ID_VENDOR_FROM_DATABASE="@
        + vendor_name(config.vendor_id) + "\nE:ID_MODEL_ENC="@ + replace_char(
        config.name,
        ' ',
        "\\x20"@,
    ) + "\nE:ID_MODEL_FROM_DATABASE="@ + config.name + "\nE:ID_PATH=platform-vimputti-"@
        + event_node_name(id) + "\nE:ID_PATH_TAG=platform-vimputti-"@ + event_node_name(id)
        + "\nE:ID_SERIAL=vimputti_"@ + event_node_name(id) + "\nE:TAGS=:uaccess:\nG:uaccess\n"@
}

/// The directories of device `id`.
pub open spec fn directory_entries(id: DeviceId) -> Seq<SysfsEntryView> {
    seq![
        dir(input_dir(id)),
        dir(event_dir(id)),
        dir(input_dir(id) + "/id"@),
        dir(input_dir(id) + "/capabilities"@),
    ]
}

/// The files that tell who the device is.
pub open spec fn identity_entries(id: DeviceId, config: DeviceConfigView) -> Seq<SysfsEntryView> {
    seq![
        file(input_dir(id) + "/name"@, shown_name(id, config, Transport::Monitor) + "\n"@),
        file(input_dir(id) + "/phys"@, "vimputti-"@ + event_node_name(id) + "\n"@),
        file(input_dir(id) + "/uniq"@, event_node_name(id) + "\n"@),
        file(input_dir(id) + "/id/bustype"@, hex4(config.bustype.spec_code()) + "\n"@),
        file(input_dir(id) + "/id/vendor"@, hex4(config.vendor_id) + "\n"@),
        file(input_dir(id) + "/id/product"@, hex4(config.product_id) + "\n"@),
        file(input_dir(id) + "/id/version"@, hex4(config.version) + "\n"@),
    ]
}

/// The files that tell what the device can do.
pub open spec fn capability_entries(id: DeviceId, config: DeviceConfigView) -> Seq<SysfsEntryView> {
    seq![
        file(input_dir(id) + "/capabilities/ev"@, ev_text(config) + "\n"@),
        file(input_dir(id) + "/capabilities/key"@, key_text(config) + "\n"@),
        file(input_dir(id) + "/capabilities/abs"@, abs_text(config) + "\n"@),
        file(input_dir(id) + "/capabilities/rel"@, "0\n"@),
        file(input_dir(id) + "/capabilities/msc"@, "0\n"@),
        file(input_dir(id) + "/capabilities/led"@, "0\n"@),
        file(input_dir(id) + "/capabilities/snd"@, "0\n"@),
        file(input_dir(id) + "/capabilities/ff"@, "0\n"@),
        file(input_dir(id) + "/capabilities/sw"@, "0\n"@),
        file(input_dir(id) + "/modalias"@, modalias_text(config)),
        file(input_dir(id) + "/uevent"@, uevent_text(id, config)),
    ]
}

/// The entries of the event node, the class link and the udev data file.
pub open spec fn node_entries(id: DeviceId, config: DeviceConfigView) -> Seq<SysfsEntryView> {
    seq![
        file(event_dir(id) + "/dev"@, "13:"@ + decimal(minor(id)) + "\n"@),
        link(event_dir(id) + "/subsystem"@, "../../../../class/input"@),
        link(event_dir(id) + "/device"@, ".."@),
        file(event_dir(id) + "/uevent"@, event_uevent_text(id)),
        dir("sysfs/class/input"@),
        link(
            class_link(id),
            "../../devices/virtual/input/"@ + input_node_name(id) + "/"@ + event_node_name(id),
        ),
        dir("udev_data"@),
        file(udev_data_file(id), udev_data_text(id, config)),
    ]
}

/// Everything device `id` has in the tree, in the order in which it is
/// written.
pub open spec fn device_entries(id: DeviceId, config: DeviceConfigView) -> Seq<SysfsEntryView> {
    directory_entries(id) + identity_entries(id, config) + capability_entries(id, config)
        + node_entries(id, config)
}

/// What is removed, with everything below it, when device `id` goes: the
/// class link, the device directory and the udev data file.
pub open spec fn removed_paths(id: DeviceId) -> Seq<Seq<char>> {
    seq![class_link(id), input_dir(id), udev_data_file(id)]
}

/// The paths of a list, as mathematical values.
pub open spec fn paths_view(paths: Seq<String>) -> Seq<Seq<char>> {
    paths.map(|i: int, p: String| p@)
}

fn push_entry(entries: &mut Vec<SysfsEntry>, kind: SysfsKind, path: String, content: String)
    ensures
        entries_view(final(entries)@) == entries_view(old(entries)@).push(
            SysfsEntryView { kind, path: path@, content: content@ },
        ),
{
    entries.push(SysfsEntry { kind, path, content });
    assert(entries_view(entries@) =~= entries_view(old(entries)@).push(
        SysfsEntryView { kind, path: path@, content: content@ },
    ));
}

fn input_dir_string(id: DeviceId) -> (s: String)
    ensures
        s@ == input_dir(id),
{
    let mut s = String::from_str("sysfs/devices/virtual/input/");
    s.append("input");
    push_decimal(&mut s, id);
    assert(s@ =~= input_dir(id));
    s
}

/// `base`, then `suffix`.
fn joined(base: &String, suffix: &str) -> (s: String)
    ensures
        s@ == base@ + suffix@,
{
    let mut s = base.clone();
    s.append(suffix);
    s
}

/// `text`, then a line feed.
fn line(text: String) -> (s: String)
    ensures
        s@ == text@ + "\n"@,
{
    let mut s = text;
    s.append("\n");
    s
}

fn hex4_line(n: u16) -> (s: String)
    ensures
        s@ == hex4(n) + "\n"@,
{
    let mut s = String::new();
    push_hex4(&mut s, n);
    s.append("\n");
    assert(s@ =~= hex4(n) + "\n"@);
    s
}

fn minor_string(id: DeviceId, prefix: &str) -> (s: String)
    ensures
        s@ == prefix@ + decimal(minor(id)),
{
    let mut s = String::from_str(prefix);
    push_decimal_wide(&mut s, 64 + id as u128);
    s
}

fn vendor_word(vendor_id: u16) -> (s: &'static str)
    ensures
        s@ == vendor_name(vendor_id),
{
    if vendor_id == 0x045e {
        "Microsoft"
    } else if vendor_id == 0x054c {
        "Sony"
    } else if vendor_id == 0x057e {
        "Nintendo"
    } else {
        "Unknown"
    }
}

fn bus_word(bus: BusType) -> (s: &'static str)
    ensures
        s@ == bus_name(bus),
{
    match bus {
        BusType::Usb => "usb",
        BusType::Bluetooth => "bluetooth",
        BusType::Virtual => "virtual",
    }
}

fn shown_name_string(id: DeviceId, config: &DeviceConfig) -> (s: String)
    ensures
        s@ == shown_name(id, config@, Transport::Monitor),
{
    let mut s = config.name.clone();
    s.append(" (");
    let node = event_node(id);
    s.append(node.as_str());
    s.append(")");
    assert(s@ =~= shown_name(id, config@, Transport::Monitor));
    s
}

/// The enhanced sysfs file generator.
#[derive(Debug, Clone, Copy, PartialEq, Eq, Structural)]
pub struct SysfsGenerator;

impl SysfsGenerator {
    /// Calculate the EV bitmask (supported event types).
    pub fn calculate_ev_bits(config: &DeviceConfig) -> (s: String)
        ensures
            s@ == ev_text(config@),
    {
        let mut bits: u64 = 1;
        if config.buttons.len() > 0 {
            bits = bits + 2;
        }
        if config.axes.len() > 0 {
            bits = bits + 8;
        }
        let mut s = String::new();
        push_hex(&mut s, bits);
        assert(s@ =~= ev_text(config@));
        s
    }

    /// Calculate the KEY bitmask (supported buttons).
    pub fn calculate_key_bits(config: &DeviceConfig) -> (s: String)
        ensures
            s@ == key_text(config@),
    {
        let codes = button_codes(&config.buttons);
        let g = compute_groups(&codes, 12);
        assert(as_nats(g@) =~= groups(codes@, 12));
        format_groups(&g)
    }

    /// Calculate the ABS bitmask (supported axes).
    pub fn calculate_abs_bits(config: &DeviceConfig) -> (s: String)
        ensures
            s@ == abs_text(config@),
    {
        let codes = axis_codes(&config.axes);
        let value = compute_group(&codes, 0);
        let mut s = String::new();
        push_hex(&mut s, value);
        assert(s@ =~= abs_text(config@));
        s
    }

    fn modalias(config: &DeviceConfig) -> (s: String)
        ensures
            s@ == modalias_text(config@),
    {
        let mut s = String::from_str("input:b");
        push_hex4_upper(&mut s, config.bustype.code());
        s.append("v");
        push_hex4_upper(&mut s, config.vendor_id);
        s.append("p");
        push_hex4_upper(&mut s, config.product_id);
        s.append("e");
        push_hex4_upper(&mut s, config.version);
        s.append("\n");
        assert(s@ =~= modalias_text(config@));
        s
    }

    fn uevent(id: DeviceId, config: &DeviceConfig) -> (s: String)
        ensures
            s@ == uevent_text(id, config@),
    {
        let mut s = String::from_str("PRODUCT=");
        push_hex(&mut s, config.bustype.code() as u64);
        s.append("/");
        push_hex(&mut s, config.vendor_id as u64);
        s.append("/");
        push_hex(&mut s, config.product_id as u64);
        s.append("/");
        push_hex(&mut s, config.version as u64);
        s.append("\n");
        s.append("NAME=\"");
        let name = shown_name_string(id, config);
        s.append(name.as_str());
        s.append("\"\n");
        s.append("PHYS=\"vimputti-");
        let node = event_node(id);
        s.append(node.as_str());
        s.append("\"\n");
        s.append("UNIQ=\"");
        s.append(node.as_str());
        s.append("\"\n");
        s.append("EV=");
        let ev = Self::calculate_ev_bits(config);
        s.append(ev.as_str());
        s.append("\n");
        s.append("KEY=");
        let key = Self::calculate_key_bits(config);
        s.append(key.as_str());
        s.append("\n");
        s.append("ABS=");
        let abs = Self::calculate_abs_bits(config);
        s.append(abs.as_str());
        s.append("\n");
        assert(s@ =~= uevent_text(id, config@));
        s
    }

    fn event_uevent(id: DeviceId) -> (s: String)
        ensures
            s@ == event_uevent_text(id),
    {
        let mut s = minor_string(id, "MAJOR=13\nMINOR=");
        s.append("\nDEVNAME=input/");
        let node = event_node(id);
        s.append(node.as_str());
        s.append("\n");
        assert(s@ =~= event_uevent_text(id));
        s
    }

    fn udev_data(id: DeviceId, config: &DeviceConfig) -> (s: String)
        ensures
            s@ == udev_data_text(id, config@),
    {
        let node = event_node(id);
        let mut s = String::from_str("E:ID_INPUT=1\nE:ID_INPUT_JOYSTICK=1\nE:ID_VENDOR_ID=");
        push_hex4(&mut s, config.vendor_id);
        s.append("\nE:ID_MODEL_ID=");
        push_hex4(&mut s, config.product_id);
        s.append("\nE:ID_BUS=");
        s.append(bus_word(config.bustype));
        s.append("\nE:ID_VENDOR_ENC=");
        s.append(vendor_word(config.vendor_id));
        s.append("\nE:ID_VENDOR_FROM_DATABASE=");
        s.append(vendor_word(config.vendor_id));
        s.append("\nE:ID_MODEL_ENC=");
        let enc = replace_spaces(config.name.as_str(), "\\x20");
        s.append(enc.as_str());
        s.append("\nE:ID_MODEL_FROM_DATABASE=");
        s.append(config.name.as_str());
        s.append("\nE:ID_PATH=platform-vimputti-");
        s.append(node.as_str());
        s.append("\nE:ID_PATH_TAG=platform-vimputti-");
        s.append(node.as_str());
        s.append("\nE:ID_SERIAL=vimputti_");
        s.append(node.as_str());
        s.append("\nE:TAGS=:uaccess:\nG:uaccess\n");
        assert(s@ =~= udev_data_text(id, config@));
        s
    }

    fn push_directories(entries: &mut Vec<SysfsEntry>, id: DeviceId)
        ensures
            entries_view(final(entries)@) == entries_view(old(entries)@) + directory_entries(id),
    {
        let base = input_dir_string(id);
        let node = event_node(id);
        let mut event = joined(&base, "/");
        event.append(node.as_str());
        push_entry(entries, SysfsKind::Dir, base.clone(), String::new());
        push_entry(entries, SysfsKind::Dir, event, String::new());
        push_entry(entries, SysfsKind::Dir, joined(&base, "/id"), String::new());
        push_entry(entries, SysfsKind::Dir, joined(&base, "/capabilities"), String::new());
        assert(entries_view(entries@) =~= entries_view(old(entries)@) + directory_entries(id));
    }

    fn push_identity(entries: &mut Vec<SysfsEntry>, id: DeviceId, config: &DeviceConfig)
        ensures
            entries_view(final(entries)@) == entries_view(old(entries)@) + identity_entries(
                id,
                config@,
            ),
    {
        let base = input_dir_string(id);
        let node = event_node(id);
        let mut phys = String::from_str("vimputti-");
        phys.append(node.as_str());
        push_entry(
            entries,
            SysfsKind::File,
            joined(&base, "/name"),
            line(shown_name_string(id, config)),
        );
        push_entry(entries, SysfsKind::File, joined(&base, "/phys"), line(phys));
        push_entry(entries, SysfsKind::File, joined(&base, "/uniq"), line(node));
        push_entry(
            entries,
            SysfsKind::File,
            joined(&base, "/id/bustype"),
            hex4_line(config.bustype.code()),
        );
        push_entry(entries, SysfsKind::File, joined(&base, "/id/vendor"), hex4_line(config.vendor_id));
        push_entry(
            entries,
            SysfsKind::File,
            joined(&base, "/id/product"),
            hex4_line(config.product_id),
        );
        push_entry(entries, SysfsKind::File, joined(&base, "/id/version"), hex4_line(config.version));
        assert(entries_view(entries@) =~= entries_view(old(entries)@) + identity_entries(
            id,
            config@,
        ));
    }

    fn push_capabilities(entries: &mut Vec<SysfsEntry>, id: DeviceId, config: &DeviceConfig)
        ensures
            entries_view(final(entries)@) == entries_view(old(entries)@) + capability_entries(
                id,
                config@,
            ),
    {
        let base = input_dir_string(id);
        push_entry(
            entries,
            SysfsKind::File,
            joined(&base, "/capabilities/ev"),
            line(Self::calculate_ev_bits(config)),
        );
        push_entry(
            entries,
            SysfsKind::File,
            joined(&base, "/capabilities/key"),
            line(Self::calculate_key_bits(config)),
        );
        push_entry(
            entries,
            SysfsKind::File,
            joined(&base, "/capabilities/abs"),
            line(Self::calculate_abs_bits(config)),
        );
        push_entry(
            entries,
            SysfsKind::File,
            joined(&base, "/capabilities/rel"),
            String::from_str("0\n"),
        );
        push_entry(
            entries,
            SysfsKind::File,
            joined(&base, "/capabilities/msc"),
            String::from_str("0\n"),
        );
        push_entry(
            entries,
            SysfsKind::File,
            joined(&base, "/capabilities/led"),
            String::from_str("0\n"),
        );
        push_entry(
            entries,
            SysfsKind::File,
            joined(&base, "/capabilities/snd"),
            String::from_str("0\n"),
        );
        push_entry(
            entries,
            SysfsKind::File,
            joined(&base, "/capabilities/ff"),
            String::from_str("0\n"),
        );
        push_entry(
            entries,
            SysfsKind::File,
            joined(&base, "/capabilities/sw"),
            String::from_str("0\n"),
        );
        push_entry(entries, SysfsKind::File, joined(&base, "/modalias"), Self::modalias(config));
        push_entry(entries, SysfsKind::File, joined(&base, "/uevent"), Self::uevent(id, config));
        assert(entries_view(entries@) =~= entries_view(old(entries)@) + capability_entries(
            id,
            config@,
        ));
    }

    fn push_node(entries: &mut Vec<SysfsEntry>, id: DeviceId, config: &DeviceConfig)
        ensures
            entries_view(final(entries)@) == entries_view(old(entries)@) + node_entries(id, config@),
    {
        let base = input_dir_string(id);
        let node = event_node(id);
        let mut event = joined(&base, "/");
        event.append(node.as_str());
        assert(event@ =~= event_dir(id));
        let mut class = String::from_str("sysfs/class/input/");
        class.append(node.as_str());
        let mut target = String::from_str("../../devices/virtual/input/");
        target.append("input");
        push_decimal(&mut target, id);
        target.append("/");
        target.append(node.as_str());
        assert(target@ =~= "../../devices/virtual/input/"@ + input_node_name(id) + "/"@
            + event_node_name(id));
        push_entry(entries, SysfsKind::File, joined(&event, "/dev"), line(minor_string(id, "13:")));
        push_entry(
            entries,
            SysfsKind::Symlink,
            joined(&event, "/subsystem"),
            String::from_str("../../../../class/input"),
        );
        push_entry(entries, SysfsKind::Symlink, joined(&event, "/device"), String::from_str(".."));
        push_entry(entries, SysfsKind::File, joined(&event, "/uevent"), Self::event_uevent(id));
        push_entry(entries, SysfsKind::Dir, String::from_str("sysfs/class/input"), String::new());
        push_entry(entries, SysfsKind::Symlink, class, target);
        push_entry(entries, SysfsKind::Dir, String::from_str("udev_data"), String::new());
        push_entry(
            entries,
            SysfsKind::File,
            minor_string(id, "udev_data/c13:"),
            Self::udev_data(id, config),
        );
        assert(entries_view(entries@) =~= entries_view(old(entries)@) + node_entries(id, config@));
    }

    /// Create the complete sysfs structure for a device: every entry of
    /// the tree, in the order in which it is to be written. Writing them
    /// again over a tree that is there gives the same tree.
    pub fn create_device_files(id: DeviceId, config: &DeviceConfig) -> (entries: Vec<SysfsEntry>)
        ensures
            entries_view(entries@) == device_entries(id, config@),
    {
        let mut entries: Vec<SysfsEntry> = Vec::new();
        assert(entries_view(entries@) =~= Seq::empty());
        Self::push_directories(&mut entries, id);
        Self::push_identity(&mut entries, id, config);
        Self::push_capabilities(&mut entries, id, config);
        Self::push_node(&mut entries, id, config);
        assert(entries_view(entries@) =~= device_entries(id, config@));
        entries
    }

    /// The content of the udev data file of a device.
    pub fn create_udev_data_file(id: DeviceId, config: &DeviceConfig) -> (entry: SysfsEntry)
        ensures
            entry@ == file(udev_data_file(id), udev_data_text(id, config@)),
    {
        SysfsEntry {
            kind: SysfsKind::File,
            path: minor_string(id, "udev_data/c13:"),
            content: Self::udev_data(id, config),
        }
    }

    /// What is to be removed, with everything below it, when a device goes.
    /// An entry that is missing is no error.
    pub fn remove_device_files(id: DeviceId) -> (paths: Vec<String>)
        ensures
            paths_view(paths@) == removed_paths(id),
    {
        let node = event_node(id);
        let mut class = String::from_str("sysfs/class/input/");
        class.append(node.as_str());
        let mut paths: Vec<String> = Vec::new();
        paths.push(class);
        paths.push(input_dir_string(id));
        paths.push(minor_string(id, "udev_data/c13:"));
        assert(paths_view(paths@) =~= removed_paths(id));
        paths
    }
}

} // verus!
