//! What a consumer's ioctl on a device node is answered with: the bytes
//! written to its buffer and the number returned.

use vstd::prelude::*;
use vstd::string::{StringExecFns, StringSliceAdditionalSpecFns};
use vstd::utf8::encode_utf8;
use crate::caps::{abs_codes, axis_codes, button_codes, byte_value, compute_byte, key_codes};
use crate::joystick::lemma_first_index;
use crate::protocol::{
    AxisConfig, DeviceConfig, DeviceConfigView, DeviceId, LinuxAbsEvent, EV_ABS, EV_FF, EV_KEY,
    EV_REL, FF_RUMBLE,
};
use crate::seccomp::{error_response, success_response, SeccompNotifResp, EFAULT, ENOTTY};
use crate::text::{decimal, push_decimal};
use crate::wire::{
    i32_bits, i32_to_bits, push_u16_in, push_u32_in, u16_in, u32_in, ByteOrder,
};

verus! {

pub const IOC_NONE: u32 = 0;

pub const IOC_WRITE: u32 = 1;

pub const IOC_READ: u32 = 2;

pub const EVIOCGVERSION: u32 = 0x80044501;

pub const EVIOCGID: u32 = 0x80084502;

pub const EVIOCGRAB: u32 = 0x40044590;

pub const EVIOCREVOKE: u32 = 0x40044591;

pub const JSIOCGVERSION: u32 = 0x80046a01;

pub const JSIOCGAXES: u32 = 0x80016a11;

pub const JSIOCGBUTTONS: u32 = 0x80016a12;

/// The evdev protocol version consumers are told.
pub const EVDEV_VERSION: i32 = 0x010001;

/// The joystick driver version consumers are told.
pub const JOYSTICK_VERSION: i32 = 0x020100;

/// The direction bits of a request number: its two highest bits.
pub open spec fn spec_ioc_dir(cmd: u32) -> u32 {
    cmd / 0x4000_0000
}

/// The type of a request number: its second byte.
pub open spec fn spec_ioc_type(cmd: u32) -> u8 {
    ((cmd / 0x100) % 0x100) as u8
}

/// The number of a request number: its lowest byte.
pub open spec fn spec_ioc_nr(cmd: u32) -> u8 {
    (cmd % 0x100) as u8
}

/// The argument size of a request number: 14 bits from bit 16 on.
pub open spec fn spec_ioc_size(cmd: u32) -> usize {
    ((cmd / 0x1_0000) % 0x4000) as usize
}

#[verifier::when_used_as_spec(spec_ioc_dir)]
pub fn ioc_dir(cmd: u32) -> (r: u32)
    ensures
        r == spec_ioc_dir(cmd),
{
    cmd / 0x4000_0000
}

#[verifier::when_used_as_spec(spec_ioc_type)]
pub fn ioc_type(cmd: u32) -> (r: u8)
    ensures
        r == spec_ioc_type(cmd),
{
    ((cmd / 0x100) % 0x100) as u8
}

#[verifier::when_used_as_spec(spec_ioc_nr)]
pub fn ioc_nr(cmd: u32) -> (r: u8)
    ensures
        r == spec_ioc_nr(cmd),
{
    (cmd % 0x100) as u8
}

#[verifier::when_used_as_spec(spec_ioc_size)]
pub fn ioc_size(cmd: u32) -> (r: usize)
    ensures
        r == spec_ioc_size(cmd),
        r < 0x4000,
{
    ((cmd / 0x1_0000) % 0x4000) as usize
}

/// Which node a consumer has opened.
#[derive(Debug, Clone, Copy, PartialEq, Eq, Structural)]
pub enum DeviceType {
    Event,
    Joystick,
    Uinput,
}

/// What is known of a descriptor that stands for a device node.
#[derive(Debug)]
pub struct VirtualFdContext {
    pub event_node: String,
    pub device_type: DeviceType,
    pub device_id: DeviceId,
    pub manager_fd: i32,
    pub config: DeviceConfig,
}

/// The answer to an ioctl.
#[derive(Debug, PartialEq, Eq)]
pub enum IoctlReply {
    /// `data` goes to the caller's buffer and the call returns `ret`.
    /// Where `required` holds and the buffer cannot be written the call
    /// fails with `EFAULT`; where it does not hold the call returns `ret`
    /// either way.
    Write { data: Vec<u8>, ret: i64, required: bool },
    /// The call returns `ret`.
    Return { ret: i64 },
    /// The call fails with the error number `errno`.
    Fail { errno: i32 },
}

/// What an `IoctlReply` holds, as mathematical values.
pub enum IoctlReplyView {
    Write { data: Seq<u8>, ret: int, required: bool },
    Return { ret: int },
    Fail { errno: int },
}

impl View for IoctlReply {
    type V = IoctlReplyView;

    open spec fn view(&self) -> IoctlReplyView {
        match *self {
            IoctlReply::Write { data, ret, required } => IoctlReplyView::Write {
                data: data@,
                ret: ret as int,
                required,
            },
            IoctlReply::Return { ret } => IoctlReplyView::Return { ret: ret as int },
            IoctlReply::Fail { errno } => IoctlReplyView::Fail { errno: errno as int },
        }
    }
}

/// The answer to an ioctl on a descriptor.
#[derive(Debug, PartialEq, Eq)]
pub enum IoctlResult {
    /// The descriptor stands for a device node, and this is the answer.
    Handled(IoctlReply),
    /// The descriptor is none of ours: the kernel answers.
    NotVirtualFd,
}

/// `size` zero bytes.
pub open spec fn zero_bytes(size: nat) -> Seq<u8> {
    Seq::new(size, |i: int| 0u8)
}

/// How many bytes of a text of `text_len` bytes fit in a buffer of `size`
/// bytes that ends in a NUL.
pub open spec fn copy_len(text_len: nat, size: nat) -> nat {
    let room = if size == 0 {
        0
    } else {
        (size - 1) as nat
    };
    if text_len < room {
        text_len
    } else {
        room
    }
}

/// A buffer of `size` bytes that holds as much of `text` as fits in front
/// of a NUL, and zeros after it.
pub open spec fn string_buffer(text: Seq<u8>, size: nat) -> Seq<u8> {
    Seq::new(
        size,
        |i: int|
            if i < copy_len(text.len(), size) {
                text[i]
            } else {
                0u8
            },
    )
}

/// The answer that hands a text out.
pub open spec fn string_reply(text: Seq<u8>, size: nat) -> IoctlReplyView {
    IoctlReplyView::Write {
        data: string_buffer(text, size),
        ret: copy_len(text.len(), size) as int,
        required: true,
    }
}

/// The first `size` bytes of the bitmask of `codes`.
pub open spec fn bitmask_bytes(codes: Seq<u16>, size: nat) -> Seq<u8> {
    Seq::new(size, |k: int| byte_value(codes, k as nat) as u8)
}

/// The event types every device node claims: synchronization, keys,
/// absolute axes and force feedback.
pub open spec fn event_type_bytes(size: nat) -> Seq<u8> {
    Seq::new(
        size,
        |k: int|
            if k == 0 {
                0x0bu8
            } else if k == 2 {
                0x20u8
            } else {
                0u8
            },
    )
}

/// The bitmask of one event type.
pub open spec fn evbit_bytes(ev_type: u16, size: nat, config: DeviceConfigView) -> Seq<u8> {
    if ev_type == 0 {
        event_type_bytes(size)
    } else if ev_type == EV_KEY {
        bitmask_bytes(key_codes(config), size)
    } else if ev_type == EV_ABS {
        bitmask_bytes(abs_codes(config), size)
    } else if ev_type == EV_FF {
        bitmask_bytes(seq![FF_RUMBLE], size)
    } else {
        zero_bytes(size)
    }
}

/// The range a consumer is told of the axis with `code`: that of the first
/// axis of the configuration with the code, with a dead zone where the
/// range is wide; the full 16-bit range for an axis it does not declare.
pub open spec fn absinfo_of(config: DeviceConfigView, code: u16) -> LinuxAbsEvent {
    match abs_codes(config).index_of_first(code) {
        Some(i) => LinuxAbsEvent {
            value: 0,
            minimum: config.axes[i].min,
            maximum: config.axes[i].max,
            fuzz: if config.axes[i].max > 1000 {
                16i32
            } else {
                0i32
            },
            flat: if config.axes[i].max > 1000 {
                128i32
            } else {
                0i32
            },
            resolution: 0,
        },
        None => LinuxAbsEvent {
            value: 0,
            minimum: -32768i32,
            maximum: 32767,
            fuzz: 16,
            flat: 128,
            resolution: 0,
        },
    }
}

/// A signed 32-bit number in the machine's order.
pub open spec fn i32_in(order: ByteOrder, v: i32) -> Seq<u8> {
    u32_in(order, i32_bits(v))
}

/// The 24 bytes of `struct input_absinfo`.
pub open spec fn absinfo_bytes(a: LinuxAbsEvent, order: ByteOrder) -> Seq<u8> {
    i32_in(order, a.value) + i32_in(order, a.minimum) + i32_in(order, a.maximum) + i32_in(
        order,
        a.fuzz,
    ) + i32_in(order, a.flat) + i32_in(order, a.resolution)
}

/// The 8 bytes of `struct input_id`.
pub open spec fn input_id_bytes(config: DeviceConfigView, order: ByteOrder) -> Seq<u8> {
    u16_in(order, config.bustype.spec_code()) + u16_in(order, config.vendor_id) + u16_in(
        order,
        config.product_id,
    ) + u16_in(order, config.version)
}

/// The physical location a device node claims.
pub open spec fn phys_text(device_id: DeviceId) -> Seq<char> {
    "usb-vimputti.0/input"@ + decimal(device_id as nat)
}

/// The answer to an evdev ioctl.
pub open spec fn evdev_reply(
    cmd: u32,
    device_id: DeviceId,
    config: DeviceConfigView,
    order: ByteOrder,
) -> IoctlReplyView {
    let nr = spec_ioc_nr(cmd);
    let size = spec_ioc_size(cmd) as nat;
    if cmd == EVIOCGVERSION {
        IoctlReplyView::Write { data: i32_in(order, EVDEV_VERSION), ret: 0, required: true }
    } else if cmd == EVIOCGID {
        IoctlReplyView::Write { data: input_id_bytes(config, order), ret: 0, required: true }
    } else if cmd == EVIOCGRAB || cmd == EVIOCREVOKE {
        IoctlReplyView::Return { ret: 0 }
    } else if nr == 0x06 {
        string_reply(encode_utf8(config.name), size)
    } else if nr == 0x07 {
        string_reply(encode_utf8(phys_text(device_id)), size)
    } else if nr == 0x08 {
        string_reply(encode_utf8(decimal(device_id as nat)), size)
    } else if nr == 0x09 || nr == 0x18 {
        IoctlReplyView::Write { data: zero_bytes(size), ret: 0, required: true }
    } else if 0x20 <= nr < 0x40 {
        IoctlReplyView::Write {
            data: evbit_bytes((nr - 0x20) as u16, size, config),
            ret: 0,
            required: true,
        }
    } else if 0x40 <= nr < 0x80 {
        IoctlReplyView::Write {
            data: absinfo_bytes(absinfo_of(config, (nr - 0x40) as u16), order),
            ret: 0,
            required: true,
        }
    } else if spec_ioc_dir(cmd) == IOC_READ && size > 0 {
        IoctlReplyView::Write { data: zero_bytes(size), ret: 0, required: false }
    } else {
        IoctlReplyView::Return { ret: 0 }
    }
}

/// The axis codes of a configuration as the joystick interface maps them:
/// one byte each.
pub open spec fn axis_map(config: DeviceConfigView) -> Seq<u8> {
    abs_codes(config).map(|i: int, c: u16| (c % 256) as u8)
}

/// The button codes of a configuration as the joystick interface maps
/// them: two bytes each, in the machine's order.
pub open spec fn button_map(codes: Seq<u16>, order: ByteOrder) -> Seq<u8>
    decreases codes.len(),
{
    if codes.len() == 0 {
        Seq::empty()
    } else {
        button_map(codes.drop_last(), order) + u16_in(order, codes.last())
    }
}

/// A buffer of `size` bytes that starts with as much of `data` as fits and
/// holds zeros after it.
pub open spec fn padded(data: Seq<u8>, size: nat) -> Seq<u8> {
    Seq::new(
        size,
        |i: int|
            if i < data.len() {
                data[i]
            } else {
                0u8
            },
    )
}

/// The answer to a joystick ioctl.
pub open spec fn joystick_reply(cmd: u32, config: DeviceConfigView, order: ByteOrder) -> IoctlReplyView {
    let nr = spec_ioc_nr(cmd);
    let size = spec_ioc_size(cmd) as nat;
    if cmd == JSIOCGVERSION {
        IoctlReplyView::Write { data: i32_in(order, JOYSTICK_VERSION), ret: 0, required: true }
    } else if cmd == JSIOCGAXES {
        IoctlReplyView::Write {
            data: seq![(config.axes.len() % 256) as u8],
            ret: 0,
            required: true,
        }
    } else if cmd == JSIOCGBUTTONS {
        IoctlReplyView::Write {
            data: seq![(config.buttons.len() % 256) as u8],
            ret: 0,
            required: true,
        }
    } else if nr == 0x13 {
        string_reply(encode_utf8(config.name), size)
    } else if nr == 0x32 {
        IoctlReplyView::Write { data: padded(axis_map(config), size), ret: 0, required: true }
    } else if nr == 0x34 {
        IoctlReplyView::Write {
            data: padded(button_map(key_codes(config), order), size),
            ret: 0,
            required: true,
        }
    } else {
        IoctlReplyView::Return { ret: 0 }
    }
}

/// The answer to an ioctl on a device node: evdev requests (type `E`) and
/// joystick requests (type `j`) are emulated; any other request is not
/// for this kind of device.
pub open spec fn ioctl_reply(
    cmd: u32,
    device_id: DeviceId,
    config: DeviceConfigView,
    order: ByteOrder,
) -> IoctlReplyView {
    if spec_ioc_type(cmd) == 0x45 {
        evdev_reply(cmd, device_id, config, order)
    } else if spec_ioc_type(cmd) == 0x6a {
        joystick_reply(cmd, config, order)
    } else {
        IoctlReplyView::Fail { errno: ENOTTY as int }
    }
}

fn zeros(size: usize) -> (v: Vec<u8>)
    ensures
        v@ == zero_bytes(size as nat),
{
    let mut v: Vec<u8> = Vec::new();
    let mut i: usize = 0;
    while i < size
        invariant
            i <= size,
            v@.len() == i,
            forall|k: int| 0 <= k < i ==> v@[k] == 0u8,
        decreases size - i,
    {
        v.push(0);
        i = i + 1;
    }
    assert(v@ =~= zero_bytes(size as nat));
    v
}

/// A buffer of `size` bytes that starts with as much of `data` as fits.
fn pad_to(data: &[u8], limit: usize, size: usize) -> (v: Vec<u8>)
    requires
        limit <= data@.len(),
        limit <= size,
    ensures
        v@ == Seq::new(
            size as nat,
            |i: int|
                if i < limit {
                    data@[i]
                } else {
                    0u8
                },
        ),
{
    let mut v: Vec<u8> = Vec::new();
    let mut i: usize = 0;
    while i < size
        invariant
            i <= size,
            limit <= data@.len(),
            v@.len() == i,
            forall|k: int| 0 <= k < i ==> v@[k] == if k < limit {
                data@[k]
            } else {
                0u8
            },
        decreases size - i,
    {
        if i < limit {
            v.push(data[i]);
        } else {
            v.push(0);
        }
        i = i + 1;
    }
    assert(v@ =~= Seq::new(
        size as nat,
        |i: int|
            if i < limit {
                data@[i]
            } else {
                0u8
            },
    ));
    v
}

fn text_reply(text: &str, size: usize) -> (r: IoctlReply)
    requires
        size <= 0x1_0000,
    ensures
        r@ == string_reply(text.spec_bytes(), size as nat),
{
    let bytes = text.as_bytes();
    let room: usize = if size == 0 {
        0
    } else {
        size - 1
    };
    let n: usize = if bytes.len() < room {
        bytes.len()
    } else {
        room
    };
    let data = pad_to(bytes, n, size);
    assert(data@ =~= string_buffer(text.spec_bytes(), size as nat));
    IoctlReply::Write { data, ret: n as i64, required: true }
}

fn bitmask(codes: &Vec<u16>, size: usize) -> (v: Vec<u8>)
    ensures
        v@ == bitmask_bytes(codes@, size as nat),
{
    let mut v: Vec<u8> = Vec::new();
    let mut k: usize = 0;
    while k < size
        invariant
            k <= size,
            v@.len() == k,
            forall|i: int| 0 <= i < k ==> v@[i] == byte_value(codes@, i as nat) as u8,
        decreases size - k,
    {
        v.push(compute_byte(codes, k));
        k = k + 1;
    }
    assert(v@ =~= bitmask_bytes(codes@, size as nat));
    v
}

fn event_types(size: usize) -> (v: Vec<u8>)
    ensures
        v@ == event_type_bytes(size as nat),
{
    let mut v: Vec<u8> = Vec::new();
    let mut k: usize = 0;
    while k < size
        invariant
            k <= size,
            v@.len() == k,
            forall|i: int| 0 <= i < k ==> v@[i] == event_type_bytes(size as nat)[i],
        decreases size - k,
    {
        if k == 0 {
            v.push(0x0b);
        } else if k == 2 {
            v.push(0x20);
        } else {
            v.push(0);
        }
        k = k + 1;
    }
    assert(v@ =~= event_type_bytes(size as nat));
    v
}

/// Answer `EVIOCGBIT`: the bitmask of one event type.
pub fn handle_eviocgbit(size: usize, ev_type: u16, config: &DeviceConfig) -> (data: Vec<u8>)
    ensures
        data@ == evbit_bytes(ev_type, size as nat, config@),
{
    if ev_type == 0 {
        event_types(size)
    } else if ev_type == EV_KEY {
        let codes = button_codes(&config.buttons);
        bitmask(&codes, size)
    } else if ev_type == EV_ABS {
        let codes = axis_codes(&config.axes);
        bitmask(&codes, size)
    } else if ev_type == EV_FF {
        let mut codes: Vec<u16> = Vec::new();
        codes.push(FF_RUMBLE);
        assert(codes@ =~= seq![FF_RUMBLE]);
        bitmask(&codes, size)
    } else {
        zeros(size)
    }
}

/// The range a consumer is told of the axis with `code`.
pub fn absinfo(config: &DeviceConfig, code: u16) -> (a: LinuxAbsEvent)
    ensures
        a == absinfo_of(config@, code),
{
    let mut i: usize = 0;
    while i < config.axes.len()
        invariant
            i <= config.axes.len(),
            forall|k: int| 0 <= k < i ==> abs_codes(config@)[k] != code,
        decreases config.axes.len() - i,
    {
        let cfg = config.axes[i];
        if cfg.axis.to_ev_code() == code {
            proof {
                lemma_first_index(abs_codes(config@), code, i as int);
            }
            let wide = cfg.max > 1000;
            return LinuxAbsEvent {
                value: 0,
                minimum: cfg.min,
                maximum: cfg.max,
                fuzz: if wide {
                    16
                } else {
                    0
                },
                flat: if wide {
                    128
                } else {
                    0
                },
                resolution: 0,
            };
        }
        assert(abs_codes(config@)[i as int] != code);
        i = i + 1;
    }
    proof {
        abs_codes(config@).index_of_first_ensures(code);
    }
    LinuxAbsEvent { value: 0, minimum: -32768, maximum: 32767, fuzz: 16, flat: 128, resolution: 0 }
}

fn push_i32_in(buf: &mut Vec<u8>, order: ByteOrder, v: i32)
    ensures
        final(buf)@ == old(buf)@ + i32_in(order, v),
{
    push_u32_in(buf, order, i32_to_bits(v));
}

/// Answer `EVIOCGABS`: the 24 bytes of the range of one axis.
pub fn handle_eviocgabs(abs_code: u16, config: &DeviceConfig, order: ByteOrder) -> (data: Vec<u8>)
    ensures
        data@ == absinfo_bytes(absinfo_of(config@, abs_code), order),
{
    let a = absinfo(config, abs_code);
    let mut data: Vec<u8> = Vec::new();
    push_i32_in(&mut data, order, a.value);
    push_i32_in(&mut data, order, a.minimum);
    push_i32_in(&mut data, order, a.maximum);
    push_i32_in(&mut data, order, a.fuzz);
    push_i32_in(&mut data, order, a.flat);
    push_i32_in(&mut data, order, a.resolution);
    assert(data@ =~= absinfo_bytes(a, order));
    data
}

fn version_reply(version: i32, order: ByteOrder) -> (r: IoctlReply)
    ensures
        r@ == (IoctlReplyView::Write { data: i32_in(order, version), ret: 0, required: true }),
{
    let mut data: Vec<u8> = Vec::new();
    push_i32_in(&mut data, order, version);
    assert(data@ =~= i32_in(order, version));
    IoctlReply::Write { data, ret: 0, required: true }
}

/// Answer an evdev ioctl.
pub fn handle_evdev_ioctl(cmd: u32, device_id: DeviceId, config: &DeviceConfig, order: ByteOrder) -> (r:
    IoctlReply)
    ensures
        r@ == evdev_reply(cmd, device_id, config@, order),
{
    let nr = ioc_nr(cmd);
    let size = ioc_size(cmd);
    if cmd == EVIOCGVERSION {
        version_reply(EVDEV_VERSION, order)
    } else if cmd == EVIOCGID {
        let mut data: Vec<u8> = Vec::new();
        push_u16_in(&mut data, order, config.bustype.code());
        push_u16_in(&mut data, order, config.vendor_id);
        push_u16_in(&mut data, order, config.product_id);
        push_u16_in(&mut data, order, config.version);
        assert(data@ =~= input_id_bytes(config@, order));
        IoctlReply::Write { data, ret: 0, required: true }
    } else if cmd == EVIOCGRAB || cmd == EVIOCREVOKE {
        IoctlReply::Return { ret: 0 }
    } else if nr == 0x06 {
        text_reply(config.name.as_str(), size)
    } else if nr == 0x07 {
        let mut phys = String::from_str("usb-vimputti.0/input");
        push_decimal(&mut phys, device_id);
        text_reply(phys.as_str(), size)
    } else if nr == 0x08 {
        let mut uniq = String::new();
        push_decimal(&mut uniq, device_id);
        assert(uniq@ =~= decimal(device_id as nat));
        text_reply(uniq.as_str(), size)
    } else if nr == 0x09 || nr == 0x18 {
        IoctlReply::Write { data: zeros(size), ret: 0, required: true }
    } else if nr >= 0x20 && nr < 0x40 {
        IoctlReply::Write {
            data: handle_eviocgbit(size, (nr - 0x20) as u16, config),
            ret: 0,
            required: true,
        }
    } else if nr >= 0x40 && nr < 0x80 {
        IoctlReply::Write {
            data: handle_eviocgabs((nr - 0x40) as u16, config, order),
            ret: 0,
            required: true,
        }
    } else if ioc_dir(cmd) == IOC_READ && size > 0 {
        IoctlReply::Write { data: zeros(size), ret: 0, required: false }
    } else {
        IoctlReply::Return { ret: 0 }
    }
}

fn axis_map_bytes(config: &DeviceConfig) -> (v: Vec<u8>)
    ensures
        v@ == axis_map(config@),
{
    let mut v: Vec<u8> = Vec::new();
    let mut i: usize = 0;
    while i < config.axes.len()
        invariant
            i <= config.axes.len(),
            v@.len() == i,
            forall|k: int| 0 <= k < i ==> v@[k] == axis_map(config@)[k],
        decreases config.axes.len() - i,
    {
        v.push((config.axes[i].axis.to_ev_code() % 256) as u8);
        i = i + 1;
    }
    assert(v@ =~= axis_map(config@));
    v
}

fn button_map_bytes(config: &DeviceConfig, order: ByteOrder) -> (v: Vec<u8>)
    ensures
        v@ == button_map(key_codes(config@), order),
{
    let codes = button_codes(&config.buttons);
    let mut v: Vec<u8> = Vec::new();
    let mut i: usize = 0;
    while i < codes.len()
        invariant
            i <= codes.len(),
            v@ == button_map(codes@.subrange(0, i as int), order),
        decreases codes.len() - i,
    {
        proof {
            let next = codes@.subrange(0, i + 1);
            assert(next.drop_last() =~= codes@.subrange(0, i as int));
            assert(next.last() == codes@[i as int]);
        }
        push_u16_in(&mut v, order, codes[i]);
        i = i + 1;
    }
    assert(codes@.subrange(0, i as int) =~= codes@);
    v
}

fn padded_reply(data: &Vec<u8>, size: usize) -> (r: IoctlReply)
    ensures
        r@ == (IoctlReplyView::Write { data: padded(data@, size as nat), ret: 0, required: true }),
{
    let limit: usize = if data.len() < size {
        data.len()
    } else {
        size
    };
    let out = pad_to(data.as_slice(), limit, size);
    assert(out@ =~= padded(data@, size as nat));
    IoctlReply::Write { data: out, ret: 0, required: true }
}

/// Answer a joystick ioctl.
pub fn handle_joystick_ioctl(cmd: u32, config: &DeviceConfig, order: ByteOrder) -> (r: IoctlReply)
    ensures
        r@ == joystick_reply(cmd, config@, order),
{
    let nr = ioc_nr(cmd);
    let size = ioc_size(cmd);
    if cmd == JSIOCGVERSION {
        version_reply(JOYSTICK_VERSION, order)
    } else if cmd == JSIOCGAXES {
        let mut data: Vec<u8> = Vec::new();
        data.push((config.axes.len() % 256) as u8);
        assert(data@ =~= seq![(config@.axes.len() % 256) as u8]);
        IoctlReply::Write { data, ret: 0, required: true }
    } else if cmd == JSIOCGBUTTONS {
        let mut data: Vec<u8> = Vec::new();
        data.push((config.buttons.len() % 256) as u8);
        assert(data@ =~= seq![(config@.buttons.len() % 256) as u8]);
        IoctlReply::Write { data, ret: 0, required: true }
    } else if nr == 0x13 {
        text_reply(config.name.as_str(), size)
    } else if nr == 0x32 {
        let map = axis_map_bytes(config);
        padded_reply(&map, size)
    } else if nr == 0x34 {
        let map = button_map_bytes(config, order);
        padded_reply(&map, size)
    } else {
        IoctlReply::Return { ret: 0 }
    }
}

/// Answer an ioctl on a descriptor: one that stands for a device node is
/// answered by the emulation, any other is left to the kernel.
pub fn handle_ioctl(ctx: Option<&VirtualFdContext>, cmd: u32, order: ByteOrder) -> (r: IoctlResult)
    ensures
        match ctx {
            Some(c) => r matches IoctlResult::Handled(reply) && reply@ == ioctl_reply(
                cmd,
                c.device_id,
                c.config@,
                order,
            ),
            None => r == IoctlResult::NotVirtualFd,
        },
{
    match ctx {
        None => IoctlResult::NotVirtualFd,
        Some(c) => {
            let ty = ioc_type(cmd);
            if ty == 0x45 {
                IoctlResult::Handled(handle_evdev_ioctl(cmd, c.device_id, &c.config, order))
            } else if ty == 0x6a {
                IoctlResult::Handled(handle_joystick_ioctl(cmd, &c.config, order))
            } else {
                IoctlResult::Handled(IoctlReply::Fail { errno: ENOTTY })
            }
        },
    }
}

/// What the kernel is told once the answer has been carried out: the
/// return value where nothing had to be written or the write succeeded or
/// was not required, `EFAULT` where a required write failed, and the
/// error number of a failure.
pub open spec fn kernel_answer(reply: IoctlReplyView, wrote: bool) -> SeccompNotifResp {
    match reply {
        IoctlReplyView::Write { data, ret, required } => if wrote || !required {
            success_response(ret as i64)
        } else {
            error_response(EFAULT)
        },
        IoctlReplyView::Return { ret } => success_response(ret as i64),
        IoctlReplyView::Fail { errno } => error_response(errno as i32),
    }
}

/// Tells the kernel what came of an answer.
pub fn complete_ioctl(reply: &IoctlReply, wrote: bool) -> (r: SeccompNotifResp)
    ensures
        r == kernel_answer(reply@, wrote),
{
    match reply {
        IoctlReply::Write { data: _, ret, required } => {
            if wrote || !*required {
                SeccompNotifResp::new_success(*ret)
            } else {
                SeccompNotifResp::new_error(EFAULT)
            }
        },
        IoctlReply::Return { ret } => SeccompNotifResp::new_success(*ret),
        IoctlReply::Fail { errno } => {
            if *errno == i32::MIN {
                SeccompNotifResp { id: 0, val: -1, error: *errno, flags: 0 }
            } else {
                SeccompNotifResp::new_error(*errno)
            }
        },
    }
}

/// Sets bit `bit` of a bitmask, where the mask is long enough to have it.
pub fn set_bit(bits: &mut Vec<u8>, bit: usize)
    ensures
        final(bits)@.len() == old(bits)@.len(),
        forall|i: int| 0 <= i < old(bits)@.len() && i != bit / 8 ==> final(bits)@[i] == old(bits)@[i],
        bit / 8 < old(bits)@.len() ==> final(bits)@[(bit / 8) as int] == with_bit(
            old(bits)@[(bit / 8) as int],
            (bit % 8) as nat,
        ),
{
    let byte_idx: usize = bit / 8;
    let bit_idx: usize = bit % 8;
    if byte_idx < bits.len() {
        let power: u8 = if bit_idx == 0 {
            1
        } else if bit_idx == 1 {
            2
        } else if bit_idx == 2 {
            4
        } else if bit_idx == 3 {
            8
        } else if bit_idx == 4 {
            16
        } else if bit_idx == 5 {
            32
        } else if bit_idx == 6 {
            64
        } else {
            128
        };
        let b: u8 = bits[byte_idx];
        if (b / power) % 2 == 0 {
            assert(b as int + power as int <= 255) by {
                assert(b / power <= 255u8 / power);
            }
            bits.set(byte_idx, b + power);
        }
    }
}

/// The value of bit `k` of a byte.
pub open spec fn bit_weight(k: nat) -> int {
    if k == 0 {
        1
    } else if k == 1 {
        2
    } else if k == 2 {
        4
    } else if k == 3 {
        8
    } else if k == 4 {
        16
    } else if k == 5 {
        32
    } else if k == 6 {
        64
    } else {
        128
    }
}

/// A byte with bit `k` set: the byte itself where the bit is set already.
pub open spec fn with_bit(b: u8, k: nat) -> u8 {
    if (b as int / bit_weight(k)) % 2 == 0 {
        (b + bit_weight(k)) as u8
    } else {
        b
    }
}

} // verus!
