//! The consumer's side of the uinput relay: the session message that an
//! ioctl or a write on the uinput device becomes.

use vstd::prelude::*;
use vstd::string::{StringExecFns, StringSliceAdditionalSpecFns};
use vstd::utf8::{decode_utf8, valid_utf8};
use crate::evdev::{read_record, record_of_bytes, records_of_bytes};
use crate::framing::MAX_FRAME_LEN;
use crate::protocol::{
    DeviceConfig, DeviceSetup, LinuxAbsEvent, LinuxInputEvent, TimeVal, UinputRequest,
    UinputResponse,
};
use crate::templates::ControllerTemplates;
use crate::uinput::{
    UI_ABS_SETUP, UI_DEV_CREATE, UI_DEV_DESTROY, UI_DEV_SETUP, UI_SET_ABSBIT, UI_SET_EVBIT,
    UI_SET_KEYBIT, UI_SET_RELBIT,
};
use crate::wire::{
    i32_from_bits, i32_of_bits, read_u16_in, read_u16_le, read_u32_in, read_u32_le, u16_from,
    u16_from_le, u32_from, u32_from_le, ByteOrder,
};

verus! {

pub const FIONREAD: u32 = 0x5421;

/// Length of `struct uinput_setup`.
pub const UINPUT_SETUP_LEN: usize = 92;

/// Length of `struct uinput_abs_setup`.
pub const UINPUT_ABS_SETUP_LEN: usize = 28;

/// The longest handshake a consumer accepts.
pub const MAX_HANDSHAKE_LEN: u32 = 1_048_576;

/// What an ioctl on the uinput device has for an argument.
#[derive(Debug, Clone, Copy, PartialEq, Eq, Structural)]
pub enum ArgKind {
    /// A number, passed by value.
    Value,
    /// A pointer to a structure of `len` bytes, which is read.
    Struct { len: usize },
    /// A pointer to a number, which is written.
    Out,
    /// Nothing that matters.
    Unused,
}

/// What the argument of an ioctl on the uinput device is.
pub fn arg_kind(request: u32) -> (k: ArgKind)
    ensures
        k == if request == UI_SET_EVBIT || request == UI_SET_KEYBIT || request == UI_SET_RELBIT
            || request == UI_SET_ABSBIT {
            ArgKind::Value
        } else if request == UI_ABS_SETUP {
            ArgKind::Struct { len: UINPUT_ABS_SETUP_LEN }
        } else if request == UI_DEV_SETUP {
            ArgKind::Struct { len: UINPUT_SETUP_LEN }
        } else if request == FIONREAD {
            ArgKind::Out
        } else {
            ArgKind::Unused
        },
{
    let number: u64 = request as u64;
    if number == UI_SET_EVBIT || number == UI_SET_KEYBIT || number == UI_SET_RELBIT || number == UI_SET_ABSBIT {
        ArgKind::Value
    } else if number == UI_ABS_SETUP {
        ArgKind::Struct { len: UINPUT_ABS_SETUP_LEN }
    } else if number == UI_DEV_SETUP {
        ArgKind::Struct { len: UINPUT_SETUP_LEN }
    } else if request == FIONREAD {
        ArgKind::Out
    } else {
        ArgKind::Unused
    }
}

/// What an ioctl on the uinput device leads to.
#[derive(Debug, PartialEq, Eq)]
pub enum UinputIoctl {
    /// The message goes to the relay; the call returns 0 where the relay
    /// answers with success and -1 otherwise.
    Send { request: UinputRequest },
    /// A zero is written to the argument and the call returns 0.
    WriteZero,
    /// The call returns 0 and nothing else happens.
    Ignore,
}

/// The name a device gets where its setup gives none that can be read.
pub open spec fn fallback_name() -> Seq<char> {
    "virtual uinput device"@
}

/// The bytes of a buffer in front of its first NUL; none where it holds
/// no NUL.
pub open spec fn until_nul(b: Seq<u8>) -> Option<Seq<u8>>
    decreases b.len(),
{
    if b.len() == 0 {
        None
    } else if b[0] == 0 {
        Some(Seq::empty())
    } else {
        match until_nul(b.drop_first()) {
            Some(rest) => Some(seq![b[0]] + rest),
            None => None,
        }
    }
}

/// The name in the name field of a setup structure: the text in front of
/// the first NUL where there is a NUL and the text is UTF-8, else the
/// fallback name.
pub open spec fn setup_name(field: Seq<u8>) -> Seq<char> {
    match until_nul(field) {
        Some(text) => if valid_utf8(text) {
            decode_utf8(text)
        } else {
            fallback_name()
        },
        None => fallback_name(),
    }
}

/// The identity in the 92 bytes of `struct uinput_setup`: bus, vendor,
/// product and version as 16-bit numbers, then 80 bytes of name.
pub open spec fn device_setup_of(b: Seq<u8>, order: ByteOrder) -> (Seq<char>, u16, u16, u16, u16) {
    (
        setup_name(b.subrange(8, 88)),
        u16_from(order, b.subrange(2, 4)),
        u16_from(order, b.subrange(4, 6)),
        u16_from(order, b.subrange(6, 8)),
        u16_from(order, b.subrange(0, 2)),
    )
}

/// A signed 32-bit number read in the given order.
pub open spec fn i32_from(order: ByteOrder, b: Seq<u8>) -> i32 {
    i32_of_bits(u32_from(order, b))
}

/// The range in the 28 bytes of `struct uinput_abs_setup`: the code, two
/// bytes of padding, then six signed 32-bit numbers.
pub open spec fn abs_setup_of(b: Seq<u8>, order: ByteOrder) -> (u16, LinuxAbsEvent) {
    (
        u16_from(order, b.subrange(0, 2)),
        LinuxAbsEvent {
            value: i32_from(order, b.subrange(4, 8)),
            minimum: i32_from(order, b.subrange(8, 12)),
            maximum: i32_from(order, b.subrange(12, 16)),
            fuzz: i32_from(order, b.subrange(16, 20)),
            flat: i32_from(order, b.subrange(20, 24)),
            resolution: i32_from(order, b.subrange(24, 28)),
        },
    )
}

/// `core::str::from_utf8`: the text that `bytes` encode, where they are
/// UTF-8; none where they are not.
#[verifier::external_body]
fn text_of_utf8(bytes: &[u8]) -> (r: Option<&str>)
    ensures
        r is Some <==> valid_utf8(bytes@),
        r is Some ==> r->0.spec_bytes() == bytes@,
{
    match core::str::from_utf8(bytes) {
        Ok(s) => Some(s),
        Err(_) => None,
    }
}

/// The bytes in front of the first NUL at or after `from`.
fn take_until_nul(b: &[u8], from: usize, to: usize) -> (r: Option<Vec<u8>>)
    requires
        from <= to <= b@.len(),
    ensures
        match r {
            Some(v) => until_nul(b@.subrange(from as int, to as int)) == Some(v@),
            None => until_nul(b@.subrange(from as int, to as int)) is None,
        },
    decreases to - from,
{
    let ghost field = b@.subrange(from as int, to as int);
    if from == to {
        return None;
    }
    assert(field[0] == b@[from as int]);
    assert(field.drop_first() =~= b@.subrange(from + 1, to as int));
    if b[from] == 0 {
        let v: Vec<u8> = Vec::new();
        assert(v@ =~= Seq::<u8>::empty());
        return Some(v);
    }
    match take_until_nul(b, from + 1, to) {
        Some(rest) => {
            let mut v: Vec<u8> = Vec::new();
            v.push(b[from]);
            let mut i: usize = 0;
            while i < rest.len()
                invariant
                    i <= rest.len(),
                    v@ == seq![b@[from as int]] + rest@.subrange(0, i as int),
                decreases rest.len() - i,
            {
                v.push(rest[i]);
                i = i + 1;
                assert(v@ =~= seq![b@[from as int]] + rest@.subrange(0, i as int));
            }
            assert(rest@.subrange(0, i as int) =~= rest@);
            Some(v)
        },
        None => None,
    }
}

/// The name in the name field of a setup structure.
fn read_setup_name(b: &[u8], from: usize, to: usize) -> (name: String)
    requires
        from <= to <= b@.len(),
    ensures
        name@ == setup_name(b@.subrange(from as int, to as int)),
{
    match take_until_nul(b, from, to) {
        Some(text) => match text_of_utf8(text.as_slice()) {
            Some(s) => {
                proof {
                    vstd::utf8::encode_utf8_decode_utf8(s@);
                }
                String::from_str(s)
            },
            None => String::from_str("virtual uinput device"),
        },
        None => String::from_str("virtual uinput device"),
    }
}

fn read_i32_in(b: &[u8], order: ByteOrder, at: usize) -> (v: i32)
    requires
        at + 4 <= b@.len(),
    ensures
        v == i32_from(order, b@.subrange(at as int, at + 4)),
{
    i32_from_bits(read_u32_in(b, order, at))
}

/// The session message that an ioctl on the uinput device becomes.
///
/// * Setting an event, key, relative or absolute bit sends the matching
///   message with the low 16 bits of the argument.
/// * `UI_ABS_SETUP` and `UI_DEV_SETUP` send what their structure holds;
///   without a structure of the right length they do nothing.
/// * `UI_DEV_CREATE` and `UI_DEV_DESTROY` send `DevCreate` and `DevDestroy`.
/// * `FIONREAD` reports that nothing is there to be read.
/// * Every other request is accepted and ignored.
pub fn handle_uinput_ioctl(request: u32, value: u32, data: Option<&[u8]>, order: ByteOrder) -> (r:
    UinputIoctl)
    ensures
        is_translation(
            request,
            value,
            match data {
                Some(b) => Some(b@),
                None => None,
            },
            order,
            r,
        ),
{
    let code: u16 = (value % 0x1_0000) as u16;
    let number: u64 = request as u64;
    if number == UI_SET_EVBIT {
        UinputIoctl::Send { request: UinputRequest::SetEvBit { ev_type: code } }
    } else if number == UI_SET_KEYBIT {
        UinputIoctl::Send { request: UinputRequest::SetKeyBit { key_code: code } }
    } else if number == UI_SET_ABSBIT {
        UinputIoctl::Send { request: UinputRequest::SetAbsBit { abs_code: code } }
    } else if number == UI_SET_RELBIT {
        UinputIoctl::Send { request: UinputRequest::SetRelBit { rel_code: code } }
    } else if number == UI_ABS_SETUP {
        match data {
            Some(b) => {
                if b.len() != UINPUT_ABS_SETUP_LEN {
                    return UinputIoctl::Ignore;
                }
                let code = read_u16_in(b, order, 0);
                let absinfo = LinuxAbsEvent {
                    value: read_i32_in(b, order, 4),
                    minimum: read_i32_in(b, order, 8),
                    maximum: read_i32_in(b, order, 12),
                    fuzz: read_i32_in(b, order, 16),
                    flat: read_i32_in(b, order, 20),
                    resolution: read_i32_in(b, order, 24),
                };
                UinputIoctl::Send { request: UinputRequest::AbsSetup { code, absinfo } }
            },
            None => UinputIoctl::Ignore,
        }
    } else if number == UI_DEV_SETUP {
        match data {
            Some(b) => {
                if b.len() != UINPUT_SETUP_LEN {
                    return UinputIoctl::Ignore;
                }
                let setup = DeviceSetup {
                    name: read_setup_name(b, 8, 88),
                    vendor_id: read_u16_in(b, order, 2),
                    product_id: read_u16_in(b, order, 4),
                    version: read_u16_in(b, order, 6),
                    bustype: read_u16_in(b, order, 0),
                };
                UinputIoctl::Send { request: UinputRequest::DevSetup { setup } }
            },
            None => UinputIoctl::Ignore,
        }
    } else if number == UI_DEV_CREATE {
        UinputIoctl::Send { request: UinputRequest::DevCreate }
    } else if number == UI_DEV_DESTROY {
        UinputIoctl::Send { request: UinputRequest::DevDestroy }
    } else if request == FIONREAD {
        UinputIoctl::WriteZero
    } else {
        UinputIoctl::Ignore
    }
}

/// Whether `r` is what an ioctl on the uinput device leads to.
pub open spec fn is_translation(
    request: u32,
    value: u32,
    data: Option<Seq<u8>>,
    order: ByteOrder,
    r: UinputIoctl,
) -> bool {
    if request == UI_DEV_SETUP && data is Some && data->0.len() == 92 {
        &&& r matches UinputIoctl::Send { request: message }
        &&& message matches UinputRequest::DevSetup { setup }
        &&& (setup.name@, setup.vendor_id, setup.product_id, setup.version, setup.bustype)
            == device_setup_of(data->0, order)
    } else {
        r == uinput_ioctl(request, value, data, order)
    }
}

/// What an ioctl on the uinput device leads to, for every request but a
/// `UI_DEV_SETUP` with its structure.
pub open spec fn uinput_ioctl(request: u32, value: u32, data: Option<Seq<u8>>, order: ByteOrder) -> UinputIoctl {
    let code = (value % 0x1_0000) as u16;
    if request == UI_SET_EVBIT {
        UinputIoctl::Send { request: UinputRequest::SetEvBit { ev_type: code } }
    } else if request == UI_SET_KEYBIT {
        UinputIoctl::Send { request: UinputRequest::SetKeyBit { key_code: code } }
    } else if request == UI_SET_ABSBIT {
        UinputIoctl::Send { request: UinputRequest::SetAbsBit { abs_code: code } }
    } else if request == UI_SET_RELBIT {
        UinputIoctl::Send { request: UinputRequest::SetRelBit { rel_code: code } }
    } else if request == UI_ABS_SETUP {
        if data is Some && data->0.len() == 28 {
            UinputIoctl::Send {
                request: UinputRequest::AbsSetup {
                    code: abs_setup_of(data->0, order).0,
                    absinfo: abs_setup_of(data->0, order).1,
                },
            }
        } else {
            UinputIoctl::Ignore
        }
    } else if request == UI_DEV_SETUP {
        UinputIoctl::Ignore
    } else if request == UI_DEV_CREATE {
        UinputIoctl::Send { request: UinputRequest::DevCreate }
    } else if request == UI_DEV_DESTROY {
        UinputIoctl::Send { request: UinputRequest::DevDestroy }
    } else if request == FIONREAD {
        UinputIoctl::WriteZero
    } else {
        UinputIoctl::Ignore
    }
}

/// What the ioctl returns once the relay has answered: 0 for an answer
/// that reports success, -1 for any other and for none.
pub fn ioctl_result(response: Option<&UinputResponse>) -> (r: i32)
    ensures
        r == if response is Some && response->0.success {
            0i32
        } else {
            -1i32
        },
{
    match response {
        Some(resp) => if resp.success {
            0
        } else {
            -1
        },
        None => -1,
    }
}

/// The record in 16 bytes as a 32-bit consumer writes it: seconds and
/// microseconds as signed 32-bit numbers, then type, code and value.
pub open spec fn compat_record_of_bytes(b: Seq<u8>) -> LinuxInputEvent {
    LinuxInputEvent {
        time: TimeVal {
            tv_sec: i32_of_bits(u32_from_le(b.subrange(0, 4))) as i64,
            tv_usec: i32_of_bits(u32_from_le(b.subrange(4, 8))) as i64,
        },
        event_type: u16_from_le(b.subrange(8, 10)),
        code: u16_from_le(b.subrange(10, 12)),
        value: i32_of_bits(u32_from_le(b.subrange(12, 16))),
    }
}

/// The records that a stream of whole 16-byte records stands for.
pub open spec fn compat_records_of_bytes(b: Seq<u8>) -> Seq<LinuxInputEvent> {
    Seq::new((b.len() / 16) as nat, |i: int| compat_record_of_bytes(b.subrange(16 * i, 16 * i + 16)))
}

/// The records that the bytes of one write stand for: records of 24 bytes
/// where the length is a multiple of 24, records of 16 bytes where it is a
/// multiple of 16 and not of 24; none for an empty write and for any
/// other length.
pub open spec fn written_records(b: Seq<u8>) -> Option<Seq<LinuxInputEvent>> {
    if b.len() == 0 {
        None
    } else if b.len() % 24 == 0 {
        Some(records_of_bytes(b))
    } else if b.len() % 16 == 0 {
        Some(compat_records_of_bytes(b))
    } else {
        None
    }
}

fn read_compat_record(b: &[u8], at: usize) -> (e: LinuxInputEvent)
    requires
        at + 16 <= b@.len(),
    ensures
        e == compat_record_of_bytes(b@.subrange(at as int, at + 16)),
{
    let n: usize = b.len();
    assert(at + 16 <= n);
    proof {
        let r = b@.subrange(at as int, at + 16);
        assert(r.subrange(0, 4) =~= b@.subrange(at as int, at + 4));
        assert(r.subrange(4, 8) =~= b@.subrange(at + 4, at + 8));
        assert(r.subrange(8, 10) =~= b@.subrange(at + 8, at + 10));
        assert(r.subrange(10, 12) =~= b@.subrange(at + 10, at + 12));
        assert(r.subrange(12, 16) =~= b@.subrange(at + 12, at + 16));
    }
    let tv_sec = i32_from_bits(read_u32_le(b, at)) as i64;
    let tv_usec = i32_from_bits(read_u32_le(b, at + 4)) as i64;
    let event_type = read_u16_le(b, at + 8);
    let code = read_u16_le(b, at + 10);
    let value = i32_from_bits(read_u32_le(b, at + 12));
    LinuxInputEvent { time: TimeVal { tv_sec, tv_usec }, event_type, code, value }
}

/// The message that a write on the uinput device becomes: a `WriteEvents`
/// with the records written, or nothing where the bytes are no whole
/// records. The write reports all its bytes as written either way, and
/// waits for no answer.
pub fn handle_uinput_write(buf: &[u8]) -> (r: Option<UinputRequest>)
    ensures
        match r {
            Some(request) => request matches UinputRequest::WriteEvents { events }
                && written_records(buf@) == Some(events@),
            None => written_records(buf@) is None,
        },
{
    let n: usize = buf.len();
    if n == 0 {
        return None;
    }
    if n % 24 == 0 {
        match crate::evdev::decode_records(buf) {
            Some(events) => Some(UinputRequest::WriteEvents { events }),
            None => None,
        }
    } else if n % 16 == 0 {
        let count: usize = n / 16;
        let mut events: Vec<LinuxInputEvent> = Vec::new();
        let mut i: usize = 0;
        while i < count
            invariant
                i <= count,
                count == n / 16,
                n == buf@.len(),
                n % 16 == 0,
                events@.len() == i,
                forall|k: int|
                    0 <= k < i ==> #[trigger] events@[k] == compat_records_of_bytes(buf@)[k],
            decreases count - i,
        {
            events.push(read_compat_record(buf, 16 * i));
            i = i + 1;
        }
        assert(events@ =~= compat_records_of_bytes(buf@));
        Some(UinputRequest::WriteEvents { events })
    } else {
        None
    }
}

/// Whether the announced length of a handshake is accepted: up to one
/// mebibyte.
pub fn check_handshake_len(len: u32) -> (ok: bool)
    ensures
        ok == (len <= MAX_HANDSHAKE_LEN),
{
    len <= MAX_HANDSHAKE_LEN
}

/// The configuration a consumer works with: the one of the handshake, or
/// that of an Xbox 360 pad where the handshake could not be read.
pub fn config_or_default(handshake: Option<DeviceConfig>) -> (c: DeviceConfig)
    ensures
        match handshake {
            Some(h) => c == h,
            None => c@ == crate::templates::usb_pad(
                "Microsoft X-Box 360 pad"@,
                0x045e,
                0x028e,
                0x0110,
                crate::templates::xbox_buttons(),
                crate::templates::full_axes(),
            ),
        },
{
    match handshake {
        Some(h) => h,
        None => ControllerTemplates::xbox360(),
    }
}

} // verus!
