//! The legacy joystick record: 8 bytes in the byte order of the machine,
//! numbered by a button's or an axis's place in the device configuration.

use vstd::prelude::*;
use crate::protocol::{Axis, AxisConfig, Button, DeviceConfig, DeviceConfigView, InputEvent, LinuxJsEvent};
use crate::wire::{
    i16_bits, i16_from_bits, i16_of_bits, i16_to_bits, lemma_bits_round_trip,
    lemma_u16_round_trip, lemma_u32_round_trip, push_u16_in, push_u32_in, read_u16_in,
    read_u32_in, u16_be, u16_from, u16_in, u16_le, u32_from, u32_in, ByteOrder,
};

verus! {

pub const JS_EVENT_BUTTON: u8 = 0x01;

pub const JS_EVENT_AXIS: u8 = 0x02;

/// Length of one joystick record on the wire.
pub const JS_RECORD_LEN: usize = 8;

/// An axis value brought into the signed 16-bit range:
/// the larger of -32768 and the smaller of 32767 and `v`.
pub open spec fn clamp_axis(v: i32) -> i16 {
    if v < -32768 {
        -32768i16
    } else if v > 32767 {
        32767i16
    } else {
        v as i16
    }
}

/// The axis each entry of a configuration's axis list describes.
pub open spec fn axis_kinds(axes: Seq<AxisConfig>) -> Seq<Axis> {
    axes.map(|i: int, a: AxisConfig| a.axis)
}

/// Milliseconds since the epoch as the record carries them: the low 32 bits.
pub open spec fn millis_u32(ms: u64) -> u32 {
    (ms % 0x1_0000_0000) as u32
}

/// The joystick record of one logical event on a device: a button or an
/// axis that the configuration lists becomes a record numbered by the place
/// of its first listing; everything else has none.
pub open spec fn js_record(config: DeviceConfigView, ev: InputEvent, time: u32) -> Option<
    LinuxJsEvent,
> {
    match ev {
        InputEvent::Button { button, pressed } => match config.buttons.index_of_first(button) {
            Some(i) => Some(
                LinuxJsEvent {
                    time,
                    value: if pressed {
                        1i16
                    } else {
                        0i16
                    },
                    type_: JS_EVENT_BUTTON,
                    number: (i % 256) as u8,
                },
            ),
            None => None,
        },
        InputEvent::Axis { axis, value } => match axis_kinds(config.axes).index_of_first(axis) {
            Some(i) => Some(
                LinuxJsEvent {
                    time,
                    value: clamp_axis(value),
                    type_: JS_EVENT_AXIS,
                    number: (i % 256) as u8,
                },
            ),
            None => None,
        },
        _ => None,
    }
}

/// The joystick records of one batch, in the order of the events.
pub open spec fn js_records(config: DeviceConfigView, events: Seq<InputEvent>, time: u32) -> Seq<
    LinuxJsEvent,
>
    decreases events.len(),
{
    if events.len() == 0 {
        Seq::empty()
    } else {
        let head = js_records(config, events.drop_last(), time);
        match js_record(config, events.last(), time) {
            Some(r) => head.push(r),
            None => head,
        }
    }
}

/// The 8 bytes of one record: time, value, kind, number.
pub open spec fn js_record_bytes(r: LinuxJsEvent, order: ByteOrder) -> Seq<u8> {
    u32_in(order, r.time) + u16_in(order, i16_bits(r.value)) + seq![r.type_, r.number]
}

/// The record that 8 bytes stand for.
pub open spec fn js_record_of_bytes(b: Seq<u8>, order: ByteOrder) -> LinuxJsEvent {
    LinuxJsEvent {
        time: u32_from(order, b.subrange(0, 4)),
        value: i16_of_bits(u16_from(order, b.subrange(4, 6))),
        type_: b[6],
        number: b[7],
    }
}

/// The bytes of a sequence of records, one after the other.
pub open spec fn js_records_bytes(recs: Seq<LinuxJsEvent>, order: ByteOrder) -> Seq<u8>
    decreases recs.len(),
{
    if recs.len() == 0 {
        Seq::empty()
    } else {
        js_records_bytes(recs.drop_last(), order) + js_record_bytes(recs.last(), order)
    }
}

/// The bytes one batch puts on a joystick stream.
pub open spec fn js_batch_bytes(
    config: DeviceConfigView,
    events: Seq<InputEvent>,
    time: u32,
    order: ByteOrder,
) -> Seq<u8> {
    js_records_bytes(js_records(config, events, time), order)
}

/// Decoding the bytes of a record gives the record again.
pub proof fn lemma_js_record_round_trip(r: LinuxJsEvent, order: ByteOrder)
    ensures
        js_record_bytes(r, order).len() == 8,
        js_record_of_bytes(js_record_bytes(r, order), order) == r,
{
    let b = js_record_bytes(r, order);
    assert(b.subrange(0, 4) =~= u32_in(order, r.time));
    assert(b.subrange(4, 6) =~= u16_in(order, i16_bits(r.value)));
    lemma_u32_round_trip(r.time, order);
    lemma_u16_round_trip(i16_bits(r.value), order);
    lemma_bits_round_trip(r.value, 0, 0);
}

/// Every axis value on a joystick stream lies in the signed 16-bit range,
/// and is the value sent wherever that already did.
pub proof fn lemma_clamp_axis(v: i32)
    ensures
        -32768 <= clamp_axis(v) <= 32767,
        -32768 <= v <= 32767 ==> clamp_axis(v) == v,
        v < -32768 ==> clamp_axis(v) == -32768,
        v > 32767 ==> clamp_axis(v) == 32767,
{
}

/// The value of every axis record is the value sent, brought into the
/// signed 16-bit range: the larger of -32768 and the smaller of 32767 and
/// the value. It is found again when the bytes of the record are decoded.
pub proof fn lemma_axis_record_is_clamped(
    config: DeviceConfigView,
    axis: Axis,
    value: i32,
    time: u32,
    order: ByteOrder,
)
    ensures
        match js_record(config, InputEvent::Axis { axis, value }, time) {
            Some(r) => {
                &&& r.type_ == JS_EVENT_AXIS
                &&& r.value == if value < -32768 {
                    -32768int
                } else if value > 32767 {
                    32767int
                } else {
                    value as int
                }
                &&& js_record_of_bytes(js_record_bytes(r, order), order).value == r.value
            },
            None => axis_kinds(config.axes).index_of_first(axis) is None,
        },
{
    match js_record(config, InputEvent::Axis { axis, value }, time) {
        Some(r) => {
            lemma_js_record_round_trip(r, order);
        },
        None => {},
    }
}

/// The first place at which a value stands is its first index.
pub proof fn lemma_first_index<T>(s: Seq<T>, x: T, i: int)
    requires
        0 <= i < s.len(),
        s[i] == x,
        forall|k: int| 0 <= k < i ==> s[k] != x,
    ensures
        s.index_of_first(x) == Some(i),
{
    s.index_of_first_ensures(x);
    assert(s.contains(x));
    let j = s.index_of_first(x)->0;
    if j < i {
        assert(s[j] != x);
    }
    if i < j {
        assert(s[i] != x);
    }
}

/// Brings an axis value into the signed 16-bit range.
pub fn clamp_axis_value(v: i32) -> (r: i16)
    ensures
        r == clamp_axis(v),
{
    if v < -32768 {
        -32768i16
    } else if v > 32767 {
        32767i16
    } else {
        v as i16
    }
}

/// The low 32 bits of a millisecond count.
pub fn truncate_millis(ms: u64) -> (r: u32)
    ensures
        r == millis_u32(ms),
{
    (ms % 0x1_0000_0000) as u32
}

/// The place of the first listing of `button`.
pub fn button_index(buttons: &Vec<Button>, button: Button) -> (r: Option<usize>)
    ensures
        match r {
            Some(i) => buttons@.index_of_first(button) == Some(i as int),
            None => buttons@.index_of_first(button) is None,
        },
{
    let mut i: usize = 0;
    while i < buttons.len()
        invariant
            i <= buttons.len(),
            forall|k: int| 0 <= k < i ==> buttons@[k] != button,
        decreases buttons.len() - i,
    {
        if buttons[i] == button {
            proof {
                lemma_first_index(buttons@, button, i as int);
            }
            return Some(i);
        }
        i = i + 1;
    }
    proof {
        buttons@.index_of_first_ensures(button);
    }
    None
}

/// The place of the first listing of `axis`.
pub fn axis_index(axes: &Vec<AxisConfig>, axis: Axis) -> (r: Option<usize>)
    ensures
        match r {
            Some(i) => axis_kinds(axes@).index_of_first(axis) == Some(i as int),
            None => axis_kinds(axes@).index_of_first(axis) is None,
        },
{
    let mut i: usize = 0;
    while i < axes.len()
        invariant
            i <= axes.len(),
            forall|k: int| 0 <= k < i ==> axis_kinds(axes@)[k] != axis,
        decreases axes.len() - i,
    {
        if axes[i].axis == axis {
            proof {
                lemma_first_index(axis_kinds(axes@), axis, i as int);
            }
            return Some(i);
        }
        assert(axis_kinds(axes@)[i as int] != axis);
        i = i + 1;
    }
    proof {
        axis_kinds(axes@).index_of_first_ensures(axis);
    }
    None
}

/// The joystick record of one event, if it has one.
pub fn translate_event(config: &DeviceConfig, ev: &InputEvent, time: u32) -> (r: Option<
    LinuxJsEvent,
>)
    ensures
        r == js_record(config@, *ev, time),
{
    match *ev {
        InputEvent::Button { button, pressed } => match button_index(&config.buttons, button) {
            Some(i) => Some(
                LinuxJsEvent {
                    time,
                    value: if pressed {
                        1
                    } else {
                        0
                    },
                    type_: JS_EVENT_BUTTON,
                    number: (i % 256) as u8,
                },
            ),
            None => None,
        },
        InputEvent::Axis { axis, value } => match axis_index(&config.axes, axis) {
            Some(i) => Some(
                LinuxJsEvent {
                    time,
                    value: clamp_axis_value(value),
                    type_: JS_EVENT_AXIS,
                    number: (i % 256) as u8,
                },
            ),
            None => None,
        },
        _ => None,
    }
}

/// The joystick records of one batch.
pub fn translate_batch(config: &DeviceConfig, events: &Vec<InputEvent>, time: u32) -> (recs: Vec<
    LinuxJsEvent,
>)
    ensures
        recs@ == js_records(config@, events@, time),
{
    let mut recs: Vec<LinuxJsEvent> = Vec::new();
    let mut i: usize = 0;
    while i < events.len()
        invariant
            i <= events.len(),
            recs@ == js_records(config@, events@.subrange(0, i as int), time),
        decreases events.len() - i,
    {
        proof {
            let next = events@.subrange(0, i + 1);
            assert(next.drop_last() =~= events@.subrange(0, i as int));
            assert(next.last() == events@[i as int]);
        }
        match translate_event(config, &events[i], time) {
            Some(r) => {
                recs.push(r);
            },
            None => {},
        }
        i = i + 1;
    }
    assert(events@.subrange(0, i as int) =~= events@);
    recs
}

impl LinuxJsEvent {
    /// Appends the 8 bytes of this record.
    pub fn push_bytes(&self, buf: &mut Vec<u8>, order: ByteOrder)
        ensures
            final(buf)@ == old(buf)@ + js_record_bytes(*self, order),
    {
        push_u32_in(buf, order, self.time);
        push_u16_in(buf, order, i16_to_bits(self.value));
        buf.push(self.type_);
        buf.push(self.number);
        assert(buf@ =~= old(buf)@ + js_record_bytes(*self, order));
    }

    /// The record that `bytes` hold, where they are exactly one record.
    pub fn from_bytes(bytes: &[u8], order: ByteOrder) -> (r: Option<LinuxJsEvent>)
        ensures
            bytes@.len() == 8 ==> r == Some(js_record_of_bytes(bytes@, order)),
            bytes@.len() != 8 ==> r is None,
    {
        if bytes.len() != 8 {
            return None;
        }
        let time = read_u32_in(bytes, order, 0);
        let value = i16_from_bits(read_u16_in(bytes, order, 4));
        Some(LinuxJsEvent { time, value, type_: bytes[6], number: bytes[7] })
    }
}

/// The bytes of a sequence of records.
pub fn encode_records(recs: &Vec<LinuxJsEvent>, order: ByteOrder) -> (bytes: Vec<u8>)
    ensures
        bytes@ == js_records_bytes(recs@, order),
{
    let mut bytes: Vec<u8> = Vec::new();
    let mut i: usize = 0;
    while i < recs.len()
        invariant
            i <= recs.len(),
            bytes@ == js_records_bytes(recs@.subrange(0, i as int), order),
        decreases recs.len() - i,
    {
        recs[i].push_bytes(&mut bytes, order);
        proof {
            let next = recs@.subrange(0, i + 1);
            assert(next.drop_last() =~= recs@.subrange(0, i as int));
            assert(next.last() == recs@[i as int]);
        }
        i = i + 1;
    }
    assert(recs@.subrange(0, i as int) =~= recs@);
    bytes
}

/// The bytes one batch of logical events puts on a joystick stream.
pub fn encode_batch(
    config: &DeviceConfig,
    events: &Vec<InputEvent>,
    time: u32,
    order: ByteOrder,
) -> (bytes: Vec<u8>)
    ensures
        bytes@ == js_batch_bytes(config@, events@, time, order),
{
    let recs = translate_batch(config, events, time);
    encode_records(&recs, order)
}

/// `u16::to_ne_bytes`: the two bytes of `x` as the machine lays them out,
/// which is one of the two orders.
#[verifier::external_body]
fn ne_bytes_of_u16(x: u16) -> (b: [u8; 2])
    ensures
        b@ == u16_le(x) || b@ == u16_be(x),
{
    x.to_ne_bytes()
}

/// The byte order in which this machine lays out the number one.
pub fn native_byte_order() -> (order: ByteOrder) {
    let probe = ne_bytes_of_u16(1);
    byte_order_of_probe(probe)
}

/// The byte order that a layout of the number one shows: the low byte
/// stands first in the little-endian order and last in the big-endian one.
pub open spec fn order_of_probe(probe: Seq<u8>) -> ByteOrder {
    if probe.len() > 0 && probe[0] == 1 {
        ByteOrder::Little
    } else {
        ByteOrder::Big
    }
}

/// Reads the byte order off the two bytes that the number one was laid
/// out in.
pub fn byte_order_of_probe(probe: [u8; 2]) -> (order: ByteOrder)
    ensures
        order == order_of_probe(probe@),
        probe@ == u16_le(1) ==> order == ByteOrder::Little,
        probe@ == u16_be(1) ==> order == ByteOrder::Big,
{
    if probe[0] == 1 {
        ByteOrder::Little
    } else {
        ByteOrder::Big
    }
}

} // verus!
