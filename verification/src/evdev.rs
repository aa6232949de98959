//! The evdev record: 24 bytes, little-endian, and the translation of a
//! batch of logical events into the byte stream one write delivers.

use vstd::prelude::*;
use crate::protocol::{
    Axis, Button, InputEvent, LinuxInputEvent, TimeVal, EV_ABS, EV_FF, EV_KEY, EV_SYN, SYN_REPORT,
};
use crate::wire::{
    i32_bits, i32_from_bits, i32_of_bits, i32_to_bits, i64_bits, i64_from_bits, i64_of_bits,
    i64_to_bits, lemma_bits_round_trip, lemma_signed_round_trip, lemma_u16_bytes_round_trip,
    lemma_u16_round_trip, lemma_u32_bytes_round_trip, lemma_u32_round_trip,
    lemma_u64_bytes_round_trip, lemma_u64_round_trip, push_u16_le, push_u32_le, push_u64_le,
    read_u16_le, read_u32_le, read_u64_le, u16_from_le, u16_le, u32_from_le, u32_le, u64_from_le,
    u64_le, ByteOrder,
};

verus! {

/// Length of one evdev record on the wire.
pub const EVDEV_RECORD_LEN: usize = 24;

/// The 24 bytes of one record: seconds and microseconds as signed 64-bit
/// numbers, type and code as unsigned 16-bit numbers, the value as a signed
/// 32-bit number, all little-endian.
pub open spec fn record_bytes(e: LinuxInputEvent) -> Seq<u8> {
    u64_le(i64_bits(e.time.tv_sec)) + u64_le(i64_bits(e.time.tv_usec)) + u16_le(e.event_type)
        + u16_le(e.code) + u32_le(i32_bits(e.value))
}

/// The record that 24 bytes stand for.
pub open spec fn record_of_bytes(b: Seq<u8>) -> LinuxInputEvent {
    LinuxInputEvent {
        time: TimeVal {
            tv_sec: i64_of_bits(u64_from_le(b.subrange(0, 8))),
            tv_usec: i64_of_bits(u64_from_le(b.subrange(8, 16))),
        },
        event_type: u16_from_le(b.subrange(16, 18)),
        code: u16_from_le(b.subrange(18, 20)),
        value: i32_of_bits(u32_from_le(b.subrange(20, 24))),
    }
}

/// The bytes of a sequence of records, one after the other.
pub open spec fn records_bytes(recs: Seq<LinuxInputEvent>) -> Seq<u8>
    decreases recs.len(),
{
    if recs.len() == 0 {
        Seq::empty()
    } else {
        records_bytes(recs.drop_last()) + record_bytes(recs.last())
    }
}

/// The records that a stream of whole records stands for.
pub open spec fn records_of_bytes(b: Seq<u8>) -> Seq<LinuxInputEvent> {
    Seq::new((b.len() / 24) as nat, |i: int| record_of_bytes(b.subrange(24 * i, 24 * i + 24)))
}

/// Whether a record ends a report.
pub open spec fn is_syn_report(e: LinuxInputEvent) -> bool {
    e.event_type == EV_SYN && e.code == SYN_REPORT
}

/// The record one logical event becomes.
pub open spec fn event_record(ev: InputEvent, time: TimeVal) -> LinuxInputEvent {
    match ev {
        InputEvent::Button { button, pressed } => LinuxInputEvent {
            time,
            event_type: EV_KEY,
            code: button.spec_to_ev_code(),
            value: if pressed {
                1
            } else {
                0
            },
        },
        InputEvent::Axis { axis, value } => LinuxInputEvent {
            time,
            event_type: EV_ABS,
            code: axis.spec_to_ev_code(),
            value,
        },
        InputEvent::Raw { event_type, code, value } => LinuxInputEvent {
            time,
            event_type,
            code,
            value,
        },
        InputEvent::Sync => LinuxInputEvent { time, event_type: EV_SYN, code: SYN_REPORT, value: 0 },
    }
}

/// The closing record of a report.
pub open spec fn syn_record(time: TimeVal) -> LinuxInputEvent {
    LinuxInputEvent { time, event_type: EV_SYN, code: SYN_REPORT, value: 0 }
}

/// The records of one batch: one per event, in order, closed by a
/// `SYN_REPORT` where the batch does not end in one. An empty batch has no
/// records.
pub open spec fn batch_records(events: Seq<InputEvent>, time: TimeVal) -> Seq<LinuxInputEvent> {
    let recs = events.map(|i: int, ev: InputEvent| event_record(ev, time));
    if recs.len() == 0 || is_syn_report(recs.last()) {
        recs
    } else {
        recs.push(syn_record(time))
    }
}

/// The bytes one batch puts on the wire.
pub open spec fn batch_bytes(events: Seq<InputEvent>, time: TimeVal) -> Seq<u8> {
    records_bytes(batch_records(events, time))
}

/// One record is 24 bytes long.
pub proof fn lemma_record_len(e: LinuxInputEvent)
    ensures
        record_bytes(e).len() == 24,
{
}

/// A stream of `n` records is `24 * n` bytes long.
pub proof fn lemma_records_len(recs: Seq<LinuxInputEvent>)
    ensures
        records_bytes(recs).len() == 24 * recs.len(),
    decreases recs.len(),
{
    if recs.len() > 0 {
        lemma_records_len(recs.drop_last());
    }
}

/// Decoding the bytes of a record gives the record again.
pub proof fn lemma_record_round_trip(e: LinuxInputEvent)
    ensures
        record_of_bytes(record_bytes(e)) == e,
{
    let b = record_bytes(e);
    assert(b.subrange(0, 8) =~= u64_le(i64_bits(e.time.tv_sec)));
    assert(b.subrange(8, 16) =~= u64_le(i64_bits(e.time.tv_usec)));
    assert(b.subrange(16, 18) =~= u16_le(e.event_type));
    assert(b.subrange(18, 20) =~= u16_le(e.code));
    assert(b.subrange(20, 24) =~= u32_le(i32_bits(e.value)));
    lemma_u64_round_trip(i64_bits(e.time.tv_sec));
    lemma_u64_round_trip(i64_bits(e.time.tv_usec));
    lemma_u16_round_trip(e.event_type, ByteOrder::Little);
    lemma_u16_round_trip(e.code, ByteOrder::Little);
    lemma_u32_round_trip(i32_bits(e.value), ByteOrder::Little);
    lemma_bits_round_trip(0, e.value, e.time.tv_sec);
    lemma_bits_round_trip(0, e.value, e.time.tv_usec);
}

/// Any 24 bytes are the bytes of the record they decode to.
pub proof fn lemma_bytes_round_trip(b: Seq<u8>)
    requires
        b.len() == 24,
    ensures
        record_bytes(record_of_bytes(b)) == b,
{
    let e = record_of_bytes(b);
    lemma_u64_bytes_round_trip(b.subrange(0, 8));
    lemma_u64_bytes_round_trip(b.subrange(8, 16));
    lemma_u16_bytes_round_trip(b.subrange(16, 18));
    lemma_u16_bytes_round_trip(b.subrange(18, 20));
    lemma_u32_bytes_round_trip(b.subrange(20, 24));
    lemma_signed_round_trip(0, u32_from_le(b.subrange(20, 24)), u64_from_le(b.subrange(0, 8)));
    lemma_signed_round_trip(0, u32_from_le(b.subrange(20, 24)), u64_from_le(b.subrange(8, 16)));
    assert(record_bytes(e) =~= b.subrange(0, 8) + b.subrange(8, 16) + b.subrange(16, 18)
        + b.subrange(18, 20) + b.subrange(20, 24));
    assert(b.subrange(0, 8) + b.subrange(8, 16) + b.subrange(16, 18) + b.subrange(18, 20)
        + b.subrange(20, 24) =~= b);
}

/// A stream of records decodes to exactly those records: no record is
/// lost, added or read across a boundary.
pub proof fn lemma_stream_round_trip(recs: Seq<LinuxInputEvent>)
    ensures
        records_of_bytes(records_bytes(recs)) == recs,
    decreases recs.len(),
{
    lemma_records_len(recs);
    let b = records_bytes(recs);
    if recs.len() > 0 {
        let head = recs.drop_last();
        lemma_stream_round_trip(head);
        lemma_records_len(head);
        let hb = records_bytes(head);
        assert forall|i: int| 0 <= i < recs.len() implies #[trigger] records_of_bytes(b)[i]
            == recs[i] by {
            if i < head.len() {
                assert(b.subrange(24 * i, 24 * i + 24) =~= hb.subrange(24 * i, 24 * i + 24));
                assert(records_of_bytes(hb)[i] == head[i]);
            } else {
                assert(b.subrange(24 * i, 24 * i + 24) =~= record_bytes(recs.last()));
                lemma_record_round_trip(recs.last());
            }
        }
    }
    assert(records_of_bytes(b) =~= recs);
}

/// What one batch delivers: every event's record in the order of the
/// events, then nothing or one `SYN_REPORT`; the last record of a batch
/// that is not empty is a `SYN_REPORT`; an empty batch is no bytes; the
/// bytes decode to exactly these records; and no timestamp falls below
/// the one before it.
pub proof fn lemma_batch_shape(events: Seq<InputEvent>, time: TimeVal)
    ensures
        events.len() == 0 ==> batch_bytes(events, time).len() == 0,
        events.len() > 0 ==> is_syn_report(batch_records(events, time).last()),
        events.len() <= batch_records(events, time).len() <= events.len() + 1,
        forall|i: int|
            0 <= i < events.len() ==> #[trigger] batch_records(events, time)[i] == event_record(
                events[i],
                time,
            ),
        batch_bytes(events, time).len() == 24 * batch_records(events, time).len(),
        records_of_bytes(batch_bytes(events, time)) == batch_records(events, time),
        forall|i: int|
            0 <= i < batch_records(events, time).len() ==> (#[trigger] batch_records(
                events,
                time,
            )[i]).time == time,
{
    lemma_records_len(batch_records(events, time));
    lemma_stream_round_trip(batch_records(events, time));
}

impl LinuxInputEvent {
    /// The 24 bytes of this record.
    pub fn to_bytes(&self) -> (out: [u8; 24])
        ensures
            out@ == record_bytes(*self),
    {
        let mut buf: Vec<u8> = Vec::new();
        push_record(&mut buf, self);
        let mut out: [u8; 24] = [0u8; 24];
        let mut i: usize = 0;
        while i < 24
            invariant
                i <= 24,
                buf@ == record_bytes(*self),
                buf@.len() == 24,
                forall|k: int| 0 <= k < i ==> out@[k] == buf@[k],
            decreases 24 - i,
        {
            out.set(i, buf[i]);
            i = i + 1;
        }
        assert(out@ =~= record_bytes(*self));
        out
    }

    /// The record that `bytes` hold, where they are exactly one record.
    pub fn from_bytes(bytes: &[u8]) -> (r: Option<LinuxInputEvent>)
        ensures
            bytes@.len() == 24 ==> r == Some(record_of_bytes(bytes@)),
            bytes@.len() != 24 ==> r is None,
    {
        if bytes.len() != 24 {
            return None;
        }
        let e = read_record(bytes, 0);
        assert(bytes@.subrange(0, 24) =~= bytes@);
        Some(e)
    }

    /// Whether this record is a force-feedback command.
    pub fn is_feedback(&self) -> (r: bool)
        ensures
            r == (self.event_type == EV_FF),
    {
        self.event_type == EV_FF
    }
}

/// Appends the bytes of one record.
pub fn push_record(buf: &mut Vec<u8>, e: &LinuxInputEvent)
    ensures
        final(buf)@ == old(buf)@ + record_bytes(*e),
{
    push_u64_le(buf, i64_to_bits(e.time.tv_sec));
    push_u64_le(buf, i64_to_bits(e.time.tv_usec));
    push_u16_le(buf, e.event_type);
    push_u16_le(buf, e.code);
    push_u32_le(buf, i32_to_bits(e.value));
    assert(buf@ =~= old(buf)@ + record_bytes(*e));
}

/// Reads the record that starts at `at`.
pub fn read_record(bytes: &[u8], at: usize) -> (e: LinuxInputEvent)
    requires
        at + 24 <= bytes@.len(),
    ensures
        e == record_of_bytes(bytes@.subrange(at as int, at + 24)),
{
    let n: usize = bytes.len();
    assert(at + 24 <= n);
    proof {
        let b = bytes@.subrange(at as int, at + 24);
        assert(b.subrange(0, 8) =~= bytes@.subrange(at as int, at + 8));
        assert(b.subrange(8, 16) =~= bytes@.subrange(at + 8, at + 16));
        assert(b.subrange(16, 18) =~= bytes@.subrange(at + 16, at + 18));
        assert(b.subrange(18, 20) =~= bytes@.subrange(at + 18, at + 20));
        assert(b.subrange(20, 24) =~= bytes@.subrange(at + 20, at + 24));
    }
    let tv_sec = i64_from_bits(read_u64_le(bytes, at));
    let tv_usec = i64_from_bits(read_u64_le(bytes, at + 8));
    let event_type = read_u16_le(bytes, at + 16);
    let code = read_u16_le(bytes, at + 18);
    let value = i32_from_bits(read_u32_le(bytes, at + 20));
    LinuxInputEvent { time: TimeVal { tv_sec, tv_usec }, event_type, code, value }
}

/// Decodes a stream of whole records; `None` where the length is no
/// multiple of the record length.
pub fn decode_records(bytes: &[u8]) -> (r: Option<Vec<LinuxInputEvent>>)
    ensures
        bytes@.len() % 24 == 0 ==> r is Some && r->0@ == records_of_bytes(bytes@),
        bytes@.len() % 24 != 0 ==> r is None,
{
    let n: usize = bytes.len();
    if n % 24 != 0 {
        return None;
    }
    let count: usize = n / 24;
    let mut out: Vec<LinuxInputEvent> = Vec::new();
    let mut i: usize = 0;
    while i < count
        invariant
            i <= count,
            count == n / 24,
            n == bytes@.len(),
            n % 24 == 0,
            out@.len() == i,
            forall|k: int| 0 <= k < i ==> #[trigger] out@[k] == records_of_bytes(bytes@)[k],
        decreases count - i,
    {
        let e = read_record(bytes, 24 * i);
        out.push(e);
        i = i + 1;
    }
    assert(out@ =~= records_of_bytes(bytes@));
    Some(out)
}

impl InputEvent {
    /// The evdev record this event becomes, stamped with `time`.
    pub fn to_linux_input_event(&self, time: TimeVal) -> (r: LinuxInputEvent)
        ensures
            r == event_record(*self, time),
    {
        match *self {
            InputEvent::Button { button, pressed } => LinuxInputEvent {
                time,
                event_type: EV_KEY,
                code: button.to_ev_code(),
                value: if pressed {
                    1
                } else {
                    0
                },
            },
            InputEvent::Axis { axis, value } => LinuxInputEvent {
                time,
                event_type: EV_ABS,
                code: axis.to_ev_code(),
                value,
            },
            InputEvent::Raw { event_type, code, value } => LinuxInputEvent {
                time,
                event_type,
                code,
                value,
            },
            InputEvent::Sync => LinuxInputEvent {
                time,
                event_type: EV_SYN,
                code: SYN_REPORT,
                value: 0,
            },
        }
    }
}

/// The records of one batch.
pub fn translate_batch(events: &Vec<InputEvent>, time: TimeVal) -> (recs: Vec<LinuxInputEvent>)
    ensures
        recs@ == batch_records(events@, time),
{
    let ghost mapped = events@.map(|i: int, ev: InputEvent| event_record(ev, time));
    let mut recs: Vec<LinuxInputEvent> = Vec::new();
    let mut i: usize = 0;
    while i < events.len()
        invariant
            i <= events.len(),
            mapped == events@.map(|i: int, ev: InputEvent| event_record(ev, time)),
            recs@ == mapped.subrange(0, i as int),
        decreases events.len() - i,
    {
        let rec = events[i].to_linux_input_event(time);
        recs.push(rec);
        i = i + 1;
        assert(recs@ =~= mapped.subrange(0, i as int));
    }
    assert(recs@ =~= mapped);
    let n: usize = recs.len();
    if n > 0 {
        let last = recs[n - 1];
        if !(last.event_type == EV_SYN && last.code == SYN_REPORT) {
            recs.push(LinuxInputEvent { time, event_type: EV_SYN, code: SYN_REPORT, value: 0 });
        }
    }
    recs
}

/// The bytes of a sequence of records.
pub fn encode_records(recs: &Vec<LinuxInputEvent>) -> (bytes: Vec<u8>)
    ensures
        bytes@ == records_bytes(recs@),
{
    let mut bytes: Vec<u8> = Vec::new();
    let mut i: usize = 0;
    while i < recs.len()
        invariant
            i <= recs.len(),
            bytes@ == records_bytes(recs@.subrange(0, i as int)),
        decreases recs.len() - i,
    {
        push_record(&mut bytes, &recs[i]);
        proof {
            let next = recs@.subrange(0, i + 1);
            assert(next.drop_last() =~= recs@.subrange(0, i as int));
            assert(next.last() == recs@[i as int]);
        }
        i = i + 1;
    }
    assert(recs@.subrange(0, i as int) =~= recs@);
    bytes
}

/// The bytes one batch of logical events puts on an event stream.
pub fn encode_batch(events: &Vec<InputEvent>, time: TimeVal) -> (bytes: Vec<u8>)
    ensures
        bytes@ == batch_bytes(events@, time),
{
    let recs = translate_batch(events, time);
    encode_records(&recs)
}

} // verus!
