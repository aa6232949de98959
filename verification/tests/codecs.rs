use vimputti::evdev::{decode_records, encode_batch};
use vimputti::joystick::{
    byte_order_of_probe, clamp_axis_value, native_byte_order, translate_batch,
};
use vimputti::wire::ByteOrder;
use vimputti::protocol::{
    Axis, AxisConfig, BusType, Button, DeviceConfig, InputEvent, LinuxInputEvent, LinuxJsEvent,
    TimeVal,
};

fn pad() -> DeviceConfig {
    DeviceConfig {
        name: "X360".to_string(),
        vendor_id: 0x045e,
        product_id: 0x028e,
        version: 0x0110,
        bustype: BusType::Usb,
        buttons: vec![Button::A, Button::B, Button::X, Button::Y, Button::Start],
        axes: vec![AxisConfig::new(Axis::LeftStickX, -32768, 32767)],
    }
}

#[test]
fn button_a_press_round_trips_through_the_evdev_record() {
    let time = TimeVal { tv_sec: 1_700_000_000, tv_usec: 123_456 };
    let rec = InputEvent::Button { button: Button::A, pressed: true }.to_linux_input_event(time);
    let bytes = rec.to_bytes();
    assert_eq!(bytes.len(), 24);
    let back = LinuxInputEvent::from_bytes(&bytes).unwrap();
    assert_eq!(back.event_type, 1);
    assert_eq!(back.code, 0x130);
    assert_eq!(back.value, 1);
    assert_eq!(back.time, time);
}

#[test]
fn evdev_record_layout_is_little_endian() {
    let rec = LinuxInputEvent::new(TimeVal { tv_sec: 1, tv_usec: -1 }, 0x0102, 0x0304, -2);
    let bytes = rec.to_bytes();
    let mut expected = Vec::new();
    expected.extend_from_slice(&1i64.to_le_bytes());
    expected.extend_from_slice(&(-1i64).to_le_bytes());
    expected.extend_from_slice(&0x0102u16.to_le_bytes());
    expected.extend_from_slice(&0x0304u16.to_le_bytes());
    expected.extend_from_slice(&(-2i32).to_le_bytes());
    assert_eq!(bytes.to_vec(), expected);
}

#[test]
fn one_button_batch_is_two_records() {
    let time = TimeVal { tv_sec: 5, tv_usec: 6 };
    let bytes = encode_batch(&vec![InputEvent::Button { button: Button::A, pressed: true }], time);
    assert_eq!(bytes.len(), 48);
    let recs = decode_records(&bytes).unwrap();
    assert_eq!(recs.len(), 2);
    assert_eq!((recs[0].event_type, recs[0].code, recs[0].value), (1, 0x130, 1));
    assert_eq!((recs[1].event_type, recs[1].code, recs[1].value), (0, 0, 0));
}

#[test]
fn empty_batch_is_no_bytes() {
    let bytes = encode_batch(&vec![], TimeVal { tv_sec: 5, tv_usec: 6 });
    assert_eq!(bytes.len(), 0);
}

#[test]
fn batch_ending_in_sync_gets_no_second_sync() {
    let time = TimeVal { tv_sec: 5, tv_usec: 6 };
    let bytes = encode_batch(
        &vec![InputEvent::Axis { axis: Axis::RightStickY, value: -20000 }, InputEvent::Sync],
        time,
    );
    assert_eq!(bytes.len(), 48);
    let recs = decode_records(&bytes).unwrap();
    assert_eq!((recs[0].event_type, recs[0].code, recs[0].value), (3, 0x04, -20000));
    assert_eq!((recs[1].event_type, recs[1].code, recs[1].value), (0, 0, 0));
}

#[test]
fn sync_in_the_middle_does_not_close_the_batch() {
    let time = TimeVal { tv_sec: 5, tv_usec: 6 };
    let bytes = encode_batch(
        &vec![InputEvent::Sync, InputEvent::Raw { event_type: 4, code: 4, value: 9 }],
        time,
    );
    let recs = decode_records(&bytes).unwrap();
    assert_eq!(recs.len(), 3);
    assert_eq!((recs[2].event_type, recs[2].code), (0, 0));
}

#[test]
fn decode_refuses_a_torn_stream() {
    assert!(decode_records(&[0u8; 25]).is_none());
    assert!(LinuxInputEvent::from_bytes(&[0u8; 23]).is_none());
}

#[test]
fn axis_values_are_clamped() {
    assert_eq!(clamp_axis_value(50000), 32767);
    assert_eq!(clamp_axis_value(-50000), -32768);
    assert_eq!(clamp_axis_value(-32768), -32768);
    assert_eq!(clamp_axis_value(32767), 32767);
    assert_eq!(clamp_axis_value(12), 12);
}

#[test]
fn joystick_record_for_an_axis_out_of_range() {
    let config = pad();
    let recs = translate_batch(
        &config,
        &vec![InputEvent::Axis { axis: Axis::LeftStickX, value: 50000 }],
        77,
    );
    assert_eq!(recs.len(), 1);
    assert_eq!(recs[0], LinuxJsEvent { time: 77, value: 32767, type_: 2, number: 0 });
    let mut bytes = Vec::new();
    recs[0].push_bytes(&mut bytes, ByteOrder::Little);
    assert_eq!(bytes, vec![77, 0, 0, 0, 0xff, 0x7f, 2, 0]);
    let back = LinuxJsEvent::from_bytes(&bytes, ByteOrder::Little).unwrap();
    assert_eq!(back, recs[0]);
    let mut big = Vec::new();
    recs[0].push_bytes(&mut big, ByteOrder::Big);
    assert_eq!(big, vec![0, 0, 0, 77, 0x7f, 0xff, 2, 0]);
    assert_eq!(LinuxJsEvent::from_bytes(&big, ByteOrder::Big).unwrap(), recs[0]);
}

#[test]
fn joystick_numbers_follow_the_configuration() {
    let config = pad();
    let recs = translate_batch(
        &config,
        &vec![
            InputEvent::Button { button: Button::Start, pressed: true },
            InputEvent::Button { button: Button::Guide, pressed: true },
            InputEvent::Sync,
            InputEvent::Raw { event_type: 1, code: 0x130, value: 1 },
            InputEvent::Button { button: Button::B, pressed: false },
        ],
        1,
    );
    assert_eq!(recs.len(), 2);
    assert_eq!(recs[0], LinuxJsEvent { time: 1, value: 1, type_: 1, number: 4 });
    assert_eq!(recs[1], LinuxJsEvent { time: 1, value: 0, type_: 1, number: 1 });
}

#[test]
fn the_byte_order_is_read_off_a_layout_of_the_number_one() {
    assert_eq!(byte_order_of_probe([1, 0]), ByteOrder::Little);
    assert_eq!(byte_order_of_probe([0, 1]), ByteOrder::Big);
    assert_eq!(byte_order_of_probe(1u16.to_le_bytes()), ByteOrder::Little);
    assert_eq!(byte_order_of_probe(1u16.to_be_bytes()), ByteOrder::Big);
    assert_eq!(native_byte_order(), byte_order_of_probe(1u16.to_ne_bytes()));
    let expected =
        if 0x0102u16.to_ne_bytes() == [0x02, 0x01] { ByteOrder::Little } else { ByteOrder::Big };
    assert_eq!(native_byte_order(), expected);
}
