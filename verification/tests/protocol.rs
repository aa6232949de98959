use vimputti::protocol::{Axis, AxisConfig, BusType, Button, DeviceConfig, TimeVal};
use vimputti::text::{
    contains_text, decimal_string, hex_string, is_all_digits, parse_decimal, push_decimal3, push_decimal_wide,
    push_hex4, push_hex4_upper, replace_spaces, starts_with, str_equals, suffix_from,
};
use vimputti::wire::{
    i16_from_bits, i16_to_bits, i32_from_bits, i32_to_bits, i64_from_bits, i64_to_bits,
    push_u16_in, push_u16_le, push_u32_be, push_u32_in, push_u32_le, push_u64_le, read_u16_in,
    read_u16_le, read_u32_in, read_u32_le, read_u64_le, ByteOrder,
};

#[test]
fn button_codes_are_those_of_the_table() {
    let table = [
        (Button::A, 0x130u16),
        (Button::B, 0x131),
        (Button::X, 0x133),
        (Button::Y, 0x134),
        (Button::LeftBumper, 0x136),
        (Button::RightBumper, 0x137),
        (Button::LeftTrigger, 0x138),
        (Button::RightTrigger, 0x139),
        (Button::Select, 0x13a),
        (Button::Start, 0x13b),
        (Button::Guide, 0x13c),
        (Button::LeftStick, 0x13d),
        (Button::RightStick, 0x13e),
        (Button::DPadUp, 0x220),
        (Button::DPadDown, 0x221),
        (Button::DPadLeft, 0x222),
        (Button::DPadRight, 0x223),
    ];
    for (button, code) in table {
        assert_eq!(button.to_ev_code(), code);
        assert_eq!(Button::from_ev_code(code), Some(button));
    }
}

#[test]
fn axis_codes_are_those_of_the_table() {
    let table = [
        (Axis::LeftStickX, 0x00u16),
        (Axis::LeftStickY, 0x01),
        (Axis::LeftTrigger, 0x02),
        (Axis::RightStickX, 0x03),
        (Axis::RightStickY, 0x04),
        (Axis::RightTrigger, 0x05),
        (Axis::DPadX, 0x10),
        (Axis::DPadY, 0x11),
    ];
    for (axis, code) in table {
        assert_eq!(axis.to_ev_code(), code);
        assert_eq!(Axis::from_ev_code(code), Some(axis));
    }
}

#[test]
fn custom_codes_pass_through_unchanged() {
    assert_eq!(Button::Custom(317).to_ev_code(), 317);
    assert_eq!(Button::Custom(0x130).to_ev_code(), 0x130);
    assert_eq!(Axis::Custom(0x28).to_ev_code(), 0x28);
}

#[test]
fn codes_without_a_name_name_nothing() {
    assert_eq!(Button::from_ev_code(0x132), None);
    assert_eq!(Button::from_ev_code(0x135), None);
    assert_eq!(Button::from_ev_code(0), None);
    assert_eq!(Button::from_ev_code(0xffff), None);
    assert_eq!(Axis::from_ev_code(0x06), None);
    assert_eq!(Axis::from_ev_code(0x12), None);
}

#[test]
fn every_named_code_round_trips() {
    for code in 0..=u16::MAX {
        if let Some(button) = Button::from_ev_code(code) {
            assert_eq!(button.to_ev_code(), code);
            assert!(!matches!(button, Button::Custom(_)));
        }
        if let Some(axis) = Axis::from_ev_code(code) {
            assert_eq!(axis.to_ev_code(), code);
            assert!(!matches!(axis, Axis::Custom(_)));
        }
    }
}

#[test]
fn bus_numbers() {
    assert_eq!(BusType::Usb.code(), 0x03);
    assert_eq!(BusType::Bluetooth.code(), 0x05);
    assert_eq!(BusType::Virtual.code(), 0x06);
    assert_eq!(BusType::from_code(3), BusType::Usb);
    assert_eq!(BusType::from_code(5), BusType::Bluetooth);
    assert_eq!(BusType::from_code(6), BusType::Virtual);
    assert_eq!(BusType::from_code(0x19), BusType::Virtual);
}

#[test]
fn axis_config_new_has_no_dead_zone() {
    let a = AxisConfig::new(Axis::DPadX, -1, 1);
    assert_eq!(a, AxisConfig { axis: Axis::DPadX, min: -1, max: 1, fuzz: 0, flat: 0 });
}

#[test]
fn duplicate_copies_the_configuration() {
    let c = DeviceConfig {
        name: "Pad".to_string(),
        vendor_id: 1,
        product_id: 2,
        version: 3,
        bustype: BusType::Bluetooth,
        buttons: vec![Button::A, Button::Custom(9)],
        axes: vec![AxisConfig::new(Axis::LeftStickX, -5, 5)],
    };
    assert_eq!(c.duplicate(), c);
}

#[test]
fn numbers_in_decimal_and_hexadecimal() {
    assert_eq!(decimal_string(0), "0");
    assert_eq!(decimal_string(7), "7");
    assert_eq!(decimal_string(1234567890), "1234567890");
    assert_eq!(decimal_string(u64::MAX), "18446744073709551615");
    assert_eq!(hex_string(0), "0");
    assert_eq!(hex_string(0xb), "b");
    assert_eq!(hex_string(0xdead_beef), "deadbeef");
    assert_eq!(hex_string(u64::MAX), "ffffffffffffffff");
    let mut s = String::new();
    push_hex4(&mut s, 0x45e);
    s.push(' ');
    push_hex4_upper(&mut s, 0xab0c);
    s.push(' ');
    push_decimal3(&mut s, 1);
    s.push(' ');
    push_decimal3(&mut s, 42);
    s.push(' ');
    push_decimal3(&mut s, 1000);
    s.push(' ');
    push_decimal_wide(&mut s, 64 + u64::MAX as u128);
    assert_eq!(s, "045e AB0C 001 042 1000 18446744073709551679");
}

#[test]
fn spaces_are_replaced() {
    assert_eq!(replace_spaces("Microsoft X-Box 360 pad", "_"), "Microsoft_X-Box_360_pad");
    assert_eq!(replace_spaces(" a  b ", "\\x20"), "\\x20a\\x20\\x20b\\x20");
    assert_eq!(replace_spaces("", "_"), "");
    assert_eq!(replace_spaces("ä ö", "_"), "ä_ö");
}

#[test]
fn texts_are_compared_and_cut() {
    assert!(str_equals("/dev/uinput", "/dev/uinput"));
    assert!(!str_equals("/dev/uinput", "/dev/uinpu"));
    assert!(!str_equals("a", "b"));
    assert!(starts_with("/dev/input/event3", "/dev/input/"));
    assert!(starts_with("abc", ""));
    assert!(!starts_with("/dev/inpu", "/dev/input/"));
    assert!(!starts_with("/dev/inputs/x", "/dev/input/"));
    assert_eq!(suffix_from("/dev/input/js12", 13), "12");
    assert_eq!(suffix_from("abc", 3), "");
}

#[test]
fn numbers_are_parsed() {
    assert!(is_all_digits("0123456789"));
    assert!(!is_all_digits(""));
    assert!(!is_all_digits("12a"));
    assert!(!is_all_digits("+5"));
    assert_eq!(parse_decimal("0"), Some(0));
    assert_eq!(parse_decimal("007"), Some(7));
    assert_eq!(parse_decimal("18446744073709551615"), Some(u64::MAX));
    assert_eq!(parse_decimal("18446744073709551616"), None);
    assert_eq!(parse_decimal("99999999999999999999999"), None);
    assert_eq!(parse_decimal(""), None);
    assert_eq!(parse_decimal("-1"), None);
}

#[test]
fn integers_are_laid_out_byte_by_byte() {
    let mut buf = Vec::new();
    push_u16_le(&mut buf, 0x1234);
    push_u32_le(&mut buf, 0x89ab_cdef);
    push_u64_le(&mut buf, 0x0102_0304_0506_0708);
    push_u32_be(&mut buf, 0xfeed_cafe);
    push_u16_in(&mut buf, ByteOrder::Big, 0x1234);
    push_u32_in(&mut buf, ByteOrder::Big, 0x89ab_cdef);
    let mut expected = Vec::new();
    expected.extend_from_slice(&0x1234u16.to_le_bytes());
    expected.extend_from_slice(&0x89ab_cdefu32.to_le_bytes());
    expected.extend_from_slice(&0x0102_0304_0506_0708u64.to_le_bytes());
    expected.extend_from_slice(&0xfeed_cafeu32.to_be_bytes());
    expected.extend_from_slice(&0x1234u16.to_be_bytes());
    expected.extend_from_slice(&0x89ab_cdefu32.to_be_bytes());
    assert_eq!(buf, expected);
    assert_eq!(read_u16_le(&buf, 0), 0x1234);
    assert_eq!(read_u32_le(&buf, 2), 0x89ab_cdef);
    assert_eq!(read_u64_le(&buf, 6), 0x0102_0304_0506_0708);
    assert_eq!(read_u32_in(&buf, ByteOrder::Big, 14), 0xfeed_cafe);
    assert_eq!(read_u16_in(&buf, ByteOrder::Big, 18), 0x1234);
    assert_eq!(read_u32_in(&buf, ByteOrder::Little, 2), 0x89ab_cdef);
    assert_eq!(read_u16_in(&buf, ByteOrder::Little, 0), 0x1234);
}

#[test]
fn signed_numbers_are_twos_complement() {
    for v in [0i32, 1, -1, i32::MIN, i32::MAX, -20000, 50000] {
        assert_eq!(i32_to_bits(v), v as u32);
        assert_eq!(i32_from_bits(v as u32), v);
    }
    for v in [0i64, 1, -1, i64::MIN, i64::MAX, 1_700_000_000] {
        assert_eq!(i64_to_bits(v), v as u64);
        assert_eq!(i64_from_bits(v as u64), v);
    }
    for v in [0i16, 1, -1, i16::MIN, i16::MAX] {
        assert_eq!(i16_to_bits(v), v as u16);
        assert_eq!(i16_from_bits(v as u16), v);
    }
}

#[test]
fn a_text_is_found_inside_another() {
    assert!(contains_text("No such file", "No such"));
    assert!(contains_text("error: No such", "No such"));
    assert!(contains_text("a Bad file b", "Bad file"));
    assert!(contains_text("abc", ""));
    assert!(contains_text("", ""));
    assert!(contains_text("abc", "abc"));
    assert!(contains_text("aab", "ab"));
    assert!(!contains_text("abc", "abcd"));
    assert!(!contains_text("", "a"));
    assert!(!contains_text("No suc", "No such"));
    assert!(!contains_text("abab", "ba b"));
}

#[test]
fn a_clock_reading_becomes_a_timestamp() {
    assert_eq!(
        TimeVal::from_clock(1_700_000_000, 250_000),
        TimeVal { tv_sec: 1_700_000_000, tv_usec: 250_000 }
    );
    assert_eq!(TimeVal::from_clock(0, 0), TimeVal { tv_sec: 0, tv_usec: 0 });
    assert_eq!(
        TimeVal::from_clock(i64::MAX as u64, 999_999),
        TimeVal { tv_sec: i64::MAX, tv_usec: 999_999 }
    );
}
