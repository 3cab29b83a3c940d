use rust_deej::geometry::Point;
use rust_deej::text::{push_ascii, push_decimal, TEXT_CAPACITY};

fn decimal(n: u16) -> heapless::String<32> {
    let mut text = heapless::String::new();
    push_decimal(&mut text, n);
    text
}

#[test]
fn decimal_of_single_digits() {
    assert_eq!(decimal(0).as_str(), "0");
    assert_eq!(decimal(1).as_str(), "1");
    assert_eq!(decimal(9).as_str(), "9");
}

#[test]
fn decimal_has_no_leading_zeros() {
    assert_eq!(decimal(10).as_str(), "10");
    assert_eq!(decimal(99).as_str(), "99");
    assert_eq!(decimal(100).as_str(), "100");
    assert_eq!(decimal(1000).as_str(), "1000");
    assert_eq!(decimal(1023).as_str(), "1023");
    assert_eq!(decimal(10000).as_str(), "10000");
    assert_eq!(decimal(40302).as_str(), "40302");
    assert_eq!(decimal(u16::MAX).as_str(), "65535");
}

#[test]
fn decimal_matches_the_standard_formatting_of_every_number() {
    for n in 0..=u16::MAX {
        assert_eq!(decimal(n).as_str(), format!("{}", n));
    }
}

#[test]
fn texts_are_appended_to() {
    let mut text: heapless::String<32> = heapless::String::new();
    push_ascii(&mut text, b'a');
    push_decimal(&mut text, 12);
    push_ascii(&mut text, b'|');
    push_decimal(&mut text, 0);
    assert_eq!(text.as_str(), "a12|0");
}

#[test]
fn a_text_takes_as_many_bytes_as_its_capacity() {
    let mut text: heapless::String<32> = heapless::String::new();
    for _ in 0..TEXT_CAPACITY {
        push_ascii(&mut text, b'x');
    }
    assert_eq!(text.len(), 32);
    assert_eq!(text.as_str(), "xxxxxxxxxxxxxxxxxxxxxxxxxxxxxxxx");
}

#[test]
fn a_point_is_moved_by_an_offset() {
    let point = Point { x: 10, y: -20 };
    assert_eq!(point.offset(5, 7), Point { x: 15, y: -13 });
    assert_eq!(point.offset(-10, 20), Point { x: 0, y: 0 });
    assert_eq!(Point { x: i32::MAX - 1, y: i32::MIN + 1 }.offset(1, -1), Point { x: i32::MAX, y: i32::MIN });
}
