use rust_deej::telemetry::{telemetry_line, telemetry_values};

#[test]
fn values_are_scaled_to_the_telemetry_range() {
    assert_eq!(telemetry_values(&[0, 385, 770, 700]), [0, 511, 1023, 930]);
    assert_eq!(telemetry_values(&[703, 1, 769, 65535]), [933, 1, 1021, 1023]);
}

#[test]
fn line_of_a_reading_at_each_end_and_two_in_between() {
    let line = telemetry_line(&telemetry_values(&[0, 385, 770, 700]));
    assert_eq!(line.as_str(), "0|511|1023|930\r\n");
}

#[test]
fn line_holds_the_values_in_channel_order() {
    assert_eq!(telemetry_line(&[1, 22, 333, 1023]).as_str(), "1|22|333|1023\r\n");
    assert_eq!(telemetry_line(&[0, 0, 0, 0]).as_str(), "0|0|0|0\r\n");
    assert_eq!(telemetry_line(&[10, 100, 1000, 9]).as_str(), "10|100|1000|9\r\n");
}

#[test]
fn line_fits_the_largest_values() {
    let line = telemetry_line(&[65535, 65535, 65535, 65535]);
    assert_eq!(line.as_str(), "65535|65535|65535|65535\r\n");
    assert_eq!(line.len(), 25);
}
