use rust_deej::globals::MAX_ANALOG_VALUE;
use rust_deej::{scale_analog_input_to_100, scale_analog_input_to_1023, scale_to_range};

#[test]
fn scale_maps_range_ends_onto_range_ends() {
    assert_eq!(scale_to_range(10, 10, 20, 100, 200), 100);
    assert_eq!(scale_to_range(20, 10, 20, 100, 200), 200);
    assert_eq!(scale_to_range(0, 0, 1, 0, 65535), 0);
    assert_eq!(scale_to_range(1, 0, 1, 0, 65535), 65535);
}

#[test]
fn scale_is_linear_and_rounds_down() {
    assert_eq!(scale_to_range(15, 10, 20, 100, 200), 150);
    assert_eq!(scale_to_range(385, 0, 770, 0, 1023), 511);
    assert_eq!(scale_to_range(1, 0, 3, 0, 10), 3);
    assert_eq!(scale_to_range(2, 0, 3, 0, 10), 6);
    assert_eq!(scale_to_range(50, 0, 100, 0, 80), 40);
    assert_eq!(scale_to_range(99, 0, 100, 0, 80), 79);
}

#[test]
fn scale_clamps_values_above_the_source_range() {
    assert_eq!(scale_to_range(21, 10, 20, 100, 200), 200);
    assert_eq!(scale_to_range(65535, 10, 20, 100, 200), 200);
    assert_eq!(scale_to_range(771, 0, 770, 0, 1023), scale_to_range(770, 0, 770, 0, 1023));
}

#[test]
fn scale_handles_the_widest_ranges() {
    assert_eq!(scale_to_range(65535, 0, 65535, 0, 65535), 65535);
    assert_eq!(scale_to_range(65534, 0, 65535, 0, 65535), 65534);
    assert_eq!(scale_to_range(32768, 0, 65535, 0, 65535), 32768);
}

#[test]
fn scale_onto_a_single_value_gives_that_value() {
    assert_eq!(scale_to_range(0, 0, 100, 7, 7), 7);
    assert_eq!(scale_to_range(63, 0, 100, 7, 7), 7);
    assert_eq!(scale_to_range(100, 0, 100, 7, 7), 7);
}

#[test]
fn scale_stays_in_the_target_range_for_every_reading() {
    for value in 0..=u16::MAX {
        let output = scale_to_range(value, 0, 770, 200, 300);
        assert!((200..=300).contains(&output));
    }
}

#[test]
fn scale_keeps_the_order_of_readings() {
    let mut previous = 0;
    for value in 0..=1000u16 {
        let output = scale_analog_input_to_1023(value);
        assert!(previous <= output);
        previous = output;
    }
}

#[test]
fn percent_of_zero_and_of_the_ceiling() {
    assert_eq!(scale_analog_input_to_100(0), 0);
    assert_eq!(scale_analog_input_to_100(MAX_ANALOG_VALUE), 100);
}

#[test]
fn percent_of_readings_in_between() {
    assert_eq!(scale_analog_input_to_100(7), 0);
    assert_eq!(scale_analog_input_to_100(8), 1);
    assert_eq!(scale_analog_input_to_100(384), 49);
    assert_eq!(scale_analog_input_to_100(385), 50);
    assert_eq!(scale_analog_input_to_100(769), 99);
    assert_eq!(scale_analog_input_to_100(771), 100);
    assert_eq!(scale_analog_input_to_100(u16::MAX), 100);
}

#[test]
fn telemetry_scale_of_readings() {
    assert_eq!(scale_analog_input_to_1023(0), 0);
    assert_eq!(scale_analog_input_to_1023(1), 1);
    assert_eq!(scale_analog_input_to_1023(385), 511);
    assert_eq!(scale_analog_input_to_1023(700), 930);
    assert_eq!(scale_analog_input_to_1023(703), 933);
    assert_eq!(scale_analog_input_to_1023(769), 1021);
    assert_eq!(scale_analog_input_to_1023(MAX_ANALOG_VALUE), 1023);
    assert_eq!(scale_analog_input_to_1023(u16::MAX), 1023);
}
