use rust_deej::globals::ZERO_CUTOFF;
use rust_deej::sampler::{filter_reading, MultiSample, MAX_SAMPLES};

#[test]
fn readings_below_the_cutoff_count_as_zero() {
    for raw in 0..ZERO_CUTOFF {
        assert_eq!(filter_reading(raw), 0);
    }
    assert_eq!(filter_reading(34), 0);
}

#[test]
fn readings_from_the_cutoff_on_are_kept() {
    assert_eq!(filter_reading(35), 35);
    assert_eq!(filter_reading(36), 36);
    assert_eq!(filter_reading(770), 770);
    assert_eq!(filter_reading(u16::MAX), u16::MAX);
}

#[test]
fn a_fresh_average_holds_no_sample() {
    assert_eq!(MultiSample::new().len(), 0);
}

#[test]
fn mean_of_equal_samples_is_the_sample() {
    for count in [1u32, 2, 3, 100, 128] {
        let mut average = MultiSample::new();
        for _ in 0..count {
            average.add(417);
        }
        assert_eq!(average.len(), count);
        assert_eq!(average.mean(), 417);
    }
}

#[test]
fn mean_of_equal_samples_below_the_cutoff_is_zero() {
    let mut average = MultiSample::new();
    for _ in 0..128 {
        average.add(20);
    }
    assert_eq!(average.mean(), 0);
}

#[test]
fn mean_is_rounded_down() {
    let mut average = MultiSample::new();
    average.add(100);
    average.add(101);
    assert_eq!(average.mean(), 100);
    average.add(102);
    assert_eq!(average.mean(), 101);
    average.add(40);
    assert_eq!(average.mean(), 85);
}

#[test]
fn samples_below_the_cutoff_pull_the_mean_down() {
    let mut average = MultiSample::new();
    average.add(100);
    average.add(20);
    average.add(51);
    assert_eq!(average.mean(), 50);
    let mut noisy = MultiSample::new();
    noisy.add(34);
    noisy.add(35);
    assert_eq!(noisy.mean(), 17);
}

#[test]
fn the_largest_run_of_the_largest_samples_does_not_overflow() {
    let mut average = MultiSample::new();
    for _ in 0..MAX_SAMPLES {
        average.add(u16::MAX);
    }
    assert_eq!(average.len(), 65537);
    assert_eq!(average.mean(), u16::MAX);
}
