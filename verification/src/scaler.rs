//! Linear remapping of a reading from one integer range onto another.
use vstd::prelude::*;
use crate::globals::MAX_ANALOG_VALUE;

verus! {

/// The value that `value` maps to when `[old_min, old_max]` is laid linearly
/// onto `[new_min, new_max]`: inputs above `old_max` count as `old_max`, and
/// the quotient is rounded down.
pub open spec fn scaled(value: int, old_min: int, old_max: int, new_min: int, new_max: int) -> int {
    let clamped = if value > old_max { old_max } else { value };
    (clamped - old_min) * (new_max - new_min) / (old_max - old_min) + new_min
}

/// Whether `scaled` is meaningful on these bounds and this value: the source
/// range is not empty, the target range is not reversed, and the value does
/// not lie below the source range.
pub open spec fn scalable(value: int, old_min: int, old_max: int, new_min: int, new_max: int) -> bool {
    old_min < old_max && new_min <= new_max && old_min <= value
}

/// A scaled value never leaves the target range.
pub proof fn lemma_scaled_in_range(value: int, old_min: int, old_max: int, new_min: int, new_max: int)
    requires
        scalable(value, old_min, old_max, new_min, new_max),
    ensures
        new_min <= scaled(value, old_min, old_max, new_min, new_max) <= new_max,
{
    let clamped = if value > old_max { old_max } else { value };
    let num = (clamped - old_min) * (new_max - new_min);
    let den = old_max - old_min;
    let width = new_max - new_min;
    assert(0 <= num <= den * width) by (nonlinear_arith)
        requires
            0 <= clamped - old_min <= den,
            0 <= width,
            num == (clamped - old_min) * width,
    ;
    assert(0 <= num / den <= width) by (nonlinear_arith)
        requires
            0 <= num <= den * width,
            0 < den,
    ;
}

/// The ends of the source range map to the ends of the target range.
pub proof fn lemma_scaled_endpoints(old_min: int, old_max: int, new_min: int, new_max: int)
    requires
        old_min < old_max,
        new_min <= new_max,
    ensures
        scaled(old_min, old_min, old_max, new_min, new_max) == new_min,
        scaled(old_max, old_min, old_max, new_min, new_max) == new_max,
{
    let den = old_max - old_min;
    let width = new_max - new_min;
    assert(0 * width / den == 0) by (nonlinear_arith)
        requires
            0 < den,
    ;
    assert(den * width / den == width) by (nonlinear_arith)
        requires
            0 < den,
    ;
}

/// Every value above the source range scales as the top of that range does.
pub proof fn lemma_scaled_clamps(value: int, old_min: int, old_max: int, new_min: int, new_max: int)
    requires
        old_min < old_max,
        new_min <= new_max,
        value > old_max,
    ensures
        scaled(value, old_min, old_max, new_min, new_max) == scaled(
            old_max,
            old_min,
            old_max,
            new_min,
            new_max,
        ),
        scaled(value, old_min, old_max, new_min, new_max) == new_max,
{
    lemma_scaled_endpoints(old_min, old_max, new_min, new_max);
}

/// Scaling keeps the order of its inputs.
pub proof fn lemma_scaled_monotonic(
    low: int,
    high: int,
    old_min: int,
    old_max: int,
    new_min: int,
    new_max: int,
)
    requires
        scalable(low, old_min, old_max, new_min, new_max),
        low <= high,
    ensures
        scaled(low, old_min, old_max, new_min, new_max) <= scaled(
            high,
            old_min,
            old_max,
            new_min,
            new_max,
        ),
{
    let a = if low > old_max { old_max } else { low };
    let b = if high > old_max { old_max } else { high };
    let den = old_max - old_min;
    let width = new_max - new_min;
    assert((a - old_min) * width <= (b - old_min) * width) by (nonlinear_arith)
        requires
            a <= b,
            0 <= width,
    ;
    assert((a - old_min) * width / den <= (b - old_min) * width / den) by (nonlinear_arith)
        requires
            (a - old_min) * width <= (b - old_min) * width,
            0 < den,
    ;
}

/// Maps `value` from `[old_min, old_max]` onto `[new_min, new_max]`.
///
/// A value above `old_max` is taken as `old_max`. The source range must not
/// be empty and the value must not lie below it.
pub fn scale_to_range(value: u16, old_min: u16, old_max: u16, new_min: u16, new_max: u16) -> (output: u16)
    requires
        scalable(value as int, old_min as int, old_max as int, new_min as int, new_max as int),
    ensures
        output == scaled(value as int, old_min as int, old_max as int, new_min as int, new_max as int),
        new_min <= output <= new_max,
        value == old_min ==> output == new_min,
        value >= old_max ==> output == new_max,
{
    let old_range: u16 = old_max - old_min;
    let new_range: u16 = new_max - new_min;
    let value: u16 = if value > old_max { old_max } else { value };
    proof {
        lemma_scaled_in_range(value as int, old_min as int, old_max as int, new_min as int, new_max as int);
        lemma_scaled_endpoints(old_min as int, old_max as int, new_min as int, new_max as int);
        assert((value - old_min) * new_range <= 0xffff * 0xffff) by (nonlinear_arith)
            requires
                0 <= value - old_min <= 0xffff,
                0 <= new_range <= 0xffff,
        ;
    }
    let product: u32 = (value as u32 - old_min as u32) * new_range as u32;
    (product / old_range as u32 + new_min as u32) as u16
}

/// Maps a raw reading onto the telemetry range `[0, 1023]`.
pub fn scale_analog_input_to_1023(value: u16) -> (output: u16)
    ensures
        output == scaled(value as int, 0, MAX_ANALOG_VALUE as int, 0, 1023),
        output <= 1023,
{
    scale_to_range(value, 0, MAX_ANALOG_VALUE, 0, 1023)
}

/// Maps a raw reading onto the percentage range `[0, 100]`.
pub fn scale_analog_input_to_100(value: u16) -> (output: u16)
    ensures
        output == scaled(value as int, 0, MAX_ANALOG_VALUE as int, 0, 100),
        output <= 100,
{
    scale_to_range(value, 0, MAX_ANALOG_VALUE, 0, 100)
}

} // verus!
