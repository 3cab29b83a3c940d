//! The telemetry report: every channel on the range `[0, 1023]`, as one line
//! of text.
use vstd::prelude::*;
use crate::globals::{INPUT_COUNT, MAX_ANALOG_VALUE};
use crate::scaler::{scale_analog_input_to_1023, scaled};
use crate::text::{decimal, empty_text, lemma_decimal_len, push_ascii, push_decimal, text_bytes};

verus! {

/// The ASCII bar that parts two values of a line.
pub const PIPE: u8 = 124;

/// The ASCII carriage return, last but one byte of a line.
pub const CARRIAGE_RETURN: u8 = 13;

/// The ASCII line feed, last byte of a line.
pub const LINE_FEED: u8 = 10;

/// What a raw value is reported as.
pub open spec fn reported(raw: u16) -> u16 {
    scaled(raw as int, 0, MAX_ANALOG_VALUE as int, 0, 1023) as u16
}

/// What the raw values of all channels are reported as, channel by channel.
pub open spec fn report(raw: Seq<u16>) -> Seq<u16> {
    Seq::new(raw.len(), |i: int| reported(raw[i]))
}

/// The text of a line: the four values in decimal, in channel order, parted
/// by bars and ended by carriage return and line feed.
pub open spec fn line(values: Seq<u16>) -> Seq<u8> {
    decimal(values[0] as nat) + seq![PIPE] + decimal(values[1] as nat) + seq![PIPE] + decimal(
        values[2] as nat,
    ) + seq![PIPE] + decimal(values[3] as nat) + seq![CARRIAGE_RETURN, LINE_FEED]
}

/// Every reported value lies in `[0, 1023]`; a raw zero is reported as zero
/// and a raw value at or above the ceiling as 1023.
pub proof fn lemma_reported_in_range(raw: u16)
    ensures
        reported(raw) <= 1023,
        raw == 0 ==> reported(raw) == 0,
        raw >= MAX_ANALOG_VALUE ==> reported(raw) == 1023,
{
    crate::scaler::lemma_scaled_in_range(raw as int, 0, MAX_ANALOG_VALUE as int, 0, 1023);
    crate::scaler::lemma_scaled_endpoints(0, MAX_ANALOG_VALUE as int, 0, 1023);
}

/// Scales the raw value of every channel to the telemetry range.
pub fn telemetry_values(raw: &[u16; INPUT_COUNT]) -> (values: [u16; INPUT_COUNT])
    ensures
        values@ == report(raw@),
{
    let values = [
        scale_analog_input_to_1023(raw[0]),
        scale_analog_input_to_1023(raw[1]),
        scale_analog_input_to_1023(raw[2]),
        scale_analog_input_to_1023(raw[3]),
    ];
    assert(values@ =~= report(raw@));
    values
}

/// Writes the values as one telemetry line.
pub fn telemetry_line(values: &[u16; INPUT_COUNT]) -> (text: heapless::String<32>)
    ensures
        text_bytes(text) == line(values@),
{
    proof {
        lemma_decimal_len(values[0] as nat);
        lemma_decimal_len(values[1] as nat);
        lemma_decimal_len(values[2] as nat);
        lemma_decimal_len(values[3] as nat);
    }
    let mut text = empty_text();
    push_decimal(&mut text, values[0]);
    push_ascii(&mut text, PIPE);
    push_decimal(&mut text, values[1]);
    push_ascii(&mut text, PIPE);
    push_decimal(&mut text, values[2]);
    push_ascii(&mut text, PIPE);
    push_decimal(&mut text, values[3]);
    push_ascii(&mut text, CARRIAGE_RETURN);
    push_ascii(&mut text, LINE_FEED);
    assert(text_bytes(text) =~= line(values@));
    text
}

} // verus!
