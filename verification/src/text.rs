//! Short ASCII texts in a fixed-capacity buffer.
//!
//! Labels and telemetry lines are built without a heap, in a
//! `heapless::String` of [`TEXT_CAPACITY`] bytes. Contracts speak of the bytes
//! such a text holds, through [`text_bytes`].
use vstd::prelude::*;

verus! {

/// Capacity, in bytes, of every text the library builds.
pub const TEXT_CAPACITY: usize = 32;

/// The ASCII digit `0`.
pub const DIGIT_ZERO: u8 = 48;

/// `heapless::String`, a string in a fixed buffer of `N` bytes. Its contents
/// are reached through [`text_bytes`] only.
#[verifier::external_type_specification]
#[verifier::external_body]
pub struct ExHeaplessString<const N: usize>(heapless::String<N>);

/// The UTF-8 bytes that a text holds, first to last.
pub uninterp spec fn text_bytes(text: heapless::String<32>) -> Seq<u8>;

/// `heapless::String::new`: a text that holds no byte.
#[verifier::external_body]
pub(crate) fn empty_text() -> (text: heapless::String<32>)
    ensures
        text_bytes(text) == Seq::<u8>::empty(),
{
    heapless::String::new()
}

/// `heapless::String::push` with an ASCII character, given as its byte.
///
/// Such a character takes one byte. It is appended when the text holds fewer
/// bytes than its capacity; a full text is left as it was and `Err` comes
/// back.
#[verifier::external_body]
pub(crate) fn push_byte(text: &mut heapless::String<32>, byte: u8) -> (pushed: Result<(), ()>)
    requires
        byte < 128,
    ensures
        pushed is Ok <==> text_bytes(*old(text)).len() < TEXT_CAPACITY,
        pushed is Ok ==> text_bytes(*final(text)) == text_bytes(*old(text)).push(byte),
        pushed is Err ==> text_bytes(*final(text)) == text_bytes(*old(text)),
{
    text.push(char::from(byte))
}

/// Appends an ASCII character, given as its byte, to a text that has room
/// for it.
pub fn push_ascii(text: &mut heapless::String<32>, byte: u8)
    requires
        byte < 128,
        text_bytes(*old(text)).len() < TEXT_CAPACITY,
    ensures
        text_bytes(*final(text)) == text_bytes(*old(text)).push(byte),
{
    let _pushed = push_byte(text, byte);
    assert(_pushed is Ok);
}

/// The decimal digits of `n` in ASCII, most significant first, without
/// leading zeros; `0` is the single digit `0`.
pub open spec fn decimal(n: nat) -> Seq<u8>
    decreases n,
{
    if n < 10 {
        seq![(DIGIT_ZERO + n) as u8]
    } else {
        decimal(n / 10).push((DIGIT_ZERO + n % 10) as u8)
    }
}

/// A number below `10^5` has at most five digits, and every number has one.
pub proof fn lemma_decimal_len(n: nat)
    ensures
        1 <= decimal(n).len(),
        n < 10 ==> decimal(n).len() == 1,
        n < 100 ==> decimal(n).len() <= 2,
        n < 1000 ==> decimal(n).len() <= 3,
        n < 10000 ==> decimal(n).len() <= 4,
        n < 100000 ==> decimal(n).len() <= 5,
    decreases n,
{
    if n >= 10 {
        lemma_decimal_len(n / 10);
    }
}

/// Appends the decimal digits of `n` to `text`.
pub fn push_decimal(text: &mut heapless::String<32>, n: u16)
    requires
        text_bytes(*old(text)).len() + decimal(n as nat).len() <= TEXT_CAPACITY,
    ensures
        text_bytes(*final(text)) == text_bytes(*old(text)) + decimal(n as nat),
    decreases n,
{
    if n >= 10 {
        push_decimal(text, n / 10);
    }
    let digit: u8 = DIGIT_ZERO + (n % 10) as u8;
    push_ascii(text, digit);
    assert(text_bytes(*text) =~= text_bytes(*old(text)) + decimal(n as nat));
}

} // verus!
