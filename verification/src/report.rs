//! The position report: a channel tag followed by three decimal digits.

use numtoa::NumToA;
use vstd::prelude::*;

verus! {

/// ASCII code of the digit `0`, which also pads short numbers.
pub const ASCII_ZERO: u8 = 48;

/// Base in which positions are written.
pub const DECIMAL: u16 = 10;

/// Length of the scratch buffer that holds any `u16` in decimal.
pub const SCRATCH_LEN: usize = 5;

/// ASCII decimal digits of `n`, most significant first, without padding.
pub open spec fn decimal_digits(n: nat) -> Seq<u8>
    decreases n,
{
    if n < 10 {
        seq![(ASCII_ZERO + n) as u8]
    } else {
        decimal_digits(n / 10).push((ASCII_ZERO + n % 10) as u8)
    }
}

/// `text` laid over the end of `buffer`; the bytes before it are kept.
pub open spec fn right_aligned(buffer: Seq<u8>, text: Seq<u8>) -> Seq<u8> {
    buffer.subrange(0, buffer.len() - text.len()) + text
}

/// The report for a blind tagged `tag` that stands at `position`: the tag,
/// then the hundreds, tens and units digits of the position.
pub open spec fn spec_report(tag: u8, position: nat) -> Seq<u8> {
    seq![
        tag,
        (ASCII_ZERO + position / 100 % 10) as u8,
        (ASCII_ZERO + position / 10 % 10) as u8,
        (ASCII_ZERO + position % 10) as u8,
    ]
}

/// Calls `numtoa::NumToA::numtoa` for `u16` with a five-byte buffer.
///
/// Trusted: for base 10 the call writes the decimal digits of `n` over the
/// end of the buffer, as many bytes as `n` has digits, and leaves the bytes
/// before them as they were. Five bytes hold every `u16`, so the call does
/// not run out of buffer.
#[verifier::external_body]
fn numtoa_u16(n: u16, base: u16, buffer: &mut [u8; SCRATCH_LEN])
    requires
        base == DECIMAL,
    ensures
        final(buffer)@ == right_aligned(old(buffer)@, decimal_digits(n as nat)),
{
    n.numtoa(base, buffer.as_mut_slice());
}

/// The decimal digits of a `u16`, written out for each number of digits.
proof fn lemma_decimal_digits_of_u16(n: nat)
    requires
        n <= u16::MAX,
    ensures
        n < 10 ==> decimal_digits(n) =~= seq![(ASCII_ZERO + n) as u8],
        10 <= n < 100 ==> decimal_digits(n) =~= seq![
            (ASCII_ZERO + n / 10) as u8,
            (ASCII_ZERO + n % 10) as u8,
        ],
        100 <= n < 1000 ==> decimal_digits(n) =~= seq![
            (ASCII_ZERO + n / 100) as u8,
            (ASCII_ZERO + n / 10 % 10) as u8,
            (ASCII_ZERO + n % 10) as u8,
        ],
        1000 <= n < 10000 ==> decimal_digits(n) =~= seq![
            (ASCII_ZERO + n / 1000) as u8,
            (ASCII_ZERO + n / 100 % 10) as u8,
            (ASCII_ZERO + n / 10 % 10) as u8,
            (ASCII_ZERO + n % 10) as u8,
        ],
        10000 <= n ==> decimal_digits(n) =~= seq![
            (ASCII_ZERO + n / 10000) as u8,
            (ASCII_ZERO + n / 1000 % 10) as u8,
            (ASCII_ZERO + n / 100 % 10) as u8,
            (ASCII_ZERO + n / 10 % 10) as u8,
            (ASCII_ZERO + n % 10) as u8,
        ],
{
    reveal_with_fuel(decimal_digits, 5);
}

/// Renders the report for the blind tagged `blind` at position `new_state`:
/// the tag byte, then the position as three decimal digits, padded with `0`.
/// Of a value above 999 the last three digits are given.
pub fn give_state(blind: u8, new_state: u16) -> (report: [u8; 4])
    ensures
        report@ == spec_report(blind, new_state as nat),
{
    let mut buf = [ASCII_ZERO; SCRATCH_LEN];
    numtoa_u16(new_state, DECIMAL, &mut buf);
    proof {
        lemma_decimal_digits_of_u16(new_state as nat);
    }
    [blind, buf[2], buf[3], buf[4]]
}

} // verus!
