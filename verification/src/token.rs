//! The byte alphabet of the serial protocol.
//!
//! Every byte on the link is a token of its own. A lower-case letter selects
//! the blind of that name, the matching upper-case letter asks for its
//! position, and the digits `1` to `9` spell a target. `0` is not part of the
//! digit alphabet: it is passed over like any other byte, so a target with a
//! zero digit cannot be keyed in.

use vstd::prelude::*;

verus! {

/// Largest number of blinds: one per letter.
pub const MAX_CHANNELS: u8 = 26;

/// The select token, and identifier, of the first blind: `a`.
pub const FIRST_CHANNEL: u8 = 97;

/// The query token of the first blind: `A`.
pub const FIRST_QUERY: u8 = 65;

/// The smallest digit token: `1`.
pub const FIRST_DIGIT: u8 = 49;

/// The largest digit token: `9`.
pub const LAST_DIGIT: u8 = 57;

/// The code point from which digit values are counted: `0`.
pub const DIGIT_BASE: u8 = 48;

/// What a byte of the protocol stands for.
#[derive(Clone, Copy, Debug, PartialEq, Eq, Structural)]
pub enum Token {
    /// Asks for the position of the blind with this identifier.
    Query(u8),
    /// Selects the blind with this identifier.
    Select(u8),
    /// A digit of this value, 1 to 9.
    Digit(u8),
    /// Not part of the protocol.
    Other,
}

/// `id` names one of the first `channels` blinds.
pub open spec fn is_channel(id: u8, channels: nat) -> bool {
    FIRST_CHANNEL <= id < FIRST_CHANNEL + channels
}

/// Place of blind `id` among the blinds, `a` being 0.
pub open spec fn channel_index(id: u8) -> int {
    id - FIRST_CHANNEL
}

/// `byte` is the upper-case name of one of the first `channels` blinds.
pub open spec fn is_query_token(byte: u8, channels: nat) -> bool {
    FIRST_QUERY <= byte < FIRST_QUERY + channels
}

/// `byte` is the lower-case name of one of the first `channels` blinds.
pub open spec fn is_select_token(byte: u8, channels: nat) -> bool {
    is_channel(byte, channels)
}

/// `byte` is one of the digits `1` to `9`.
pub open spec fn is_digit_token(byte: u8) -> bool {
    FIRST_DIGIT <= byte <= LAST_DIGIT
}

/// Numeric value of a digit token.
pub open spec fn digit_value(byte: u8) -> nat {
    (byte - DIGIT_BASE) as nat
}

/// The token that `byte` is when `channels` blinds are configured.
pub open spec fn spec_classify(byte: u8, channels: nat) -> Token {
    if is_query_token(byte, channels) {
        Token::Query((byte - FIRST_QUERY + FIRST_CHANNEL) as u8)
    } else if is_select_token(byte, channels) {
        Token::Select(byte)
    } else if is_digit_token(byte) {
        Token::Digit(digit_value(byte) as u8)
    } else {
        Token::Other
    }
}

/// Classifies one byte of the link for a bank of `channels` blinds.
pub fn classify(byte: u8, channels: u8) -> (token: Token)
    requires
        channels <= MAX_CHANNELS,
    ensures
        token == spec_classify(byte, channels as nat),
    no_unwind
{
    if FIRST_QUERY <= byte && byte - FIRST_QUERY < channels {
        Token::Query(byte - FIRST_QUERY + FIRST_CHANNEL)
    } else if FIRST_CHANNEL <= byte && byte - FIRST_CHANNEL < channels {
        Token::Select(byte)
    } else if FIRST_DIGIT <= byte && byte <= LAST_DIGIT {
        Token::Digit(byte - DIGIT_BASE)
    } else {
        Token::Other
    }
}

/// A byte is at most one kind of token, the blind that a letter names is
/// configured, and a digit token is worth 1 to 9: `0` is no digit token.
pub proof fn lemma_tokens_are_disjoint(byte: u8, channels: nat)
    requires
        channels <= MAX_CHANNELS,
    ensures
        !(is_query_token(byte, channels) && is_select_token(byte, channels)),
        !(is_query_token(byte, channels) && is_digit_token(byte)),
        !(is_select_token(byte, channels) && is_digit_token(byte)),
        spec_classify(byte, channels) matches Token::Query(id) ==> is_channel(id, channels),
        spec_classify(byte, channels) matches Token::Select(id) ==> is_channel(id, channels),
        spec_classify(byte, channels) matches Token::Digit(value) ==> 1 <= value <= 9,
        spec_classify(DIGIT_BASE, channels) == Token::Other,
{
}

} // verus!
