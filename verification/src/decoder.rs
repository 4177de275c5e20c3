//! The command decoder: a state machine fed one byte at a time.
//!
//! A command is a select token followed by three digit tokens, hundreds
//! first. The decoder keeps the selected blind, the value keyed in so far and
//! the place of the digit it expects next. Selecting a blind always starts a
//! fresh value. Once the third digit has completed a command the decoder
//! expects no digit: it does not re-arm itself, and digit tokens are passed
//! over until a blind is selected again. They are passed over likewise
//! before the first selection.

use crate::blind::MAX_POSITION;
use crate::token::{
    classify, digit_value, is_channel, is_digit_token, is_query_token, is_select_token,
    spec_classify, Token, FIRST_CHANNEL, FIRST_QUERY, MAX_CHANNELS,
};
use vstd::prelude::*;

verus! {

/// Place of the first digit of a target: the hundreds.
pub const FIRST_PLACE: u8 = 2;

/// What the decoder asks for after a byte.
#[derive(Clone, Copy, Debug, PartialEq, Eq, Structural)]
pub enum Action {
    /// The byte completes nothing.
    NoAction,
    /// The blind with this identifier is now selected.
    Select(u8),
    /// The position of the blind with this identifier is to be reported.
    Query(u8),
    /// The blind with this identifier is to move to this target.
    MoveRequest(u8, u16),
}

/// The decoder's state as plain values.
pub struct DecoderState {
    /// Number of configured blinds.
    pub channels: nat,
    /// Identifier of the selected blind, if one has been selected.
    pub selected: Option<u8>,
    /// The target keyed in so far.
    pub accumulator: nat,
    /// Place of the digit expected next (hundreds 2, tens 1, units 0), if a
    /// digit is expected.
    pub remaining_digits: Option<nat>,
}

/// Weight of the decimal place `place`: 1, 10 or 100.
pub open spec fn place_weight(place: nat) -> nat {
    if place == 0 {
        1
    } else if place == 1 {
        10
    } else {
        100
    }
}

/// `value` can be spelled with three digit tokens: it has three decimal
/// digits, none of them 0.
pub open spec fn spellable(value: nat) -> bool {
    &&& value <= MAX_POSITION
    &&& value / 100 >= 1
    &&& value / 10 % 10 >= 1
    &&& value % 10 >= 1
}

/// `accumulator` holds digits of 1 to 9 at the places above `place` and
/// nothing from `place` down.
pub open spec fn keyed_in(accumulator: nat, place: nat) -> bool {
    if place == 2 {
        accumulator == 0
    } else if place == 1 {
        accumulator % 100 == 0 && 100 <= accumulator <= 900
    } else {
        accumulator % 10 == 0 && 110 <= accumulator <= 990 && accumulator / 10 % 10 >= 1
    }
}

/// The states that a decoder can be in: a digit is expected only of a
/// selected blind, and what has been keyed in so far are the leading digits
/// of a target within travel.
pub open spec fn valid_state(s: DecoderState) -> bool {
    &&& s.channels <= MAX_CHANNELS
    &&& s.accumulator <= MAX_POSITION
    &&& s.selected matches Some(id) ==> is_channel(id, s.channels)
    &&& s.remaining_digits matches Some(place) ==> {
        &&& s.selected is Some
        &&& place <= FIRST_PLACE
        &&& keyed_in(s.accumulator, place)
    }
}

/// The state of a decoder that has seen no byte.
pub open spec fn initial_state(channels: nat) -> DecoderState {
    DecoderState { channels, selected: None, accumulator: 0, remaining_digits: None }
}

/// The state after the select token of blind `id`.
pub open spec fn spec_select(s: DecoderState, id: u8) -> DecoderState {
    DecoderState {
        channels: s.channels,
        selected: Some(id),
        accumulator: 0,
        remaining_digits: Some(FIRST_PLACE as nat),
    }
}

/// The state and the action after a digit token of value `value`.
pub open spec fn spec_digit(s: DecoderState, value: nat) -> (DecoderState, Action) {
    match (s.remaining_digits, s.selected) {
        (Some(place), Some(id)) => {
            let accumulator = s.accumulator + value * place_weight(place);
            if place == 0 {
                (
                    DecoderState { accumulator, remaining_digits: None, ..s },
                    Action::MoveRequest(id, accumulator as u16),
                )
            } else {
                (
                    DecoderState {
                        accumulator,
                        remaining_digits: Some((place - 1) as nat),
                        ..s
                    },
                    Action::NoAction,
                )
            }
        },
        _ => (s, Action::NoAction),
    }
}

/// The state and the action after `byte`.
pub open spec fn spec_feed(s: DecoderState, byte: u8) -> (DecoderState, Action) {
    match spec_classify(byte, s.channels) {
        Token::Query(id) => (s, Action::Query(id)),
        Token::Select(id) => (spec_select(s, id), Action::Select(id)),
        Token::Digit(value) => spec_digit(s, value as nat),
        Token::Other => (s, Action::NoAction),
    }
}

/// The command decoder.
#[derive(Clone, Copy, Debug)]
pub struct Decoder {
    channels: u8,
    selected: Option<u8>,
    accumulator: u16,
    remaining_digits: Option<u8>,
}

impl View for Decoder {
    type V = DecoderState;

    closed spec fn view(&self) -> DecoderState {
        DecoderState {
            channels: self.channels as nat,
            selected: self.selected,
            accumulator: self.accumulator as nat,
            remaining_digits: match self.remaining_digits {
                Some(place) => Some(place as nat),
                None => None,
            },
        }
    }
}

/// Weight of the decimal place `place`.
fn weight(place: u8) -> (w: u16)
    requires
        place <= FIRST_PLACE,
    ensures
        w == place_weight(place as nat),
    no_unwind
{
    if place == 0 {
        1
    } else if place == 1 {
        10
    } else {
        100
    }
}

impl Decoder {
    /// The decoder is in one of its valid states.
    #[verifier::type_invariant]
    pub open spec fn well_formed(&self) -> bool {
        valid_state(self@)
    }

    /// A decoder for a bank of `channels` blinds, with nothing selected.
    pub fn new(channels: u8) -> (decoder: Decoder)
        requires
            channels <= MAX_CHANNELS,
        ensures
            decoder@ == initial_state(channels as nat),
    {
        Decoder { channels, selected: None, accumulator: 0, remaining_digits: None }
    }

    /// Consumes one byte of the link and says what it calls for.
    ///
    /// A query token asks for a report and leaves the decoder as it was. A
    /// select token selects its blind and starts a fresh target. A digit
    /// token, while a digit is expected, adds its value at the expected
    /// place; the units digit completes the command with a move request.
    /// Every other byte is passed over.
    pub fn feed(&mut self, byte: u8) -> (action: Action)
        ensures
            (final(self)@, action) == spec_feed(old(self)@, byte),
        no_unwind
    {
        proof {
            use_type_invariant(&*self);
            lemma_feed_keeps_state_valid(self@, byte);
        }
        match classify(byte, self.channels) {
            Token::Query(id) => Action::Query(id),
            Token::Select(id) => {
                *self = Decoder {
                    channels: self.channels,
                    selected: Some(id),
                    accumulator: 0,
                    remaining_digits: Some(FIRST_PLACE),
                };
                Action::Select(id)
            },
            Token::Digit(value) => {
                match (self.remaining_digits, self.selected) {
                    (Some(place), Some(id)) => {
                        assert(value * place_weight(place as nat) <= 9 * place_weight(
                            place as nat,
                        )) by (nonlinear_arith)
                            requires
                                value <= 9,
                        ;
                        let accumulator = self.accumulator + value as u16 * weight(place);
                        let remaining_digits = if place == 0 {
                            None
                        } else {
                            Some(place - 1)
                        };
                        *self = Decoder {
                            channels: self.channels,
                            selected: self.selected,
                            accumulator,
                            remaining_digits,
                        };
                        if place == 0 {
                            Action::MoveRequest(id, accumulator)
                        } else {
                            Action::NoAction
                        }
                    },
                    _ => Action::NoAction,
                }
            },
            Token::Other => Action::NoAction,
        }
    }

    /// Number of configured blinds.
    pub fn channels(&self) -> (channels: u8)
        ensures
            channels == self@.channels,
            channels <= MAX_CHANNELS,
    {
        proof {
            use_type_invariant(self);
        }
        self.channels
    }

    /// Identifier of the selected blind, if one has been selected.
    pub fn selected(&self) -> (selected: Option<u8>)
        ensures
            selected == self@.selected,
            selected matches Some(id) ==> is_channel(id, self@.channels),
    {
        proof {
            use_type_invariant(self);
        }
        self.selected
    }

    /// The target keyed in so far.
    pub fn accumulator(&self) -> (accumulator: u16)
        ensures
            accumulator == self@.accumulator,
            accumulator <= MAX_POSITION,
    {
        proof {
            use_type_invariant(self);
        }
        self.accumulator
    }

    /// Place of the digit expected next, if a digit is expected.
    pub fn remaining_digits(&self) -> (remaining: Option<u8>)
        ensures
            match remaining {
                Some(place) => self@.remaining_digits == Some(place as nat) && place <= FIRST_PLACE,
                None => self@.remaining_digits is None,
            },
    {
        proof {
            use_type_invariant(self);
        }
        self.remaining_digits
    }
}

/// Every byte takes a valid state to a valid state. A move request names a
/// configured blind and a target between 111 and 999 that has no digit 0:
/// the digit alphabet cannot spell any other.
pub proof fn lemma_feed_keeps_state_valid(s: DecoderState, byte: u8)
    requires
        valid_state(s),
    ensures
        valid_state(spec_feed(s, byte).0),
        spec_feed(s, byte).0.channels == s.channels,
        spec_feed(s, byte).1 matches Action::MoveRequest(id, target) ==> is_channel(id, s.channels)
            && spellable(target as nat) && target == spec_feed(s, byte).0.accumulator,
        spec_feed(s, byte).1 matches Action::Query(id) ==> is_channel(id, s.channels),
        spec_feed(s, byte).1 matches Action::Select(id) ==> is_channel(id, s.channels),
{
    if let Token::Digit(value) = spec_classify(byte, s.channels) {
        if let Some(place) = s.remaining_digits {
            assert(value * place_weight(place) <= 9 * place_weight(place)) by (nonlinear_arith)
                requires
                    value <= 9,
            ;
        }
    }
}

/// A select token followed by three digit tokens asks for a move of the
/// selected blind to the number that the digits spell, hundreds first. That
/// number lies between 111 and 999, and nothing is asked for before the
/// third digit.
pub proof fn lemma_three_digits_spell_target(
    s: DecoderState,
    select: u8,
    first: u8,
    second: u8,
    third: u8,
)
    requires
        s.channels <= MAX_CHANNELS,
        is_select_token(select, s.channels),
        is_digit_token(first),
        is_digit_token(second),
        is_digit_token(third),
    ensures
        ({
            let target = 100 * digit_value(first) + 10 * digit_value(second) + digit_value(third);
            let selected = spec_feed(s, select);
            let hundreds = spec_feed(selected.0, first);
            let tens = spec_feed(hundreds.0, second);
            let units = spec_feed(tens.0, third);
            &&& 111 <= target <= MAX_POSITION
            &&& spellable(target)
            &&& selected.1 == Action::Select(select)
            &&& hundreds.1 == Action::NoAction
            &&& tens.1 == Action::NoAction
            &&& units.1 == Action::MoveRequest(select, target as u16)
            &&& units.0.accumulator == target
            &&& units.0.selected == Some(select)
            &&& units.0.remaining_digits is None
        }),
{
}

/// Selecting a blind discards whatever was keyed in before: the state after
/// a select token is the same from every state of the bank, with an empty
/// accumulator and the hundreds digit expected.
pub proof fn lemma_select_starts_afresh(s: DecoderState, other: DecoderState, select: u8)
    requires
        s.channels == other.channels,
        s.channels <= MAX_CHANNELS,
        is_select_token(select, s.channels),
    ensures
        spec_feed(s, select) == spec_feed(other, select),
        spec_feed(s, select).0 == spec_select(initial_state(s.channels), select),
        spec_feed(s, select).0.accumulator == 0,
        spec_feed(s, select).0.remaining_digits == Some(FIRST_PLACE as nat),
{
}

/// A query token leaves the decoder as it was, whatever had been keyed in.
pub proof fn lemma_query_keeps_state(s: DecoderState, query: u8)
    requires
        is_query_token(query, s.channels),
    ensures
        spec_feed(s, query).0 == s,
        spec_feed(s, query).1 == Action::Query((query - FIRST_QUERY + FIRST_CHANNEL) as u8),
{
}

/// Digit tokens are passed over while no digit is expected: before the first
/// selection and after a completed command. The byte `0` is always passed
/// over.
pub proof fn lemma_unexpected_digits_are_passed_over(s: DecoderState, byte: u8)
    requires
        s.channels <= MAX_CHANNELS,
    ensures
        is_digit_token(byte) && s.remaining_digits is None ==> spec_feed(s, byte) == (
            s,
            Action::NoAction,
        ),
        spec_feed(s, crate::token::DIGIT_BASE) == (s, Action::NoAction),
{
}

} // verus!
