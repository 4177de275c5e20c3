//! The whole core behind one entry point: a byte of the link goes in, and
//! what the hardware has to do comes out.
//!
//! The controller owns the decoder and the bank and keeps them to the same
//! number of blinds, so every letter that the decoder accepts names a blind
//! of the bank. A query is answered with the blind's report; a completed
//! command sets the blind's target and decides its direction at once, before
//! the next byte is looked at.

use crate::blind::{BlindState, MAX_POSITION};
use crate::decoder::{
    initial_state, lemma_feed_keeps_state_valid, lemma_three_digits_spell_target, spec_feed,
    valid_state, Action, Decoder, DecoderState,
};
use crate::motion::{levels_of, spec_direction, Drive};
use crate::registry::{
    fresh_bank, spec_blind, spec_set_position, spec_set_target, valid_bank, Registry,
};
use crate::report::spec_report;
use crate::token::{
    channel_index, digit_value, is_channel, is_digit_token, is_query_token, is_select_token,
    FIRST_CHANNEL, FIRST_QUERY, MAX_CHANNELS,
};
use vstd::prelude::*;

verus! {

/// What the hardware has to do after a byte.
#[derive(Clone, Copy, Debug, PartialEq, Eq)]
pub enum Outcome {
    /// Nothing.
    Idle,
    /// Nothing; the blind with this identifier is now selected.
    Selected(u8),
    /// Send these four bytes.
    Report([u8; 4]),
    /// Drive the lines of the blind with this identifier this way.
    Moved(u8, Drive),
}

/// An outcome as plain values.
pub enum OutcomeView {
    Idle,
    Selected(u8),
    Report(Seq<u8>),
    Moved(u8, Drive),
}

impl View for Outcome {
    type V = OutcomeView;

    open spec fn view(&self) -> OutcomeView {
        match *self {
            Outcome::Idle => OutcomeView::Idle,
            Outcome::Selected(id) => OutcomeView::Selected(id),
            Outcome::Report(bytes) => OutcomeView::Report(bytes@),
            Outcome::Moved(id, drive) => OutcomeView::Moved(id, drive),
        }
    }
}

/// The controller's state as plain values.
pub struct ControllerState {
    pub decoder: DecoderState,
    pub bank: Seq<BlindState>,
}

/// The states that a controller can be in: a valid decoder and a valid bank
/// of the same number of blinds.
pub open spec fn valid_controller(s: ControllerState) -> bool {
    &&& valid_state(s.decoder)
    &&& valid_bank(s.bank)
    &&& s.decoder.channels == s.bank.len()
}

/// The state of a controller for `channels` blinds that has seen no byte.
pub open spec fn initial_controller(channels: nat) -> ControllerState {
    ControllerState { decoder: initial_state(channels), bank: fresh_bank(channels) }
}

/// What `action` does to `bank`, and what comes of it.
pub open spec fn spec_perform(bank: Seq<BlindState>, action: Action) -> (
    Seq<BlindState>,
    OutcomeView,
) {
    match action {
        Action::NoAction => (bank, OutcomeView::Idle),
        Action::Select(id) => (bank, OutcomeView::Selected(id)),
        Action::Query(id) => match spec_blind(bank, id) {
            Some(blind) => (bank, OutcomeView::Report(spec_report(id, blind.position))),
            None => (bank, OutcomeView::Idle),
        },
        Action::MoveRequest(id, target) => match spec_blind(bank, id) {
            Some(blind) if target <= MAX_POSITION => (
                spec_set_target(bank, id, target),
                OutcomeView::Moved(id, spec_direction(blind.position as int, target as int)),
            ),
            _ => (bank, OutcomeView::Idle),
        },
    }
}

/// The state and the outcome after `byte`.
pub open spec fn spec_process(s: ControllerState, byte: u8) -> (ControllerState, OutcomeView) {
    let (decoder, action) = spec_feed(s.decoder, byte);
    let (bank, outcome) = spec_perform(s.bank, action);
    (ControllerState { decoder, bank }, outcome)
}

/// Decoder and bank together.
#[derive(Debug)]
pub struct Controller {
    decoder: Decoder,
    registry: Registry,
}

impl View for Controller {
    type V = ControllerState;

    closed spec fn view(&self) -> ControllerState {
        ControllerState { decoder: self.decoder@, bank: self.registry@ }
    }
}

impl Controller {
    /// Decoder and bank are valid and agree on the number of blinds.
    #[verifier::type_invariant]
    pub open spec fn well_formed(&self) -> bool {
        valid_controller(self@)
    }

    /// A controller for `channels` blinds named from `a` on: nothing
    /// selected, every blind at position 0 with both lines low.
    pub fn new(channels: u8) -> (controller: Controller)
        requires
            channels <= MAX_CHANNELS,
        ensures
            controller@ == initial_controller(channels as nat),
    {
        let decoder = Decoder::new(channels);
        let registry = Registry::new(channels);
        proof {
            use_type_invariant(&decoder);
            use_type_invariant(&registry);
        }
        Controller { decoder, registry }
    }

    /// Takes one byte of the link through the decoder and carries out what
    /// it calls for on the bank.
    pub fn process(&mut self, byte: u8) -> (outcome: Outcome)
        ensures
            (final(self)@, outcome@) == spec_process(old(self)@, byte),
    {
        proof {
            use_type_invariant(&*self);
            lemma_feed_keeps_state_valid(self@.decoder, byte);
        }
        let action = self.decoder.feed(byte);
        match action {
            Action::NoAction => Outcome::Idle,
            Action::Select(id) => Outcome::Selected(id),
            Action::Query(id) => match self.registry.report(id) {
                Some(bytes) => Outcome::Report(bytes),
                None => Outcome::Idle,
            },
            Action::MoveRequest(id, target) => match self.registry.set_target(id, target) {
                Some(drive) => Outcome::Moved(id, drive),
                None => Outcome::Idle,
            },
        }
    }

    /// Records `position` as the place where blind `id` now stands and says
    /// whether it did. Nothing is recorded for a blind that the bank lacks
    /// or a position above 999.
    pub fn set_position(&mut self, id: u8, position: u16) -> (recorded: bool)
        ensures
            final(self)@ == (ControllerState {
                bank: spec_set_position(old(self)@.bank, id, position),
                ..old(self)@
            }),
            recorded == (is_channel(id, old(self)@.bank.len()) && position <= MAX_POSITION),
    {
        proof {
            use_type_invariant(&*self);
        }
        self.registry.set_position(id, position)
    }

    /// The decoder.
    pub fn decoder(&self) -> (decoder: &Decoder)
        ensures
            decoder@ == self@.decoder,
    {
        &self.decoder
    }

    /// The bank.
    pub fn registry(&self) -> (registry: &Registry)
        ensures
            registry@ == self@.bank,
    {
        &self.registry
    }
}

/// Every byte takes a valid state to a valid state with the same number of
/// blinds. Only a completed command changes the bank, and it changes only
/// the blind that it names.
pub proof fn lemma_process_keeps_state_valid(s: ControllerState, byte: u8)
    requires
        valid_controller(s),
    ensures
        valid_controller(spec_process(s, byte).0),
        spec_process(s, byte).0.bank.len() == s.bank.len(),
        !(spec_process(s, byte).1 is Moved) ==> spec_process(s, byte).0.bank == s.bank,
        spec_process(s, byte).1 matches OutcomeView::Moved(id, drive) ==> {
            &&& is_channel(id, s.bank.len())
            &&& forall|i: int|
                0 <= i < s.bank.len() && i != channel_index(id) ==> spec_process(s, byte).0.bank[i]
                    == s.bank[i]
        },
{
    lemma_feed_keeps_state_valid(s.decoder, byte);
}

/// Asking for a position is idempotent: a query token changes neither the
/// decoder nor the bank, so asking again gives the same report, which is
/// that of the stored position of the blind that the token names.
pub proof fn lemma_query_is_idempotent(s: ControllerState, query: u8)
    requires
        valid_controller(s),
        is_query_token(query, s.bank.len()),
    ensures
        spec_process(s, query).0 == s,
        spec_process(spec_process(s, query).0, query).1 == spec_process(s, query).1,
        spec_process(s, query).1 == OutcomeView::Report(
            spec_report(
                (query - FIRST_QUERY + FIRST_CHANNEL) as u8,
                s.bank[query - FIRST_QUERY].position,
            ),
        ),
{
}

/// A select token followed by three digit tokens sends the selected blind
/// to the number that the digits spell, hundreds first: the blind holds
/// that target, its lines are driven by the order of target and stored
/// position, and the other blinds are as they were.
pub proof fn lemma_command_sets_target(
    s: ControllerState,
    select: u8,
    first: u8,
    second: u8,
    third: u8,
)
    requires
        valid_controller(s),
        is_select_token(select, s.bank.len()),
        is_digit_token(first),
        is_digit_token(second),
        is_digit_token(third),
    ensures
        ({
            let target = 100 * digit_value(first) + 10 * digit_value(second) + digit_value(third);
            let blind = s.bank[channel_index(select)];
            let drive = spec_direction(blind.position as int, target as int);
            let selected = spec_process(s, select);
            let hundreds = spec_process(selected.0, first);
            let tens = spec_process(hundreds.0, second);
            let units = spec_process(tens.0, third);
            &&& 111 <= target <= MAX_POSITION
            &&& selected.1 == OutcomeView::Selected(select)
            &&& hundreds.1 == OutcomeView::Idle
            &&& tens.1 == OutcomeView::Idle
            &&& units.1 == OutcomeView::Moved(select, drive)
            &&& units.0.bank == s.bank.update(
                channel_index(select),
                BlindState { target, levels: levels_of(drive), ..blind },
            )
        }),
{
    lemma_three_digits_spell_target(s.decoder, select, first, second, third);
}

} // verus!
