//! The bank of blinds, found by the letters that name them.
//!
//! The blinds are named `a`, `b`, ... in order. A letter past the end of the
//! bank names no blind: asking about it gives `None`, and commands for it
//! change nothing.

use crate::blind::{valid_blind, Blind, BlindState, INITIAL_TARGET, MAX_POSITION};
use crate::motion::{levels_of, spec_direction, Drive, Levels};
use crate::report::{give_state, spec_report};
use crate::simulator::spec_ticks;
use crate::token::{channel_index, is_channel, FIRST_CHANNEL, MAX_CHANNELS};
use vstd::prelude::*;

verus! {

/// A bank as the sequence of its blinds' states: at most 26 blinds, each
/// valid and named by its place.
pub open spec fn valid_bank(bank: Seq<BlindState>) -> bool {
    &&& bank.len() <= MAX_CHANNELS
    &&& forall|i: int|
        0 <= i < bank.len() ==> valid_blind(#[trigger] bank[i]) && bank[i].id == FIRST_CHANNEL + i
}

/// The state of a blind named `id` that has just been set up.
pub open spec fn fresh_blind(id: u8) -> BlindState {
    BlindState {
        id,
        position: 0,
        target: INITIAL_TARGET as nat,
        levels: levels_of(Drive::Stop),
    }
}

/// A bank of `channels` blinds that have just been set up.
pub open spec fn fresh_bank(channels: nat) -> Seq<BlindState> {
    Seq::new(channels, |i: int| fresh_blind((FIRST_CHANNEL + i) as u8))
}

/// The state of blind `id`, if the bank has it.
pub open spec fn spec_blind(bank: Seq<BlindState>, id: u8) -> Option<BlindState> {
    if is_channel(id, bank.len()) {
        Some(bank[channel_index(id)])
    } else {
        None
    }
}

/// The stored position of blind `id`, if the bank has it.
pub open spec fn spec_query(bank: Seq<BlindState>, id: u8) -> Option<u16> {
    match spec_blind(bank, id) {
        Some(blind) => Some(blind.position as u16),
        None => None,
    }
}

/// The bank with `blind` in the place of the blind of that name.
pub open spec fn spec_store(bank: Seq<BlindState>, blind: BlindState) -> Seq<BlindState> {
    bank.update(channel_index(blind.id), blind)
}

/// The bank after blind `id` has been sent to `target`: that blind holds
/// the target and drives toward it; the others are as they were. A blind
/// that the bank lacks, or a target beyond travel, leaves the bank as it is.
pub open spec fn spec_set_target(bank: Seq<BlindState>, id: u8, target: u16) -> Seq<BlindState> {
    match spec_blind(bank, id) {
        Some(blind) if target <= MAX_POSITION => spec_store(
            bank,
            BlindState {
                target: target as nat,
                levels: levels_of(spec_direction(blind.position as int, target as int)),
                ..blind
            },
        ),
        _ => bank,
    }
}

/// The bank after `position` has been recorded for blind `id`; the bank as
/// it is for a blind that it lacks or a position beyond travel.
pub open spec fn spec_set_position(bank: Seq<BlindState>, id: u8, position: u16) -> Seq<
    BlindState,
> {
    match spec_blind(bank, id) {
        Some(blind) if position <= MAX_POSITION => spec_store(
            bank,
            BlindState { position: position as nat, ..blind },
        ),
        _ => bank,
    }
}

/// The bank after the pending move of blind `id` has been run dry: the blind
/// stands at its target with both lines low.
pub open spec fn spec_simulate(bank: Seq<BlindState>, id: u8) -> Seq<BlindState> {
    match spec_blind(bank, id) {
        Some(blind) => spec_store(
            bank,
            BlindState { position: blind.target, levels: levels_of(Drive::Stop), ..blind },
        ),
        None => bank,
    }
}

/// Number of places in a bank: one per letter.
pub const PLACES: usize = 26;

/// The states of the first `channels` of `blinds`, in order.
spec fn states_of(blinds: Seq<Blind>, channels: nat) -> Seq<BlindState> {
    Seq::new(channels, |i: int| blinds[i]@)
}

/// Puts `blind` at place `index` of `blinds`.
fn put_blind(blinds: &mut [Blind; PLACES], index: usize, blind: Blind)
    requires
        index < PLACES,
    ensures
        final(blinds)@ == old(blinds)@.update(index as int, blind),
    no_unwind
{
    blinds[index] = blind;
}

/// The bank of blinds. It has a place for every letter and takes no memory
/// beyond them; the blinds in use are the first ones.
#[derive(Debug)]
pub struct Registry {
    blinds: [Blind; PLACES],
    channels: u8,
}

impl View for Registry {
    type V = Seq<BlindState>;

    closed spec fn view(&self) -> Seq<BlindState> {
        states_of(self.blinds@, self.channels as nat)
    }
}

impl Registry {
    /// The bank is valid.
    #[verifier::type_invariant]
    pub open spec fn well_formed(&self) -> bool {
        valid_bank(self@)
    }

    /// A bank of `channels` blinds named from `a` on, each at position 0 with
    /// both lines low.
    pub fn new(channels: u8) -> (registry: Registry)
        requires
            channels <= MAX_CHANNELS,
        ensures
            registry@ == fresh_bank(channels as nat),
    {
        let mut blinds = [Blind::setup(FIRST_CHANNEL); PLACES];
        let mut i: u8 = 0;
        while i < channels
            invariant
                i <= channels <= MAX_CHANNELS,
                forall|k: int|
                    0 <= k < i ==> (#[trigger] blinds@[k])@ == fresh_blind(
                        (FIRST_CHANNEL + k) as u8,
                    ),
            decreases channels - i,
        {
            put_blind(&mut blinds, i as usize, Blind::setup(FIRST_CHANNEL + i));
            i = i + 1;
        }
        Registry { blinds, channels }
    }

    /// A copy of blind `id`.
    fn fetch(&self, id: u8) -> (blind: Blind)
        requires
            is_channel(id, self@.len()),
        ensures
            spec_blind(self@, id) == Some(blind@),
            blind@.id == id,
            valid_blind(blind@),
        no_unwind
    {
        proof {
            use_type_invariant(self);
        }
        self.blinds[(id - FIRST_CHANNEL) as usize]
    }

    /// Puts `blind` in the place of the blind of its name.
    fn store(&mut self, blind: Blind)
        requires
            is_channel(blind@.id, old(self)@.len()),
            valid_blind(blind@),
        ensures
            final(self)@ == spec_store(old(self)@, blind@),
        no_unwind
    {
        let index = (blind.id() - FIRST_CHANNEL) as usize;
        proof {
            use_type_invariant(&*self);
            let updated = states_of(
                self.blinds@.update(index as int, blind),
                self.channels as nat,
            );
            assert forall|i: int| 0 <= i < updated.len() implies valid_blind(#[trigger] updated[i])
                && updated[i].id == FIRST_CHANNEL + i by {
                assert(valid_blind(self@[i]));
            }
        }
        put_blind(&mut self.blinds, index, blind);
    }

    /// Number of blinds in the bank.
    pub fn channels(&self) -> (channels: u8)
        ensures
            channels == self@.len(),
            channels <= MAX_CHANNELS,
        no_unwind
    {
        proof {
            use_type_invariant(self);
        }
        self.channels
    }

    /// Whether the bank has a blind named `id`.
    pub fn contains(&self, id: u8) -> (found: bool)
        ensures
            found == is_channel(id, self@.len()),
        no_unwind
    {
        FIRST_CHANNEL <= id && id - FIRST_CHANNEL < self.channels()
    }

    /// The stored position of blind `id`. It is `None` only for a blind that
    /// the bank lacks; asking changes nothing.
    pub fn query(&self, id: u8) -> (position: Option<u16>)
        ensures
            position == spec_query(self@, id),
            position matches Some(p) ==> p <= MAX_POSITION,
    {
        if self.contains(id) {
            Some(self.fetch(id).position())
        } else {
            None
        }
    }

    /// The target that blind `id` was last sent to, if the bank has it.
    pub fn target(&self, id: u8) -> (target: Option<u16>)
        ensures
            match spec_blind(self@, id) {
                Some(blind) => target == Some(blind.target as u16) && blind.target <= MAX_POSITION,
                None => target is None,
            },
    {
        if self.contains(id) {
            Some(self.fetch(id).target())
        } else {
            None
        }
    }

    /// The line levels of blind `id`, if the bank has it; never both high.
    pub fn levels(&self, id: u8) -> (levels: Option<Levels>)
        ensures
            match spec_blind(self@, id) {
                Some(blind) => levels == Some(blind.levels) && crate::motion::exclusive(
                    blind.levels,
                ),
                None => levels is None,
            },
    {
        if self.contains(id) {
            Some(self.fetch(id).levels())
        } else {
            None
        }
    }

    /// The report on blind `id`: its letter, then its stored position as
    /// three decimal digits. `None` for a blind that the bank lacks.
    pub fn report(&self, id: u8) -> (report: Option<[u8; 4]>)
        ensures
            match spec_blind(self@, id) {
                Some(blind) => report matches Some(bytes) && bytes@ == spec_report(
                    id,
                    blind.position,
                ),
                None => report is None,
            },
    {
        if self.contains(id) {
            let blind = self.fetch(id);
            Some(give_state(blind.id(), blind.position()))
        } else {
            None
        }
    }

    /// Sends blind `id` to `target` and returns the direction chosen: down
    /// when the target lies below the blind's stored position, up when it
    /// lies above, stop when the blind is already there. Returns `None`, and
    /// changes nothing, for a blind that the bank lacks or a target above
    /// 999.
    pub fn set_target(&mut self, id: u8, target: u16) -> (drive: Option<Drive>)
        ensures
            final(self)@ == spec_set_target(old(self)@, id, target),
            match spec_blind(old(self)@, id) {
                Some(blind) if target <= MAX_POSITION => drive == Some(
                    spec_direction(blind.position as int, target as int),
                ),
                _ => drive is None,
            },
        no_unwind
    {
        if self.contains(id) && target <= MAX_POSITION {
            let mut blind = self.fetch(id);
            let drive = blind.set(target);
            self.store(blind);
            Some(drive)
        } else {
            None
        }
    }

    /// Records `position` as the place where blind `id` now stands and says
    /// whether it did. Nothing is recorded for a blind that the bank lacks
    /// or a position above 999.
    pub fn set_position(&mut self, id: u8, position: u16) -> (recorded: bool)
        ensures
            final(self)@ == spec_set_position(old(self)@, id, position),
            recorded == (is_channel(id, old(self)@.len()) && position <= MAX_POSITION),
        no_unwind
    {
        if self.contains(id) && position <= MAX_POSITION {
            let mut blind = self.fetch(id);
            blind.set_position(position);
            self.store(blind);
            true
        } else {
            false
        }
    }

    /// Runs the pending move of blind `id` dry and returns the number of
    /// ticks it took: the blind then stands at its target with both lines
    /// low. `None` for a blind that the bank lacks.
    pub fn simulate(&mut self, id: u8) -> (ticks: Option<u16>)
        ensures
            final(self)@ == spec_simulate(old(self)@, id),
            match spec_blind(old(self)@, id) {
                Some(blind) => ticks matches Some(t) && t == spec_ticks(
                    blind.position as int,
                    blind.target as int,
                ),
                None => ticks is None,
            },
    {
        if self.contains(id) {
            let mut blind = self.fetch(id);
            let ticks = blind.simulate();
            self.store(blind);
            Some(ticks)
        } else {
            None
        }
    }
}

/// Sending a blind somewhere moves nothing in the books: every stored
/// position, and so the answer to every query, is as it was before. The
/// bank stays valid, and only the blind that was sent has changed.
pub proof fn lemma_set_target_keeps_positions(
    bank: Seq<BlindState>,
    id: u8,
    target: u16,
    asked: u8,
)
    requires
        valid_bank(bank),
    ensures
        valid_bank(spec_set_target(bank, id, target)),
        spec_set_target(bank, id, target).len() == bank.len(),
        spec_query(spec_set_target(bank, id, target), asked) == spec_query(bank, asked),
        asked != id ==> spec_blind(spec_set_target(bank, id, target), asked) == spec_blind(
            bank,
            asked,
        ),
{
}

} // verus!
