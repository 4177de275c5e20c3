//! One blind: its identifier, where it stands, where it was sent, and the
//! state of its two actuator lines.
//!
//! The direction is decided once, at the moment a target is set. Nothing
//! here watches the position afterwards; the stored position changes only
//! when it is recorded from outside or run through the simulator.

use crate::motion::{
    direction, exclusive, levels_of, spec_direction, Drive, Levels, MotionOutput,
};
use crate::simulator::{move_blind, spec_ticks};
use vstd::prelude::*;

verus! {

/// Largest position of a blind, and largest target: the upper end of travel.
pub const MAX_POSITION: u16 = 999;

/// Target of a blind that has not been sent anywhere.
pub const INITIAL_TARGET: u16 = 999;

/// A blind as plain values.
pub struct BlindState {
    /// The lower-case letter that names the blind.
    pub id: u8,
    /// Last known position, 0 to 999.
    pub position: nat,
    /// Position the blind was last sent to, 0 to 999.
    pub target: nat,
    /// Levels of the two actuator lines.
    pub levels: Levels,
}

/// The states that a blind can be in: position and target within travel, and
/// at most one line high.
pub open spec fn valid_blind(s: BlindState) -> bool {
    &&& s.position <= MAX_POSITION
    &&& s.target <= MAX_POSITION
    &&& exclusive(s.levels)
}

/// One blind of the bank.
#[derive(Clone, Copy, Debug)]
pub struct Blind {
    id: u8,
    position: u16,
    target: u16,
    outputs: MotionOutput,
}

impl View for Blind {
    type V = BlindState;

    closed spec fn view(&self) -> BlindState {
        BlindState {
            id: self.id,
            position: self.position as nat,
            target: self.target as nat,
            levels: self.outputs@,
        }
    }
}

impl Blind {
    /// Position and target lie within travel, and at most one line is high.
    #[verifier::type_invariant]
    pub open spec fn well_formed(&self) -> bool {
        valid_blind(self@)
    }

    /// A blind named `id` at position 0 with both lines low and no move
    /// pending.
    pub fn setup(id: u8) -> (blind: Blind)
        ensures
            blind@ == (BlindState {
                id,
                position: 0,
                target: INITIAL_TARGET as nat,
                levels: levels_of(Drive::Stop),
            }),
    {
        Blind { id, position: 0, target: INITIAL_TARGET, outputs: MotionOutput::new() }
    }

    /// Drives the blind upward.
    pub fn move_up(&mut self)
        ensures
            final(self)@ == (BlindState { levels: levels_of(Drive::Up), ..old(self)@ }),
        no_unwind
    {
        proof {
            use_type_invariant(&*self);
        }
        self.outputs.drive_up();
    }

    /// Drives the blind downward.
    pub fn move_down(&mut self)
        ensures
            final(self)@ == (BlindState { levels: levels_of(Drive::Down), ..old(self)@ }),
        no_unwind
    {
        proof {
            use_type_invariant(&*self);
        }
        self.outputs.drive_down();
    }

    /// Releases both lines.
    pub fn stop(&mut self)
        ensures
            final(self)@ == (BlindState { levels: levels_of(Drive::Stop), ..old(self)@ }),
        no_unwind
    {
        proof {
            use_type_invariant(&*self);
        }
        self.outputs.stop();
    }

    /// Sends the blind to `target`: stores the target and drives down when it
    /// lies below the stored position, up when it lies above, and stops when
    /// the blind is already there. Returns the direction chosen.
    pub fn set(&mut self, target: u16) -> (drive: Drive)
        requires
            target <= MAX_POSITION,
        ensures
            drive == spec_direction(old(self)@.position as int, target as int),
            final(self)@ == (BlindState {
                target: target as nat,
                levels: levels_of(drive),
                ..old(self)@
            }),
        no_unwind
    {
        proof {
            use_type_invariant(&*self);
        }
        self.target = target;
        let drive = direction(self.position, target);
        match drive {
            Drive::Up => self.move_up(),
            Drive::Down => self.move_down(),
            Drive::Stop => self.stop(),
        }
        drive
    }

    /// Records `position` as the place where the blind now stands. The lines
    /// and the target stay as they are.
    pub fn set_position(&mut self, position: u16)
        requires
            position <= MAX_POSITION,
        ensures
            final(self)@ == (BlindState { position: position as nat, ..old(self)@ }),
        no_unwind
    {
        proof {
            use_type_invariant(&*self);
        }
        self.position = position;
    }

    /// Runs the pending move dry: steps the stored position to the target,
    /// releases both lines, and returns the number of ticks taken.
    pub fn simulate(&mut self) -> (ticks: u16)
        ensures
            ticks == spec_ticks(old(self)@.position as int, old(self)@.target as int),
            final(self)@ == (BlindState {
                position: old(self)@.target,
                levels: levels_of(Drive::Stop),
                ..old(self)@
            }),
    {
        proof {
            use_type_invariant(&*self);
        }
        let mut position = self.position;
        let ticks = move_blind(self.id, self.target, &mut position);
        self.position = position;
        self.stop();
        ticks
    }

    /// The letter that names the blind.
    pub fn id(&self) -> (id: u8)
        ensures
            id == self@.id,
        no_unwind
    {
        self.id
    }

    /// Last known position.
    pub fn position(&self) -> (position: u16)
        ensures
            position == self@.position,
            position <= MAX_POSITION,
    {
        proof {
            use_type_invariant(self);
        }
        self.position
    }

    /// Position the blind was last sent to.
    pub fn target(&self) -> (target: u16)
        ensures
            target == self@.target,
            target <= MAX_POSITION,
    {
        proof {
            use_type_invariant(self);
        }
        self.target
    }

    /// Levels of the two actuator lines; never both high.
    pub fn levels(&self) -> (levels: Levels)
        ensures
            levels == self@.levels,
            exclusive(levels),
    {
        self.outputs.levels()
    }

    /// What the actuator is told to do.
    pub fn drive(&self) -> (drive: Drive)
        ensures
            drive == crate::motion::drive_of(self@.levels),
            self@.levels == levels_of(drive),
    {
        self.outputs.state()
    }
}

} // verus!
