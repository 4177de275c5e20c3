//! The direction decision and the pair of actuator lines that carries it out.
//!
//! Each blind owns two binary lines, one per direction of travel. At most one
//! of them is ever high: a line is always released before the other one is
//! raised, so the pair passes through `Stop` when the direction reverses.

use vstd::prelude::*;

verus! {

/// What a blind's actuator is told to do.
#[derive(Clone, Copy, Debug, PartialEq, Eq, Structural)]
pub enum Drive {
    /// Run toward the upper end of travel.
    Up,
    /// Run toward position 0.
    Down,
    /// Both lines released.
    Stop,
}

/// One of a blind's two actuator lines.
#[derive(Clone, Copy, Debug, PartialEq, Eq, Structural)]
pub enum Line {
    Up,
    Down,
}

/// Levels of a blind's two actuator lines; `true` is high.
#[derive(Clone, Copy, Debug, PartialEq, Eq, Structural)]
pub struct Levels {
    pub up: bool,
    pub down: bool,
}

/// A single write to one actuator line.
#[derive(Clone, Copy, Debug, PartialEq, Eq, Structural)]
pub struct LineWrite {
    pub line: Line,
    pub high: bool,
}

/// The direction that takes a blind from `position` toward `target`.
pub open spec fn spec_direction(position: int, target: int) -> Drive {
    if target < position {
        Drive::Down
    } else if target > position {
        Drive::Up
    } else {
        Drive::Stop
    }
}

/// At most one line is high.
pub open spec fn exclusive(levels: Levels) -> bool {
    !(levels.up && levels.down)
}

/// The line levels that carry out `drive`.
pub open spec fn levels_of(drive: Drive) -> Levels {
    match drive {
        Drive::Up => Levels { up: true, down: false },
        Drive::Down => Levels { up: false, down: true },
        Drive::Stop => Levels { up: false, down: false },
    }
}

/// The drive that a pair of levels stands for.
pub open spec fn drive_of(levels: Levels) -> Drive {
    if levels.up {
        Drive::Up
    } else if levels.down {
        Drive::Down
    } else {
        Drive::Stop
    }
}

/// The levels after `write` on lines that were at `levels`.
pub open spec fn spec_apply(levels: Levels, write: LineWrite) -> Levels {
    match write.line {
        Line::Up => Levels { up: write.high, down: levels.down },
        Line::Down => Levels { up: levels.up, down: write.high },
    }
}

/// The writes that carry out `drive`, in the order in which they are made:
/// the line that ends low comes first.
pub open spec fn spec_line_writes(drive: Drive) -> Seq<LineWrite> {
    match drive {
        Drive::Up => seq![
            LineWrite { line: Line::Down, high: false },
            LineWrite { line: Line::Up, high: true },
        ],
        Drive::Down => seq![
            LineWrite { line: Line::Up, high: false },
            LineWrite { line: Line::Down, high: true },
        ],
        Drive::Stop => seq![
            LineWrite { line: Line::Up, high: false },
            LineWrite { line: Line::Down, high: false },
        ],
    }
}

/// Decides the direction for a blind at `position` that is sent to `target`:
/// down when the target lies below, up when it lies above, stop when the
/// blind is already there.
pub fn direction(position: u16, target: u16) -> (drive: Drive)
    ensures
        drive == spec_direction(position as int, target as int),
    no_unwind
{
    if target < position {
        Drive::Down
    } else if target > position {
        Drive::Up
    } else {
        Drive::Stop
    }
}

/// The two line writes that carry out `drive`, to be made in order.
pub fn line_writes(drive: Drive) -> (writes: [LineWrite; 2])
    ensures
        writes@ == spec_line_writes(drive),
    no_unwind
{
    match drive {
        Drive::Up => [
            LineWrite { line: Line::Down, high: false },
            LineWrite { line: Line::Up, high: true },
        ],
        Drive::Down => [
            LineWrite { line: Line::Up, high: false },
            LineWrite { line: Line::Down, high: true },
        ],
        Drive::Stop => [
            LineWrite { line: Line::Up, high: false },
            LineWrite { line: Line::Down, high: false },
        ],
    }
}

/// The direction decision is total and picks exactly one drive, by the order
/// of target and position; a blind at its target is stopped.
pub proof fn lemma_direction_is_exactly_one(position: int, target: int)
    ensures
        spec_direction(position, target) == Drive::Up <==> target > position,
        spec_direction(position, target) == Drive::Down <==> target < position,
        spec_direction(position, target) == Drive::Stop <==> target == position,
{
}

/// Made in order on lines of which at most one is high, the writes for a
/// drive never leave both lines high and end at that drive's levels.
pub proof fn lemma_line_writes_stay_exclusive(before: Levels, drive: Drive)
    requires
        exclusive(before),
    ensures
        spec_line_writes(drive).len() == 2,
        exclusive(spec_apply(before, spec_line_writes(drive)[0])),
        spec_apply(spec_apply(before, spec_line_writes(drive)[0]), spec_line_writes(drive)[1])
            == levels_of(drive),
        exclusive(levels_of(drive)),
        drive_of(levels_of(drive)) == drive,
{
}

/// The two actuator lines of one blind, as last commanded.
#[derive(Clone, Copy, Debug)]
pub struct MotionOutput {
    up: bool,
    down: bool,
}

impl View for MotionOutput {
    type V = Levels;

    closed spec fn view(&self) -> Levels {
        Levels { up: self.up, down: self.down }
    }
}

impl MotionOutput {
    /// At most one line is high.
    #[verifier::type_invariant]
    pub open spec fn well_formed(&self) -> bool {
        exclusive(self@)
    }

    /// Both lines low.
    pub fn new() -> (out: MotionOutput)
        ensures
            out@ == levels_of(Drive::Stop),
    {
        MotionOutput { up: false, down: false }
    }

    fn write(&mut self, write: LineWrite)
        requires
            exclusive(spec_apply(old(self)@, write)),
        ensures
            final(self)@ == spec_apply(old(self)@, write),
        no_unwind
    {
        match write.line {
            Line::Up => {
                self.up = write.high;
            },
            Line::Down => {
                self.down = write.high;
            },
        }
    }

    /// Carries out `drive`: makes its two line writes in order.
    pub fn drive(&mut self, drive: Drive)
        ensures
            final(self)@ == levels_of(drive),
        no_unwind
    {
        proof {
            use_type_invariant(&*self);
            lemma_line_writes_stay_exclusive(self@, drive);
        }
        let writes = line_writes(drive);
        self.write(writes[0]);
        self.write(writes[1]);
    }

    /// Raises the up line, the down line being low.
    pub fn drive_up(&mut self)
        ensures
            final(self)@ == (Levels { up: true, down: false }),
        no_unwind
    {
        self.drive(Drive::Up);
    }

    /// Raises the down line, the up line being low.
    pub fn drive_down(&mut self)
        ensures
            final(self)@ == (Levels { up: false, down: true }),
        no_unwind
    {
        self.drive(Drive::Down);
    }

    /// Releases both lines.
    pub fn stop(&mut self)
        ensures
            final(self)@ == (Levels { up: false, down: false }),
        no_unwind
    {
        self.drive(Drive::Stop);
    }

    /// The levels of the two lines; never both high.
    pub fn levels(&self) -> (levels: Levels)
        ensures
            levels == self@,
            exclusive(levels),
    {
        proof {
            use_type_invariant(self);
        }
        Levels { up: self.up, down: self.down }
    }

    /// The drive that the lines carry out.
    pub fn state(&self) -> (drive: Drive)
        ensures
            drive == drive_of(self@),
            self@ == levels_of(drive),
    {
        proof {
            use_type_invariant(self);
        }
        if self.up {
            Drive::Up
        } else if self.down {
            Drive::Down
        } else {
            Drive::Stop
        }
    }
}

} // verus!
