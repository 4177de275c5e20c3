//! Dry-run stepping of a blind's position toward a commanded position.
//!
//! The simulator stands in for the actuator when no hardware is attached: it
//! walks a stored position toward the commanded one in ticks of a fixed
//! stride and lands exactly on it.

use vstd::prelude::*;

verus! {

/// Distance covered by one simulated tick.
pub const STEP: u16 = 5;

/// Position after one tick from `position` toward `target`: a full stride
/// while more than a stride away, the target itself otherwise.
pub open spec fn spec_advance(position: int, target: int) -> int {
    if target - position > STEP {
        position + STEP
    } else if position - target > STEP {
        position - STEP
    } else {
        target
    }
}

/// Number of ticks that take `position` to `target`: the distance divided by
/// the stride, rounded up.
pub open spec fn spec_ticks(position: int, target: int) -> int {
    if target >= position {
        (target - position + STEP - 1) / (STEP as int)
    } else {
        (position - target + STEP - 1) / (STEP as int)
    }
}

/// Advances `position` by one tick toward `target`, clamping at the target.
pub fn advance(position: u16, target: u16) -> (next: u16)
    ensures
        next == spec_advance(position as int, target as int),
{
    if target > position {
        if target - position > STEP {
            position + STEP
        } else {
            target
        }
    } else if position - target > STEP {
        position - STEP
    } else {
        target
    }
}

/// One tick brings the position one tick nearer, and a position that is at
/// its target stays there.
pub proof fn lemma_advance_counts_down(position: int, target: int)
    ensures
        position == target ==> spec_advance(position, target) == target,
        position == target ==> spec_ticks(position, target) == 0,
        position != target ==> spec_ticks(spec_advance(position, target), target) == spec_ticks(
            position,
            target,
        ) - 1,
        position != target ==> spec_ticks(position, target) > 0,
{
}

/// Steps the stored position `act_state` of blind `blind` to `new_state` and
/// returns the number of ticks taken. The blind's identifier only names the
/// channel being moved; it has no bearing on the result.
pub fn blind_simulator(blind: u8, new_state: u16, act_state: &mut u16) -> (ticks: u16)
    ensures
        *final(act_state) == new_state,
        ticks == spec_ticks(*old(act_state) as int, new_state as int),
{
    let mut ticks: u16 = 0;
    while new_state != *act_state
        invariant
            ticks + spec_ticks(*act_state as int, new_state as int) == spec_ticks(
                *old(act_state) as int,
                new_state as int,
            ),
            spec_ticks(*old(act_state) as int, new_state as int) <= 13107,
        decreases spec_ticks(*act_state as int, new_state as int),
    {
        proof {
            lemma_advance_counts_down(*act_state as int, new_state as int);
        }
        *act_state = advance(*act_state, new_state);
        ticks = ticks + 1;
    }
    proof {
        lemma_advance_counts_down(*act_state as int, new_state as int);
    }
    ticks
}

/// Moves blind `blind` from its stored position `act_state` to `new_state`
/// and returns the number of ticks the move took.
pub fn move_blind(blind: u8, new_state: u16, act_state: &mut u16) -> (ticks: u16)
    ensures
        *final(act_state) == new_state,
        ticks == spec_ticks(*old(act_state) as int, new_state as int),
{
    blind_simulator(blind, new_state, act_state)
}

} // verus!
