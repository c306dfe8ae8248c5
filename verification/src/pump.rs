//! Fixed-timestep frame pacing.
//!
//! The viewer's main loop runs a callback once per frame, accumulates the
//! wall-clock time the frame took, drains the accumulator in fixed-size
//! simulation steps, and sleeps for the remainder of the current step.
//! The clock reads and the sleep itself belong to the host application;
//! this module holds the accumulator arithmetic that decides how many
//! steps to run and how long to sleep.

use vstd::prelude::*;

verus! {

/// What the per-frame callback tells the frame pump: keep iterating or
/// exit after the current frame.
#[derive(Clone, Copy, Debug, PartialEq, Eq)]
pub enum Action {
    Stop,
    Continue,
}

/// Nanoseconds in one fixed simulation step: one sixtieth of a second.
pub const FIXED_STEP_NANOS: u64 = 16_666_667;

/// One frame's outcome of the fixed-timestep accumulator.
#[derive(Clone, Copy, Debug, PartialEq, Eq)]
pub struct PumpTick {
    /// Time left in the accumulator, always less than one step.
    pub accumulator: u64,
    /// How many whole fixed steps the frame's elapsed time paid for.
    pub steps: u64,
    /// How long the loop should sleep before the next frame.
    pub sleep_nanos: u64,
}

/// Advance the fixed-timestep accumulator by one frame.
///
/// The elapsed wall-clock time of the frame is added to the accumulator,
/// whole fixed steps are drained from it, and the sleep lasts for whatever
/// is missing to complete the current step.
pub fn pump_tick(accumulator: u64, elapsed: u64) -> (r: PumpTick)
    ensures
        r.accumulator == (accumulator + elapsed) % (FIXED_STEP_NANOS as int),
        r.steps == (accumulator + elapsed) / (FIXED_STEP_NANOS as int),
        r.accumulator < FIXED_STEP_NANOS,
        r.sleep_nanos == FIXED_STEP_NANOS - r.accumulator,
{
    let total: u128 = accumulator as u128 + elapsed as u128;
    let fixed: u128 = FIXED_STEP_NANOS as u128;
    let steps: u128 = total / fixed;
    let rem: u128 = total % fixed;
    proof {
        assert(total == fixed * steps + rem) by {
            vstd::arithmetic::div_mod::lemma_fundamental_div_mod(total as int, fixed as int);
        }
        assert(steps <= u64::MAX) by (nonlinear_arith)
            requires
                fixed == 16_666_667,
                fixed * steps + rem == total,
                total <= 2 * (u64::MAX as int),
                rem >= 0,
        ;
    }
    PumpTick {
        accumulator: rem as u64,
        steps: steps as u64,
        sleep_nanos: FIXED_STEP_NANOS - rem as u64,
    }
}

} // verus!
