//! A slow fade for a whole frame: red comes up while blue goes down,
//! in 65 steps, and then the fade starts again.

use crate::color::Color;
use vstd::prelude::*;

verus! {

/// The last step of the fade.
pub const LAST_STEP: usize = 64;

/// The colour of every LED at a step of the fade: red at the step's
/// number, blue at its distance from the last step.
pub fn fade_color(step: usize) -> (c: Color)
    requires
        step <= LAST_STEP,
    ensures
        c == (Color { r: step as u8, g: 0, b: (LAST_STEP - step) as u8 }),
{
    Color::new(step as u8, 0, (LAST_STEP - step) as u8)
}

/// The step after `step`: the next one, or the first one after the
/// last.
pub fn next_step(step: usize) -> (next: usize)
    ensures
        next == (if step < LAST_STEP {
            step + 1
        } else {
            0
        }),
        next <= LAST_STEP,
{
    if step < LAST_STEP {
        step + 1
    } else {
        0
    }
}

} // verus!
