//! The one place where the engine draws randomness from outside.

use vstd::prelude::*;

use crate::button::{button_of_index, Button};

verus! {

/// Relies on rand's `Rng::gen_range` on the range `0..4`: it returns a value
/// of that range, drawn uniformly (the range is non-empty, so it does not
/// panic).  Of a random draw nothing more than its range can be promised.
#[verifier::external_body]
fn draw_index() -> (r: u8)
    ensures
        r < 4,
{
    rand::Rng::gen_range(&mut rand::thread_rng(), 0..4u8)
}

/// Draws one of the four buttons uniformly at random.  Which one comes back
/// differs from call to call; callers state what holds of every outcome.
pub fn draw_button() -> Button {
    button_of_index(draw_index())
}

} // verus!
