//! The four fixed button identities of the game panel.

use vstd::prelude::*;

verus! {

/// One of the four colored buttons.  Immutable identity, used as pattern
/// element and as the key that every other component speaks of.
#[derive(Clone, Copy, Debug, PartialEq, Eq, Structural)]
pub enum Button {
    Red,
    Green,
    Blue,
    Yellow,
}

/// The button that a drawn index below four stands for.
pub open spec fn spec_button_of_index(i: u8) -> Button {
    if i == 0 {
        Button::Red
    } else if i == 1 {
        Button::Green
    } else if i == 2 {
        Button::Blue
    } else {
        Button::Yellow
    }
}

/// Maps a drawn index to its button identity.
pub fn button_of_index(i: u8) -> (b: Button)
    ensures
        b == spec_button_of_index(i),
{
    match i {
        0 => Button::Red,
        1 => Button::Green,
        2 => Button::Blue,
        _ => Button::Yellow,
    }
}

} // verus!
