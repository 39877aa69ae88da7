//! Colour feedback for button-like elements.
//!
//! The host input system reports, for each element tagged as a button, its
//! current interaction state and whether that state changed since the last
//! tick. The rule is fixed: each state has one colour, chosen by the new
//! state alone, and the colour is rewritten only on a change.

use vstd::prelude::*;

verus! {

/// Interaction state the host input system reports for a clickable element.
#[derive(Clone, Copy, PartialEq, Eq, Structural, Debug)]
pub enum Interaction {
    /// The pointer is away from the element.
    Idle,
    /// The pointer rests on the element.
    Hovered,
    /// The element is being clicked.
    Pressed,
}

/// A solid colour, one byte per channel.
#[derive(Clone, Copy, PartialEq, Eq, Structural, Debug)]
pub struct Rgb {
    pub r: u8,
    pub g: u8,
    pub b: u8,
}

/// The colour constant owed to each interaction state: pressed shows the
/// active green, hovered the cadet-blue highlight, idle the teal base.
pub open spec fn spec_color_for(state: Interaction) -> Rgb {
    match state {
        Interaction::Pressed => Rgb { r: 89, g: 191, b: 89 },
        Interaction::Hovered => Rgb { r: 95, g: 158, b: 160 },
        Interaction::Idle => Rgb { r: 0, g: 128, b: 128 },
    }
}

/// The colour a button background shows after one tick: rewritten to the
/// constant of the current state when the state changed, untouched otherwise.
pub open spec fn spec_tick_color(state: Interaction, changed: bool, shown: Rgb) -> Rgb {
    if changed {
        spec_color_for(state)
    } else {
        shown
    }
}

/// Colour a button must show while in interaction state `state`.
pub fn color_for(state: Interaction) -> (c: Rgb)
    ensures
        c == spec_color_for(state),
{
    match state {
        Interaction::Pressed => Rgb { r: 89, g: 191, b: 89 },
        Interaction::Hovered => Rgb { r: 95, g: 158, b: 160 },
        Interaction::Idle => Rgb { r: 0, g: 128, b: 128 },
    }
}

/// One tick of the button feedback for one element: `state` is the
/// interaction state the host reports now, `changed` whether it differs
/// from the last tick, and `color` the background to update. The colour
/// is written only on a change, so an unchanged state costs no write.
pub fn button_tick(state: Interaction, changed: bool, color: &mut Rgb)
    ensures
        *final(color) == spec_tick_color(state, changed, *old(color)),
{
    if changed {
        *color = color_for(state);
    }
}

/// On a state change the resulting colour is exactly the constant of the
/// new state, whatever colour — and so whatever prior state — the button
/// showed before.
pub proof fn lemma_color_ignores_prior(shown: Rgb, state: Interaction)
    ensures
        spec_tick_color(state, true, shown) == spec_color_for(state),
{
}

} // verus!
