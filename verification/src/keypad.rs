//! The derived keypad affordances: which controls are usable right now.

use vstd::prelude::*;

verus! {

/// Usability of one logical control.
#[derive(Clone, Copy, Debug, PartialEq, Eq, Structural)]
pub enum ButtonState {
    /// Not drawn at all.
    Hidden,
    /// Drawn but inert.
    Disabled,
    /// Drawn and accepting input.
    Enabled,
}

/// A snapshot of the keypad affordances, recomputed on demand and never
/// cached. `override_key` names one specific key to render enabled even
/// while the generic keys are disabled (so a pending multi-tap character can
/// still be cycled on a full buffer).
#[derive(Clone, Copy, Debug, PartialEq, Eq)]
pub struct KeypadState {
    pub back: ButtonState,
    pub erase: ButtonState,
    pub cancel: ButtonState,
    pub confirm: ButtonState,
    pub keys: ButtonState,
    pub override_key: Option<(usize, ButtonState)>,
}

} // verus!
