//! How much of the secret is exposed on screen at this moment.

use vstd::prelude::*;

verus! {

/// The display-obscuring state of the widget.
///
/// Exactly one of these holds at any time: nothing shown, the last committed
/// character shown (with or without a pending multi-tap marker), or the
/// whole secret shown inside the reveal region.
#[derive(Clone, Copy, Debug, PartialEq, Eq, Structural)]
pub enum DisplayStyle {
    /// Nothing of the secret is shown, not even the last character.
    Hidden,
    /// Only the most recently committed character is shown in clear.
    LastOnly,
    /// The most recent character is shown in clear, annotated with a marker:
    /// a multi-tap selection is still pending and may cycle further.
    LastWithMarker,
    /// The entire secret is rendered in clear inside the reveal region.
    Shown,
}

} // verus!
