//! Notifications delivered to the widget, the single outward message it can
//! answer with, and the single-shot reveal timer.

use crate::geometry::Point;
use vstd::prelude::*;

verus! {

/// Which single-shot timer a timer notification belongs to.
#[derive(Clone, Copy, Debug, PartialEq, Eq, Structural)]
pub enum TimerId {
    /// The reveal timer: hides the momentarily visible last character.
    LastChar,
    /// The multi-tap resolver's commit timeout.
    MultiTap,
}

/// A raw touch notification with its screen position.
#[derive(Clone, Copy, Debug, PartialEq, Eq, Structural)]
pub enum TouchEvent {
    TouchStart(Point),
    TouchEnd(Point),
    TouchMove(Point),
}

/// A serialized notification delivered by the surrounding event loop.
#[derive(Clone, Copy, Debug, PartialEq, Eq, Structural)]
pub enum Event {
    Timer(TimerId),
    Touch(TouchEvent),
}

/// The one outward message event handling can produce: the surrounding
/// screen should re-query [`crate::input::PassphraseInput::get_keypad_state`]
/// and redraw its controls.
#[derive(Clone, Copy, Debug, PartialEq, Eq, Structural)]
pub enum StringInputMsg {
    UpdateKeypad,
}

/// Per-dispatch context: records whether handling the current notification
/// asked for a repaint.
#[derive(Clone, Copy, Debug, PartialEq, Eq, Structural)]
pub struct EventCtx {
    pub paint_requested: bool,
}

impl EventCtx {
    /// A fresh context with no repaint requested yet.
    pub fn new() -> (r: EventCtx)
        ensures
            !r.paint_requested,
    {
        EventCtx { paint_requested: false }
    }

    /// Ask the surrounding loop to repaint after this notification.
    pub fn request_paint(&mut self)
        ensures
            final(self).paint_requested,
    {
        self.paint_requested = true;
    }
}

/// A fire-once, restartable, cancellable delayed notification, owned
/// exclusively by the widget. Only whether a firing is scheduled is modeled;
/// the clock itself belongs to the surrounding runtime, which delivers the
/// firing as an [`Event::Timer`] notification.
#[derive(Clone, Copy, Debug, PartialEq, Eq, Structural)]
pub struct Timer {
    pub running: bool,
}

impl Timer {
    /// A timer with no firing scheduled.
    pub fn new() -> (r: Timer)
        ensures
            !r.running,
    {
        Timer { running: false }
    }

    /// Schedule a firing, discarding any previously scheduled one.
    pub fn start(&mut self)
        ensures
            final(self).running,
    {
        self.running = true;
    }

    /// Discard any scheduled firing.
    pub fn stop(&mut self)
        ensures
            !final(self).running,
    {
        self.running = false;
    }
}

} // verus!
