//! A touch-driven text-entry widget for a secret (passphrase) field on a
//! small-display device.
//!
//! The widget owns a display-obscuring state machine (how much of the secret
//! is visible right now), a layout routine that grows a reveal region until
//! the wrapped text fits, a renderer for the obscured view (placeholder
//! glyphs, an optional last character in clear, a pending-entry marker), a
//! policy that derives which keypad controls are usable, and the router that
//! maps touch and timer notifications onto state transitions.
//!
//! Collaborators — the single-shot reveal timer, the multi-tap resolver, the
//! bounded character buffer and the text-fit oracle — are modeled as small
//! verified types with narrow interfaces, and the screen geometry and style
//! metrics are injected through [`layout::LayoutConfig`], so the core logic
//! is checkable against any screen geometry.

pub mod display;
pub mod events;
pub mod geometry;
pub mod input;
pub mod render;
pub mod keypad;
pub mod layout;
pub mod multitap;
pub mod textbox;
