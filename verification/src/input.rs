//! The passphrase-entry widget: display-obscuring state machine, reveal
//! layout, obscured-view renderer, keypad policy and event router.

use crate::display::DisplayStyle;
use crate::events::{Event, EventCtx, StringInputMsg, Timer, TimerId, TouchEvent};
use crate::geometry::{
    spec_clamp, spec_contains, spec_inset, spec_outset, Insets, Rect,
};
use crate::keypad::{ButtonState, KeypadState};
use crate::layout::{spec_fits, text_fits, LayoutConfig, MAX_TEXT_LEN, METRIC_MAX};
use crate::multitap::{spec_click_edit, spec_click_pending, MultiTapKeyboard};
use crate::render::{DrawOp, IconColor};
use crate::textbox::{spec_apply, TextBox};
use vstd::prelude::*;

verus! {

/// Horizontal jitter applied to an overflowed row of even length.
pub const TWITCH: i32 = 4;

/// Horizontal gap between two placeholder glyphs.
pub const ICON_SPACE: i32 = 12;

/// Width of one placeholder glyph.
pub const ICON_WIDTH: i32 = 8;

/// Left margin of the first placeholder glyph inside the input row.
pub const ICON_X_OFFSET: i32 = 12;

/// Most placeholder slots ever drawn on the obscured row.
pub const MAX_SHOWN_LEN: usize = 13;

/// Length of the fade palette drawn for the earliest overflow slots.
pub const FADING_ICON_COUNT: usize = 3;

/// How far below the reveal rectangle a touch still counts as over it, so a
/// finger covering the secret does not itself dismiss the reveal.
pub const SHOWN_TOUCH_OUTSET: i32 = 200;

/// The touch-driven secret-entry widget.
pub struct PassphraseInput {
    /// Rectangle allocated by the surrounding layout; the touch-hit region
    /// that starts a reveal.
    pub area: Rect,
    /// The bounded character buffer holding the secret.
    pub textbox: TextBox,
    /// How much of the secret is exposed right now.
    pub display_style: DisplayStyle,
    /// The reveal timer hiding the momentarily visible last character.
    pub last_char_timer: Timer,
    /// The reveal rectangle; meaningful only while
    /// [`DisplayStyle::Shown`], stale otherwise.
    pub shown_area: Rect,
    /// Immutable upper bound on the buffer length.
    pub max_len: usize,
    /// The multi-tap resolver.
    pub multi_tap: MultiTapKeyboard,
    /// Whether the surrounding screen offers a cancel control here.
    pub allow_cancel: bool,
    /// Whether an empty secret may be confirmed.
    pub allow_empty: bool,
}

/// The base reveal rectangle: anchored at the widget's top-left, spanning
/// the full screen width at the widget's own height, inset by the input
/// padding.
pub open spec fn spec_base_shown_area(area: Rect, cfg: LayoutConfig) -> Rect {
    spec_inset(
        Rect {
            x0: area.x0,
            y0: area.y0,
            x1: (area.x0 + cfg.screen.x1 - cfg.screen.x0) as i32,
            y1: area.y1,
        },
        cfg.input_insets,
    )
}

/// What a recomputed reveal rectangle looks like for `n` characters: the
/// base rectangle grown downward by whole line heights, exactly far enough
/// that the text-fit oracle reports a fit — and not grown at all when the
/// content already fits the base rectangle.
pub open spec fn spec_shown_area_ok(n: int, area: Rect, shown: Rect, cfg: LayoutConfig) -> bool {
    let base = spec_base_shown_area(area, cfg);
    &&& shown.x0 == base.x0
    &&& shown.y0 == base.y0
    &&& shown.x1 == base.x1
    &&& shown.y1 >= base.y1
    &&& (shown.y1 - base.y1) % (cfg.line_height as int) == 0
    &&& spec_fits(n, spec_inset(shown, cfg.shown_insets), cfg)
    &&& (shown.y1 == base.y1 || !spec_fits(
        n,
        spec_inset((Rect { y1: (shown.y1 - cfg.line_height) as i32, ..shown }), cfg.shown_insets),
        cfg,
    ))
    &&& (spec_fits(n, spec_inset(base, cfg.shown_insets), cfg) ==> shown == base)
}

/// The extended reveal region: the reveal rectangle outset downward by
/// [`SHOWN_TOUCH_OUTSET`] and clamped to the screen.
pub open spec fn spec_extended_area(shown: Rect, cfg: LayoutConfig) -> Rect {
    spec_clamp(
        spec_outset(shown, (Insets { left: 0, top: 0, right: 0, bottom: SHOWN_TOUCH_OUTSET })),
        cfg.screen,
    )
}

/// The keypad affordances derived from the widget's current state
/// (recomputed on demand, never cached).
pub open spec fn spec_keypad_state(w: PassphraseInput) -> KeypadState {
    if w.display_style is Shown {
        KeypadState {
            back: ButtonState::Hidden,
            erase: ButtonState::Disabled,
            cancel: ButtonState::Hidden,
            confirm: ButtonState::Disabled,
            keys: ButtonState::Disabled,
            override_key: None,
        }
    } else if w.textbox.chars@.len() >= w.max_len {
        KeypadState {
            back: ButtonState::Hidden,
            erase: ButtonState::Enabled,
            cancel: ButtonState::Hidden,
            confirm: ButtonState::Enabled,
            keys: ButtonState::Disabled,
            override_key: match w.multi_tap.pending {
                Some(pk) => Some((pk.key, ButtonState::Enabled)),
                None => None,
            },
        }
    } else if w.textbox.chars@.len() == 0 {
        KeypadState {
            back: ButtonState::Hidden,
            erase: ButtonState::Hidden,
            cancel: if w.allow_cancel {
                ButtonState::Enabled
            } else {
                ButtonState::Hidden
            },
            confirm: if w.allow_empty {
                ButtonState::Enabled
            } else {
                ButtonState::Disabled
            },
            keys: ButtonState::Enabled,
            override_key: None,
        }
    } else {
        KeypadState {
            back: ButtonState::Hidden,
            erase: ButtonState::Enabled,
            cancel: ButtonState::Hidden,
            confirm: ButtonState::Enabled,
            keys: ButtonState::Enabled,
            override_key: None,
        }
    }
}

impl PassphraseInput {
    /// Nothing of the secret is in the buffer.
    pub open spec fn is_empty_spec(self) -> bool {
        self.textbox.chars@.len() == 0
    }

    /// The buffer has reached its bound.
    pub open spec fn is_full_spec(self) -> bool {
        self.textbox.chars@.len() >= self.max_len
    }

    /// The widget's invariant: the buffer respects its bound and shares it
    /// with the widget; the placed rectangle is a hardware rectangle; the
    /// reveal rectangle stays in the coordinate space; nothing is displayed
    /// of an empty buffer; entering the reveal always cleared the pending
    /// multi-tap selection; and a pending selection implies a character is
    /// already in the buffer.
    pub open spec fn wf(self) -> bool {
        &&& self.textbox.wf()
        &&& self.textbox.max_len == self.max_len
        &&& 1 <= self.max_len <= MAX_TEXT_LEN as int
        &&& self.multi_tap.wf()
        &&& self.area.wf()
        &&& self.shown_area.bounded()
        &&& (self.is_empty_spec() ==> self.display_style is Hidden)
        &&& (self.display_style is Shown ==> self.multi_tap.pending is None)
        &&& (self.multi_tap.pending is Some ==> self.textbox.chars@.len() > 0)
    }

    /// A fresh widget: empty buffer, nothing shown, no reveal scheduled, no
    /// selection pending.
    pub fn new(max_len: usize, allow_cancel: bool, allow_empty: bool) -> (r: PassphraseInput)
        requires
            1 <= max_len <= MAX_TEXT_LEN as int,
        ensures
            r.wf(),
            r.area == (Rect { x0: 0, y0: 0, x1: 0, y1: 0 }),
            r.shown_area == (Rect { x0: 0, y0: 0, x1: 0, y1: 0 }),
            r.textbox.chars@ =~= Seq::<char>::empty(),
            r.display_style is Hidden,
            !r.last_char_timer.running,
            r.multi_tap.pending is None,
            r.max_len == max_len,
            r.allow_cancel == allow_cancel,
            r.allow_empty == allow_empty,
    {
        PassphraseInput {
            area: Rect::zero(),
            textbox: TextBox::empty(max_len),
            display_style: DisplayStyle::Hidden,
            last_char_timer: Timer::new(),
            shown_area: Rect::zero(),
            max_len,
            multi_tap: MultiTapKeyboard::new(),
            allow_cancel,
            allow_empty,
        }
    }

    /// Read the current secret.
    pub fn content(&self) -> (r: &Vec<char>)
        ensures
            r@ == self.textbox.chars@,
    {
        self.textbox.content()
    }

    /// Whether the buffer has reached its bound.
    pub fn is_full(&self) -> (b: bool)
        ensures
            b == self.is_full_spec(),
    {
        self.textbox.len() >= self.max_len
    }

    /// Whether nothing has been entered yet.
    pub fn is_empty(&self) -> (b: bool)
        ensures
            b == self.is_empty_spec(),
    {
        self.textbox.len() == 0
    }

    /// True exactly while the whole secret is revealed, letting the caller
    /// avoid drawing keys under the reveal region.
    pub fn might_overlap_keypad(&self) -> (b: bool)
        ensures
            b == (self.display_style is Shown),
    {
        self.display_style == DisplayStyle::Shown
    }

    /// Accept the rectangle allocated by the surrounding layout and return
    /// it unchanged; the widget never resizes itself outside of reveal.
    pub fn place(&mut self, bounds: Rect) -> (r: Rect)
        requires
            old(self).wf(),
            bounds.wf(),
        ensures
            final(self).wf(),
            final(self).area == bounds,
            r == bounds,
            *final(self) == (PassphraseInput { area: bounds, ..*old(self) }),
    {
        self.area = bounds;
        bounds
    }

    /// Derive the keypad affordances from the current state.
    ///
    /// On an empty buffer the back and erase controls are always hidden,
    /// cancel is shown exactly when cancelling is allowed, and confirm is
    /// enabled exactly when an empty secret may be confirmed — disabled,
    /// never hidden, otherwise. On a full buffer the generic keys are
    /// disabled and exactly the pending multi-tap key, if any, is
    /// force-enabled through the override slot.
    pub fn get_keypad_state(&self) -> (r: KeypadState)
        ensures
            r == spec_keypad_state(*self),
            self.wf() && self.is_empty_spec() ==> {
                &&& r.back is Hidden
                &&& r.erase is Hidden
                &&& r.cancel == if self.allow_cancel {
                    ButtonState::Enabled
                } else {
                    ButtonState::Hidden
                }
                &&& r.confirm == if self.allow_empty {
                    ButtonState::Enabled
                } else {
                    ButtonState::Disabled
                }
            },
            self.wf() && self.is_full_spec() ==> {
                &&& r.keys is Disabled
                &&& r.override_key == match self.multi_tap.pending {
                    Some(pk) => Some((pk.key, ButtonState::Enabled)),
                    None => None::<(usize, ButtonState)>,
                }
            },
    {
        if self.display_style == DisplayStyle::Shown {
            KeypadState {
                back: ButtonState::Hidden,
                erase: ButtonState::Disabled,
                cancel: ButtonState::Hidden,
                confirm: ButtonState::Disabled,
                keys: ButtonState::Disabled,
                override_key: None,
            }
        } else if self.is_full() {
            let override_key = match self.multi_tap.pending_key() {
                Some(k) => Some((k, ButtonState::Enabled)),
                None => None,
            };
            KeypadState {
                back: ButtonState::Hidden,
                erase: ButtonState::Enabled,
                cancel: ButtonState::Hidden,
                confirm: ButtonState::Enabled,
                keys: ButtonState::Disabled,
                override_key,
            }
        } else if self.is_empty() {
            KeypadState {
                back: ButtonState::Hidden,
                erase: ButtonState::Hidden,
                cancel: if self.allow_cancel {
                    ButtonState::Enabled
                } else {
                    ButtonState::Hidden
                },
                confirm: if self.allow_empty {
                    ButtonState::Enabled
                } else {
                    ButtonState::Disabled
                },
                keys: ButtonState::Enabled,
                override_key: None,
            }
        } else {
            KeypadState {
                back: ButtonState::Hidden,
                erase: ButtonState::Enabled,
                cancel: ButtonState::Hidden,
                confirm: ButtonState::Enabled,
                keys: ButtonState::Enabled,
                override_key: None,
            }
        }
    }

    /// One tap on key `idx` whose candidate characters are `text`: the
    /// resolver turns it into a buffer edit; an unambiguous key shows the
    /// committed character briefly (reveal timer restarted), an ambiguous
    /// one shows it with the pending marker (reveal timer stopped).
    pub fn on_key_click(&mut self, ctx: &mut EventCtx, idx: usize, text: &Vec<char>)
        requires
            old(self).wf(),
            text@.len() >= 1,
        ensures
            final(self).wf(),
            final(self).multi_tap.pending == spec_click_pending(
                old(self).multi_tap.pending,
                idx,
                text@,
            ),
            final(self).textbox.chars@ == spec_apply(
                old(self).textbox.chars@,
                old(self).max_len as int,
                spec_click_edit(old(self).multi_tap.pending, idx, text@),
            ),
            text@.len() == 1 ==> final(self).display_style is LastOnly
                && final(self).last_char_timer.running,
            text@.len() > 1 ==> final(self).display_style is LastWithMarker
                && !final(self).last_char_timer.running,
            final(self).area == old(self).area,
            final(self).shown_area == old(self).shown_area,
            final(self).max_len == old(self).max_len,
            final(self).allow_cancel == old(self).allow_cancel,
            final(self).allow_empty == old(self).allow_empty,
            *final(ctx) == *old(ctx),
    {
        let edit = self.multi_tap.click_key(idx, text);
        self.textbox.apply(edit);
        if text.len() == 1 {
            self.display_style = DisplayStyle::LastOnly;
            self.last_char_timer.start();
        } else {
            self.last_char_timer.stop();
            self.display_style = DisplayStyle::LastWithMarker;
        }
    }

    /// Erase: delete the last character (or everything, on a long press),
    /// abandon any pending selection, and hide the secret again.
    pub fn on_erase(&mut self, ctx: &mut EventCtx, long_erase: bool)
        requires
            old(self).wf(),
        ensures
            final(self).wf(),
            final(self).multi_tap.pending is None,
            final(self).display_style is Hidden,
            final(self).textbox.chars@ == if long_erase {
                Seq::<char>::empty()
            } else if old(self).textbox.chars@.len() > 0 {
                old(self).textbox.chars@.drop_last()
            } else {
                old(self).textbox.chars@
            },
            final(self).area == old(self).area,
            final(self).shown_area == old(self).shown_area,
            final(self).max_len == old(self).max_len,
            final(self).allow_cancel == old(self).allow_cancel,
            final(self).allow_empty == old(self).allow_empty,
            final(self).last_char_timer == old(self).last_char_timer,
            *final(ctx) == *old(ctx),
    {
        self.multi_tap.clear_pending_state();
        if long_erase {
            self.textbox.clear();
        } else {
            self.textbox.delete_last();
        }
        self.display_style = DisplayStyle::Hidden;
    }

    /// The surrounding paginated keyboard switched pages: commit any pending
    /// multi-tap character as it stands, show it briefly, and restart the
    /// reveal timer. Without a pending selection nothing changes.
    pub fn on_page_change(&mut self, ctx: &mut EventCtx)
        requires
            old(self).wf(),
        ensures
            final(self).wf(),
            final(self).multi_tap.pending is None,
            old(self).multi_tap.pending is Some ==> final(self).display_style is LastOnly
                && final(self).last_char_timer.running,
            old(self).multi_tap.pending is None ==> *final(self) == *old(self),
            final(self).textbox.chars@ == old(self).textbox.chars@,
            final(self).area == old(self).area,
            final(self).shown_area == old(self).shown_area,
            final(self).max_len == old(self).max_len,
            final(self).allow_cancel == old(self).allow_cancel,
            final(self).allow_empty == old(self).allow_empty,
            *final(ctx) == *old(ctx),
    {
        let pending = self.multi_tap.pending_key();
        if pending.is_some() {
            self.multi_tap.clear_pending_state();
            self.display_style = DisplayStyle::LastOnly;
            self.last_char_timer.start();
        }
    }

    /// Recompute the reveal rectangle: start from the base rectangle and
    /// grow downward one line height at a time until the current content
    /// fits (see [`spec_shown_area_ok`]). The loop terminates because the
    /// bounded buffer bounds the number of wrapped lines.
    #[verifier::loop_isolation(false)]
    pub fn update_shown_area(&mut self, cfg: &LayoutConfig)
        requires
            old(self).wf(),
            cfg.wf(),
        ensures
            final(self).wf(),
            spec_shown_area_ok(
                old(self).textbox.chars@.len() as int,
                old(self).area,
                final(self).shown_area,
                *cfg,
            ),
            *final(self) == (PassphraseInput { shown_area: final(self).shown_area, ..*old(self) }),
    {
        let screen_width = cfg.screen.width();
        let top_strip = Rect {
            x0: self.area.x0,
            y0: self.area.y0,
            x1: self.area.x0 + screen_width,
            y1: self.area.y1,
        };
        let base = top_strip.inset(cfg.input_insets);
        let n = self.textbox.len();
        assert(base == spec_base_shown_area(self.area, *cfg));
        assert(0 <= base.x0 <= 40000 && -40000 <= base.x1 <= 70000);
        assert(0 <= base.y0 <= 40000 && -40000 <= base.y1 <= 40000);
        assert(base.y0 <= base.y1 + 2 * (METRIC_MAX as int));
        proof {
            vstd::arithmetic::div_mod::lemma_small_mod(0nat, cfg.line_height as nat);
        }
        let mut shown = base;
        while !text_fits(n, shown.inset(cfg.shown_insets), cfg)
            invariant
                shown.x0 == base.x0,
                shown.y0 == base.y0,
                shown.x1 == base.x1,
                shown.y1 >= base.y1,
                ((shown.y1 - base.y1) % (cfg.line_height as int)) == 0,
                shown.y1 == base.y1 || !spec_fits(
                    n as int,
                    spec_inset(
                        (Rect { y1: (shown.y1 - cfg.line_height) as i32, ..shown }),
                        cfg.shown_insets,
                    ),
                    *cfg,
                ),
                spec_fits(n as int, spec_inset(base, cfg.shown_insets), *cfg) ==> shown == base,
                shown.y1 <= base.y1 + (MAX_TEXT_LEN as int) * (METRIC_MAX as int) + 8 * (
                METRIC_MAX as int),
            decreases
                spec_lines_px(n as int, shown, *cfg) + 4 * (METRIC_MAX as int) + base.y1
                    - shown.y1,
        {
            proof {
                lemma_unfit_bounds(n as int, shown, base, *cfg);
                vstd::arithmetic::div_mod::lemma_mod_add_multiples_vanish(
                    shown.y1 - base.y1,
                    cfg.line_height as int,
                );
            }
            shown.y1 = shown.y1 + cfg.line_height;
        }
        self.shown_area = shown;
    }
}

/// A multi-tap commit timeout arrived while a selection is pending.
pub open spec fn guard_multitap_timeout(w: PassphraseInput, e: Event) -> bool {
    e == Event::Timer(TimerId::MultiTap) && w.multi_tap.pending is Some
}

/// A touch started inside the widget's own rectangle.
pub open spec fn guard_touch_start(w: PassphraseInput, e: Event) -> bool {
    e matches Event::Touch(TouchEvent::TouchStart(p)) && spec_contains(w.area, p)
}

/// A touch ended inside the extended reveal region while the secret is
/// revealed.
pub open spec fn guard_touch_end(w: PassphraseInput, e: Event, cfg: LayoutConfig) -> bool {
    e matches Event::Touch(TouchEvent::TouchEnd(p)) && spec_contains(
        spec_extended_area(w.shown_area, cfg),
        p,
    ) && w.display_style is Shown
}

/// A touch moved out of the extended reveal region while the secret is
/// revealed.
pub open spec fn guard_touch_move(w: PassphraseInput, e: Event, cfg: LayoutConfig) -> bool {
    e matches Event::Touch(TouchEvent::TouchMove(p)) && !spec_contains(
        spec_extended_area(w.shown_area, cfg),
        p,
    ) && w.display_style is Shown
}

/// The reveal timer fired while it was scheduled.
pub open spec fn guard_reveal_expiry(w: PassphraseInput, e: Event) -> bool {
    e == Event::Timer(TimerId::LastChar) && w.last_char_timer.running
}

/// The event router's full contract, one branch per dispatch rule, in
/// dispatch order. `pre`/`post` are the widget before and after the call,
/// `paint_pre`/`paint_post` the context's repaint flag, `msg` the outward
/// message — at most one per event.
///
/// On an empty buffer no touch or timer notification is processed at all.
/// Otherwise: a multi-tap timeout commits the pending character, shows it
/// briefly, and reports a keypad refresh exactly when the buffer is now
/// full; a touch start inside the widget enters the reveal (recomputing the
/// reveal rectangle) and always reports a keypad refresh; a touch end inside
/// the extended reveal region — or a touch move out of it — while revealed
/// hides the secret and reports a keypad refresh; reveal-timer expiry hides
/// the last character and requests a repaint but never reports a keypad
/// refresh; anything else is ignored without a transition.
pub open spec fn spec_event_outcome(
    pre: PassphraseInput,
    post: PassphraseInput,
    e: Event,
    cfg: LayoutConfig,
    msg: Option<StringInputMsg>,
    paint_pre: bool,
    paint_post: bool,
) -> bool {
    if pre.is_empty_spec() {
        post == pre && msg is None && paint_post == paint_pre
    } else if guard_multitap_timeout(pre, e) {
        &&& post == (PassphraseInput {
            multi_tap: MultiTapKeyboard { pending: None },
            last_char_timer: Timer { running: true },
            display_style: DisplayStyle::LastOnly,
            ..pre
        })
        &&& msg == if pre.is_full_spec() {
            Some(StringInputMsg::UpdateKeypad)
        } else {
            None::<StringInputMsg>
        }
        &&& paint_post == paint_pre
    } else if guard_touch_start(pre, e) {
        &&& post == (PassphraseInput {
            multi_tap: MultiTapKeyboard { pending: None },
            last_char_timer: Timer { running: false },
            display_style: DisplayStyle::Shown,
            shown_area: post.shown_area,
            ..pre
        })
        &&& spec_shown_area_ok(pre.textbox.chars@.len() as int, pre.area, post.shown_area, cfg)
        &&& msg == Some(StringInputMsg::UpdateKeypad)
        &&& paint_post == paint_pre
    } else if guard_touch_end(pre, e, cfg) || guard_touch_move(pre, e, cfg) {
        &&& post == (PassphraseInput {
            multi_tap: MultiTapKeyboard { pending: None },
            display_style: DisplayStyle::Hidden,
            ..pre
        })
        &&& msg == Some(StringInputMsg::UpdateKeypad)
        &&& paint_post == paint_pre
    } else if guard_reveal_expiry(pre, e) {
        &&& post == (PassphraseInput {
            display_style: DisplayStyle::Hidden,
            last_char_timer: Timer { running: false },
            ..pre
        })
        &&& msg is None
        &&& paint_post
    } else {
        post == pre && msg is None && paint_post == paint_pre
    }
}

impl PassphraseInput {
    /// Route one touch or timer notification onto the state machine; see
    /// [`spec_event_outcome`] for the full dispatch table.
    pub fn event(&mut self, ctx: &mut EventCtx, event: Event, cfg: &LayoutConfig) -> (msg: Option<
        StringInputMsg,
    >)
        requires
            old(self).wf(),
            cfg.wf(),
        ensures
            final(self).wf(),
            spec_event_outcome(
                *old(self),
                *final(self),
                event,
                *cfg,
                msg,
                old(ctx).paint_requested,
                final(ctx).paint_requested,
            ),
            final(self).textbox == old(self).textbox,
            final(self).area == old(self).area,
            final(self).max_len == old(self).max_len,
            final(self).allow_cancel == old(self).allow_cancel,
            final(self).allow_empty == old(self).allow_empty,
    {
        if self.is_empty() {
            return None;
        }
        let extended = self.shown_area.outset(Insets::bottom(SHOWN_TOUCH_OUTSET)).clamp(
            cfg.screen,
        );
        match event {
            Event::Timer(TimerId::MultiTap) => {
                if self.multi_tap.pending_key().is_some() {
                    self.multi_tap.clear_pending_state();
                    self.last_char_timer.start();
                    self.display_style = DisplayStyle::LastOnly;
                    if self.is_full() {
                        return Some(StringInputMsg::UpdateKeypad);
                    }
                    return None;
                }
                None
            },
            Event::Touch(TouchEvent::TouchStart(pos)) => {
                if self.area.contains(pos) {
                    self.multi_tap.clear_pending_state();
                    self.last_char_timer.stop();
                    self.display_style = DisplayStyle::Shown;
                    self.update_shown_area(cfg);
                    return Some(StringInputMsg::UpdateKeypad);
                }
                None
            },
            Event::Touch(TouchEvent::TouchEnd(pos)) => {
                if extended.contains(pos) && self.display_style == DisplayStyle::Shown {
                    self.multi_tap.clear_pending_state();
                    self.display_style = DisplayStyle::Hidden;
                    return Some(StringInputMsg::UpdateKeypad);
                }
                None
            },
            Event::Touch(TouchEvent::TouchMove(pos)) => {
                if !extended.contains(pos) && self.display_style == DisplayStyle::Shown {
                    self.multi_tap.clear_pending_state();
                    self.display_style = DisplayStyle::Hidden;
                    return Some(StringInputMsg::UpdateKeypad);
                }
                None
            },
            Event::Timer(TimerId::LastChar) => {
                if self.last_char_timer.running {
                    self.last_char_timer.stop();
                    self.display_style = DisplayStyle::Hidden;
                    ctx.request_paint();
                }
                None
            },
        }
    }
}

/// The input row the obscured view is drawn into: the widget's rectangle
/// inset by the input padding.
pub open spec fn sho_hidden_area(w: PassphraseInput, cfg: LayoutConfig) -> Rect {
    spec_inset(w.area, cfg.input_insets)
}

/// Whether the final slot shows the real last character in clear.
pub open spec fn sho_show_last(w: PassphraseInput) -> bool {
    !(w.display_style is Hidden)
}

/// How many slots are drawn: the buffer length, capped at
/// [`MAX_SHOWN_LEN`].
pub open spec fn sho_visible_len(w: PassphraseInput) -> int {
    if w.textbox.chars@.len() < MAX_SHOWN_LEN { w.textbox.chars@.len() as int } else {
        MAX_SHOWN_LEN as int
     }
}

/// How many slots are placeholder glyphs (the last slot is the character in
/// clear whenever one is shown).
pub open spec fn sho_visible_icons(w: PassphraseInput) -> int {
    sho_visible_len(w) - if sho_show_last(w) {
        1int
    } else {
        0
    }
}

/// Whether the buffer holds more characters than the row has slots.
pub open spec fn sho_overflow(w: PassphraseInput) -> bool {
    w.textbox.chars@.len() > MAX_SHOWN_LEN
}

/// The horizontal jitter of the whole row: applied exactly when the row
/// overflowed, the length is even, and the secret is not revealed.
pub open spec fn sho_twitch(w: PassphraseInput) -> int {
    if sho_overflow(w) && w.textbox.chars@.len() % 2 == 0 && !(w.display_style is Shown) {
        TWITCH as int
    } else {
        0
    }
}

/// How many of the leading placeholder glyphs are drawn from the fade
/// palette: one per overflowing character, capped at the palette length.
pub open spec fn sho_faded(w: PassphraseInput) -> int {
    if sho_overflow(w) {
        if w.textbox.chars@.len() - MAX_SHOWN_LEN < FADING_ICON_COUNT {
            w.textbox.chars@.len() - (MAX_SHOWN_LEN as int)
        } else {
            FADING_ICON_COUNT as int
        }
    } else {
        0
    }
}

/// Left edge of the first slot.
pub open spec fn sho_x0(w: PassphraseInput, cfg: LayoutConfig) -> int {
    sho_hidden_area(w, cfg).x0 + ICON_X_OFFSET + sho_twitch(w)
}

/// Vertical center of the input row.
pub open spec fn sho_y(w: PassphraseInput, cfg: LayoutConfig) -> int {
    (sho_hidden_area(w, cfg).y0 + sho_hidden_area(w, cfg).y1) / 2
}

/// Total number of placeholder glyphs drawn.
pub open spec fn sho_icon_count(w: PassphraseInput) -> int {
    sho_faded(w) + if sho_visible_icons(w) - sho_faded(w) > 0 {
        sho_visible_icons(w) - sho_faded(w)
    } else {
        0
    }
}

/// The `j`-th placeholder glyph: one slot step to the right of the
/// previous, faded while `j` is below the faded count (the dimmest palette
/// entries are skipped when fewer than the whole palette is drawn), at full
/// color after.
pub open spec fn sho_icon(w: PassphraseInput, cfg: LayoutConfig, j: int) -> DrawOp {
    DrawOp::Icon {
        x: (sho_x0(w, cfg) + j * (ICON_SPACE + ICON_WIDTH)) as i32,
        y: sho_y(w, cfg) as i32,
        color: if j < sho_faded(w) {
            IconColor::Faded(((FADING_ICON_COUNT as int) - sho_faded(w) + j) as usize)
        } else {
            IconColor::Full
        },
    }
}

/// How many operations the obscured view paints: none on an empty buffer;
/// otherwise one per placeholder glyph, one more for the last character in
/// clear unless the style hides it, and one more for the pending-entry
/// marker while a multi-tap selection is still cycling.
pub open spec fn spec_hidden_len(w: PassphraseInput) -> int {
    if w.textbox.chars@.len() == 0 {
        0
    } else {
        sho_icon_count(w) + if !sho_show_last(w) {
            0int
        } else if w.display_style is LastWithMarker {
            2
        } else {
            1
        }
    }
}

/// The `j`-th paint operation of the obscured view: the placeholder glyphs
/// left to right, then the last character in clear on the placeholder
/// baseline, then the pending-entry marker.
pub open spec fn spec_hidden_op_at(w: PassphraseInput, cfg: LayoutConfig, j: int) -> DrawOp {
    if j < sho_icon_count(w) {
        sho_icon(w, cfg, j)
    } else {
        let lx = sho_x0(w, cfg) + sho_icon_count(w) * ((ICON_SPACE + ICON_WIDTH) as int);
        let ly = sho_y(w, cfg) + cfg.char_height / 2;
        let ch = w.textbox.chars@.last();
        if j == sho_icon_count(w) {
            DrawOp::LastChar { x: lx as i32, y: ly as i32, ch }
        } else {
            DrawOp::PendingMarker { x: lx as i32, y: ly as i32, ch }
        }
    }
}

/// Everything the obscured view paints, in paint order.
pub open spec fn spec_hidden_ops(w: PassphraseInput, cfg: LayoutConfig) -> Seq<DrawOp> {
    Seq::new(spec_hidden_len(w) as nat, |j: int| spec_hidden_op_at(w, cfg, j))
}

impl PassphraseInput {
    /// Paint the obscured view; see [`spec_hidden_ops`]. Never touches the
    /// reveal rectangle.
    #[verifier::loop_isolation(false)]
    pub fn render_hidden(&self, cfg: &LayoutConfig) -> (ops: Vec<DrawOp>)
        requires
            self.wf(),
            cfg.wf(),
            !(self.display_style is Shown),
        ensures
            ops@ == spec_hidden_ops(*self, *cfg),
    {
        let mut ops: Vec<DrawOp> = Vec::new();
        let hidden_area = self.area.inset(cfg.input_insets);
        let pp_len = self.textbox.len();
        if pp_len == 0 {
            assert(ops@ =~= spec_hidden_ops(*self, *cfg));
            return ops;
        }
        let show_last = self.display_style != DisplayStyle::Hidden;
        let visible_len: usize = if pp_len < MAX_SHOWN_LEN {
            pp_len
        } else {
            MAX_SHOWN_LEN
        };
        let visible_icons: usize = visible_len - (if show_last {
            1
        } else {
            0
        });
        let mut x: i32 = hidden_area.x0 + ICON_X_OFFSET;
        if pp_len > visible_len && pp_len % 2 == 0 && self.display_style != DisplayStyle::Shown {
            x = x + TWITCH;
        }
        let y: i32 = crate::geometry::halve(hidden_area.y0 + hidden_area.y1);
        assert(x as int == sho_x0(*self, *cfg));
        assert(y as int == sho_y(*self, *cfg));
        let ghost f = sho_faded(*self);
        let ghost total = sho_icon_count(*self);
        assert(0 <= f <= FADING_ICON_COUNT as int);
        assert(0 <= total <= MAX_SHOWN_LEN as int);
        let mut i: usize = 0;
        let mut drawn: usize = 0;
        while i < FADING_ICON_COUNT
            invariant
                0 <= i <= FADING_ICON_COUNT,
                drawn as int == if (i as int) > (FADING_ICON_COUNT as int) - f {
                    i as int - ((FADING_ICON_COUNT as int) - f)
                } else {
                    0
                },
                drawn as int <= f,
                x as int == sho_x0(*self, *cfg) + drawn as int * ((ICON_SPACE + ICON_WIDTH) as int),
                ops@.len() == drawn as int,
                forall|j: int| 0 <= j < drawn as int ==> ops@[j] == sho_icon(*self, *cfg, j),
            decreases FADING_ICON_COUNT - i,
        {
            if pp_len > visible_len + (FADING_ICON_COUNT - 1 - i) {
                assert((i as int) >= (FADING_ICON_COUNT as int) - f);
                assert((drawn as int) < f);
                ops.push(DrawOp::Icon { x, y, color: IconColor::Faded(i) });
                x = x + (ICON_SPACE + ICON_WIDTH);
                drawn = drawn + 1;
            }
            i = i + 1;
        }
        assert((drawn as int) == f);
        while drawn < visible_icons
            invariant
                f <= drawn as int,
                drawn as int <= total,
                x as int == sho_x0(*self, *cfg) + drawn as int * ((ICON_SPACE + ICON_WIDTH) as int),
                ops@.len() == drawn as int,
                forall|j: int| 0 <= j < drawn as int ==> ops@[j] == sho_icon(*self, *cfg, j),
            decreases visible_icons - drawn,
        {
            assert((drawn as int) < total);
            ops.push(DrawOp::Icon { x, y, color: IconColor::Full });
            x = x + (ICON_SPACE + ICON_WIDTH);
            drawn = drawn + 1;
        }
        assert((drawn as int) == total);
        assert(icon_prefix_ok(ops@, *self, *cfg));
        if show_last {
            let ly = y + crate::geometry::halve(cfg.char_height);
            let ch = self.textbox.chars[pp_len - 1];
            let marker = self.display_style == DisplayStyle::LastWithMarker;
            ops = push_last_char_ops(ops, x, ly, ch, marker, Ghost(*self), Ghost(*cfg));
        } else {
            proof {
                lemma_hidden_ops_icons_only(*self, *cfg, ops@);
            }
        }
        ops
    }

    /// Paint the reveal: the rounded background bar over the reveal
    /// rectangle, then the full secret wrapped inside it.
    pub fn render_shown(&self, cfg: &LayoutConfig) -> (ops: Vec<DrawOp>)
        requires
            self.wf(),
            cfg.wf(),
            self.display_style is Shown,
        ensures
            ops@.len() == 2,
            ops@[0] == (DrawOp::Bar { area: self.shown_area }),
            ops@[1] matches DrawOp::RevealText { bounds, text } && bounds == spec_inset(
                self.shown_area,
                cfg.shown_insets,
            ) && text@ == self.textbox.chars@,
    {
        let mut ops: Vec<DrawOp> = Vec::new();
        ops.push(DrawOp::Bar { area: self.shown_area });
        let mut text: Vec<char> = Vec::new();
        let mut k: usize = 0;
        let n = self.textbox.len();
        while k < n
            invariant
                k <= n,
                n == self.textbox.chars@.len(),
                text@ =~= self.textbox.chars@.take(k as int),
            decreases n - k,
        {
            text.push(self.textbox.chars[k]);
            assert(text@ =~= self.textbox.chars@.take(k as int + 1));
            k = k + 1;
        }
        assert(text@ =~= self.textbox.chars@);
        ops.push(DrawOp::RevealText { bounds: self.shown_area.inset(cfg.shown_insets), text });
        ops
    }

    /// Paint the widget: nothing at all on an empty buffer, the reveal
    /// while the secret is shown, the obscured view otherwise.
    pub fn render(&self, cfg: &LayoutConfig) -> (ops: Vec<DrawOp>)
        requires
            self.wf(),
            cfg.wf(),
        ensures
            self.is_empty_spec() ==> ops@.len() == 0,
            !self.is_empty_spec() && self.display_style is Shown ==> ops@.len() == 2 && ops@[0]
                == (DrawOp::Bar { area: self.shown_area }) && (ops@[1] matches
            DrawOp::RevealText { bounds, text } && bounds == spec_inset(
                self.shown_area,
                cfg.shown_insets,
            ) && text@ == self.textbox.chars@),
            !(self.display_style is Shown) ==> ops@ == spec_hidden_ops(*self, *cfg),
    {
        if self.is_empty() {
            let ops: Vec<DrawOp> = Vec::new();
            assert(ops@ =~= spec_hidden_ops(*self, *cfg));
            return ops;
        }
        match self.display_style {
            DisplayStyle::Shown => self.render_shown(cfg),
            _ => self.render_hidden(cfg),
        }
    }
}

/// The pixel height the oracle demands of the grown rectangle's inner
/// bounds: the wrapped line count times the line height, plus the vertical
/// reveal padding. The growth loop's distance to this height shrinks by one
/// line height per step.
pub open spec fn spec_lines_px(n: int, shown: Rect, cfg: LayoutConfig) -> int {
    crate::layout::spec_lines_needed(
        n,
        cfg.char_width as int,
        spec_inset(shown, cfg.shown_insets).x1 - spec_inset(shown, cfg.shown_insets).x0,
    ) * cfg.line_height + cfg.shown_insets.top + cfg.shown_insets.bottom
}

/// While the oracle still reports out-of-bounds, the candidate's bottom edge
/// is short of the demanded height, so one more line height neither
/// overshoots the growth bound nor exhausts the termination measure.
proof fn lemma_unfit_bounds(n: int, shown: Rect, base: Rect, cfg: LayoutConfig)
    requires
        cfg.wf(),
        0 <= n <= MAX_TEXT_LEN as int,
        shown.x0 == base.x0,
        shown.y0 == base.y0,
        shown.x1 == base.x1,
        !spec_fits(n, spec_inset(shown, cfg.shown_insets), cfg),
    ensures
        shown.y1 < base.y0 + spec_lines_px(n, shown, cfg),
        0 <= spec_lines_px(n, shown, cfg) <= (MAX_TEXT_LEN as int) * (METRIC_MAX as int) + 2 * (
        METRIC_MAX as int),
        spec_lines_px((n), (Rect { y1: (shown.y1 + cfg.line_height) as i32, ..shown }), cfg)
            == spec_lines_px(n, shown, cfg),
{
    let inner = spec_inset(shown, cfg.shown_insets);
    let w = inner.x1 - inner.x0;
    let lines = crate::layout::spec_lines_needed(n, cfg.char_width as int, w);
    assert(lines * cfg.line_height > inner.y1 - inner.y0);
    if n == 0 {
        assert(lines == 0);
    } else {
        let cpl = if w < cfg.char_width {
            1int
        } else {
            w / cfg.char_width as int
        };
        if w >= cfg.char_width {
            vstd::arithmetic::div_mod::lemma_div_pos_is_pos(w, cfg.char_width as int);
        }
        assert(1 <= cpl || cpl == w / cfg.char_width as int);
        if cpl < 1 {
            vstd::arithmetic::div_mod::lemma_div_by_self(cfg.char_width as int);
            vstd::arithmetic::div_mod::lemma_div_is_ordered(
                cfg.char_width as int,
                w,
                cfg.char_width as int,
            );
        }
        assert(1 <= cpl);
        vstd::arithmetic::div_mod::lemma_div_pos_is_pos(n + cpl - 1, cpl);
        assert(0 <= lines);
        assert(n + cpl - 1 <= n * cpl) by (nonlinear_arith)
            requires
                n >= 1,
                cpl >= 1,
        ;
        vstd::arithmetic::div_mod::lemma_div_is_ordered(n + cpl - 1, n * cpl, cpl);
        assert(n * cpl == cpl * n) by (nonlinear_arith);
        vstd::arithmetic::div_mod::lemma_div_multiples_vanish(n, cpl);
        assert(lines <= n);
        vstd::arithmetic::mul::lemma_mul_upper_bound(
            lines,
            MAX_TEXT_LEN as int,
            cfg.line_height as int,
            METRIC_MAX as int,
        );
    }
    vstd::arithmetic::mul::lemma_mul_nonnegative(lines, cfg.line_height as int);
}

/// A row of glyphs drawn so far matching the obscured view's placeholder
/// prefix for widget `w`.
pub open spec fn icon_prefix_ok(ops: Seq<DrawOp>, w: PassphraseInput, c: LayoutConfig) -> bool {
    &&& ops.len() == sho_icon_count(w)
    &&& forall|j: int| 0 <= j < ops.len() ==> ops[j] == sho_icon(w, c, j)
}

/// A completed placeholder row is the whole obscured view whenever the
/// style shows no character in clear.
proof fn lemma_hidden_ops_icons_only(w: PassphraseInput, c: LayoutConfig, r: Seq<DrawOp>)
    requires
        w.textbox.chars@.len() > 0,
        !sho_show_last(w),
        icon_prefix_ok(r, w, c),
    ensures
        r == spec_hidden_ops(w, c),
{
    assert(r =~= spec_hidden_ops(w, c));
}

/// Append the clear last character, and the pending-entry marker when one
/// is cycling, to the completed placeholder row, finishing the obscured
/// view.
fn push_last_char_ops(
    ops: Vec<DrawOp>,
    x: i32,
    ly: i32,
    ch: char,
    marker: bool,
    Ghost(w): Ghost<PassphraseInput>,
    Ghost(c): Ghost<LayoutConfig>,
) -> (r: Vec<DrawOp>)
    requires
        w.textbox.chars@.len() > 0,
        sho_show_last(w),
        marker == (w.display_style is LastWithMarker),
        icon_prefix_ok(ops@, w, c),
        x as int == sho_x0(w, c) + sho_icon_count(w) * ((ICON_SPACE + ICON_WIDTH) as int),
        ly as int == sho_y(w, c) + c.char_height as int / 2,
        ch == w.textbox.chars@.last(),
    ensures
        r@ == spec_hidden_ops(w, c),
{
    let mut r = ops;
    r.push(DrawOp::LastChar { x, y: ly, ch });
    if marker {
        r.push(DrawOp::PendingMarker { x, y: ly, ch });
    }
    assert(r@ =~= spec_hidden_ops(w, c));
    r
}

} // verus!
