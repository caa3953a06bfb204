use passphrase_input::display::DisplayStyle;
use passphrase_input::events::{Event, EventCtx, StringInputMsg, TouchEvent};
use passphrase_input::geometry::{Insets, Point, Rect};
use passphrase_input::input::PassphraseInput;
use passphrase_input::keypad::{ButtonState, KeypadState};
use passphrase_input::layout::LayoutConfig;
use passphrase_input::render::{DrawOp, IconColor};

fn cfg() -> LayoutConfig {
    LayoutConfig {
        screen: Rect { x0: 0, y0: 0, x1: 380, y1: 520 },
        line_height: 42,
        char_width: 20,
        char_height: 30,
        input_insets: Insets { left: 8, top: 8, right: 8, bottom: 8 },
        shown_insets: Insets { left: 12, top: 12, right: 12, bottom: 12 },
    }
}

fn placed_widget(max_len: usize) -> PassphraseInput {
    let mut w = PassphraseInput::new(max_len, true, false);
    w.place(Rect { x0: 0, y0: 0, x1: 380, y1: 100 });
    w
}

fn type_single(w: &mut PassphraseInput, ch: char) {
    let mut ctx = EventCtx::new();
    w.on_key_click(&mut ctx, 0, &vec![ch]);
}

#[test]
fn empty_buffer_renders_nothing() {
    let c = cfg();
    let w = placed_widget(50);
    assert!(w.render(&c).is_empty());
}

#[test]
fn one_fresh_character_renders_only_that_character_in_clear() {
    let c = cfg();
    let mut w = placed_widget(50);
    type_single(&mut w, 'q');
    let ops = w.render(&c);
    // input row {8, 8, 372, 92}: first slot at x = 8 + 12, centered at
    // y = (8 + 92) / 2, the character lowered by half its height
    assert_eq!(ops, vec![DrawOp::LastChar { x: 20, y: 65, ch: 'q' }]);
}

#[test]
fn pending_character_renders_with_marker() {
    let c = cfg();
    let mut w = placed_widget(50);
    let mut ctx = EventCtx::new();
    w.on_key_click(&mut ctx, 4, &vec!['a', 'b']);
    let ops = w.render(&c);
    assert_eq!(
        ops,
        vec![
            DrawOp::LastChar { x: 20, y: 65, ch: 'a' },
            DrawOp::PendingMarker { x: 20, y: 65, ch: 'a' },
        ]
    );
}

#[test]
fn hidden_style_renders_placeholders_only() {
    let c = cfg();
    let mut w = placed_widget(50);
    let mut ctx = EventCtx::new();
    type_single(&mut w, 'a');
    type_single(&mut w, 'b');
    w.on_erase(&mut ctx, false);
    assert_eq!(w.display_style, DisplayStyle::Hidden);
    let ops = w.render(&c);
    assert_eq!(ops, vec![DrawOp::Icon { x: 20, y: 50, color: IconColor::Full }]);
}

#[test]
fn overflowed_row_fades_earliest_slots_and_twitches_on_even_length() {
    let c = cfg();
    let mut w = placed_widget(50);
    for _ in 0..16 {
        type_single(&mut w, 'z');
    }
    // 16 characters, 13 slots, last one in clear: 12 placeholder glyphs,
    // overflow of 3 fills the whole fade palette; even length twitches the
    // row right by 4
    let ops = w.render(&c);
    assert_eq!(ops.len(), 13);
    assert_eq!(ops[0], DrawOp::Icon { x: 24, y: 50, color: IconColor::Faded(0) });
    assert_eq!(ops[1], DrawOp::Icon { x: 44, y: 50, color: IconColor::Faded(1) });
    assert_eq!(ops[2], DrawOp::Icon { x: 64, y: 50, color: IconColor::Faded(2) });
    for (k, op) in ops.iter().enumerate().take(12).skip(3) {
        assert_eq!(
            *op,
            DrawOp::Icon { x: 24 + 20 * (k as i32), y: 50, color: IconColor::Full }
        );
    }
    assert_eq!(ops[12], DrawOp::LastChar { x: 264, y: 65, ch: 'z' });
}

#[test]
fn slightly_overflowed_row_uses_tail_of_fade_palette() {
    let c = cfg();
    let mut w = placed_widget(50);
    for _ in 0..15 {
        type_single(&mut w, 'z');
    }
    // 15 characters: overflow of 2, so the dimmest palette entry is skipped
    // and no twitch (odd length)
    let ops = w.render(&c);
    assert_eq!(ops.len(), 13);
    assert_eq!(ops[0], DrawOp::Icon { x: 20, y: 50, color: IconColor::Faded(1) });
    assert_eq!(ops[1], DrawOp::Icon { x: 40, y: 50, color: IconColor::Faded(2) });
    assert_eq!(ops[2], DrawOp::Icon { x: 60, y: 50, color: IconColor::Full });
}

#[test]
fn reveal_renders_bar_and_wrapped_text() {
    let c = cfg();
    let mut w = placed_widget(50);
    let mut ctx = EventCtx::new();
    type_single(&mut w, 'a');
    type_single(&mut w, 'b');
    w.event(&mut ctx, Event::Touch(TouchEvent::TouchStart(Point { x: 50, y: 50 })), &c);
    let ops = w.render(&c);
    assert_eq!(ops.len(), 2);
    assert_eq!(ops[0], DrawOp::Bar { area: Rect { x0: 8, y0: 8, x1: 372, y1: 92 } });
    assert_eq!(
        ops[1],
        DrawOp::RevealText {
            bounds: Rect { x0: 20, y0: 20, x1: 360, y1: 80 },
            text: vec!['a', 'b'],
        }
    );
}

#[test]
fn short_content_keeps_base_reveal_rectangle() {
    let c = cfg();
    let mut w = placed_widget(50);
    let mut ctx = EventCtx::new();
    type_single(&mut w, 'a');
    w.event(&mut ctx, Event::Touch(TouchEvent::TouchStart(Point { x: 50, y: 50 })), &c);
    assert_eq!(w.shown_area, Rect { x0: 8, y0: 8, x1: 372, y1: 92 });
}

#[test]
fn long_content_grows_reveal_rectangle_by_whole_lines() {
    let c = cfg();
    let mut w = placed_widget(50);
    let mut ctx = EventCtx::new();
    for _ in 0..40 {
        type_single(&mut w, 'z');
    }
    let msg = w.event(
        &mut ctx,
        Event::Touch(TouchEvent::TouchStart(Point { x: 50, y: 50 })),
        &c,
    );
    assert_eq!(msg, Some(StringInputMsg::UpdateKeypad));
    // 40 characters wrap into 3 lines of 17 (inner width 340 at advance
    // 20); 3 lines need 126 of height, the base inner height is 60, so the
    // rectangle grows by exactly two line heights
    assert_eq!(w.shown_area, Rect { x0: 8, y0: 8, x1: 372, y1: 92 + 2 * 42 });
    let grown = w.shown_area.y1 - 92;
    assert_eq!(grown % c.line_height, 0);
}

#[test]
fn keypad_on_empty_buffer_matches_policy() {
    let w = placed_widget(50);
    assert_eq!(
        w.get_keypad_state(),
        KeypadState {
            back: ButtonState::Hidden,
            erase: ButtonState::Hidden,
            cancel: ButtonState::Enabled,
            confirm: ButtonState::Disabled,
            keys: ButtonState::Enabled,
            override_key: None,
        }
    );
}

#[test]
fn keypad_on_empty_buffer_follows_construction_flags() {
    let mut w = PassphraseInput::new(50, false, true);
    w.place(Rect { x0: 0, y0: 0, x1: 380, y1: 100 });
    let k = w.get_keypad_state();
    assert_eq!(k.cancel, ButtonState::Hidden);
    assert_eq!(k.confirm, ButtonState::Enabled);
    assert_eq!(k.back, ButtonState::Hidden);
    assert_eq!(k.erase, ButtonState::Hidden);
}

#[test]
fn keypad_on_full_buffer_without_pending_key() {
    let mut w = placed_widget(2);
    type_single(&mut w, 'a');
    type_single(&mut w, 'b');
    assert!(w.is_full());
    assert_eq!(
        w.get_keypad_state(),
        KeypadState {
            back: ButtonState::Hidden,
            erase: ButtonState::Enabled,
            cancel: ButtonState::Hidden,
            confirm: ButtonState::Enabled,
            keys: ButtonState::Disabled,
            override_key: None,
        }
    );
}

#[test]
fn keypad_on_full_buffer_force_enables_pending_key() {
    let mut w = placed_widget(2);
    let mut ctx = EventCtx::new();
    type_single(&mut w, 'a');
    w.on_key_click(&mut ctx, 7, &vec!['x', 'y']);
    assert!(w.is_full());
    let k = w.get_keypad_state();
    assert_eq!(k.keys, ButtonState::Disabled);
    assert_eq!(k.override_key, Some((7, ButtonState::Enabled)));
}

#[test]
fn keypad_during_reveal_disables_everything() {
    let c = cfg();
    let mut w = placed_widget(50);
    let mut ctx = EventCtx::new();
    type_single(&mut w, 'a');
    w.event(&mut ctx, Event::Touch(TouchEvent::TouchStart(Point { x: 50, y: 50 })), &c);
    assert_eq!(
        w.get_keypad_state(),
        KeypadState {
            back: ButtonState::Hidden,
            erase: ButtonState::Disabled,
            cancel: ButtonState::Hidden,
            confirm: ButtonState::Disabled,
            keys: ButtonState::Disabled,
            override_key: None,
        }
    );
}

#[test]
fn keypad_on_partial_buffer_enables_typing_and_erase() {
    let mut w = placed_widget(50);
    type_single(&mut w, 'a');
    assert_eq!(
        w.get_keypad_state(),
        KeypadState {
            back: ButtonState::Hidden,
            erase: ButtonState::Enabled,
            cancel: ButtonState::Hidden,
            confirm: ButtonState::Enabled,
            keys: ButtonState::Enabled,
            override_key: None,
        }
    );
}
