use passphrase_input::display::DisplayStyle;
use passphrase_input::events::{Event, EventCtx, StringInputMsg, TimerId, TouchEvent};
use passphrase_input::geometry::{Insets, Point, Rect};
use passphrase_input::input::PassphraseInput;
use passphrase_input::layout::LayoutConfig;

fn cfg() -> LayoutConfig {
    LayoutConfig {
        screen: Rect { x0: 0, y0: 0, x1: 380, y1: 520 },
        line_height: 42,
        char_width: 20,
        char_height: 30,
        input_insets: Insets { left: 8, top: 8, right: 8, bottom: 8 },
        shown_insets: Insets { left: 12, top: 12, right: 12, bottom: 12 },
    }
}

fn placed_widget(max_len: usize) -> PassphraseInput {
    let mut w = PassphraseInput::new(max_len, true, false);
    w.place(Rect { x0: 0, y0: 0, x1: 380, y1: 100 });
    w
}

fn type_single(w: &mut PassphraseInput, ch: char) {
    let mut ctx = EventCtx::new();
    w.on_key_click(&mut ctx, 0, &vec![ch]);
}

#[test]
fn empty_widget_ignores_every_event() {
    let c = cfg();
    let mut w = placed_widget(50);
    let mut ctx = EventCtx::new();
    let events = [
        Event::Timer(TimerId::LastChar),
        Event::Timer(TimerId::MultiTap),
        Event::Touch(TouchEvent::TouchStart(Point { x: 10, y: 10 })),
        Event::Touch(TouchEvent::TouchEnd(Point { x: 10, y: 10 })),
        Event::Touch(TouchEvent::TouchMove(Point { x: 10, y: 10 })),
    ];
    for e in events {
        assert_eq!(w.event(&mut ctx, e, &c), None);
    }
    assert!(!ctx.paint_requested);
    assert_eq!(w.display_style, DisplayStyle::Hidden);
}

#[test]
fn single_char_key_shows_last_only_and_starts_timer() {
    let mut w = placed_widget(50);
    type_single(&mut w, 'a');
    assert_eq!(w.display_style, DisplayStyle::LastOnly);
    assert_eq!(w.content(), &vec!['a']);
    assert!(w.last_char_timer.running);
    assert_eq!(w.multi_tap.pending, None);
}

#[test]
fn ambiguous_key_cycles_candidates_until_commit() {
    let mut w = placed_widget(50);
    let mut ctx = EventCtx::new();
    let candidates = vec!['a', 'b', 'c'];
    w.on_key_click(&mut ctx, 4, &candidates);
    assert_eq!(w.display_style, DisplayStyle::LastWithMarker);
    assert_eq!(w.content(), &vec!['a']);
    assert!(!w.last_char_timer.running);
    assert!(w.multi_tap.pending.is_some());

    w.on_key_click(&mut ctx, 4, &candidates);
    assert_eq!(w.display_style, DisplayStyle::LastWithMarker);
    assert_eq!(w.content(), &vec!['b']);

    w.on_key_click(&mut ctx, 4, &candidates);
    assert_eq!(w.content(), &vec!['c']);
    w.on_key_click(&mut ctx, 4, &candidates);
    assert_eq!(w.content(), &vec!['a']);

    w.on_page_change(&mut ctx);
    assert_eq!(w.display_style, DisplayStyle::LastOnly);
    assert_eq!(w.multi_tap.pending, None);
    assert!(w.last_char_timer.running);
    assert_eq!(w.content(), &vec!['a']);
}

#[test]
fn different_key_commits_pending_and_appends() {
    let mut w = placed_widget(50);
    let mut ctx = EventCtx::new();
    w.on_key_click(&mut ctx, 4, &vec!['a', 'b']);
    w.on_key_click(&mut ctx, 7, &vec!['x', 'y']);
    assert_eq!(w.content(), &vec!['a', 'x']);
    assert_eq!(w.multi_tap.pending.map(|p| p.key), Some(7));
}

#[test]
fn multitap_timeout_commits_and_reports_refresh_only_when_full() {
    let c = cfg();
    let mut w = placed_widget(50);
    let mut ctx = EventCtx::new();
    w.on_key_click(&mut ctx, 4, &vec!['a', 'b']);
    let msg = w.event(&mut ctx, Event::Timer(TimerId::MultiTap), &c);
    assert_eq!(msg, None);
    assert_eq!(w.display_style, DisplayStyle::LastOnly);
    assert_eq!(w.multi_tap.pending, None);
    assert!(w.last_char_timer.running);

    let mut w2 = placed_widget(1);
    w2.on_key_click(&mut ctx, 4, &vec!['a', 'b']);
    let msg2 = w2.event(&mut ctx, Event::Timer(TimerId::MultiTap), &c);
    assert_eq!(msg2, Some(StringInputMsg::UpdateKeypad));
    assert_eq!(w2.display_style, DisplayStyle::LastOnly);
}

#[test]
fn touch_start_inside_reveals_from_any_state() {
    let c = cfg();
    let mut w = placed_widget(50);
    let mut ctx = EventCtx::new();
    w.on_key_click(&mut ctx, 4, &vec!['a', 'b']);
    let msg = w.event(
        &mut ctx,
        Event::Touch(TouchEvent::TouchStart(Point { x: 50, y: 50 })),
        &c,
    );
    assert_eq!(msg, Some(StringInputMsg::UpdateKeypad));
    assert_eq!(w.display_style, DisplayStyle::Shown);
    assert!(w.might_overlap_keypad());
    assert_eq!(w.multi_tap.pending, None);
    assert!(!w.last_char_timer.running);
}

#[test]
fn touch_start_outside_is_ignored() {
    let c = cfg();
    let mut w = placed_widget(50);
    let mut ctx = EventCtx::new();
    type_single(&mut w, 'a');
    let msg = w.event(
        &mut ctx,
        Event::Touch(TouchEvent::TouchStart(Point { x: 50, y: 200 })),
        &c,
    );
    assert_eq!(msg, None);
    assert_eq!(w.display_style, DisplayStyle::LastOnly);
}

#[test]
fn touch_end_inside_extended_region_dismisses_reveal() {
    let c = cfg();
    let mut w = placed_widget(50);
    let mut ctx = EventCtx::new();
    type_single(&mut w, 'a');
    w.event(&mut ctx, Event::Touch(TouchEvent::TouchStart(Point { x: 50, y: 50 })), &c);
    assert_eq!(w.display_style, DisplayStyle::Shown);
    let msg = w.event(
        &mut ctx,
        Event::Touch(TouchEvent::TouchEnd(Point { x: 100, y: 100 })),
        &c,
    );
    assert_eq!(msg, Some(StringInputMsg::UpdateKeypad));
    assert_eq!(w.display_style, DisplayStyle::Hidden);
}

#[test]
fn touch_end_outside_extended_region_keeps_reveal() {
    let c = cfg();
    let mut w = placed_widget(50);
    let mut ctx = EventCtx::new();
    type_single(&mut w, 'a');
    w.event(&mut ctx, Event::Touch(TouchEvent::TouchStart(Point { x: 50, y: 50 })), &c);
    // reveal rectangle: {8, 8, 372, 92}; extended by 200 below and clamped
    // to the screen: {8, 8, 372, 292}
    let msg = w.event(
        &mut ctx,
        Event::Touch(TouchEvent::TouchEnd(Point { x: 100, y: 400 })),
        &c,
    );
    assert_eq!(msg, None);
    assert_eq!(w.display_style, DisplayStyle::Shown);
}

#[test]
fn touch_move_out_of_extended_region_dismisses_reveal() {
    let c = cfg();
    let mut w = placed_widget(50);
    let mut ctx = EventCtx::new();
    type_single(&mut w, 'a');
    w.event(&mut ctx, Event::Touch(TouchEvent::TouchStart(Point { x: 50, y: 50 })), &c);
    let stay = w.event(
        &mut ctx,
        Event::Touch(TouchEvent::TouchMove(Point { x: 100, y: 100 })),
        &c,
    );
    assert_eq!(stay, None);
    assert_eq!(w.display_style, DisplayStyle::Shown);
    let msg = w.event(
        &mut ctx,
        Event::Touch(TouchEvent::TouchMove(Point { x: 100, y: 400 })),
        &c,
    );
    assert_eq!(msg, Some(StringInputMsg::UpdateKeypad));
    assert_eq!(w.display_style, DisplayStyle::Hidden);
}

#[test]
fn reveal_timer_expiry_hides_and_requests_repaint_without_refresh() {
    let c = cfg();
    let mut w = placed_widget(50);
    let mut ctx = EventCtx::new();
    type_single(&mut w, 'a');
    assert!(w.last_char_timer.running);
    let msg = w.event(&mut ctx, Event::Timer(TimerId::LastChar), &c);
    assert_eq!(msg, None);
    assert!(ctx.paint_requested);
    assert_eq!(w.display_style, DisplayStyle::Hidden);
    assert!(!w.last_char_timer.running);
}

#[test]
fn reveal_timer_event_while_not_running_is_ignored() {
    let c = cfg();
    let mut w = placed_widget(50);
    let mut ctx = EventCtx::new();
    w.on_key_click(&mut ctx, 4, &vec!['a', 'b']);
    assert!(!w.last_char_timer.running);
    let msg = w.event(&mut ctx, Event::Timer(TimerId::LastChar), &c);
    assert_eq!(msg, None);
    assert!(!ctx.paint_requested);
    assert_eq!(w.display_style, DisplayStyle::LastWithMarker);
}

#[test]
fn erase_deletes_last_and_hides() {
    let mut w = placed_widget(50);
    let mut ctx = EventCtx::new();
    type_single(&mut w, 'a');
    type_single(&mut w, 'b');
    w.on_erase(&mut ctx, false);
    assert_eq!(w.content(), &vec!['a']);
    assert_eq!(w.display_style, DisplayStyle::Hidden);
    assert_eq!(w.multi_tap.pending, None);
}

#[test]
fn long_erase_clears_everything() {
    let mut w = placed_widget(50);
    let mut ctx = EventCtx::new();
    type_single(&mut w, 'a');
    type_single(&mut w, 'b');
    type_single(&mut w, 'c');
    w.on_erase(&mut ctx, true);
    assert!(w.content().is_empty());
    assert!(w.is_empty());
    assert_eq!(w.display_style, DisplayStyle::Hidden);
}

#[test]
fn page_change_without_pending_changes_nothing() {
    let mut w = placed_widget(50);
    let mut ctx = EventCtx::new();
    type_single(&mut w, 'a');
    let style = w.display_style;
    let running = w.last_char_timer.running;
    w.on_page_change(&mut ctx);
    assert_eq!(w.display_style, style);
    assert_eq!(w.last_char_timer.running, running);
    assert_eq!(w.content(), &vec!['a']);
}

#[test]
fn buffer_refuses_appends_beyond_max_len() {
    let mut w = placed_widget(2);
    type_single(&mut w, 'a');
    type_single(&mut w, 'b');
    assert!(w.is_full());
    type_single(&mut w, 'c');
    assert_eq!(w.content(), &vec!['a', 'b']);
    assert!(w.is_full());
}

#[test]
fn erase_on_empty_buffer_is_harmless() {
    let mut w = placed_widget(50);
    let mut ctx = EventCtx::new();
    w.on_erase(&mut ctx, false);
    assert!(w.is_empty());
    assert_eq!(w.display_style, DisplayStyle::Hidden);
    w.on_erase(&mut ctx, true);
    assert!(w.is_empty());
}

#[test]
fn smallest_widget_works_with_one_slot() {
    let mut w = placed_widget(1);
    type_single(&mut w, 'a');
    assert!(w.is_full());
    assert_eq!(w.content(), &vec!['a']);
    type_single(&mut w, 'b');
    assert_eq!(w.content(), &vec!['a']);
}

#[test]
fn cycling_pending_key_works_on_a_full_buffer() {
    let mut w = placed_widget(1);
    let mut ctx = EventCtx::new();
    w.on_key_click(&mut ctx, 4, &vec!['x', 'y']);
    assert!(w.is_full());
    assert_eq!(w.content(), &vec!['x']);
    w.on_key_click(&mut ctx, 4, &vec!['x', 'y']);
    assert_eq!(w.content(), &vec!['y']);
    assert_eq!(w.content().len(), 1);
}
