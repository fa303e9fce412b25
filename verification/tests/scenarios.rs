use echocast::events::{EventKind, Moment, NormalizedEvent, RawInputEvent, TimedEvent};
use echocast::gesture::UNITS_PER_PIXEL;
use echocast::keys::{Button, Key, Modifier};
use echocast::normalizer::Normalizer;

fn at(timestamp: u128, instant: u128) -> Moment {
    Moment { timestamp, instant }
}

fn kinds(out: &[NormalizedEvent]) -> Vec<EventKind> {
    out.iter().map(|e| e.kind).collect()
}

fn labels(out: &[NormalizedEvent]) -> Vec<String> {
    out.iter().map(|e| e.label.clone()).collect()
}

fn moved(x: i64, y: i64) -> RawInputEvent {
    RawInputEvent::MouseMove { x: x * UNITS_PER_PIXEL, y: y * UNITS_PER_PIXEL }
}

fn press(key: Key) -> RawInputEvent {
    RawInputEvent::KeyPress(key, None)
}

fn typed(key: Key, text: &str) -> RawInputEvent {
    RawInputEvent::KeyPress(key, Some(text.to_string()))
}

fn click(n: &mut Normalizer, button: Button, released: u128) -> Vec<NormalizedEvent> {
    n.process(&RawInputEvent::ButtonPress(button), at(0, released));
    n.process(&RawInputEvent::ButtonRelease(button), at(0, released))
}

fn pause(n: &mut Normalizer) -> Vec<NormalizedEvent> {
    n.process(&press(Key::ControlLeft), at(0, 0));
    n.process(&press(Key::Alt), at(0, 0));
    let out = n.process(&press(Key::KeyP), at(77, 0));
    n.process(&RawInputEvent::KeyRelease(Key::ControlLeft), at(0, 0));
    n.process(&RawInputEvent::KeyRelease(Key::Alt), at(0, 0));
    out
}

#[test]
fn a_new_session_is_idle() {
    let n = Normalizer::new();
    assert!(n.pressed_modifiers().is_empty());
    assert!(!n.is_paused());
    assert!(!n.is_dragging());
    assert_eq!(n.last_click_time(), None);
    assert_eq!(n.last_click_button(), None);
    assert_eq!(n.drag_start_pos(), None);
}

#[test]
fn key_with_os_text_is_shown_verbatim() {
    let mut n = Normalizer::new();
    let out = n.process(&typed(Key::KeyA, "a"), at(1_700_000_000_000, 5));
    assert_eq!(
        out,
        vec![NormalizedEvent {
            kind: EventKind::Key,
            label: "@Key[a]".to_string(),
            timestamp: 1_700_000_000_000,
        }]
    );
    assert_eq!(out[0].event_type(), "key");
}

#[test]
fn press_three_moves_release_is_a_drag() {
    let mut n = Normalizer::new();
    let mut all: Vec<NormalizedEvent> = Vec::new();
    all.extend(n.process(&RawInputEvent::ButtonPress(Button::Left), at(10, 0)));
    all.extend(n.process(&moved(100, 200), at(11, 1)));
    assert!(!n.is_dragging());
    assert_eq!(n.drag_start_pos(), Some((100 * UNITS_PER_PIXEL, 200 * UNITS_PER_PIXEL)));
    all.extend(n.process(&moved(105, 200), at(12, 2)));
    all.extend(n.process(&moved(110, 200), at(13, 3)));
    assert!(!n.is_dragging());
    all.extend(n.process(&moved(115, 200), at(14, 4)));
    assert!(n.is_dragging());
    assert_eq!(n.drag_start_pos(), Some((100 * UNITS_PER_PIXEL, 200 * UNITS_PER_PIXEL)));
    all.extend(n.process(&RawInputEvent::ButtonRelease(Button::Left), at(15, 5)));
    assert_eq!(
        kinds(&all),
        vec![
            EventKind::MouseDown,
            EventKind::MouseMove,
            EventKind::MouseMove,
            EventKind::MouseMove,
            EventKind::DragStart,
            EventKind::MouseMove,
            EventKind::MouseUp,
            EventKind::Drag,
        ]
    );
    assert_eq!(
        labels(&all),
        vec![
            "@MouseDown[Left]",
            "@MouseMove[100, 200]",
            "@MouseMove[105, 200]",
            "@MouseMove[110, 200]",
            "@DragStart[Left]",
            "@MouseMove[115, 200]",
            "@MouseUp[Left]",
            "@Drag[Left]",
        ]
    );
    assert!(!n.is_dragging());
    assert_eq!(n.drag_start_pos(), None);
    assert_eq!(n.last_click_time(), None);
    assert_eq!(n.last_click_button(), Some(Button::Left));
}

#[test]
fn three_moves_of_five_pixels_from_the_first_are_a_drag() {
    let mut n = Normalizer::new();
    let mut all: Vec<NormalizedEvent> = Vec::new();
    all.extend(n.process(&RawInputEvent::ButtonPress(Button::Left), at(0, 0)));
    all.extend(n.process(&moved(0, 0), at(0, 0)));
    all.extend(n.process(&moved(0, 5), at(0, 0)));
    all.extend(n.process(&moved(0, 10), at(0, 0)));
    all.extend(n.process(&moved(0, 15), at(0, 0)));
    all.extend(n.process(&RawInputEvent::ButtonRelease(Button::Left), at(0, 0)));
    assert_eq!(
        kinds(&all),
        vec![
            EventKind::MouseDown,
            EventKind::MouseMove,
            EventKind::MouseMove,
            EventKind::MouseMove,
            EventKind::DragStart,
            EventKind::MouseMove,
            EventKind::MouseUp,
            EventKind::Drag,
        ]
    );
}

#[test]
fn press_and_release_is_a_click() {
    let mut n = Normalizer::new();
    let mut all: Vec<NormalizedEvent> = Vec::new();
    all.extend(n.process(&RawInputEvent::ButtonPress(Button::Left), at(10, 0)));
    all.extend(n.process(&RawInputEvent::ButtonRelease(Button::Left), at(11, 1)));
    assert_eq!(kinds(&all), vec![EventKind::MouseDown, EventKind::MouseUp, EventKind::Click]);
    assert_eq!(labels(&all), vec!["@MouseDown[Left]", "@MouseUp[Left]", "@Click[Left]"]);
    assert_eq!(all[0].timestamp, 10);
    assert_eq!(all[1].timestamp, 11);
    assert_eq!(all[2].timestamp, 11);
    assert_eq!(n.last_click_time(), Some(1));
    assert_eq!(n.last_click_button(), Some(Button::Left));
}

#[test]
fn moves_within_the_threshold_leave_a_click() {
    let mut n = Normalizer::new();
    n.process(&RawInputEvent::ButtonPress(Button::Right), at(0, 0));
    n.process(&moved(50, 50), at(0, 0));
    let out = n.process(&moved(56, 58), at(0, 0));
    assert_eq!(labels(&out), vec!["@MouseMove[56, 58]"]);
    assert!(!n.is_dragging());
    let out = n.process(&RawInputEvent::ButtonRelease(Button::Right), at(0, 9));
    assert_eq!(labels(&out), vec!["@MouseUp[Right]", "@Click[Right]"]);
}

#[test]
fn a_drag_is_announced_once() {
    let mut n = Normalizer::new();
    n.process(&RawInputEvent::ButtonPress(Button::Middle), at(0, 0));
    n.process(&moved(0, 0), at(0, 0));
    let out = n.process(&moved(-11, 0), at(3, 0));
    assert_eq!(labels(&out), vec!["@DragStart[Middle]", "@MouseMove[-11, 0]"]);
    assert_eq!(out[0].timestamp, 3);
    let out = n.process(&moved(-40, 0), at(4, 0));
    assert_eq!(labels(&out), vec!["@MouseMove[-40, 0]"]);
    let out = n.process(&moved(0, 0), at(5, 0));
    assert_eq!(labels(&out), vec!["@MouseMove[0, 0]"]);
    assert!(n.is_dragging());
    let out = n.process(&RawInputEvent::ButtonRelease(Button::Middle), at(6, 0));
    assert_eq!(labels(&out), vec!["@MouseUp[Middle]", "@Drag[Middle]"]);
}

#[test]
fn no_start_is_recorded_before_a_button_is_seen() {
    let mut n = Normalizer::new();
    let out = n.process(&moved(1, 2), at(0, 0));
    assert_eq!(labels(&out), vec!["@MouseMove[1, 2]"]);
    assert_eq!(n.drag_start_pos(), None);
    let out = n.process(&moved(500, 2), at(0, 0));
    assert_eq!(labels(&out), vec!["@MouseMove[500, 2]"]);
    assert!(!n.is_dragging());
}

#[test]
fn a_start_from_before_the_press_is_kept() {
    let mut n = Normalizer::new();
    click(&mut n, Button::Left, 0);
    n.process(&moved(0, 0), at(0, 1));
    assert_eq!(n.drag_start_pos(), Some((0, 0)));
    n.process(&moved(8, 0), at(0, 2));
    n.process(&RawInputEvent::ButtonPress(Button::Left), at(0, 3));
    let out = n.process(&moved(11, 0), at(0, 4));
    assert_eq!(kinds(&out), vec![EventKind::DragStart, EventKind::MouseMove]);
    let out = n.process(&RawInputEvent::ButtonRelease(Button::Left), at(0, 5));
    assert_eq!(kinds(&out), vec![EventKind::MouseUp, EventKind::Drag]);
}

#[test]
fn a_press_ends_a_drag_that_was_under_way() {
    let mut n = Normalizer::new();
    click(&mut n, Button::Left, 0);
    n.process(&moved(0, 0), at(0, 1));
    let out = n.process(&moved(100, 0), at(0, 2));
    assert_eq!(kinds(&out), vec![EventKind::DragStart, EventKind::MouseMove]);
    assert!(n.is_dragging());
    n.process(&RawInputEvent::ButtonPress(Button::Left), at(0, 1_000_000_000));
    assert!(!n.is_dragging());
    let out = n.process(&RawInputEvent::ButtonRelease(Button::Left), at(0, 1_000_000_001));
    assert_eq!(kinds(&out), vec![EventKind::MouseUp, EventKind::Click]);
}

#[test]
fn second_click_within_the_window_is_a_double_click() {
    let mut n = Normalizer::new();
    let first = click(&mut n, Button::Left, 1_000);
    assert_eq!(kinds(&first), vec![EventKind::MouseUp, EventKind::Click]);
    let second = click(&mut n, Button::Left, 1_000 + 299_999_999);
    assert_eq!(
        kinds(&second),
        vec![EventKind::MouseUp, EventKind::Click, EventKind::DoubleClick]
    );
    assert_eq!(labels(&second), vec!["@MouseUp[Left]", "@Click[Left]", "@DoubleClick[Left]"]);
}

#[test]
fn second_click_at_the_end_of_the_window_is_too_late() {
    let mut n = Normalizer::new();
    click(&mut n, Button::Left, 1_000);
    let second = click(&mut n, Button::Left, 1_000 + 300_000_000);
    assert_eq!(kinds(&second), vec![EventKind::MouseUp, EventKind::Click]);
    let third = click(&mut n, Button::Left, 1_000 + 300_000_000 + 300_000_001);
    assert_eq!(kinds(&third), vec![EventKind::MouseUp, EventKind::Click]);
}

#[test]
fn every_click_opens_a_new_window() {
    let mut n = Normalizer::new();
    click(&mut n, Button::Left, 0);
    let second = click(&mut n, Button::Left, 200_000_000);
    assert_eq!(second.len(), 3);
    let third = click(&mut n, Button::Left, 400_000_000);
    assert_eq!(kinds(&third), vec![EventKind::MouseUp, EventKind::Click, EventKind::DoubleClick]);
}

#[test]
fn a_clock_that_steps_back_counts_as_no_time_passed() {
    let mut n = Normalizer::new();
    click(&mut n, Button::Left, 5_000_000_000);
    let second = click(&mut n, Button::Left, 1);
    assert_eq!(kinds(&second), vec![EventKind::MouseUp, EventKind::Click, EventKind::DoubleClick]);
}

#[test]
fn a_drag_does_not_open_a_window() {
    let mut n = Normalizer::new();
    n.process(&RawInputEvent::ButtonPress(Button::Left), at(0, 0));
    n.process(&moved(0, 0), at(0, 0));
    n.process(&moved(0, 30), at(0, 0));
    n.process(&RawInputEvent::ButtonRelease(Button::Left), at(0, 10));
    assert_eq!(n.last_click_time(), None);
    let next = click(&mut n, Button::Left, 20);
    assert_eq!(kinds(&next), vec![EventKind::MouseUp, EventKind::Click]);
}

#[test]
fn a_click_of_another_button_is_no_double_click() {
    let mut n = Normalizer::new();
    let first = click(&mut n, Button::Left, 1_000);
    assert_eq!(kinds(&first), vec![EventKind::MouseUp, EventKind::Click]);
    assert_eq!(n.last_clicked_button(), Some(Button::Left));
    let second = click(&mut n, Button::Right, 2_000);
    assert_eq!(kinds(&second), vec![EventKind::MouseUp, EventKind::Click]);
    assert_eq!(labels(&second), vec!["@MouseUp[Right]", "@Click[Right]"]);
    assert_eq!(n.last_clicked_button(), Some(Button::Right));
    assert_eq!(n.last_click_time(), Some(2_000));
    let third = click(&mut n, Button::Right, 3_000);
    assert_eq!(
        labels(&third),
        vec!["@MouseUp[Right]", "@Click[Right]", "@DoubleClick[Right]"]
    );
    let fourth = click(&mut n, Button::Left, 4_000);
    assert_eq!(kinds(&fourth), vec![EventKind::MouseUp, EventKind::Click]);
}

#[test]
fn a_release_without_its_press_is_held_against_the_last_click() {
    let mut n = Normalizer::new();
    click(&mut n, Button::Left, 0);
    let out = n.process(&RawInputEvent::ButtonRelease(Button::Right), at(0, 10));
    assert_eq!(labels(&out), vec!["@MouseUp[Right]", "@Click[Right]"]);
    assert_eq!(n.last_click_button(), Some(Button::Right));
    assert_eq!(n.last_clicked_button(), Some(Button::Right));
    let out = n.process(&RawInputEvent::ButtonRelease(Button::Right), at(0, 20));
    assert_eq!(labels(&out), vec!["@MouseUp[Right]", "@Click[Right]", "@DoubleClick[Right]"]);
}

#[test]
fn a_press_of_another_button_does_not_forget_the_last_click() {
    let mut n = Normalizer::new();
    click(&mut n, Button::Left, 100);
    n.process(&RawInputEvent::ButtonPress(Button::Right), at(0, 150));
    assert_eq!(n.last_click_button(), Some(Button::Right));
    assert_eq!(n.last_clicked_button(), Some(Button::Left));
    assert_eq!(n.last_click_time(), Some(100));
    let out = n.process(&RawInputEvent::ButtonRelease(Button::Left), at(0, 200));
    assert_eq!(labels(&out), vec!["@MouseUp[Left]", "@Click[Left]", "@DoubleClick[Left]"]);
}

#[test]
fn a_drag_between_two_clicks_leaves_the_window_as_it_was() {
    let mut n = Normalizer::new();
    click(&mut n, Button::Left, 0);
    n.process(&RawInputEvent::ButtonPress(Button::Right), at(0, 10));
    n.process(&moved(0, 0), at(0, 20));
    n.process(&moved(50, 0), at(0, 30));
    let out = n.process(&RawInputEvent::ButtonRelease(Button::Right), at(0, 40));
    assert_eq!(kinds(&out), vec![EventKind::MouseUp, EventKind::Drag]);
    assert_eq!(n.last_clicked_button(), Some(Button::Left));
    assert_eq!(n.last_click_time(), Some(0));
    let out = click(&mut n, Button::Left, 50);
    assert_eq!(kinds(&out), vec![EventKind::MouseUp, EventKind::Click, EventKind::DoubleClick]);
}

#[test]
fn a_pointer_between_two_pixels_keeps_its_place() {
    let mut n = Normalizer::new();
    let two_fifths = UNITS_PER_PIXEL * 2 / 5;
    let half = UNITS_PER_PIXEL / 2;
    n.process(&RawInputEvent::ButtonPress(Button::Left), at(0, 0));
    let out = n.process(&RawInputEvent::MouseMove { x: two_fifths, y: -two_fifths }, at(0, 0));
    assert_eq!(labels(&out), vec!["@MouseMove[0, -0]"]);
    assert_eq!(n.drag_start_pos(), Some((two_fifths, -two_fifths)));
    let out = n.process(
        &RawInputEvent::MouseMove { x: 10 * UNITS_PER_PIXEL + two_fifths, y: -two_fifths },
        at(0, 0),
    );
    assert_eq!(labels(&out), vec!["@MouseMove[10, -0]"]);
    assert!(!n.is_dragging());
    let out = n.process(
        &RawInputEvent::MouseMove { x: 10 * UNITS_PER_PIXEL + half, y: -two_fifths },
        at(0, 0),
    );
    assert_eq!(labels(&out), vec!["@DragStart[Left]", "@MouseMove[10, -0]"]);
    assert!(n.is_dragging());
}

#[test]
fn unknown_buttons_carry_their_number() {
    let mut n = Normalizer::new();
    let out = n.process(&RawInputEvent::ButtonPress(Button::Unknown(8)), at(0, 0));
    assert_eq!(labels(&out), vec!["@MouseDown[Unknown(8)]"]);
    let out = n.process(&RawInputEvent::ButtonRelease(Button::Unknown(8)), at(0, 0));
    assert_eq!(labels(&out), vec!["@MouseUp[Unknown(8)]", "@Click[Unknown(8)]"]);
}

#[test]
fn shift_stays_held_until_its_own_side_is_released() {
    let mut n = Normalizer::new();
    n.process(&press(Key::ShiftLeft), at(0, 0));
    assert!(n.pressed_modifiers().held().shift);
    n.process(&press(Key::ShiftRight), at(0, 0));
    assert!(n.pressed_modifiers().held().shift);
    n.process(&RawInputEvent::KeyRelease(Key::ShiftRight), at(0, 0));
    assert!(n.pressed_modifiers().held().shift);
    assert!(n.pressed_modifiers().contains(Modifier::ShiftLeft));
    assert!(!n.pressed_modifiers().contains(Modifier::ShiftRight));
    n.process(&RawInputEvent::KeyRelease(Key::ShiftLeft), at(0, 0));
    assert!(!n.pressed_modifiers().held().shift);
    assert!(n.pressed_modifiers().is_empty());
}

#[test]
fn releasing_the_other_side_does_not_release_this_one() {
    let mut n = Normalizer::new();
    n.process(&press(Key::ControlRight), at(0, 0));
    n.process(&RawInputEvent::KeyRelease(Key::ControlLeft), at(0, 0));
    assert!(n.pressed_modifiers().held().ctrl);
    let out = n.process(&press(Key::KeyC), at(0, 0));
    assert_eq!(labels(&out), vec!["@Key[Ctrl+C]"]);
}

#[test]
fn a_modifier_press_or_release_sends_nothing() {
    let mut n = Normalizer::new();
    for key in [
        Key::ControlLeft,
        Key::ControlRight,
        Key::ShiftLeft,
        Key::ShiftRight,
        Key::Alt,
        Key::MetaLeft,
        Key::MetaRight,
    ] {
        assert_eq!(n.process(&press(key), at(0, 0)), vec![]);
    }
    assert_eq!(n.process(&typed(Key::ShiftLeft, "x"), at(0, 0)), vec![]);
    let held = n.pressed_modifiers().held();
    assert!(held.ctrl && held.alt && held.shift && held.meta);
    assert_eq!(n.process(&RawInputEvent::KeyRelease(Key::Alt), at(0, 0)), vec![]);
    assert_eq!(n.process(&RawInputEvent::KeyRelease(Key::KeyA), at(0, 0)), vec![]);
    assert!(!n.pressed_modifiers().held().alt);
}

#[test]
fn shift_a_shows_the_capital_alone() {
    let mut n = Normalizer::new();
    let mut all: Vec<NormalizedEvent> = Vec::new();
    all.extend(n.process(&press(Key::ShiftLeft), at(1, 1)));
    all.extend(n.process(&press(Key::KeyA), at(2, 2)));
    assert_eq!(labels(&all), vec!["@Key[A]"]);
    let out = n.process(&typed(Key::KeyA, "A"), at(3, 3));
    assert_eq!(labels(&out), vec!["@Key[A]"]);
}

#[test]
fn ctrl_shift_s_names_every_modifier() {
    let mut n = Normalizer::new();
    let mut all: Vec<NormalizedEvent> = Vec::new();
    all.extend(n.process(&press(Key::ControlLeft), at(1, 1)));
    all.extend(n.process(&press(Key::ShiftRight), at(2, 2)));
    all.extend(n.process(&typed(Key::KeyS, "\u{13}"), at(3, 3)));
    assert_eq!(labels(&all), vec!["@Key[Ctrl+Shift+S]"]);
    let out = n.process(&typed(Key::KeyS, "S"), at(4, 4));
    assert_eq!(labels(&out), vec!["@Key[Ctrl+Shift+S]"]);
}

#[test]
fn all_four_modifiers_come_in_the_fixed_order() {
    let mut n = Normalizer::new();
    n.process(&press(Key::MetaRight), at(0, 0));
    n.process(&press(Key::ShiftLeft), at(0, 0));
    n.process(&press(Key::Alt), at(0, 0));
    n.process(&press(Key::ControlRight), at(0, 0));
    let out = n.process(&press(Key::F5), at(0, 0));
    assert_eq!(labels(&out), vec!["@Key[Ctrl+Alt+Shift+Meta+F5]"]);
}

#[test]
fn the_pause_chord_pauses_and_resumes() {
    let mut n = Normalizer::new();
    let out = pause(&mut n);
    assert_eq!(
        out,
        vec![NormalizedEvent {
            kind: EventKind::System,
            label: "Capture Paused".to_string(),
            timestamp: 77,
        }]
    );
    assert!(n.is_paused());
    let out = pause(&mut n);
    assert_eq!(kinds(&out), vec![EventKind::System]);
    assert_eq!(labels(&out), vec!["Capture Resumed"]);
    assert_eq!(out[0].event_type(), "system");
    assert!(!n.is_paused());
}

#[test]
fn nothing_goes_out_while_paused() {
    let mut n = Normalizer::new();
    pause(&mut n);
    let mut all: Vec<NormalizedEvent> = Vec::new();
    all.extend(n.process(&moved(1, 1), at(0, 0)));
    all.extend(n.process(&RawInputEvent::ButtonPress(Button::Left), at(0, 0)));
    all.extend(n.process(&moved(1, 1), at(0, 0)));
    all.extend(n.process(&moved(100, 100), at(0, 0)));
    assert!(n.is_dragging());
    all.extend(n.process(&RawInputEvent::ButtonRelease(Button::Left), at(0, 0)));
    all.extend(n.process(&RawInputEvent::ButtonPress(Button::Left), at(0, 1)));
    all.extend(n.process(&RawInputEvent::ButtonRelease(Button::Left), at(0, 1)));
    all.extend(n.process(&typed(Key::KeyA, "a"), at(0, 0)));
    all.extend(n.process(&press(Key::ShiftLeft), at(0, 0)));
    all.extend(n.process(&press(Key::KeyP), at(0, 0)));
    all.extend(n.process(&RawInputEvent::KeyRelease(Key::ShiftLeft), at(0, 0)));
    all.extend(n.process(&RawInputEvent::Wheel { delta_x: 0, delta_y: -1 }, at(0, 0)));
    assert_eq!(all, vec![]);
    assert!(n.is_paused());
    assert_eq!(n.last_click_time(), None);
    assert_eq!(n.last_click_button(), Some(Button::Left));
    let out = pause(&mut n);
    assert_eq!(labels(&out), vec!["Capture Resumed"]);
    let out = n.process(&typed(Key::KeyA, "a"), at(0, 0));
    assert_eq!(labels(&out), vec!["@Key[a]"]);
}

#[test]
fn modifiers_are_tracked_while_paused() {
    let mut n = Normalizer::new();
    pause(&mut n);
    n.process(&press(Key::ControlRight), at(0, 0));
    let out = n.process(&press(Key::KeyP), at(0, 0));
    assert_eq!(out, vec![]);
    n.process(&press(Key::Alt), at(0, 0));
    let out = n.process(&typed(Key::KeyP, "p"), at(9, 0));
    assert_eq!(labels(&out), vec!["Capture Resumed"]);
    assert!(!n.is_paused());
}

#[test]
fn the_pause_chord_sends_no_key_event() {
    let mut n = Normalizer::new();
    n.process(&press(Key::ControlLeft), at(0, 0));
    n.process(&press(Key::Alt), at(0, 0));
    n.process(&press(Key::ShiftLeft), at(0, 0));
    let out = n.process(&press(Key::KeyP), at(0, 0));
    assert_eq!(labels(&out), vec!["Capture Paused"]);
    let out = n.process(&press(Key::KeyP), at(0, 0));
    assert_eq!(labels(&out), vec!["Capture Resumed"]);
    let out = n.process(&press(Key::KeyO), at(0, 0));
    assert_eq!(labels(&out), vec!["@Key[Ctrl+Alt+Shift+O]"]);
}

#[test]
fn the_wheel_is_ignored() {
    let mut n = Normalizer::new();
    let out = n.process(&RawInputEvent::Wheel { delta_x: 3, delta_y: -4 }, at(0, 0));
    assert_eq!(out, vec![]);
    assert_eq!(n.last_click_button(), None);
    assert_eq!(n.drag_start_pos(), None);
}

#[test]
fn a_key_without_a_name_goes_by_its_identifier() {
    let mut n = Normalizer::new();
    assert_eq!(labels(&n.process(&press(Key::Delete), at(0, 0))), vec!["@Key[Delete]"]);
    assert_eq!(labels(&n.process(&press(Key::Kp7), at(0, 0))), vec!["@Key[Kp7]"]);
    assert_eq!(
        labels(&n.process(&press(Key::Unknown(4242)), at(0, 0))),
        vec!["@Key[Unknown(4242)]"]
    );
    n.process(&press(Key::MetaLeft), at(0, 0));
    assert_eq!(labels(&n.process(&press(Key::PageUp), at(0, 0))), vec!["@Key[Meta+PageUp]"]);
}

#[test]
fn a_question_mark_gives_way_to_the_identifier() {
    let mut n = Normalizer::new();
    assert_eq!(labels(&n.process(&typed(Key::Slash, "?"), at(0, 0))), vec!["@Key[Slash]"]);
    assert_eq!(labels(&n.process(&typed(Key::KeyA, "?"), at(0, 0))), vec!["@Key[A]"]);
    n.process(&press(Key::ShiftLeft), at(0, 0));
    assert_eq!(labels(&n.process(&press(Key::Slash), at(0, 0))), vec!["@Key[Slash]"]);
}

fn timed(event: RawInputEvent, timestamp: u128, instant: u128) -> TimedEvent {
    TimedEvent { event, at: at(timestamp, instant) }
}

#[test]
fn a_batch_goes_through_event_by_event() {
    let inputs = vec![
        timed(press(Key::ShiftLeft), 1, 10),
        timed(typed(Key::KeyH, "H"), 2, 20),
        timed(RawInputEvent::KeyRelease(Key::ShiftLeft), 3, 30),
        timed(RawInputEvent::ButtonPress(Button::Left), 4, 40),
        timed(moved(0, 0), 5, 50),
        timed(moved(20, 20), 6, 60),
        timed(RawInputEvent::ButtonRelease(Button::Left), 7, 70),
        timed(RawInputEvent::ButtonPress(Button::Left), 8, 80),
        timed(RawInputEvent::ButtonRelease(Button::Left), 9, 90),
        timed(RawInputEvent::Wheel { delta_x: 0, delta_y: 1 }, 10, 100),
    ];
    let mut one_by_one = Normalizer::new();
    let mut expected: Vec<NormalizedEvent> = Vec::new();
    for input in &inputs {
        expected.extend(one_by_one.process(&input.event, input.at));
    }
    let mut n = Normalizer::new();
    let out = n.process_all(&inputs);
    assert_eq!(out, expected);
    assert_eq!(
        labels(&out),
        vec![
            "@Key[H]",
            "@MouseDown[Left]",
            "@MouseMove[0, 0]",
            "@DragStart[Left]",
            "@MouseMove[20, 20]",
            "@MouseUp[Left]",
            "@Drag[Left]",
            "@MouseDown[Left]",
            "@MouseUp[Left]",
            "@Click[Left]",
        ]
    );
    let stamps: Vec<u128> = out.iter().map(|e| e.timestamp).collect();
    assert_eq!(stamps, vec![2, 4, 5, 6, 6, 7, 7, 8, 9, 9]);
    assert_eq!(n.last_click_time(), Some(90));
    assert_eq!(n.is_dragging(), one_by_one.is_dragging());
    assert_eq!(n.drag_start_pos(), one_by_one.drag_start_pos());
}

#[test]
fn an_empty_batch_changes_nothing() {
    let mut n = Normalizer::new();
    n.process(&RawInputEvent::ButtonPress(Button::Right), at(0, 0));
    let out = n.process_all(&vec![]);
    assert_eq!(out, vec![]);
    assert_eq!(n.last_click_button(), Some(Button::Right));
}

#[test]
fn moves_that_only_reach_the_threshold_leave_a_click() {
    let mut n = Normalizer::new();
    let mut all: Vec<NormalizedEvent> = Vec::new();
    all.extend(n.process(&RawInputEvent::ButtonPress(Button::Left), at(0, 0)));
    all.extend(n.process(&moved(5, 0), at(0, 0)));
    all.extend(n.process(&moved(10, 0), at(0, 0)));
    all.extend(n.process(&moved(15, 0), at(0, 0)));
    all.extend(n.process(&RawInputEvent::ButtonRelease(Button::Left), at(0, 0)));
    assert_eq!(
        kinds(&all),
        vec![
            EventKind::MouseDown,
            EventKind::MouseMove,
            EventKind::MouseMove,
            EventKind::MouseMove,
            EventKind::MouseUp,
            EventKind::Click,
        ]
    );
}
