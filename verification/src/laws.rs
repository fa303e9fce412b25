//! What holds of every capture session.

use vstd::prelude::*;
use crate::events::{EventKind, Moment, Normalized, RawInput, Timed};
use crate::gesture::{beyond_drag_threshold, elapsed, DOUBLE_CLICK_WINDOW};
use crate::keys::{key_of, modifier_of, Button, Key, Modifier};
use crate::label::{
    button_label, chord_parts, has_printable_text, key_label, key_text, key_word, pause_label,
    word_if,
};
use crate::layout::{default_key_name, layout_row};
use crate::modifiers::{held_of, holds_alt, holds_ctrl, holds_meta, holds_shift, Held};
use crate::normalizer::{
    completes_double_click, emitted, is_pause_chord, only_if, release_events, run, step,
    toggles_pause, SessionState,
};

verus! {

/// How many events of `kind` are in `out`.
pub open spec fn count_kind(out: Seq<Normalized>, kind: EventKind) -> nat
    decreases out.len(),
{
    if out.len() == 0 {
        0
    } else {
        count_kind(out.drop_last(), kind) + if out.last().kind == kind {
            1nat
        } else {
            0nat
        }
    }
}

/// Every reachable state is well formed: a step keeps a well-formed state well formed.
pub proof fn lemma_step_keeps_well_formed(s: SessionState, event: RawInput, at: Moment)
    requires
        s.wf(),
    ensures
        step(s, event, at).0.wf(),
{
}

/// A run keeps a well-formed state well formed, and a session begins in one.
pub proof fn lemma_run_keeps_well_formed(s: SessionState, inputs: Seq<Timed>)
    requires
        s.wf(),
    ensures
        run(s, inputs).0.wf(),
        SessionState::initial().wf(),
    decreases inputs.len(),
{
    if inputs.len() > 0 {
        lemma_run_keeps_well_formed(s, inputs.drop_last());
        lemma_step_keeps_well_formed(
            run(s, inputs.drop_last()).0,
            inputs.last().event,
            inputs.last().at,
        );
    }
}

/// Every event that a step sends out carries the timestamp of the moment at which the
/// raw event was read.
pub proof fn lemma_step_stamps_the_moment(s: SessionState, event: RawInput, at: Moment)
    ensures
        forall|i: int|
            0 <= i < step(s, event, at).1.len() ==> (#[trigger] step(s, event, at).1[i]).timestamp
                == at.timestamp,
{
}

/// The two sides of a modifier are tracked apart. Once a modifier key has been pressed
/// it is held until that very key is released, whatever else is pressed or released in
/// between, the same modifier's other side included; and so Control, Shift, Alt or Meta,
/// whichever the key belongs to, counts as held for all that time.
pub proof fn lemma_modifier_held_until_released(
    s: SessionState,
    m: Modifier,
    os_text: Option<Seq<char>>,
    at: Moment,
    inputs: Seq<Timed>,
)
    requires
        forall|i: int|
            0 <= i < inputs.len() ==> (#[trigger] inputs[i]).event != RawInput::KeyRelease(
                key_of(m),
            ),
    ensures
        ({
            let pressed = step(s, RawInput::KeyPress(key_of(m), os_text), at).0;
            let held = run(pressed, inputs).0.pressed_modifiers;
            &&& held.contains(m)
            &&& (m == Modifier::ControlLeft || m == Modifier::ControlRight) ==> holds_ctrl(held)
            &&& (m == Modifier::ShiftLeft || m == Modifier::ShiftRight) ==> holds_shift(held)
            &&& m == Modifier::Alt ==> holds_alt(held)
            &&& (m == Modifier::MetaLeft || m == Modifier::MetaRight) ==> holds_meta(held)
        }),
    decreases inputs.len(),
{
    let pressed = step(s, RawInput::KeyPress(key_of(m), os_text), at).0;
    assert(modifier_of(key_of(m)) == Some(m));
    if inputs.len() > 0 {
        lemma_modifier_held_until_released(s, m, os_text, at, inputs.drop_last());
        let before = run(pressed, inputs.drop_last()).0;
        let last = inputs.last();
        assert(last.event != RawInput::KeyRelease(key_of(m)));
        match last.event {
            RawInput::KeyRelease(key) => {
                assert(key != key_of(m));
                assert(modifier_of(key) != Some(m));
            },
            _ => {},
        }
    }
}

/// Once a modifier key has been released it is not held until that very key is pressed
/// again.
pub proof fn lemma_modifier_free_until_pressed(
    s: SessionState,
    m: Modifier,
    at: Moment,
    inputs: Seq<Timed>,
)
    requires
        forall|i: int|
            0 <= i < inputs.len() ==> !((#[trigger] inputs[i]).event matches RawInput::KeyPress(
                key,
                _,
            ) && key == key_of(m)),
    ensures
        ({
            let released = step(s, RawInput::KeyRelease(key_of(m)), at).0;
            !run(released, inputs).0.pressed_modifiers.contains(m)
        }),
    decreases inputs.len(),
{
    let released = step(s, RawInput::KeyRelease(key_of(m)), at).0;
    assert(modifier_of(key_of(m)) == Some(m));
    if inputs.len() > 0 {
        lemma_modifier_free_until_pressed(s, m, at, inputs.drop_last());
        let last = inputs.last();
        match last.event {
            RawInput::KeyPress(key, _) => {
                assert(key != key_of(m));
                assert(modifier_of(key) != Some(m));
            },
            _ => {},
        }
    }
}

/// Counting goes through a concatenation.
pub proof fn lemma_count_kind_concat(a: Seq<Normalized>, b: Seq<Normalized>, kind: EventKind)
    ensures
        count_kind(a + b, kind) == count_kind(a, kind) + count_kind(b, kind),
    decreases b.len(),
{
    if b.len() == 0 {
        assert(a + b =~= a);
    } else {
        lemma_count_kind_concat(a, b.drop_last(), kind);
        assert((a + b).drop_last() =~= a + b.drop_last());
    }
}

/// Counting in a sequence with one more event at its end.
pub proof fn lemma_count_kind_push(a: Seq<Normalized>, event: Normalized, kind: EventKind)
    ensures
        count_kind(a.push(event), kind) == count_kind(a, kind) + if event.kind == kind {
            1nat
        } else {
            0nat
        },
        count_kind(Seq::empty(), kind) == 0,
{
    assert(a.push(event).drop_last() =~= a);
}

/// How many events of `inputs`, coming one after the other from state `s`, are the
/// pause chord.
pub open spec fn toggle_count(s: SessionState, inputs: Seq<Timed>) -> nat
    decreases inputs.len(),
{
    if inputs.len() == 0 {
        0
    } else {
        toggle_count(s, inputs.drop_last()) + if toggles_pause(
            run(s, inputs.drop_last()).0,
            inputs.last().event,
        ) {
            1nat
        } else {
            0nat
        }
    }
}

/// The pause chord, and nothing else, flips the pause flag, and it sends out exactly
/// the notice of the new state. No other event sends out a system notice.
pub proof fn lemma_pause_chord_toggles(s: SessionState, event: RawInput, at: Moment)
    ensures
        ({
            let (next, out) = step(s, event, at);
            if toggles_pause(s, event) {
                &&& next.is_paused == !s.is_paused
                &&& out == seq![emitted(EventKind::System, pause_label(!s.is_paused), at)]
                &&& count_kind(out, EventKind::System) == 1
            } else {
                &&& next.is_paused == s.is_paused
                &&& count_kind(out, EventKind::System) == 0
            }
        }),
{
    let (next, out) = step(s, event, at);
    if toggles_pause(s, event) {
        lemma_count_kind_push(
            Seq::empty(),
            emitted(EventKind::System, pause_label(!s.is_paused), at),
            EventKind::System,
        );
        assert(out =~= Seq::<Normalized>::empty().push(
            emitted(EventKind::System, pause_label(!s.is_paused), at),
        ));
    } else {
        lemma_no_system_notice(s, event, at);
    }
}

/// An event that is not the pause chord sends out no system notice.
proof fn lemma_no_system_notice(s: SessionState, event: RawInput, at: Moment)
    requires
        !toggles_pause(s, event),
    ensures
        count_kind(step(s, event, at).1, EventKind::System) == 0,
{
    let out = step(s, event, at).1;
    assert forall|i: int| 0 <= i < out.len() implies (#[trigger] out[i]).kind
        != EventKind::System by {}
    lemma_count_zero(out, EventKind::System);
}

/// A sequence without an event of `kind` counts none.
proof fn lemma_count_zero(out: Seq<Normalized>, kind: EventKind)
    requires
        forall|i: int| 0 <= i < out.len() ==> (#[trigger] out[i]).kind != kind,
    ensures
        count_kind(out, kind) == 0,
    decreases out.len(),
{
    if out.len() > 0 {
        lemma_count_zero(out.drop_last(), kind);
    }
}

/// While capture is paused no event goes out: not a move, a press, a release, a click,
/// a double click, the start or the end of a drag, nor a key. The one exception is the
/// pause chord, which resumes capture and sends out the notice of it.
pub proof fn lemma_paused_step_is_silent(s: SessionState, event: RawInput, at: Moment)
    requires
        s.is_paused,
    ensures
        ({
            let (next, out) = step(s, event, at);
            if toggles_pause(s, event) {
                &&& !next.is_paused
                &&& out == seq![emitted(EventKind::System, pause_label(false), at)]
            } else {
                &&& next.is_paused
                &&& out == Seq::<Normalized>::empty()
            }
        }),
{
    let (next, out) = step(s, event, at);
    if !toggles_pause(s, event) {
        assert(out =~= Seq::<Normalized>::empty());
    }
}

/// Over a whole run there is exactly one system notice for each pause chord, and a run
/// without a pause chord leaves the pause flag as it was.
pub proof fn lemma_one_notice_per_toggle(s: SessionState, inputs: Seq<Timed>)
    ensures
        count_kind(run(s, inputs).1, EventKind::System) == toggle_count(s, inputs),
        toggle_count(s, inputs) == 0 ==> run(s, inputs).0.is_paused == s.is_paused,
    decreases inputs.len(),
{
    if inputs.len() > 0 {
        lemma_one_notice_per_toggle(s, inputs.drop_last());
        let (before, sent) = run(s, inputs.drop_last());
        let (after, out) = step(before, inputs.last().event, inputs.last().at);
        lemma_pause_chord_toggles(before, inputs.last().event, inputs.last().at);
        lemma_count_kind_concat(sent, out, EventKind::System);
    }
}

/// Once capture is paused, a run that holds no pause chord sends out nothing at all and
/// leaves capture paused.
pub proof fn lemma_paused_run_is_silent(s: SessionState, inputs: Seq<Timed>)
    requires
        s.is_paused,
        toggle_count(s, inputs) == 0,
    ensures
        run(s, inputs).1 == Seq::<Normalized>::empty(),
        run(s, inputs).0.is_paused,
    decreases inputs.len(),
{
    if inputs.len() > 0 {
        lemma_paused_run_is_silent(s, inputs.drop_last());
        let (before, sent) = run(s, inputs.drop_last());
        lemma_paused_step_is_silent(before, inputs.last().event, inputs.last().at);
        assert(run(s, inputs).1 =~= Seq::<Normalized>::empty());
    }
}

/// Where the pointer is after the move `t`.
pub open spec fn position_of(t: Timed) -> (i64, i64) {
    match t.event {
        RawInput::MouseMove { x, y } => (x, y),
        _ => (0, 0),
    }
}

/// The position from which the moves that follow a press in state `s` are measured: the
/// start that the state holds, or else the position of the first move.
pub open spec fn gesture_anchor(s: SessionState, moves: Seq<Timed>) -> Option<(i64, i64)> {
    if s.drag_start_pos is Some {
        s.drag_start_pos
    } else if moves.len() > 0 {
        Some(position_of(moves[0]))
    } else {
        None
    }
}

/// Whether one of `moves` takes the pointer farther than the drag threshold from the
/// anchor of the gesture.
pub open spec fn crosses_threshold(s: SessionState, moves: Seq<Timed>) -> bool {
    gesture_anchor(s, moves) is Some && exists|i: int|
        0 <= i < moves.len() && beyond_drag_threshold(
            gesture_anchor(s, moves)->0,
            position_of(#[trigger] moves[i]),
        )
}

/// What a row of moves makes of a state in which a button is down and no drag is under
/// way: the start is the anchor of the gesture, and a drag is under way exactly if one
/// of the moves has crossed the threshold. Nothing else changes.
pub proof fn lemma_moves_track_the_drag(down: SessionState, moves: Seq<Timed>)
    requires
        !down.is_dragging,
        down.last_click_button is Some,
        forall|i: int| 0 <= i < moves.len() ==> (#[trigger] moves[i]).event is MouseMove,
    ensures
        ({
            let moved = run(down, moves).0;
            &&& moved.is_dragging == crosses_threshold(down, moves)
            &&& moved.drag_start_pos == gesture_anchor(down, moves)
            &&& moved.is_paused == down.is_paused
            &&& moved.last_click_button == down.last_click_button
            &&& moved.last_click_time == down.last_click_time
            &&& moved.last_clicked_button == down.last_clicked_button
            &&& moved.pressed_modifiers == down.pressed_modifiers
        }),
    decreases moves.len(),
{
    if moves.len() > 0 {
        let earlier = moves.drop_last();
        lemma_moves_track_the_drag(down, earlier);
        let before = run(down, earlier).0;
        let last = moves.last();
        let at = position_of(last);
        assert(last.event is MouseMove);
        let moved = run(down, moves).0;
        if before.drag_start_pos is None {
            assert(earlier.len() == 0);
            assert(moves[0] == last);
            assert(!beyond_drag_threshold(at, at));
            assert(!crosses_threshold(down, moves)) by {
                if crosses_threshold(down, moves) {
                    let i = choose|i: int|
                        0 <= i < moves.len() && beyond_drag_threshold(
                            gesture_anchor(down, moves)->0,
                            position_of(#[trigger] moves[i]),
                        );
                    assert(moves[i] == last);
                }
            }
        } else {
            let anchor = before.drag_start_pos->0;
            assert(gesture_anchor(down, moves) == Some(anchor)) by {
                if earlier.len() > 0 {
                    assert(earlier[0] == moves[0]);
                }
            }
            if moved.is_dragging {
                if before.is_dragging {
                    let i = choose|i: int|
                        0 <= i < earlier.len() && beyond_drag_threshold(
                            gesture_anchor(down, earlier)->0,
                            position_of(#[trigger] earlier[i]),
                        );
                    assert(moves[i] == earlier[i]);
                } else {
                    assert(beyond_drag_threshold(anchor, position_of(moves[moves.len() - 1])));
                }
                assert(crosses_threshold(down, moves));
            } else {
                if crosses_threshold(down, moves) {
                    let i = choose|i: int|
                        0 <= i < moves.len() && beyond_drag_threshold(
                            anchor,
                            position_of(#[trigger] moves[i]),
                        );
                    if i < earlier.len() {
                        assert(earlier[i] == moves[i]);
                        assert(crosses_threshold(down, earlier));
                    }
                }
            }
        }
    }
}

/// A press, any row of moves and the release, with capture not paused: the release
/// sends out either a click, with a double click behind it where one is completed, or a
/// drag, and never both. It is a drag exactly if one of the moves took the pointer
/// farther than the threshold from the anchor of the gesture, which is the position of
/// the first move unless the state held a start from before the press.
pub proof fn lemma_release_is_click_or_drag(
    s: SessionState,
    button: Button,
    pressed_at: Moment,
    moves: Seq<Timed>,
    released_at: Moment,
)
    requires
        !s.is_paused,
        forall|i: int| 0 <= i < moves.len() ==> (#[trigger] moves[i]).event is MouseMove,
    ensures
        ({
            let down = step(s, RawInput::ButtonPress(button), pressed_at).0;
            let moved = run(down, moves).0;
            let out = step(moved, RawInput::ButtonRelease(button), released_at).1;
            &&& count_kind(out, EventKind::MouseUp) == 1
            &&& count_kind(out, EventKind::Click) + count_kind(out, EventKind::Drag) == 1
            &&& count_kind(out, EventKind::Drag) == 1 <==> crosses_threshold(s, moves)
            &&& count_kind(out, EventKind::Drag) == 1 ==> count_kind(out, EventKind::DoubleClick)
                == 0
            &&& moves.len() == 0 ==> count_kind(out, EventKind::Click) == 1
        }),
{
    let down = step(s, RawInput::ButtonPress(button), pressed_at).0;
    lemma_moves_track_the_drag(down, moves);
    let moved = run(down, moves).0;
    assert(gesture_anchor(down, moves) == gesture_anchor(s, moves));
    assert(crosses_threshold(down, moves) == crosses_threshold(s, moves));
    lemma_release_counts(moved, button, released_at);
}

/// What a release sends out while capture is not paused, by kind.
pub proof fn lemma_release_counts(s: SessionState, button: Button, at: Moment)
    requires
        !s.is_paused,
    ensures
        ({
            let out = step(s, RawInput::ButtonRelease(button), at).1;
            &&& out == release_events(s, button, at)
            &&& count_kind(out, EventKind::MouseUp) == 1
            &&& count_kind(out, EventKind::Drag) == if s.is_dragging {
                1nat
            } else {
                0nat
            }
            &&& count_kind(out, EventKind::Click) == if s.is_dragging {
                0nat
            } else {
                1nat
            }
            &&& count_kind(out, EventKind::DoubleClick) == if !s.is_dragging
                && completes_double_click(s, button, at.instant) {
                1nat
            } else {
                0nat
            }
        }),
{
    let out = step(s, RawInput::ButtonRelease(button), at).1;
    let up = emitted(EventKind::MouseUp, button_label(EventKind::MouseUp, button), at);
    let drag = emitted(EventKind::Drag, button_label(EventKind::Drag, button), at);
    let click = emitted(EventKind::Click, button_label(EventKind::Click, button), at);
    let double = emitted(EventKind::DoubleClick, button_label(EventKind::DoubleClick, button), at);
    let none = Seq::<Normalized>::empty();
    assert forall|kind: EventKind| #![trigger count_kind(out, kind)]
        kind == EventKind::MouseUp || kind == EventKind::Drag || kind == EventKind::Click || kind
            == EventKind::DoubleClick implies count_kind(out, kind) == (if kind
        == EventKind::MouseUp {
        1nat
    } else if kind == EventKind::Drag {
        if s.is_dragging {
            1nat
        } else {
            0nat
        }
    } else if kind == EventKind::Click {
        if s.is_dragging {
            0nat
        } else {
            1nat
        }
    } else {
        if !s.is_dragging && completes_double_click(s, button, at.instant) {
            1nat
        } else {
            0nat
        }
    }) by {
        lemma_count_kind_push(none, up, kind);
        if s.is_dragging {
            lemma_count_kind_push(none.push(up), drag, kind);
            assert(out =~= none.push(up).push(drag));
        } else {
            lemma_count_kind_push(none.push(up), click, kind);
            if completes_double_click(s, button, at.instant) {
                lemma_count_kind_push(none.push(up).push(click), double, kind);
                assert(out =~= none.push(up).push(click).push(double));
            } else {
                assert(out =~= none.push(up).push(click));
            }
        }
    }
}

/// Two clicks one after the other, with capture not paused: the second release sends
/// out a double click exactly if both clicks were made with the same button and the
/// second release comes less than the window after the first. At the full length of
/// the window, or later, or with another button, there is a click and no more.
pub proof fn lemma_double_click_window(
    s: SessionState,
    first_button: Button,
    second_button: Button,
    first_press: Moment,
    first_release: Moment,
    second_press: Moment,
    second_release: Moment,
)
    requires
        !s.is_paused,
    ensures
        ({
            let s1 = step(s, RawInput::ButtonPress(first_button), first_press).0;
            let (s2, first) = step(s1, RawInput::ButtonRelease(first_button), first_release);
            let s3 = step(s2, RawInput::ButtonPress(second_button), second_press).0;
            let second = step(s3, RawInput::ButtonRelease(second_button), second_release).1;
            let double = first_button == second_button && elapsed(
                first_release.instant,
                second_release.instant,
            ) < DOUBLE_CLICK_WINDOW;
            &&& count_kind(first, EventKind::Click) == 1
            &&& count_kind(second, EventKind::Click) == 1
            &&& count_kind(second, EventKind::DoubleClick) == if double {
                1nat
            } else {
                0nat
            }
            &&& second == seq![
                emitted(EventKind::MouseUp, button_label(EventKind::MouseUp, second_button), second_release),
                emitted(EventKind::Click, button_label(EventKind::Click, second_button), second_release),
            ] + only_if(
                double,
                emitted(
                    EventKind::DoubleClick,
                    button_label(EventKind::DoubleClick, second_button),
                    second_release,
                ),
            )
        }),
{
    let s1 = step(s, RawInput::ButtonPress(first_button), first_press).0;
    let (s2, first) = step(s1, RawInput::ButtonRelease(first_button), first_release);
    let s3 = step(s2, RawInput::ButtonPress(second_button), second_press).0;
    lemma_release_counts(s1, first_button, first_release);
    lemma_release_counts(s3, second_button, second_release);
}

/// A key pressed together with Ctrl, Alt or Meta is part of a shortcut. Its chord names
/// the held modifiers in the order Ctrl, Alt, Shift, Meta and then the key by its
/// upper-case name. Shift is named whenever it is held, and what the operating system
/// says the key types plays no part.
pub proof fn lemma_shortcut_chord(key: Key, os_text: Option<Seq<char>>, held: Held)
    requires
        modifier_of(key) is None,
        held.ctrl || held.alt || held.meta,
    ensures
        chord_parts(key, os_text, held) == word_if(held.ctrl, "Ctrl"@) + word_if(
            held.alt,
            "Alt"@,
        ) + word_if(held.shift, "Shift"@) + word_if(held.meta, "Meta"@) + seq![
            key_word(key, default_key_name(key)),
        ],
        chord_parts(key, os_text, held) == chord_parts(key, None, held),
{
    let words = word_if(held.ctrl, "Ctrl"@) + word_if(held.alt, "Alt"@) + word_if(
        held.shift,
        "Shift"@,
    ) + word_if(held.meta, "Meta"@);
    assert(words.push(key_word(key, default_key_name(key))) =~= words + seq![
        key_word(key, default_key_name(key)),
    ]);
}

/// A key pressed with none of Ctrl, Alt and Meta held is typed. Its chord is the word
/// for its text, with `Shift` in front only where Shift is held and the text has not
/// taken the shift state up. A printable text from the operating system and a text of
/// the layout table that depends on Shift both take it up, so a shifted letter shows as
/// the capital alone.
pub proof fn lemma_typed_chord(key: Key, os_text: Option<Seq<char>>, held: Held)
    requires
        modifier_of(key) is None,
        !held.ctrl && !held.alt && !held.meta,
    ensures
        ({
            let (text, shift_consumed) = key_text(key, os_text, held);
            let consuming = key != Key::Space && (has_printable_text(os_text) || (layout_row(key)
                matches Some(row) && row.2));
            &&& chord_parts(key, os_text, held) == word_if(
                held.shift && !shift_consumed,
                "Shift"@,
            ) + seq![key_word(key, text)]
            &&& held.shift && consuming ==> chord_parts(key, os_text, held) == seq![
                key_word(key, text),
            ]
            &&& layout_row(key) matches Some(row) ==> (held.shift && key != Key::Space
                && !has_printable_text(os_text) ==> text == row.1)
        }),
{
    let (text, shift_consumed) = key_text(key, os_text, held);
    let words = word_if(held.shift && !shift_consumed, "Shift"@);
    assert(Seq::<Seq<char>>::empty() + Seq::<Seq<char>>::empty() + words + Seq::<
        Seq<char>,
    >::empty() =~= words);
    assert(words.push(key_word(key, text)) =~= words + seq![key_word(key, text)]);
    assert(Seq::<Seq<char>>::empty() + seq![key_word(key, text)] =~= seq![key_word(key, text)]);
}

/// A press of a key that is no modifier, with capture not paused, sends out exactly one
/// key event unless it is the pause chord; the event is labelled with the chord of the
/// key and the modifiers held.
pub proof fn lemma_key_press_sends_its_chord(
    s: SessionState,
    key: Key,
    os_text: Option<Seq<char>>,
    at: Moment,
)
    requires
        !s.is_paused,
        modifier_of(key) is None,
        !is_pause_chord(s.pressed_modifiers, key),
    ensures
        step(s, RawInput::KeyPress(key, os_text), at).1 == seq![
            emitted(
                EventKind::Key,
                key_label(chord_parts(key, os_text, held_of(s.pressed_modifiers))),
                at,
            ),
        ],
        step(s, RawInput::KeyPress(key, os_text), at).0 == s,
{
}

/// The press of a modifier key sends out nothing, paused or not. All that it changes is
/// that the modifier counts as held.
pub proof fn lemma_modifier_press_is_silent(
    s: SessionState,
    m: Modifier,
    os_text: Option<Seq<char>>,
    at: Moment,
)
    ensures
        step(s, RawInput::KeyPress(key_of(m), os_text), at).1 == Seq::<Normalized>::empty(),
        step(s, RawInput::KeyPress(key_of(m), os_text), at).0 == (SessionState {
            pressed_modifiers: s.pressed_modifiers.insert(m),
            ..s
        }),
{
    assert(modifier_of(key_of(m)) == Some(m));
    assert(key_of(m) != Key::KeyP);
    assert(step(s, RawInput::KeyPress(key_of(m), os_text), at).1 =~= Seq::<Normalized>::empty());
}

/// Shift and then a key, with capture not paused and none of Ctrl, Alt and Meta held:
/// where the layout table has a shifted text for the key and the operating system gives
/// no text of its own, the two presses together send out one key event, and its chord
/// is the word for the shifted text alone, without `Shift` beside it.
pub proof fn lemma_shift_and_key_shows_the_shifted_text(
    s: SessionState,
    shift: Modifier,
    key: Key,
    shift_at: Moment,
    key_at: Moment,
)
    requires
        !s.is_paused,
        shift == Modifier::ShiftLeft || shift == Modifier::ShiftRight,
        !holds_ctrl(s.pressed_modifiers),
        !holds_alt(s.pressed_modifiers),
        !holds_meta(s.pressed_modifiers),
        layout_row(key) matches Some(row) && row.2,
    ensures
        ({
            let (shifted, first) = step(s, RawInput::KeyPress(key_of(shift), None), shift_at);
            let second = step(shifted, RawInput::KeyPress(key, None), key_at).1;
            let row = layout_row(key)->0;
            first + second == seq![
                emitted(EventKind::Key, key_label(seq![key_word(key, row.1)]), key_at),
            ]
        }),
{
    let (shifted, first) = step(s, RawInput::KeyPress(key_of(shift), None), shift_at);
    lemma_modifier_press_is_silent(s, shift, None, shift_at);
    let held = held_of(shifted.pressed_modifiers);
    assert(held.shift && !held.ctrl && !held.alt && !held.meta);
    lemma_typed_chord(key, None, held);
    lemma_key_press_sends_its_chord(shifted, key, None, key_at);
    let second = step(shifted, RawInput::KeyPress(key, None), key_at).1;
    assert(first + second =~= second);
}

/// Ctrl, Shift and then a key, with capture not paused and neither Alt nor Meta held:
/// the three presses together send out one key event, and its chord is `Ctrl`, `Shift`
/// and the upper-case name of the key, in that order, whatever the operating system
/// says the key types.
pub proof fn lemma_ctrl_shift_and_key_names_both(
    s: SessionState,
    ctrl: Modifier,
    shift: Modifier,
    key: Key,
    os_text: Option<Seq<char>>,
    ctrl_at: Moment,
    shift_at: Moment,
    key_at: Moment,
)
    requires
        !s.is_paused,
        ctrl == Modifier::ControlLeft || ctrl == Modifier::ControlRight,
        shift == Modifier::ShiftLeft || shift == Modifier::ShiftRight,
        !holds_alt(s.pressed_modifiers),
        !holds_meta(s.pressed_modifiers),
        modifier_of(key) is None,
    ensures
        ({
            let (s1, first) = step(s, RawInput::KeyPress(key_of(ctrl), None), ctrl_at);
            let (s2, second) = step(s1, RawInput::KeyPress(key_of(shift), None), shift_at);
            let third = step(s2, RawInput::KeyPress(key, os_text), key_at).1;
            first + second + third == seq![
                emitted(
                    EventKind::Key,
                    key_label(seq!["Ctrl"@, "Shift"@, key_word(key, default_key_name(key))]),
                    key_at,
                ),
            ]
        }),
{
    let (s1, first) = step(s, RawInput::KeyPress(key_of(ctrl), None), ctrl_at);
    let (s2, second) = step(s1, RawInput::KeyPress(key_of(shift), None), shift_at);
    lemma_modifier_press_is_silent(s, ctrl, None, ctrl_at);
    lemma_modifier_press_is_silent(s1, shift, None, shift_at);
    let held = held_of(s2.pressed_modifiers);
    assert(held.ctrl && held.shift && !held.alt && !held.meta);
    lemma_shortcut_chord(key, os_text, held);
    lemma_key_press_sends_its_chord(s2, key, os_text, key_at);
    let third = step(s2, RawInput::KeyPress(key, os_text), key_at).1;
    assert(first + second + third =~= third);
    assert(chord_parts(key, os_text, held) =~= seq![
        "Ctrl"@,
        "Shift"@,
        key_word(key, default_key_name(key)),
    ]);
}

} // verus!
