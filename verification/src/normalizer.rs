//! The event normalizer: the state of a capture session and the step that one raw
//! event makes it take.

use vstd::prelude::*;
use crate::events::{
    EventKind, Moment, Normalized, NormalizedEvent, RawInput, RawInputEvent, Timed, TimedEvent,
};
use crate::gesture::{
    beyond_drag_threshold, exceeds_drag_threshold, is_double_click, within_double_click_window,
};
use crate::keys::{modifier_of, Button, Key, Modifier};
use crate::label::{
    button_label, button_label_string, chord_part_list, chord_parts, key_label, key_label_string,
    move_label, move_label_string, pause_label, pause_label_string,
};
use crate::modifiers::{held_of, holds_alt, holds_ctrl, Held, ModifierSet};

verus! {

/// The state of a capture session.
pub struct SessionState {
    /// The modifier keys whose last event was a press.
    pub pressed_modifiers: Set<Modifier>,
    /// While this is set, nothing but the pause notice goes out.
    pub is_paused: bool,
    /// When the last release that made a click happened, on the monotonic clock.
    pub last_click_time: Option<u128>,
    /// The button of that click.
    pub last_clicked_button: Option<Button>,
    /// The button of the last press or release. The start of a drag is announced under
    /// its name.
    pub last_click_button: Option<Button>,
    /// Where the pointer was first seen since the last release.
    pub drag_start_pos: Option<(i64, i64)>,
    /// Whether the pointer has got farther than the drag threshold from `drag_start_pos`
    /// since the last press.
    pub is_dragging: bool,
}

impl SessionState {
    /// The state in which a session begins.
    pub open spec fn initial() -> SessionState {
        SessionState {
            pressed_modifiers: Set::empty(),
            is_paused: false,
            last_click_time: None,
            last_clicked_button: None,
            last_click_button: None,
            drag_start_pos: None,
            is_dragging: false,
        }
    }

    /// What holds of every state that a session can reach: a drag is under way only
    /// from a recorded start, a start is recorded only once a button has been seen, and
    /// the time of the last click is kept together with its button.
    pub open spec fn wf(self) -> bool {
        &&& self.is_dragging ==> self.drag_start_pos is Some
        &&& self.drag_start_pos is Some ==> self.last_click_button is Some
        &&& self.last_click_time is Some <==> self.last_clicked_button is Some
        &&& self.last_clicked_button is Some ==> self.last_click_button is Some
    }
}

/// One outgoing event.
pub open spec fn emitted(kind: EventKind, label: Seq<char>, at: Moment) -> Normalized {
    Normalized { kind, label, timestamp: at.timestamp }
}

/// `event` alone if `present`, else nothing.
pub open spec fn only_if(present: bool, event: Normalized) -> Seq<Normalized> {
    if present {
        seq![event]
    } else {
        Seq::empty()
    }
}

/// Whether a move to `(x, y)` takes the pointer over the drag threshold for the first
/// time since the last press.
pub open spec fn starts_drag(s: SessionState, x: i64, y: i64) -> bool {
    s.drag_start_pos is Some && !s.is_dragging && beyond_drag_threshold(
        s.drag_start_pos->0,
        (x, y),
    )
}

/// The state after the pointer has moved to `(x, y)`, and what goes out.
///
/// A move that starts a drag is announced before the move itself. A move records its
/// position as the start of a possible drag if a button has been seen, no start is
/// recorded and no drag is under way.
pub open spec fn on_mouse_move(s: SessionState, x: i64, y: i64, at: Moment) -> (
    SessionState,
    Seq<Normalized>,
) {
    let dragging = s.is_dragging || starts_drag(s, x, y);
    let next = SessionState {
        is_dragging: dragging,
        drag_start_pos: if s.last_click_button is Some && s.drag_start_pos is None && !dragging {
            Some((x, y))
        } else {
            s.drag_start_pos
        },
        ..s
    };
    let announced = starts_drag(s, x, y) && !s.is_paused && s.last_click_button is Some;
    let out = only_if(
        announced,
        emitted(EventKind::DragStart, button_label(EventKind::DragStart, s.last_click_button->0), at),
    ) + only_if(!s.is_paused, emitted(EventKind::MouseMove, move_label(x, y), at));
    (next, out)
}

/// The state after `button` has gone down, and what goes out.
pub open spec fn on_button_press(s: SessionState, button: Button, at: Moment) -> (
    SessionState,
    Seq<Normalized>,
) {
    let next = SessionState { last_click_button: Some(button), is_dragging: false, ..s };
    let out = only_if(
        !s.is_paused,
        emitted(EventKind::MouseDown, button_label(EventKind::MouseDown, button), at),
    );
    (next, out)
}

/// Whether a click of `button` at the instant `now` completes a double click: the last
/// click was made with the same button, less than the window ago.
pub open spec fn completes_double_click(s: SessionState, button: Button, now: u128) -> bool {
    s.last_clicked_button == Some(button) && s.last_click_time is Some
        && within_double_click_window(s.last_click_time->0, now)
}

/// What a release of `button` sends out while capture is not paused: the release
/// itself, then either the drag that it ends, or a click and, where one is completed, a
/// double click.
pub open spec fn release_events(s: SessionState, button: Button, at: Moment) -> Seq<Normalized> {
    let up = emitted(EventKind::MouseUp, button_label(EventKind::MouseUp, button), at);
    if s.is_dragging {
        seq![up, emitted(EventKind::Drag, button_label(EventKind::Drag, button), at)]
    } else {
        seq![up, emitted(EventKind::Click, button_label(EventKind::Click, button), at)] + only_if(
            completes_double_click(s, button, at.instant),
            emitted(EventKind::DoubleClick, button_label(EventKind::DoubleClick, button), at),
        )
    }
}

/// The state after `button` has come up, and what goes out.
///
/// The time and the button of the click are kept only where a click goes out. The start
/// of the drag and the drag itself are forgotten in every case.
pub open spec fn on_button_release(s: SessionState, button: Button, at: Moment) -> (
    SessionState,
    Seq<Normalized>,
) {
    let next = SessionState {
        last_click_time: if !s.is_paused && !s.is_dragging {
            Some(at.instant)
        } else {
            s.last_click_time
        },
        last_clicked_button: if !s.is_paused && !s.is_dragging {
            Some(button)
        } else {
            s.last_clicked_button
        },
        last_click_button: Some(button),
        drag_start_pos: None,
        is_dragging: false,
        ..s
    };
    let out = if s.is_paused {
        Seq::empty()
    } else {
        release_events(s, button, at)
    };
    (next, out)
}

/// The pressed modifiers once `key` has gone down.
pub open spec fn pressed_after_press(pressed: Set<Modifier>, key: Key) -> Set<Modifier> {
    match modifier_of(key) {
        Some(m) => pressed.insert(m),
        None => pressed,
    }
}

/// The pressed modifiers once `key` has come up.
pub open spec fn pressed_after_release(pressed: Set<Modifier>, key: Key) -> Set<Modifier> {
    match modifier_of(key) {
        Some(m) => pressed.remove(m),
        None => pressed,
    }
}

/// Whether a press of `key` with `pressed` held is the chord that pauses and resumes
/// capture: Ctrl, Alt and the letter P.
pub open spec fn is_pause_chord(pressed: Set<Modifier>, key: Key) -> bool {
    holds_ctrl(pressed) && holds_alt(pressed) && key == Key::KeyP
}

/// Whether `event`, coming in state `s`, is the pause chord.
pub open spec fn toggles_pause(s: SessionState, event: RawInput) -> bool {
    event matches RawInput::KeyPress(key, _) && is_pause_chord(
        pressed_after_press(s.pressed_modifiers, key),
        key,
    )
}

/// What a press of `key` sends out while capture is not paused and the press is not
/// the pause chord. A modifier is only recorded: it shows up in the chord of the next
/// key, and its own press sends out nothing. Any other key sends out one key event with
/// its chord as the label.
pub open spec fn key_events(key: Key, os_text: Option<Seq<char>>, held: Held, at: Moment) -> Seq<
    Normalized,
> {
    only_if(
        modifier_of(key) is None,
        emitted(EventKind::Key, key_label(chord_parts(key, os_text, held)), at),
    )
}

/// The state after `key` has gone down, and what goes out.
///
/// A modifier is recorded first, so that it counts for its own press. The pause chord
/// is looked for before anything is held back, so it gets through while capture is
/// paused; it sends the notice and nothing else.
pub open spec fn on_key_press(s: SessionState, key: Key, os_text: Option<Seq<char>>, at: Moment) -> (
    SessionState,
    Seq<Normalized>,
) {
    let pressed = pressed_after_press(s.pressed_modifiers, key);
    if is_pause_chord(pressed, key) {
        (
            SessionState { pressed_modifiers: pressed, is_paused: !s.is_paused, ..s },
            seq![emitted(EventKind::System, pause_label(!s.is_paused), at)],
        )
    } else {
        (
            SessionState { pressed_modifiers: pressed, ..s },
            if s.is_paused {
                Seq::empty()
            } else {
                key_events(key, os_text, held_of(pressed), at)
            },
        )
    }
}

/// The state after `key` has come up. Nothing goes out.
pub open spec fn on_key_release(s: SessionState, key: Key) -> (SessionState, Seq<Normalized>) {
    (
        SessionState { pressed_modifiers: pressed_after_release(s.pressed_modifiers, key), ..s },
        Seq::empty(),
    )
}

/// The state after `event`, read at the moment `at`, and what goes out for it, in the
/// order in which it goes out.
pub open spec fn step(s: SessionState, event: RawInput, at: Moment) -> (
    SessionState,
    Seq<Normalized>,
) {
    match event {
        RawInput::MouseMove { x, y } => on_mouse_move(s, x, y, at),
        RawInput::ButtonPress(button) => on_button_press(s, button, at),
        RawInput::ButtonRelease(button) => on_button_release(s, button, at),
        RawInput::KeyPress(key, os_text) => on_key_press(s, key, os_text, at),
        RawInput::KeyRelease(key) => on_key_release(s, key),
        RawInput::Wheel { .. } => (s, Seq::empty()),
    }
}

/// The state after the events of `inputs` one after the other, and all that goes out
/// for them, in order.
pub open spec fn run(s: SessionState, inputs: Seq<Timed>) -> (SessionState, Seq<Normalized>)
    decreases inputs.len(),
{
    if inputs.len() == 0 {
        (s, Seq::empty())
    } else {
        let (before, sent) = run(s, inputs.drop_last());
        let (after, out) = step(before, inputs.last().event, inputs.last().at);
        (after, sent + out)
    }
}

/// The event normalizer. It owns the state of one capture session and takes the raw
/// events one at a time.
#[derive(Debug)]
pub struct Normalizer {
    pressed_modifiers: ModifierSet,
    is_paused: bool,
    last_click: Option<(u128, Button)>,
    last_click_button: Option<Button>,
    drag_start_pos: Option<(i64, i64)>,
    is_dragging: bool,
}

impl View for Normalizer {
    type V = SessionState;

    closed spec fn view(&self) -> SessionState {
        SessionState {
            pressed_modifiers: self.pressed_modifiers@,
            is_paused: self.is_paused,
            last_click_time: match self.last_click {
                Some((time, _)) => Some(time),
                None => None,
            },
            last_clicked_button: match self.last_click {
                Some((_, button)) => Some(button),
                None => None,
            },
            last_click_button: self.last_click_button,
            drag_start_pos: self.drag_start_pos,
            is_dragging: self.is_dragging,
        }
    }
}

/// Makes one outgoing event.
fn emit(kind: EventKind, label: String, at: Moment) -> (r: NormalizedEvent)
    ensures
        r@ == emitted(kind, label@, at),
{
    NormalizedEvent { kind, label, timestamp: at.timestamp }
}

/// Adds `event` to what goes out.
fn send(out: &mut Vec<NormalizedEvent>, event: NormalizedEvent)
    ensures
        final(out).deep_view() == old(out).deep_view().push(event@),
{
    out.push(event);
    assert(out.deep_view() =~= old(out).deep_view().push(event@));
}

/// Starts the list of what goes out.
fn nothing_sent() -> (out: Vec<NormalizedEvent>)
    ensures
        out.deep_view() == Seq::<Normalized>::empty(),
{
    let out: Vec<NormalizedEvent> = Vec::new();
    assert(out.deep_view() =~= Seq::<Normalized>::empty());
    out
}

impl Normalizer {
    #[verifier::type_invariant]
    spec fn well_formed(self) -> bool {
        self@.wf()
    }

    /// A normalizer at the beginning of a session.
    pub fn new() -> (r: Self)
        ensures
            r@ == SessionState::initial(),
    {
        Normalizer {
            pressed_modifiers: ModifierSet::new(),
            is_paused: false,
            last_click: None,
            last_click_button: None,
            drag_start_pos: None,
            is_dragging: false,
        }
    }

    /// Takes one raw event, read at the moment `at`, and returns what goes out for it,
    /// in order.
    pub fn process(&mut self, event: &RawInputEvent, at: Moment) -> (out: Vec<NormalizedEvent>)
        ensures
            final(self)@ == step(old(self)@, event@, at).0,
            out.deep_view() == step(old(self)@, event@, at).1,
            final(self)@.wf(),
    {
        let out = match event {
            RawInputEvent::MouseMove { x, y } => self.mouse_move(*x, *y, at),
            RawInputEvent::ButtonPress(button) => self.button_press(*button, at),
            RawInputEvent::ButtonRelease(button) => self.button_release(*button, at),
            RawInputEvent::KeyPress(key, os_text) => self.key_press(*key, os_text, at),
            RawInputEvent::KeyRelease(key) => self.key_release(*key),
            RawInputEvent::Wheel { .. } => nothing_sent(),
        };
        proof {
            use_type_invariant(&*self);
        }
        out
    }

    /// Takes the events of `inputs` one after the other and returns all that goes out
    /// for them, in order.
    pub fn process_all(&mut self, inputs: &Vec<TimedEvent>) -> (out: Vec<NormalizedEvent>)
        ensures
            final(self)@ == run(old(self)@, inputs.deep_view()).0,
            out.deep_view() == run(old(self)@, inputs.deep_view()).1,
            final(self)@.wf(),
    {
        proof {
            use_type_invariant(&*self);
        }
        let ghost start = self@;
        let mut out: Vec<NormalizedEvent> = nothing_sent();
        let mut i: usize = 0;
        while i < inputs.len()
            invariant
                i <= inputs.len(),
                self@ == run(start, inputs.deep_view().subrange(0, i as int)).0,
                out.deep_view() == run(start, inputs.deep_view().subrange(0, i as int)).1,
                self@.wf(),
            decreases inputs.len() - i,
        {
            let ghost before = out.deep_view();
            let mut sent: Vec<NormalizedEvent> = self.process(&inputs[i].event, inputs[i].at);
            let ghost added = sent.deep_view();
            out.append(&mut sent);
            proof {
                let so_far = inputs.deep_view().subrange(0, i as int);
                let with_this = inputs.deep_view().subrange(0, i + 1);
                assert(with_this.drop_last() =~= so_far);
                assert(with_this.last() == inputs[i as int]@);
                assert(out.deep_view() =~= before + added);
            }
            i += 1;
        }
        assert(inputs.deep_view().subrange(0, i as int) =~= inputs.deep_view());
        out
    }

    fn mouse_move(&mut self, x: i64, y: i64, at: Moment) -> (out: Vec<NormalizedEvent>)
        ensures
            final(self)@ == on_mouse_move(old(self)@, x, y, at).0,
            out.deep_view() == on_mouse_move(old(self)@, x, y, at).1,
    {
        proof {
            use_type_invariant(&*self);
        }
        let mut out: Vec<NormalizedEvent> = nothing_sent();
        match self.drag_start_pos {
            Some(start) => {
                if !self.is_dragging && exceeds_drag_threshold(start, (x, y)) {
                    self.is_dragging = true;
                    if !self.is_paused {
                        if let Some(button) = self.last_click_button {
                            let label: String = button_label_string(EventKind::DragStart, button);
                            send(&mut out, emit(EventKind::DragStart, label, at));
                        }
                    }
                }
            },
            None => {
                if self.last_click_button.is_some() && !self.is_dragging {
                    self.drag_start_pos = Some((x, y));
                }
            },
        }
        if !self.is_paused {
            send(&mut out, emit(EventKind::MouseMove, move_label_string(x, y), at));
        }
        assert(out.deep_view() =~= on_mouse_move(old(self)@, x, y, at).1);
        out
    }

    fn button_press(&mut self, button: Button, at: Moment) -> (out: Vec<NormalizedEvent>)
        ensures
            final(self)@ == on_button_press(old(self)@, button, at).0,
            out.deep_view() == on_button_press(old(self)@, button, at).1,
    {
        proof {
            use_type_invariant(&*self);
        }
        let mut out: Vec<NormalizedEvent> = nothing_sent();
        if !self.is_paused {
            let label: String = button_label_string(EventKind::MouseDown, button);
            send(&mut out, emit(EventKind::MouseDown, label, at));
        }
        self.last_click_button = Some(button);
        self.is_dragging = false;
        assert(out.deep_view() =~= on_button_press(old(self)@, button, at).1);
        out
    }

    fn button_release(&mut self, button: Button, at: Moment) -> (out: Vec<NormalizedEvent>)
        ensures
            final(self)@ == on_button_release(old(self)@, button, at).0,
            out.deep_view() == on_button_release(old(self)@, button, at).1,
    {
        proof {
            use_type_invariant(&*self);
        }
        let mut out: Vec<NormalizedEvent> = nothing_sent();
        self.last_click_button = Some(button);
        if !self.is_paused {
            let label: String = button_label_string(EventKind::MouseUp, button);
            send(&mut out, emit(EventKind::MouseUp, label, at));
            if self.is_dragging {
                let label: String = button_label_string(EventKind::Drag, button);
                send(&mut out, emit(EventKind::Drag, label, at));
            } else {
                let label: String = button_label_string(EventKind::Click, button);
                send(&mut out, emit(EventKind::Click, label, at));
                if self.completes_double_click(button, at.instant) {
                    let label: String = button_label_string(EventKind::DoubleClick, button);
                    send(&mut out, emit(EventKind::DoubleClick, label, at));
                }
                self.last_click = Some((at.instant, button));
            }
        }
        self.is_dragging = false;
        self.drag_start_pos = None;
        assert(out.deep_view() =~= on_button_release(old(self)@, button, at).1);
        out
    }

    fn completes_double_click(&self, button: Button, now: u128) -> (r: bool)
        ensures
            r == completes_double_click(self@, button, now),
    {
        match self.last_click {
            Some((last_time, last_button)) => last_button == button && is_double_click(
                last_time,
                now,
            ),
            None => false,
        }
    }

    fn key_press(&mut self, key: Key, os_text: &Option<String>, at: Moment) -> (out: Vec<
        NormalizedEvent,
    >)
        ensures
            final(self)@ == on_key_press(old(self)@, key, os_text.deep_view(), at).0,
            out.deep_view() == on_key_press(old(self)@, key, os_text.deep_view(), at).1,
    {
        proof {
            use_type_invariant(&*self);
        }
        let mut out: Vec<NormalizedEvent> = nothing_sent();
        if let Some(m) = key.modifier() {
            let mut pressed: ModifierSet = self.pressed_modifiers;
            pressed.insert(m);
            self.pressed_modifiers = pressed;
        }
        let held: Held = self.pressed_modifiers.held();
        if held.ctrl && held.alt && key == Key::KeyP {
            self.is_paused = !self.is_paused;
            send(&mut out, emit(EventKind::System, pause_label_string(self.is_paused), at));
        } else if !self.is_paused && !key.is_modifier() {
            let parts: Vec<String> = chord_part_list(key, os_text, &held);
            send(&mut out, emit(EventKind::Key, key_label_string(&parts), at));
        }
        assert(out.deep_view() =~= on_key_press(old(self)@, key, os_text.deep_view(), at).1);
        out
    }

    fn key_release(&mut self, key: Key) -> (out: Vec<NormalizedEvent>)
        ensures
            final(self)@ == on_key_release(old(self)@, key).0,
            out.deep_view() == on_key_release(old(self)@, key).1,
    {
        proof {
            use_type_invariant(&*self);
        }
        if let Some(m) = key.modifier() {
            let mut pressed: ModifierSet = self.pressed_modifiers;
            pressed.remove(m);
            self.pressed_modifiers = pressed;
        }
        nothing_sent()
    }

    /// The modifier keys that are held.
    pub fn pressed_modifiers(&self) -> (r: ModifierSet)
        ensures
            r@ == self@.pressed_modifiers,
    {
        self.pressed_modifiers
    }

    /// Whether capture is paused.
    pub fn is_paused(&self) -> (r: bool)
        ensures
            r == self@.is_paused,
    {
        self.is_paused
    }

    /// When the last click was made, on the monotonic clock.
    pub fn last_click_time(&self) -> (r: Option<u128>)
        ensures
            r == self@.last_click_time,
    {
        match self.last_click {
            Some((time, _)) => Some(time),
            None => None,
        }
    }

    /// The button of the last click.
    pub fn last_clicked_button(&self) -> (r: Option<Button>)
        ensures
            r == self@.last_clicked_button,
    {
        match self.last_click {
            Some((_, button)) => Some(button),
            None => None,
        }
    }

    /// The button of the last press or release.
    pub fn last_click_button(&self) -> (r: Option<Button>)
        ensures
            r == self@.last_click_button,
    {
        self.last_click_button
    }

    /// Where the pointer was first seen since the last release.
    pub fn drag_start_pos(&self) -> (r: Option<(i64, i64)>)
        ensures
            r == self@.drag_start_pos,
    {
        self.drag_start_pos
    }

    /// Whether a drag is under way.
    pub fn is_dragging(&self) -> (r: bool)
        ensures
            r == self@.is_dragging,
    {
        self.is_dragging
    }
}

} // verus!
