//! The events that come in from the input hook and the events that go out to the display.

use vstd::prelude::*;
use crate::keys::{Button, Key};

verus! {

/// The two clock readings that are taken once for each raw event.
#[derive(Clone, Copy, Debug, PartialEq, Eq, Structural)]
pub struct Moment {
    /// Wall-clock time in milliseconds since the Unix epoch; it is stamped on what goes out.
    pub timestamp: u128,
    /// Reading of a monotonic clock in nanoseconds; the double-click window is measured on it.
    pub instant: u128,
}

/// A low-level event as the input hook delivers it.
#[derive(Clone, Debug, PartialEq, Eq)]
pub enum RawInputEvent {
    /// The pointer is at `(x, y)`, each in units of which `UNITS_PER_PIXEL` make a pixel.
    MouseMove { x: i64, y: i64 },
    ButtonPress(Button),
    ButtonRelease(Button),
    /// A key went down; the text is what the operating system says the key types, if it
    /// says anything.
    KeyPress(Key, Option<String>),
    KeyRelease(Key),
    /// The wheel turned. Nothing is shown for it.
    Wheel { delta_x: i64, delta_y: i64 },
}

/// A raw event as a mathematical value.
pub enum RawInput {
    MouseMove { x: i64, y: i64 },
    ButtonPress(Button),
    ButtonRelease(Button),
    KeyPress(Key, Option<Seq<char>>),
    KeyRelease(Key),
    Wheel { delta_x: i64, delta_y: i64 },
}

impl View for RawInputEvent {
    type V = RawInput;

    open spec fn view(&self) -> RawInput {
        match *self {
            RawInputEvent::MouseMove { x, y } => RawInput::MouseMove { x, y },
            RawInputEvent::ButtonPress(button) => RawInput::ButtonPress(button),
            RawInputEvent::ButtonRelease(button) => RawInput::ButtonRelease(button),
            RawInputEvent::KeyPress(key, text) => RawInput::KeyPress(key, text.deep_view()),
            RawInputEvent::KeyRelease(key) => RawInput::KeyRelease(key),
            RawInputEvent::Wheel { delta_x, delta_y } => RawInput::Wheel { delta_x, delta_y },
        }
    }
}

/// A raw event together with the moment at which it was read.
#[derive(Clone, Debug, PartialEq, Eq)]
pub struct TimedEvent {
    pub event: RawInputEvent,
    pub at: Moment,
}

/// A raw event and its moment as a mathematical value.
pub struct Timed {
    pub event: RawInput,
    pub at: Moment,
}

impl View for TimedEvent {
    type V = Timed;

    open spec fn view(&self) -> Timed {
        Timed { event: self.event@, at: self.at }
    }
}

impl DeepView for TimedEvent {
    type V = Timed;

    open spec fn deep_view(&self) -> Timed {
        self@
    }
}

/// What a display-ready event tells.
#[derive(Clone, Copy, Debug, PartialEq, Eq, Hash, Structural)]
pub enum EventKind {
    MouseMove,
    MouseDown,
    MouseUp,
    Click,
    DoubleClick,
    DragStart,
    Drag,
    Key,
    System,
}

/// The tag under which the display knows `kind`.
pub open spec fn kind_tag(kind: EventKind) -> Seq<char> {
    match kind {
        EventKind::MouseMove => "mousemove"@,
        EventKind::MouseDown => "mousedown"@,
        EventKind::MouseUp => "mouseup"@,
        EventKind::Click => "click"@,
        EventKind::DoubleClick => "doubleclick"@,
        EventKind::DragStart => "dragstart"@,
        EventKind::Drag => "drag"@,
        EventKind::Key => "key"@,
        EventKind::System => "system"@,
    }
}

impl EventKind {
    /// The tag under which the display knows this kind.
    pub fn tag(&self) -> (r: &'static str)
        ensures
            r@ == kind_tag(*self),
    {
        match self {
            EventKind::MouseMove => "mousemove",
            EventKind::MouseDown => "mousedown",
            EventKind::MouseUp => "mouseup",
            EventKind::Click => "click",
            EventKind::DoubleClick => "doubleclick",
            EventKind::DragStart => "dragstart",
            EventKind::Drag => "drag",
            EventKind::Key => "key",
            EventKind::System => "system",
        }
    }
}

/// A display-ready event.
#[derive(Clone, Debug, PartialEq, Eq)]
pub struct NormalizedEvent {
    pub kind: EventKind,
    /// The text to show.
    pub label: String,
    /// Milliseconds since the Unix epoch.
    pub timestamp: u128,
}

/// A display-ready event as a mathematical value.
pub struct Normalized {
    pub kind: EventKind,
    pub label: Seq<char>,
    pub timestamp: u128,
}

impl View for NormalizedEvent {
    type V = Normalized;

    open spec fn view(&self) -> Normalized {
        Normalized { kind: self.kind, label: self.label@, timestamp: self.timestamp }
    }
}

impl DeepView for NormalizedEvent {
    type V = Normalized;

    open spec fn deep_view(&self) -> Normalized {
        self@
    }
}

impl NormalizedEvent {
    /// The tag of this event's kind, as the display expects it.
    pub fn event_type(&self) -> (r: &'static str)
        ensures
            r@ == kind_tag(self.kind),
    {
        self.kind.tag()
    }
}

} // verus!
