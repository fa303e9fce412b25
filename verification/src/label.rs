//! How the text of an outgoing event is made up.
//!
//! A mouse event is labelled with a marker and, in brackets, the button or the
//! position. A key press is labelled as a chord: the held modifiers in the fixed order
//! Ctrl, Alt, Shift, Meta, then the key, joined by `+`.

use vstd::prelude::*;
use vstd::string::*;
use crate::events::EventKind;
use crate::keys::{button_identifier, key_identifier, strip_key_prefix, Button, Key};
use crate::layout::{default_key_name, layout_text, placeholder};
use crate::modifiers::Held;
use crate::gesture::UNITS_PER_PIXEL;
use crate::text::{decimal, decimal_string, is_printable, join, join_strings, printable, same_text};

verus! {

/// The marker that opens the label of an event of `kind`. A system notice has none.
pub open spec fn kind_marker(kind: EventKind) -> Seq<char> {
    match kind {
        EventKind::MouseMove => "@MouseMove"@,
        EventKind::MouseDown => "@MouseDown"@,
        EventKind::MouseUp => "@MouseUp"@,
        EventKind::Click => "@Click"@,
        EventKind::DoubleClick => "@DoubleClick"@,
        EventKind::DragStart => "@DragStart"@,
        EventKind::Drag => "@Drag"@,
        EventKind::Key => "@Key"@,
        EventKind::System => Seq::empty(),
    }
}

/// The marker of `kind` with `inner` in square brackets behind it.
pub open spec fn bracketed(kind: EventKind, inner: Seq<char>) -> Seq<char> {
    kind_marker(kind) + "["@ + inner + "]"@
}

/// The label of a button event of `kind`, such as `@Click[Left]`.
pub open spec fn button_label(kind: EventKind, button: Button) -> Seq<char> {
    bracketed(kind, button_identifier(button))
}

/// The whole pixels nearest to a distance of `units` from zero. A distance half-way
/// between two pixels goes to the even one.
pub open spec fn nearest_pixel(units: nat) -> nat {
    let below = units / (UNITS_PER_PIXEL as nat);
    let rest = units % (UNITS_PER_PIXEL as nat);
    if 2 * rest > UNITS_PER_PIXEL || (2 * rest == UNITS_PER_PIXEL && below % 2 == 1) {
        below + 1
    } else {
        below
    }
}

/// The coordinate `units` as it is shown: rounded to whole pixels and written in
/// decimal, with a minus sign in front wherever the coordinate is negative, also where
/// it rounds to zero.
pub open spec fn pixel_text(units: i64) -> Seq<char> {
    if units < 0 {
        "-"@ + decimal(nearest_pixel((-units) as nat))
    } else {
        decimal(nearest_pixel(units as nat))
    }
}

/// The label of a pointer position, such as `@MouseMove[640, 480]`.
pub open spec fn move_label(x: i64, y: i64) -> Seq<char> {
    bracketed(EventKind::MouseMove, pixel_text(x) + ", "@ + pixel_text(y))
}

/// The label of a key event made of `parts`, such as `@Key[Ctrl+Shift+S]`.
pub open spec fn key_label(parts: Seq<Seq<char>>) -> Seq<char> {
    bracketed(EventKind::Key, join(parts, "+"@))
}

/// The notice that capture has been paused or resumed.
pub open spec fn pause_label(paused: bool) -> Seq<char> {
    if paused {
        "Capture Paused"@
    } else {
        "Capture Resumed"@
    }
}

/// `word` alone if `present`, else nothing.
pub open spec fn word_if(present: bool, word: Seq<char>) -> Seq<Seq<char>> {
    if present {
        seq![word]
    } else {
        Seq::empty()
    }
}

/// The words for the held modifiers, in the order Ctrl, Alt, Shift, Meta. Shift is left
/// out where the key's text has taken the shift state up.
pub open spec fn modifier_words(held: Held, shift_consumed: bool) -> Seq<Seq<char>> {
    word_if(held.ctrl, "Ctrl"@) + word_if(held.alt, "Alt"@) + word_if(
        held.shift && !shift_consumed,
        "Shift"@,
    ) + word_if(held.meta, "Meta"@)
}

/// Whether the operating system gave a text that can be shown as it is.
pub open spec fn has_printable_text(os_text: Option<Seq<char>>) -> bool {
    os_text is Some && is_printable(os_text->0)
}

/// The text of a key that is no modifier, and whether that text takes the shift state up.
///
/// With Ctrl, Alt or Meta held the key is part of a shortcut and goes by its upper-case
/// name, whatever it would type. Otherwise it is typed: Space is spelled out; a
/// printable text from the operating system is taken as it is, case included; failing
/// that the layout table decides, and last the name table.
pub open spec fn key_text(key: Key, os_text: Option<Seq<char>>, held: Held) -> (Seq<char>, bool) {
    if held.ctrl || held.alt || held.meta {
        (default_key_name(key), false)
    } else if key == Key::Space {
        ("Space"@, false)
    } else if has_printable_text(os_text) {
        (os_text->0, true)
    } else {
        match layout_text(key, held.shift) {
            Some((text, consumes_shift)) => (text, consumes_shift && held.shift),
            None => (default_key_name(key), false),
        }
    }
}

/// The word that stands for `key` in a chord, given the text that was found for it: the
/// text itself, or the key's identifier without a leading `Key` where the text is the
/// placeholder.
pub open spec fn key_word(key: Key, text: Seq<char>) -> Seq<char> {
    if text == placeholder() {
        strip_key_prefix(key_identifier(key))
    } else {
        text
    }
}

/// The parts of the chord that a press of `key` shows while `held` is held: the words
/// of the modifiers, then the word of the key. It is meant for a key that is no
/// modifier; a modifier has no chord of its own.
pub open spec fn chord_parts(key: Key, os_text: Option<Seq<char>>, held: Held) -> Seq<Seq<char>> {
    let (text, shift_consumed) = key_text(key, os_text, held);
    modifier_words(held, shift_consumed).push(key_word(key, text))
}

/// The marker that opens the label of an event of `kind`.
fn marker(kind: EventKind) -> (r: &'static str)
    ensures
        r@ == kind_marker(kind),
{
    match kind {
        EventKind::MouseMove => "@MouseMove",
        EventKind::MouseDown => "@MouseDown",
        EventKind::MouseUp => "@MouseUp",
        EventKind::Click => "@Click",
        EventKind::DoubleClick => "@DoubleClick",
        EventKind::DragStart => "@DragStart",
        EventKind::Drag => "@Drag",
        EventKind::Key => "@Key",
        EventKind::System => {
            proof {
                reveal_strlit("");
            }
            assert(""@ =~= Seq::<char>::empty());
            ""
        },
    }
}

/// Writes the marker of `kind` with `inner` in square brackets behind it.
pub fn bracketed_label(kind: EventKind, inner: &str) -> (r: String)
    ensures
        r@ == bracketed(kind, inner@),
{
    String::from_str(marker(kind)).concat("[").concat(inner).concat("]")
}

/// Writes the label of a button event of `kind`.
pub fn button_label_string(kind: EventKind, button: Button) -> (r: String)
    ensures
        r@ == button_label(kind, button),
{
    let name: String = button.identifier();
    bracketed_label(kind, name.as_str())
}

/// Rounds a distance of `units` from zero to whole pixels.
pub fn round_to_pixel(units: u64) -> (r: u64)
    ensures
        r == nearest_pixel(units as nat),
{
    let unit: u64 = UNITS_PER_PIXEL as u64;
    let below: u64 = units / unit;
    let rest: u64 = units % unit;
    if 2 * rest > unit || (2 * rest == unit && below % 2 == 1) {
        below + 1
    } else {
        below
    }
}

/// Writes the coordinate `units` as it is shown.
pub fn pixel_text_string(units: i64) -> (r: String)
    ensures
        r@ == pixel_text(units),
{
    if units < 0 {
        let magnitude: u64 = if units == i64::MIN {
            0x8000_0000_0000_0000u64
        } else {
            (-units) as u64
        };
        let digits: String = decimal_string(round_to_pixel(magnitude));
        String::from_str("-").concat(digits.as_str())
    } else {
        decimal_string(round_to_pixel(units as u64))
    }
}

/// Writes the label of a pointer position.
pub fn move_label_string(x: i64, y: i64) -> (r: String)
    ensures
        r@ == move_label(x, y),
{
    let right: String = pixel_text_string(y);
    let inner: String = pixel_text_string(x).concat(", ").concat(right.as_str());
    bracketed_label(EventKind::MouseMove, inner.as_str())
}

/// Writes the label of a key event made of `parts`.
pub fn key_label_string(parts: &Vec<String>) -> (r: String)
    ensures
        r@ == key_label(parts.deep_view()),
{
    let inner: String = join_strings(parts, "+");
    bracketed_label(EventKind::Key, inner.as_str())
}

/// Writes the notice that capture has been paused or resumed.
pub fn pause_label_string(paused: bool) -> (r: String)
    ensures
        r@ == pause_label(paused),
{
    if paused {
        String::from_str("Capture Paused")
    } else {
        String::from_str("Capture Resumed")
    }
}

/// Tells whether `text` is the placeholder of the name table.
pub fn is_placeholder(text: &str) -> (r: bool)
    ensures
        r == (text@ == placeholder()),
{
    same_text(text, "?")
}

/// Finds the text of a key that is no modifier, and whether it takes the shift state up.
pub fn resolve_key_text(key: Key, os_text: &Option<String>, held: &Held) -> (r: (String, bool))
    ensures
        (r.0@, r.1) == key_text(key, os_text.deep_view(), *held),
{
    if held.ctrl || held.alt || held.meta {
        return (String::from_str(key.default_name()), false);
    }
    if key == Key::Space {
        return (String::from_str("Space"), false);
    }
    if let Some(text) = os_text {
        if printable(text.as_str()) {
            return (text.clone(), true);
        }
    }
    match key.layout_text(held.shift) {
        Some((text, consumes_shift)) => (String::from_str(text), consumes_shift && held.shift),
        None => (String::from_str(key.default_name()), false),
    }
}

/// Lists the words for the held modifiers.
pub fn modifier_word_list(held: &Held, shift_consumed: bool) -> (r: Vec<String>)
    ensures
        r.deep_view() == modifier_words(*held, shift_consumed),
{
    let mut words: Vec<String> = Vec::new();
    assert(words.deep_view() =~= Seq::<Seq<char>>::empty());
    if held.ctrl {
        let ghost before = words.deep_view();
        words.push(String::from_str("Ctrl"));
        assert(words.deep_view() =~= before.push("Ctrl"@));
    }
    if held.alt {
        let ghost before = words.deep_view();
        words.push(String::from_str("Alt"));
        assert(words.deep_view() =~= before.push("Alt"@));
    }
    if held.shift && !shift_consumed {
        let ghost before = words.deep_view();
        words.push(String::from_str("Shift"));
        assert(words.deep_view() =~= before.push("Shift"@));
    }
    if held.meta {
        let ghost before = words.deep_view();
        words.push(String::from_str("Meta"));
        assert(words.deep_view() =~= before.push("Meta"@));
    }
    assert(words.deep_view() =~= modifier_words(*held, shift_consumed));
    words
}

/// Lists the parts of the chord that a press of `key` shows while `held` is held.
pub fn chord_part_list(key: Key, os_text: &Option<String>, held: &Held) -> (r: Vec<String>)
    ensures
        r.deep_view() == chord_parts(key, os_text.deep_view(), *held),
{
    let (text, shift_consumed) = resolve_key_text(key, os_text, held);
    let mut parts: Vec<String> = modifier_word_list(held, shift_consumed);
    let word: String = if is_placeholder(text.as_str()) {
        key.short_identifier()
    } else {
        text
    };
    let ghost before = parts.deep_view();
    parts.push(word);
    assert(parts.deep_view() =~= before.push(word@));
    parts
}

} // verus!
