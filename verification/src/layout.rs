//! The two fixed tables that give a key its text.
//!
//! The layout table follows a JIS keyboard and knows a plain and a shifted text for the
//! keys that type a character. The name table gives a key the upper-case name that it
//! has in a shortcut such as `Ctrl+S`.

use vstd::prelude::*;
use crate::keys::Key;

verus! {

/// What stands for a key that the name table does not hold.
pub open spec fn placeholder() -> Seq<char> {
    "?"@
}

/// The row of `key` in the layout table: its plain text, its shifted text, and whether
/// the text takes the shift state up, so that a held Shift is not shown beside it.
pub open spec fn layout_row(key: Key) -> Option<(Seq<char>, Seq<char>, bool)> {
    match key {
        Key::KeyA => Some(("a"@, "A"@, true)),
        Key::KeyB => Some(("b"@, "B"@, true)),
        Key::KeyC => Some(("c"@, "C"@, true)),
        Key::KeyD => Some(("d"@, "D"@, true)),
        Key::KeyE => Some(("e"@, "E"@, true)),
        Key::KeyF => Some(("f"@, "F"@, true)),
        Key::KeyG => Some(("g"@, "G"@, true)),
        Key::KeyH => Some(("h"@, "H"@, true)),
        Key::KeyI => Some(("i"@, "I"@, true)),
        Key::KeyJ => Some(("j"@, "J"@, true)),
        Key::KeyK => Some(("k"@, "K"@, true)),
        Key::KeyL => Some(("l"@, "L"@, true)),
        Key::KeyM => Some(("m"@, "M"@, true)),
        Key::KeyN => Some(("n"@, "N"@, true)),
        Key::KeyO => Some(("o"@, "O"@, true)),
        Key::KeyP => Some(("p"@, "P"@, true)),
        Key::KeyQ => Some(("q"@, "Q"@, true)),
        Key::KeyR => Some(("r"@, "R"@, true)),
        Key::KeyS => Some(("s"@, "S"@, true)),
        Key::KeyT => Some(("t"@, "T"@, true)),
        Key::KeyU => Some(("u"@, "U"@, true)),
        Key::KeyV => Some(("v"@, "V"@, true)),
        Key::KeyW => Some(("w"@, "W"@, true)),
        Key::KeyX => Some(("x"@, "X"@, true)),
        Key::KeyY => Some(("y"@, "Y"@, true)),
        Key::KeyZ => Some(("z"@, "Z"@, true)),
        Key::Num1 => Some(("1"@, "!"@, true)),
        Key::Num2 => Some(("2"@, "\""@, true)),
        Key::Num3 => Some(("3"@, "#"@, true)),
        Key::Num4 => Some(("4"@, "$"@, true)),
        Key::Num5 => Some(("5"@, "%"@, true)),
        Key::Num6 => Some(("6"@, "&"@, true)),
        Key::Num7 => Some(("7"@, "'"@, true)),
        Key::Num8 => Some(("8"@, "("@, true)),
        Key::Num9 => Some(("9"@, ")"@, true)),
        Key::Num0 => Some(("0"@, "0"@, false)),
        Key::BackQuote => Some(("@"@, "`"@, true)),
        Key::LeftBracket => Some(("["@, "{"@, true)),
        Key::RightBracket => Some(("]"@, "}"@, true)),
        Key::BackSlash => Some(("]"@, "}"@, true)),
        Key::Quote => Some((":"@, "*"@, true)),
        Key::SemiColon => Some((";"@, "+"@, true)),
        Key::Comma => Some((","@, "<"@, true)),
        Key::Dot => Some(("."@, ">"@, true)),
        Key::Slash => Some(("/"@, "?"@, true)),
        Key::Minus => Some(("-"@, "="@, true)),
        Key::Equal => Some(("^"@, "~"@, true)),
        Key::Space => Some(("Space"@, "Space"@, false)),
        Key::Return => Some(("Enter"@, "Enter"@, false)),
        Key::Backspace => Some(("Backspace"@, "Backspace"@, false)),
        Key::Tab => Some(("Tab"@, "Tab"@, false)),
        Key::Escape => Some(("Esc"@, "Esc"@, false)),
        _ => None,
    }
}

/// The text of `key` in the layout table with Shift held or not, and whether that text
/// takes the shift state up; `None` for a key that the table does not hold.
pub open spec fn layout_text(key: Key, shift: bool) -> Option<(Seq<char>, bool)> {
    match layout_row(key) {
        Some((plain, shifted, consumes_shift)) => Some(
            (if shift { shifted } else { plain }, consumes_shift),
        ),
        None => None,
    }
}

/// The upper-case name of `key`, or the placeholder for a key without one.
pub open spec fn default_key_name(key: Key) -> Seq<char> {
    match key {
        Key::KeyA => "A"@,
        Key::KeyB => "B"@,
        Key::KeyC => "C"@,
        Key::KeyD => "D"@,
        Key::KeyE => "E"@,
        Key::KeyF => "F"@,
        Key::KeyG => "G"@,
        Key::KeyH => "H"@,
        Key::KeyI => "I"@,
        Key::KeyJ => "J"@,
        Key::KeyK => "K"@,
        Key::KeyL => "L"@,
        Key::KeyM => "M"@,
        Key::KeyN => "N"@,
        Key::KeyO => "O"@,
        Key::KeyP => "P"@,
        Key::KeyQ => "Q"@,
        Key::KeyR => "R"@,
        Key::KeyS => "S"@,
        Key::KeyT => "T"@,
        Key::KeyU => "U"@,
        Key::KeyV => "V"@,
        Key::KeyW => "W"@,
        Key::KeyX => "X"@,
        Key::KeyY => "Y"@,
        Key::KeyZ => "Z"@,
        Key::Num1 => "1"@,
        Key::Num2 => "2"@,
        Key::Num3 => "3"@,
        Key::Num4 => "4"@,
        Key::Num5 => "5"@,
        Key::Num6 => "6"@,
        Key::Num7 => "7"@,
        Key::Num8 => "8"@,
        Key::Num9 => "9"@,
        Key::Num0 => "0"@,
        Key::Space => "Space"@,
        Key::Return => "Enter"@,
        Key::Backspace => "Backspace"@,
        Key::Tab => "Tab"@,
        Key::Escape => "Esc"@,
        Key::UpArrow => "Up"@,
        Key::DownArrow => "Down"@,
        Key::LeftArrow => "Left"@,
        Key::RightArrow => "Right"@,
        Key::Minus => "-"@,
        Key::Equal => "="@,
        Key::LeftBracket => "["@,
        Key::RightBracket => "]"@,
        Key::BackSlash => "\\"@,
        Key::SemiColon => ";"@,
        Key::Quote => "'"@,
        Key::BackQuote => "`"@,
        Key::Comma => ","@,
        Key::Dot => "."@,
        Key::Slash => "/"@,
        Key::F1 => "F1"@,
        Key::F2 => "F2"@,
        Key::F3 => "F3"@,
        Key::F4 => "F4"@,
        Key::F5 => "F5"@,
        Key::F6 => "F6"@,
        Key::F7 => "F7"@,
        Key::F8 => "F8"@,
        Key::F9 => "F9"@,
        Key::F10 => "F10"@,
        Key::F11 => "F11"@,
        Key::F12 => "F12"@,
        _ => placeholder(),
    }
}

impl Key {
    /// The row of this key in the layout table.
    fn layout_row(&self) -> (r: Option<(&'static str, &'static str, bool)>)
        ensures
            match r {
                Some((plain, shifted, consumes_shift)) => layout_row(*self) == Some(
                    (plain@, shifted@, consumes_shift),
                ),
                None => layout_row(*self).is_none(),
            },
    {
        match self {
            Key::KeyA => Some(("a", "A", true)),
            Key::KeyB => Some(("b", "B", true)),
            Key::KeyC => Some(("c", "C", true)),
            Key::KeyD => Some(("d", "D", true)),
            Key::KeyE => Some(("e", "E", true)),
            Key::KeyF => Some(("f", "F", true)),
            Key::KeyG => Some(("g", "G", true)),
            Key::KeyH => Some(("h", "H", true)),
            Key::KeyI => Some(("i", "I", true)),
            Key::KeyJ => Some(("j", "J", true)),
            Key::KeyK => Some(("k", "K", true)),
            Key::KeyL => Some(("l", "L", true)),
            Key::KeyM => Some(("m", "M", true)),
            Key::KeyN => Some(("n", "N", true)),
            Key::KeyO => Some(("o", "O", true)),
            Key::KeyP => Some(("p", "P", true)),
            Key::KeyQ => Some(("q", "Q", true)),
            Key::KeyR => Some(("r", "R", true)),
            Key::KeyS => Some(("s", "S", true)),
            Key::KeyT => Some(("t", "T", true)),
            Key::KeyU => Some(("u", "U", true)),
            Key::KeyV => Some(("v", "V", true)),
            Key::KeyW => Some(("w", "W", true)),
            Key::KeyX => Some(("x", "X", true)),
            Key::KeyY => Some(("y", "Y", true)),
            Key::KeyZ => Some(("z", "Z", true)),
            Key::Num1 => Some(("1", "!", true)),
            Key::Num2 => Some(("2", "\"", true)),
            Key::Num3 => Some(("3", "#", true)),
            Key::Num4 => Some(("4", "$", true)),
            Key::Num5 => Some(("5", "%", true)),
            Key::Num6 => Some(("6", "&", true)),
            Key::Num7 => Some(("7", "'", true)),
            Key::Num8 => Some(("8", "(", true)),
            Key::Num9 => Some(("9", ")", true)),
            Key::Num0 => Some(("0", "0", false)),
            Key::BackQuote => Some(("@", "`", true)),
            Key::LeftBracket => Some(("[", "{", true)),
            Key::RightBracket => Some(("]", "}", true)),
            Key::BackSlash => Some(("]", "}", true)),
            Key::Quote => Some((":", "*", true)),
            Key::SemiColon => Some((";", "+", true)),
            Key::Comma => Some((",", "<", true)),
            Key::Dot => Some((".", ">", true)),
            Key::Slash => Some(("/", "?", true)),
            Key::Minus => Some(("-", "=", true)),
            Key::Equal => Some(("^", "~", true)),
            Key::Space => Some(("Space", "Space", false)),
            Key::Return => Some(("Enter", "Enter", false)),
            Key::Backspace => Some(("Backspace", "Backspace", false)),
            Key::Tab => Some(("Tab", "Tab", false)),
            Key::Escape => Some(("Esc", "Esc", false)),
            _ => None,
        }
    }

    /// Looks this key up in the layout table, with Shift held or not.
    pub fn layout_text(&self, shift: bool) -> (r: Option<(&'static str, bool)>)
        ensures
            match r {
                Some((text, consumes_shift)) => layout_text(*self, shift) == Some(
                    (text@, consumes_shift),
                ),
                None => layout_text(*self, shift).is_none(),
            },
    {
        match self.layout_row() {
            Some((plain, shifted, consumes_shift)) => Some(
                (if shift { shifted } else { plain }, consumes_shift),
            ),
            None => None,
        }
    }

    /// Looks this key up in the name table.
    pub fn default_name(&self) -> (r: &'static str)
        ensures
            r@ == default_key_name(*self),
    {
        match self {
            Key::KeyA => "A",
            Key::KeyB => "B",
            Key::KeyC => "C",
            Key::KeyD => "D",
            Key::KeyE => "E",
            Key::KeyF => "F",
            Key::KeyG => "G",
            Key::KeyH => "H",
            Key::KeyI => "I",
            Key::KeyJ => "J",
            Key::KeyK => "K",
            Key::KeyL => "L",
            Key::KeyM => "M",
            Key::KeyN => "N",
            Key::KeyO => "O",
            Key::KeyP => "P",
            Key::KeyQ => "Q",
            Key::KeyR => "R",
            Key::KeyS => "S",
            Key::KeyT => "T",
            Key::KeyU => "U",
            Key::KeyV => "V",
            Key::KeyW => "W",
            Key::KeyX => "X",
            Key::KeyY => "Y",
            Key::KeyZ => "Z",
            Key::Num1 => "1",
            Key::Num2 => "2",
            Key::Num3 => "3",
            Key::Num4 => "4",
            Key::Num5 => "5",
            Key::Num6 => "6",
            Key::Num7 => "7",
            Key::Num8 => "8",
            Key::Num9 => "9",
            Key::Num0 => "0",
            Key::Space => "Space",
            Key::Return => "Enter",
            Key::Backspace => "Backspace",
            Key::Tab => "Tab",
            Key::Escape => "Esc",
            Key::UpArrow => "Up",
            Key::DownArrow => "Down",
            Key::LeftArrow => "Left",
            Key::RightArrow => "Right",
            Key::Minus => "-",
            Key::Equal => "=",
            Key::LeftBracket => "[",
            Key::RightBracket => "]",
            Key::BackSlash => "\\",
            Key::SemiColon => ";",
            Key::Quote => "'",
            Key::BackQuote => "`",
            Key::Comma => ",",
            Key::Dot => ".",
            Key::Slash => "/",
            Key::F1 => "F1",
            Key::F2 => "F2",
            Key::F3 => "F3",
            Key::F4 => "F4",
            Key::F5 => "F5",
            Key::F6 => "F6",
            Key::F7 => "F7",
            Key::F8 => "F8",
            Key::F9 => "F9",
            Key::F10 => "F10",
            Key::F11 => "F11",
            Key::F12 => "F12",
            _ => "?",
        }
    }
}

} // verus!
