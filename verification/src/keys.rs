//! Key, modifier and mouse button identities.
//!
//! A [`Key`] names a physical key by its place on the keyboard, not by the character
//! that the active layout produces for it.

use vstd::prelude::*;
use vstd::string::*;
use crate::text::{decimal, decimal_string};

verus! {

/// A physical key.
#[derive(Clone, Copy, Debug, PartialEq, Eq, Hash, Structural)]
pub enum Key {
    /// The Alt key (Option on some keyboards).
    Alt,
    AltGr,
    Backspace,
    CapsLock,
    ControlLeft,
    ControlRight,
    Delete,
    DownArrow,
    End,
    Escape,
    F1,
    F10,
    F11,
    F12,
    F2,
    F3,
    F4,
    F5,
    F6,
    F7,
    F8,
    F9,
    Home,
    LeftArrow,
    /// Left Meta key, also known as Windows, Super or Command.
    MetaLeft,
    /// Right Meta key, also known as Windows, Super or Command.
    MetaRight,
    PageDown,
    PageUp,
    Return,
    RightArrow,
    ShiftLeft,
    ShiftRight,
    Space,
    Tab,
    UpArrow,
    PrintScreen,
    ScrollLock,
    Pause,
    NumLock,
    BackQuote,
    Num1,
    Num2,
    Num3,
    Num4,
    Num5,
    Num6,
    Num7,
    Num8,
    Num9,
    Num0,
    Minus,
    Equal,
    KeyQ,
    KeyW,
    KeyE,
    KeyR,
    KeyT,
    KeyY,
    KeyU,
    KeyI,
    KeyO,
    KeyP,
    LeftBracket,
    RightBracket,
    KeyA,
    KeyS,
    KeyD,
    KeyF,
    KeyG,
    KeyH,
    KeyJ,
    KeyK,
    KeyL,
    SemiColon,
    Quote,
    BackSlash,
    IntlBackslash,
    KeyZ,
    KeyX,
    KeyC,
    KeyV,
    KeyB,
    KeyN,
    KeyM,
    Comma,
    Dot,
    Slash,
    Insert,
    KpReturn,
    KpMinus,
    KpPlus,
    KpMultiply,
    KpDivide,
    Kp0,
    Kp1,
    Kp2,
    Kp3,
    Kp4,
    Kp5,
    Kp6,
    Kp7,
    Kp8,
    Kp9,
    KpDelete,
    /// The Fn key.
    Function,
    /// A key that has no name here, with the code that the platform reports for it.
    Unknown(u32),
}

/// One of the seven keys that are tracked as held: the two sides of Control, Shift and
/// Meta, and Alt.
#[derive(Clone, Copy, Debug, PartialEq, Eq, Hash, Structural)]
pub enum Modifier {
    ControlLeft,
    ControlRight,
    ShiftLeft,
    ShiftRight,
    Alt,
    MetaLeft,
    MetaRight,
}

/// A mouse button.
#[derive(Clone, Copy, Debug, PartialEq, Eq, Hash, Structural)]
pub enum Button {
    Left,
    Right,
    Middle,
    /// A further button, with the number that the platform reports for it.
    Unknown(u8),
}

/// The modifier that `key` is, if it is one.
pub open spec fn modifier_of(key: Key) -> Option<Modifier> {
    match key {
        Key::ControlLeft => Some(Modifier::ControlLeft),
        Key::ControlRight => Some(Modifier::ControlRight),
        Key::ShiftLeft => Some(Modifier::ShiftLeft),
        Key::ShiftRight => Some(Modifier::ShiftRight),
        Key::Alt => Some(Modifier::Alt),
        Key::MetaLeft => Some(Modifier::MetaLeft),
        Key::MetaRight => Some(Modifier::MetaRight),
        _ => None,
    }
}

/// The key that the modifier `m` is.
pub open spec fn key_of(m: Modifier) -> Key {
    match m {
        Modifier::ControlLeft => Key::ControlLeft,
        Modifier::ControlRight => Key::ControlRight,
        Modifier::ShiftLeft => Key::ShiftLeft,
        Modifier::ShiftRight => Key::ShiftRight,
        Modifier::Alt => Key::Alt,
        Modifier::MetaLeft => Key::MetaLeft,
        Modifier::MetaRight => Key::MetaRight,
    }
}

/// The name of `key` as an identifier, such as `KeyA`, `Return` or `Unknown(57)`.
pub open spec fn key_identifier(key: Key) -> Seq<char> {
    match key {
        Key::Alt => "Alt"@,
        Key::AltGr => "AltGr"@,
        Key::Backspace => "Backspace"@,
        Key::CapsLock => "CapsLock"@,
        Key::ControlLeft => "ControlLeft"@,
        Key::ControlRight => "ControlRight"@,
        Key::Delete => "Delete"@,
        Key::DownArrow => "DownArrow"@,
        Key::End => "End"@,
        Key::Escape => "Escape"@,
        Key::F1 => "F1"@,
        Key::F10 => "F10"@,
        Key::F11 => "F11"@,
        Key::F12 => "F12"@,
        Key::F2 => "F2"@,
        Key::F3 => "F3"@,
        Key::F4 => "F4"@,
        Key::F5 => "F5"@,
        Key::F6 => "F6"@,
        Key::F7 => "F7"@,
        Key::F8 => "F8"@,
        Key::F9 => "F9"@,
        Key::Home => "Home"@,
        Key::LeftArrow => "LeftArrow"@,
        Key::MetaLeft => "MetaLeft"@,
        Key::MetaRight => "MetaRight"@,
        Key::PageDown => "PageDown"@,
        Key::PageUp => "PageUp"@,
        Key::Return => "Return"@,
        Key::RightArrow => "RightArrow"@,
        Key::ShiftLeft => "ShiftLeft"@,
        Key::ShiftRight => "ShiftRight"@,
        Key::Space => "Space"@,
        Key::Tab => "Tab"@,
        Key::UpArrow => "UpArrow"@,
        Key::PrintScreen => "PrintScreen"@,
        Key::ScrollLock => "ScrollLock"@,
        Key::Pause => "Pause"@,
        Key::NumLock => "NumLock"@,
        Key::BackQuote => "BackQuote"@,
        Key::Num1 => "Num1"@,
        Key::Num2 => "Num2"@,
        Key::Num3 => "Num3"@,
        Key::Num4 => "Num4"@,
        Key::Num5 => "Num5"@,
        Key::Num6 => "Num6"@,
        Key::Num7 => "Num7"@,
        Key::Num8 => "Num8"@,
        Key::Num9 => "Num9"@,
        Key::Num0 => "Num0"@,
        Key::Minus => "Minus"@,
        Key::Equal => "Equal"@,
        Key::KeyQ => "KeyQ"@,
        Key::KeyW => "KeyW"@,
        Key::KeyE => "KeyE"@,
        Key::KeyR => "KeyR"@,
        Key::KeyT => "KeyT"@,
        Key::KeyY => "KeyY"@,
        Key::KeyU => "KeyU"@,
        Key::KeyI => "KeyI"@,
        Key::KeyO => "KeyO"@,
        Key::KeyP => "KeyP"@,
        Key::LeftBracket => "LeftBracket"@,
        Key::RightBracket => "RightBracket"@,
        Key::KeyA => "KeyA"@,
        Key::KeyS => "KeyS"@,
        Key::KeyD => "KeyD"@,
        Key::KeyF => "KeyF"@,
        Key::KeyG => "KeyG"@,
        Key::KeyH => "KeyH"@,
        Key::KeyJ => "KeyJ"@,
        Key::KeyK => "KeyK"@,
        Key::KeyL => "KeyL"@,
        Key::SemiColon => "SemiColon"@,
        Key::Quote => "Quote"@,
        Key::BackSlash => "BackSlash"@,
        Key::IntlBackslash => "IntlBackslash"@,
        Key::KeyZ => "KeyZ"@,
        Key::KeyX => "KeyX"@,
        Key::KeyC => "KeyC"@,
        Key::KeyV => "KeyV"@,
        Key::KeyB => "KeyB"@,
        Key::KeyN => "KeyN"@,
        Key::KeyM => "KeyM"@,
        Key::Comma => "Comma"@,
        Key::Dot => "Dot"@,
        Key::Slash => "Slash"@,
        Key::Insert => "Insert"@,
        Key::KpReturn => "KpReturn"@,
        Key::KpMinus => "KpMinus"@,
        Key::KpPlus => "KpPlus"@,
        Key::KpMultiply => "KpMultiply"@,
        Key::KpDivide => "KpDivide"@,
        Key::Kp0 => "Kp0"@,
        Key::Kp1 => "Kp1"@,
        Key::Kp2 => "Kp2"@,
        Key::Kp3 => "Kp3"@,
        Key::Kp4 => "Kp4"@,
        Key::Kp5 => "Kp5"@,
        Key::Kp6 => "Kp6"@,
        Key::Kp7 => "Kp7"@,
        Key::Kp8 => "Kp8"@,
        Key::Kp9 => "Kp9"@,
        Key::KpDelete => "KpDelete"@,
        Key::Function => "Function"@,
        Key::Unknown(code) => "Unknown("@ + decimal(code as nat) + ")"@,
    }
}

/// The name of `button` as an identifier: `Left`, `Right`, `Middle` or, say, `Unknown(8)`.
pub open spec fn button_identifier(button: Button) -> Seq<char> {
    match button {
        Button::Left => "Left"@,
        Button::Right => "Right"@,
        Button::Middle => "Middle"@,
        Button::Unknown(code) => "Unknown("@ + decimal(code as nat) + ")"@,
    }
}

/// `name` without a leading `Key`, if something follows that prefix; else `name` itself.
pub open spec fn strip_key_prefix(name: Seq<char>) -> Seq<char> {
    if name.len() > 3 && name.subrange(0, 3) == "Key"@ {
        name.subrange(3, name.len() as int)
    } else {
        name
    }
}

/// Writes `Unknown(code)`.
fn unknown_identifier(code: u32) -> (r: String)
    ensures
        r@ == "Unknown("@ + decimal(code as nat) + ")"@,
{
    let digits: String = decimal_string(code as u64);
    String::from_str("Unknown(").concat(digits.as_str()).concat(")")
}

impl Key {
    /// The modifier that this key is, if it is one.
    pub fn modifier(&self) -> (r: Option<Modifier>)
        ensures
            r == modifier_of(*self),
    {
        match self {
            Key::ControlLeft => Some(Modifier::ControlLeft),
            Key::ControlRight => Some(Modifier::ControlRight),
            Key::ShiftLeft => Some(Modifier::ShiftLeft),
            Key::ShiftRight => Some(Modifier::ShiftRight),
            Key::Alt => Some(Modifier::Alt),
            Key::MetaLeft => Some(Modifier::MetaLeft),
            Key::MetaRight => Some(Modifier::MetaRight),
            _ => None,
        }
    }

    /// Whether this key is one of the seven modifiers.
    pub fn is_modifier(&self) -> (r: bool)
        ensures
            r == modifier_of(*self).is_some(),
    {
        self.modifier().is_some()
    }

    /// The name of this key as an identifier.
    pub fn identifier(&self) -> (r: String)
        ensures
            r@ == key_identifier(*self),
    {
        match self {
            Key::Alt => String::from_str("Alt"),
            Key::AltGr => String::from_str("AltGr"),
            Key::Backspace => String::from_str("Backspace"),
            Key::CapsLock => String::from_str("CapsLock"),
            Key::ControlLeft => String::from_str("ControlLeft"),
            Key::ControlRight => String::from_str("ControlRight"),
            Key::Delete => String::from_str("Delete"),
            Key::DownArrow => String::from_str("DownArrow"),
            Key::End => String::from_str("End"),
            Key::Escape => String::from_str("Escape"),
            Key::F1 => String::from_str("F1"),
            Key::F10 => String::from_str("F10"),
            Key::F11 => String::from_str("F11"),
            Key::F12 => String::from_str("F12"),
            Key::F2 => String::from_str("F2"),
            Key::F3 => String::from_str("F3"),
            Key::F4 => String::from_str("F4"),
            Key::F5 => String::from_str("F5"),
            Key::F6 => String::from_str("F6"),
            Key::F7 => String::from_str("F7"),
            Key::F8 => String::from_str("F8"),
            Key::F9 => String::from_str("F9"),
            Key::Home => String::from_str("Home"),
            Key::LeftArrow => String::from_str("LeftArrow"),
            Key::MetaLeft => String::from_str("MetaLeft"),
            Key::MetaRight => String::from_str("MetaRight"),
            Key::PageDown => String::from_str("PageDown"),
            Key::PageUp => String::from_str("PageUp"),
            Key::Return => String::from_str("Return"),
            Key::RightArrow => String::from_str("RightArrow"),
            Key::ShiftLeft => String::from_str("ShiftLeft"),
            Key::ShiftRight => String::from_str("ShiftRight"),
            Key::Space => String::from_str("Space"),
            Key::Tab => String::from_str("Tab"),
            Key::UpArrow => String::from_str("UpArrow"),
            Key::PrintScreen => String::from_str("PrintScreen"),
            Key::ScrollLock => String::from_str("ScrollLock"),
            Key::Pause => String::from_str("Pause"),
            Key::NumLock => String::from_str("NumLock"),
            Key::BackQuote => String::from_str("BackQuote"),
            Key::Num1 => String::from_str("Num1"),
            Key::Num2 => String::from_str("Num2"),
            Key::Num3 => String::from_str("Num3"),
            Key::Num4 => String::from_str("Num4"),
            Key::Num5 => String::from_str("Num5"),
            Key::Num6 => String::from_str("Num6"),
            Key::Num7 => String::from_str("Num7"),
            Key::Num8 => String::from_str("Num8"),
            Key::Num9 => String::from_str("Num9"),
            Key::Num0 => String::from_str("Num0"),
            Key::Minus => String::from_str("Minus"),
            Key::Equal => String::from_str("Equal"),
            Key::KeyQ => String::from_str("KeyQ"),
            Key::KeyW => String::from_str("KeyW"),
            Key::KeyE => String::from_str("KeyE"),
            Key::KeyR => String::from_str("KeyR"),
            Key::KeyT => String::from_str("KeyT"),
            Key::KeyY => String::from_str("KeyY"),
            Key::KeyU => String::from_str("KeyU"),
            Key::KeyI => String::from_str("KeyI"),
            Key::KeyO => String::from_str("KeyO"),
            Key::KeyP => String::from_str("KeyP"),
            Key::LeftBracket => String::from_str("LeftBracket"),
            Key::RightBracket => String::from_str("RightBracket"),
            Key::KeyA => String::from_str("KeyA"),
            Key::KeyS => String::from_str("KeyS"),
            Key::KeyD => String::from_str("KeyD"),
            Key::KeyF => String::from_str("KeyF"),
            Key::KeyG => String::from_str("KeyG"),
            Key::KeyH => String::from_str("KeyH"),
            Key::KeyJ => String::from_str("KeyJ"),
            Key::KeyK => String::from_str("KeyK"),
            Key::KeyL => String::from_str("KeyL"),
            Key::SemiColon => String::from_str("SemiColon"),
            Key::Quote => String::from_str("Quote"),
            Key::BackSlash => String::from_str("BackSlash"),
            Key::IntlBackslash => String::from_str("IntlBackslash"),
            Key::KeyZ => String::from_str("KeyZ"),
            Key::KeyX => String::from_str("KeyX"),
            Key::KeyC => String::from_str("KeyC"),
            Key::KeyV => String::from_str("KeyV"),
            Key::KeyB => String::from_str("KeyB"),
            Key::KeyN => String::from_str("KeyN"),
            Key::KeyM => String::from_str("KeyM"),
            Key::Comma => String::from_str("Comma"),
            Key::Dot => String::from_str("Dot"),
            Key::Slash => String::from_str("Slash"),
            Key::Insert => String::from_str("Insert"),
            Key::KpReturn => String::from_str("KpReturn"),
            Key::KpMinus => String::from_str("KpMinus"),
            Key::KpPlus => String::from_str("KpPlus"),
            Key::KpMultiply => String::from_str("KpMultiply"),
            Key::KpDivide => String::from_str("KpDivide"),
            Key::Kp0 => String::from_str("Kp0"),
            Key::Kp1 => String::from_str("Kp1"),
            Key::Kp2 => String::from_str("Kp2"),
            Key::Kp3 => String::from_str("Kp3"),
            Key::Kp4 => String::from_str("Kp4"),
            Key::Kp5 => String::from_str("Kp5"),
            Key::Kp6 => String::from_str("Kp6"),
            Key::Kp7 => String::from_str("Kp7"),
            Key::Kp8 => String::from_str("Kp8"),
            Key::Kp9 => String::from_str("Kp9"),
            Key::KpDelete => String::from_str("KpDelete"),
            Key::Function => String::from_str("Function"),
            Key::Unknown(code) => unknown_identifier(*code),
        }
    }

    /// The identifier of this key without a leading `Key`: `A` for `KeyA`, and
    /// `Return` for `Return`.
    pub fn short_identifier(&self) -> (r: String)
        ensures
            r@ == strip_key_prefix(key_identifier(*self)),
    {
        let name: String = self.identifier();
        let text: &str = name.as_str();
        let n: usize = text.unicode_len();
        if n > 3 && text.get_char(0) == 'K' && text.get_char(1) == 'e' && text.get_char(2) == 'y' {
            proof {
                reveal_strlit("Key");
                assert(text@.subrange(0, 3) =~= "Key"@);
            }
            String::from_str(text.substring_char(3, n))
        } else {
            proof {
                reveal_strlit("Key");
                if text@.len() > 3 && text@.subrange(0, 3) == "Key"@ {
                    assert(text@.subrange(0, 3)[0] == 'K');
                    assert(text@.subrange(0, 3)[1] == 'e');
                    assert(text@.subrange(0, 3)[2] == 'y');
                }
            }
            name
        }
    }
}

impl Modifier {
    /// The key that this modifier is.
    pub fn key(&self) -> (r: Key)
        ensures
            r == key_of(*self),
            modifier_of(r) == Some(*self),
    {
        match self {
            Modifier::ControlLeft => Key::ControlLeft,
            Modifier::ControlRight => Key::ControlRight,
            Modifier::ShiftLeft => Key::ShiftLeft,
            Modifier::ShiftRight => Key::ShiftRight,
            Modifier::Alt => Key::Alt,
            Modifier::MetaLeft => Key::MetaLeft,
            Modifier::MetaRight => Key::MetaRight,
        }
    }
}

impl Button {
    /// The name of this button as an identifier.
    pub fn identifier(&self) -> (r: String)
        ensures
            r@ == button_identifier(*self),
    {
        match self {
            Button::Left => String::from_str("Left"),
            Button::Right => String::from_str("Right"),
            Button::Middle => String::from_str("Middle"),
            Button::Unknown(code) => unknown_identifier(*code as u32),
        }
    }
}

} // verus!
