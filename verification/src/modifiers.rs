//! The set of modifier keys that are held down.

use vstd::prelude::*;
use crate::keys::Modifier;

verus! {

/// Which of Control, Alt, Shift and Meta are held, the two sides of a key counting as one.
#[derive(Clone, Copy, Debug, PartialEq, Eq, Structural)]
pub struct Held {
    pub ctrl: bool,
    pub alt: bool,
    pub shift: bool,
    pub meta: bool,
}

/// Whether a Control key is among `pressed`.
pub open spec fn holds_ctrl(pressed: Set<Modifier>) -> bool {
    pressed.contains(Modifier::ControlLeft) || pressed.contains(Modifier::ControlRight)
}

/// Whether Alt is among `pressed`.
pub open spec fn holds_alt(pressed: Set<Modifier>) -> bool {
    pressed.contains(Modifier::Alt)
}

/// Whether a Shift key is among `pressed`.
pub open spec fn holds_shift(pressed: Set<Modifier>) -> bool {
    pressed.contains(Modifier::ShiftLeft) || pressed.contains(Modifier::ShiftRight)
}

/// Whether a Meta key is among `pressed`.
pub open spec fn holds_meta(pressed: Set<Modifier>) -> bool {
    pressed.contains(Modifier::MetaLeft) || pressed.contains(Modifier::MetaRight)
}

/// The four answers for `pressed` together.
pub open spec fn held_of(pressed: Set<Modifier>) -> Held {
    Held {
        ctrl: holds_ctrl(pressed),
        alt: holds_alt(pressed),
        shift: holds_shift(pressed),
        meta: holds_meta(pressed),
    }
}

/// A set of modifiers, one flag for each of the seven.
#[derive(Clone, Copy, Debug)]
pub struct ModifierSet {
    control_left: bool,
    control_right: bool,
    shift_left: bool,
    shift_right: bool,
    alt: bool,
    meta_left: bool,
    meta_right: bool,
}

impl ModifierSet {
    /// The flag of `m`.
    pub closed spec fn flag(self, m: Modifier) -> bool {
        match m {
            Modifier::ControlLeft => self.control_left,
            Modifier::ControlRight => self.control_right,
            Modifier::ShiftLeft => self.shift_left,
            Modifier::ShiftRight => self.shift_right,
            Modifier::Alt => self.alt,
            Modifier::MetaLeft => self.meta_left,
            Modifier::MetaRight => self.meta_right,
        }
    }

    /// The set without any modifier.
    pub fn new() -> (r: Self)
        ensures
            r@ == Set::<Modifier>::empty(),
    {
        let r = ModifierSet {
            control_left: false,
            control_right: false,
            shift_left: false,
            shift_right: false,
            alt: false,
            meta_left: false,
            meta_right: false,
        };
        assert(r@ =~= Set::<Modifier>::empty());
        r
    }

    /// Tells whether `m` is in the set.
    pub fn contains(&self, m: Modifier) -> (r: bool)
        ensures
            r == self@.contains(m),
    {
        match m {
            Modifier::ControlLeft => self.control_left,
            Modifier::ControlRight => self.control_right,
            Modifier::ShiftLeft => self.shift_left,
            Modifier::ShiftRight => self.shift_right,
            Modifier::Alt => self.alt,
            Modifier::MetaLeft => self.meta_left,
            Modifier::MetaRight => self.meta_right,
        }
    }

    /// Puts `m` into the set; returns whether it was absent before.
    pub fn insert(&mut self, m: Modifier) -> (r: bool)
        ensures
            final(self)@ == old(self)@.insert(m),
            r == !old(self)@.contains(m),
    {
        let absent: bool = !self.contains(m);
        match m {
            Modifier::ControlLeft => self.control_left = true,
            Modifier::ControlRight => self.control_right = true,
            Modifier::ShiftLeft => self.shift_left = true,
            Modifier::ShiftRight => self.shift_right = true,
            Modifier::Alt => self.alt = true,
            Modifier::MetaLeft => self.meta_left = true,
            Modifier::MetaRight => self.meta_right = true,
        }
        assert(self@ =~= old(self)@.insert(m));
        absent
    }

    /// Takes `m` out of the set; returns whether it was present before.
    pub fn remove(&mut self, m: Modifier) -> (r: bool)
        ensures
            final(self)@ == old(self)@.remove(m),
            r == old(self)@.contains(m),
    {
        let present: bool = self.contains(m);
        match m {
            Modifier::ControlLeft => self.control_left = false,
            Modifier::ControlRight => self.control_right = false,
            Modifier::ShiftLeft => self.shift_left = false,
            Modifier::ShiftRight => self.shift_right = false,
            Modifier::Alt => self.alt = false,
            Modifier::MetaLeft => self.meta_left = false,
            Modifier::MetaRight => self.meta_right = false,
        }
        assert(self@ =~= old(self)@.remove(m));
        present
    }

    /// Tells whether no modifier is in the set.
    pub fn is_empty(&self) -> (r: bool)
        ensures
            r == (self@ == Set::<Modifier>::empty()),
    {
        let r: bool = !(self.control_left || self.control_right || self.shift_left
            || self.shift_right || self.alt || self.meta_left || self.meta_right);
        proof {
            if r {
                assert(self@ =~= Set::<Modifier>::empty());
            } else {
                assert(self@.contains(Modifier::ControlLeft) || self@.contains(
                    Modifier::ControlRight,
                ) || self@.contains(Modifier::ShiftLeft) || self@.contains(Modifier::ShiftRight)
                    || self@.contains(Modifier::Alt) || self@.contains(Modifier::MetaLeft)
                    || self@.contains(Modifier::MetaRight));
            }
        }
        r
    }

    /// Tells which of Control, Alt, Shift and Meta are held.
    pub fn held(&self) -> (r: Held)
        ensures
            r == held_of(self@),
    {
        Held {
            ctrl: self.control_left || self.control_right,
            alt: self.alt,
            shift: self.shift_left || self.shift_right,
            meta: self.meta_left || self.meta_right,
        }
    }
}

impl View for ModifierSet {
    type V = Set<Modifier>;

    closed spec fn view(&self) -> Set<Modifier> {
        Set::new(|m: Modifier| self.flag(m))
    }
}

} // verus!
