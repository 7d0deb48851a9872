use vstd::prelude::*;

verus! {

/// The eight logical buttons of the handheld.
#[derive(Clone, Copy, Debug, PartialEq, Eq, Structural)]
pub enum Keys {
    Down,
    Up,
    Left,
    Right,
    Start,
    Select,
    B,
    A,
}

/// A snapshot of the eight button states polled from the input source;
/// `true` means the button is held down.
#[derive(Clone, Copy, Debug, PartialEq, Eq, Structural)]
pub struct KeyInputs {
    pub down: bool,
    pub up: bool,
    pub left: bool,
    pub right: bool,
    pub start: bool,
    pub select: bool,
    pub b: bool,
    pub a: bool,
}

/// The joypad status byte. Bits 5 and 4 are the button-group and
/// direction-group selectors (0 selects a group); bits 3-0 carry the selected
/// group's key states, where 0 means pressed.
#[derive(Clone, Copy, Debug, PartialEq, Eq, Structural)]
pub struct Joypad {
    pub p1: u8,
}

/// The key-state bit of a button within the low nibble of the status byte.
pub open spec fn spec_key_mask(key: Keys) -> u8 {
    match key {
        Keys::Down | Keys::Start => 8,
        Keys::Up | Keys::Select => 4,
        Keys::Left | Keys::B => 2,
        Keys::Right | Keys::A => 1,
    }
}

/// The status byte after recording one button's state: a pressed button
/// drives its bit low, a released one high.
pub open spec fn spec_set_key(p1: u8, key: Keys, pressed: bool) -> u8 {
    if pressed {
        p1 & !spec_key_mask(key)
    } else {
        p1 | spec_key_mask(key)
    }
}

/// The status byte after one poll of the input source: each selected group's
/// four key bits are rewritten from the snapshot, an unselected group's bits
/// are untouched.
pub open spec fn spec_joypad_poll(p1: u8, keys: KeyInputs) -> u8 {
    let after_buttons = if p1 & 0x20 == 0 {
        spec_set_key(
            spec_set_key(
                spec_set_key(spec_set_key(p1, Keys::A, keys.a), Keys::B, keys.b),
                Keys::Select,
                keys.select,
            ),
            Keys::Start,
            keys.start,
        )
    } else {
        p1
    };
    if after_buttons & 0x10 == 0 {
        spec_set_key(
            spec_set_key(
                spec_set_key(
                    spec_set_key(after_buttons, Keys::Down, keys.down),
                    Keys::Up,
                    keys.up,
                ),
                Keys::Left,
                keys.left,
            ),
            Keys::Right,
            keys.right,
        )
    } else {
        after_buttons
    }
}

impl Joypad {
    pub fn new() -> (j: Joypad)
        ensures
            j == (Joypad { p1: 0u8 }),
    {
        Joypad { p1: 0 }
    }

    pub fn read(&self) -> (r: u8)
        ensures
            r == self.p1,
    {
        self.p1
    }

    /// Software may only drive the selector bits and above; the key-state
    /// nibble's low three bits are owned by the polled key states.
    pub fn write(&mut self, p1: u8)
        ensures
            final(self).p1 == p1 & 0xF8,
    {
        self.p1 = p1 & 0xF8;
    }

    /// One poll of the input source: rewrites the key bits of each group
    /// selected by the status byte from the given snapshot.
    pub fn do_cycle(&mut self, keys: &KeyInputs)
        ensures
            final(self).p1 == spec_joypad_poll(old(self).p1, *keys),
    {
        if self.is_selected_button_keys() {
            self.set_key(Keys::A, keys.a);
            self.set_key(Keys::B, keys.b);
            self.set_key(Keys::Select, keys.select);
            self.set_key(Keys::Start, keys.start);
        }

        if self.is_selected_direction_keys() {
            self.set_key(Keys::Down, keys.down);
            self.set_key(Keys::Up, keys.up);
            self.set_key(Keys::Left, keys.left);
            self.set_key(Keys::Right, keys.right);
        }
    }

    pub fn is_selected_button_keys(&self) -> (r: bool)
        ensures
            r == (self.p1 & 0x20 == 0),
    {
        self.p1 & 0x20 == 0
    }

    pub fn is_selected_direction_keys(&self) -> (r: bool)
        ensures
            r == (self.p1 & 0x10 == 0),
    {
        self.p1 & 0x10 == 0
    }

    /// Records one button's state into the low nibble of the status byte.
    pub fn set_key(&mut self, key: Keys, pressed: bool)
        ensures
            final(self).p1 == spec_set_key(old(self).p1, key, pressed),
    {
        let mask: u8 = match key {
            Keys::Down | Keys::Start => 8,
            Keys::Up | Keys::Select => 4,
            Keys::Left | Keys::B => 2,
            Keys::Right | Keys::A => 1,
        };

        if pressed {
            self.p1 = self.p1 & !mask;
        } else {
            self.p1 = self.p1 | mask;
        }
    }
}

} // verus!
