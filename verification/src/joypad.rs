//! The input controller: a register-mapped byte store at 0xff00. The guest
//! selects a key group through bits 4-5; reads return the selected group's
//! key states in the low nibble, a bit being 0 while its key is held.

use vstd::prelude::*;

verus! {

/// One of the eight keys.
#[derive(Clone, Copy, PartialEq, Eq, Structural, Debug)]
pub enum KeyInput {
    Down,
    Up,
    Left,
    Right,
    Start,
    Select,
    B,
    A,
}

impl KeyInput {
    /// The bit this key occupies in the input state: direction keys in the
    /// high nibble, button keys in the low nibble.
    pub open spec fn spec_mask(self) -> u8 {
        match self {
            KeyInput::Down => 0x80,
            KeyInput::Up => 0x40,
            KeyInput::Left => 0x20,
            KeyInput::Right => 0x10,
            KeyInput::Start => 0x08,
            KeyInput::Select => 0x04,
            KeyInput::B => 0x02,
            KeyInput::A => 0x01,
        }
    }

    pub fn mask(self) -> (m: u8)
        ensures
            m == self.spec_mask(),
    {
        match self {
            KeyInput::Down => 0x80,
            KeyInput::Up => 0x40,
            KeyInput::Left => 0x20,
            KeyInput::Right => 0x10,
            KeyInput::Start => 0x08,
            KeyInput::Select => 0x04,
            KeyInput::B => 0x02,
            KeyInput::A => 0x01,
        }
    }
}

pub struct JoyPad {
    /// The guest-visible register; only the group-select bits 4-5 are
    /// writable.
    pub register: u8,
    /// Key states, one bit per key, 0 while the key is held.
    pub input: u8,
}

impl JoyPad {
    /// What a read of 0xff00 returns: the stored high nibble plus the
    /// selected key group in the low nibble (buttons when bit 4 is the only
    /// one clear, directions when bit 5 is), or 0xff when no single group is
    /// selected.
    pub open spec fn spec_read(self) -> u8 {
        if self.register & 0x30 == 0x10 {
            (self.register & 0xf0) | (self.input & 0x0f)
        } else if self.register & 0x30 == 0x20 {
            (self.register & 0xf0) | ((self.input >> 4) & 0x0f)
        } else {
            0xff
        }
    }

    pub fn new() -> (r: JoyPad)
        ensures
            r == (JoyPad { register: 0xffu8, input: 0xffu8 }),
    {
        JoyPad { register: 0xff, input: 0xff }
    }

    /// Record that `key` is now held: its state bit drops to 0.
    pub fn key_down(&mut self, key: KeyInput)
        ensures
            final(self).input == old(self).input & !key.spec_mask(),
            final(self).register == old(self).register,
    {
        self.input = self.input & !key.mask();
    }

    /// Record that `key` was released: its state bit returns to 1.
    pub fn key_up(&mut self, key: KeyInput)
        ensures
            final(self).input == old(self).input | key.spec_mask(),
            final(self).register == old(self).register,
    {
        self.input = self.input | key.mask();
    }

    pub fn read_byte(&self, addr: u16) -> (r: u8)
        requires
            addr == 0xff00,
        ensures
            r == self.spec_read(),
    {
        match self.register & 0x30 {
            // select button keys
            0x10 => (self.register & 0xf0) | (self.input & 0x0f),
            // select direction keys
            0x20 => (self.register & 0xf0) | ((self.input >> 4) & 0x0f),
            _ => 0xff,
        }
    }

    pub fn write_byte(&mut self, addr: u16, v: u8)
        requires
            addr == 0xff00,
        ensures
            final(self).register == (old(self).register & 0xcf) | (v & 0x30),
            final(self).input == old(self).input,
    {
        self.register = (self.register & 0xcf) | (v & 0x30);
    }
}

} // verus!
