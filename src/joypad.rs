//! The input matrix: eight keys read through two selectable nibbles.
use vstd::prelude::*;
use crate::intf::{Flags, Intf};

verus! {

#[derive(Clone, Copy, PartialEq, Eq, Structural, Debug)]
pub enum Key {
    Right,
    Left,
    Up,
    Down,
    A,
    B,
    Select,
    Start,
}

impl Key {
    pub open spec fn mask(self) -> u8 {
        match self {
            Key::Right => 0x01,
            Key::Left => 0x02,
            Key::Up => 0x04,
            Key::Down => 0x08,
            Key::A => 0x10,
            Key::B => 0x20,
            Key::Select => 0x40,
            Key::Start => 0x80,
        }
    }

    pub fn bit(self) -> (r: u8)
        ensures
            r == self.mask(),
    {
        match self {
            Key::Right => 0x01,
            Key::Left => 0x02,
            Key::Up => 0x04,
            Key::Down => 0x08,
            Key::A => 0x10,
            Key::B => 0x20,
            Key::Select => 0x40,
            Key::Start => 0x80,
        }
    }
}

pub struct Joypad {
    /// One bit per key, clear while the key is held.
    pub matrix: u8,
    pub select: u8,
}

impl Joypad {
    pub open spec fn read(&self) -> u8 {
        if self.select & 0x10 == 0 {
            self.select | (self.matrix & 0x0F)
        } else if self.select & 0x20 == 0 {
            self.select | (self.matrix >> 4u8)
        } else {
            self.select
        }
    }

    pub fn power_up() -> (r: Self)
        ensures
            r.matrix == 0xFF && r.select == 0,
    {
        Self { matrix: 0xFF, select: 0x00 }
    }

    /// A key is released.
    pub fn keyup(&mut self, key: Key)
        ensures
            final(self).matrix == old(self).matrix | key.mask(),
            final(self).select == old(self).select,
    {
        self.matrix = self.matrix | key.bit();
    }

    /// A key is pressed; the joypad interrupt is raised.
    pub fn keydown(&mut self, key: Key, intf: &mut Intf)
        ensures
            final(self).matrix == old(self).matrix & !key.mask(),
            final(self).select == old(self).select,
            final(intf).data == old(intf).data | Flags::Joypad.mask(),
    {
        self.matrix = self.matrix & !key.bit();
        intf.hi(Flags::Joypad);
    }

    pub fn get(&self, a: u16) -> (r: u8)
        requires
            a == 0xFF00,
        ensures
            r == self.read(),
    {
        if (self.select & 0x10) == 0x00 {
            return self.select | (self.matrix & 0x0F);
        }
        if (self.select & 0x20) == 0x00 {
            return self.select | (self.matrix >> 4);
        }
        self.select
    }

    pub fn set(&mut self, a: u16, v: u8)
        requires
            a == 0xFF00,
        ensures
            final(self).select == v,
            final(self).matrix == old(self).matrix,
    {
        self.select = v;
    }
}

} // verus!
