//! The interrupt request register: one bit per interrupt line.
use vstd::prelude::*;

verus! {

/// The interrupt lines, in priority order.
#[derive(Clone, Copy, PartialEq, Eq, Structural, Debug)]
pub enum Flags {
    Vblank,
    LCDStat,
    Timer,
    Serial,
    Joypad,
}

impl Flags {
    /// The bit that the line occupies in the request and enable registers.
    pub open spec fn index(self) -> u8 {
        match self {
            Flags::Vblank => 0,
            Flags::LCDStat => 1,
            Flags::Timer => 2,
            Flags::Serial => 3,
            Flags::Joypad => 4,
        }
    }

    pub open spec fn mask(self) -> u8 {
        match self {
            Flags::Vblank => 0x01,
            Flags::LCDStat => 0x02,
            Flags::Timer => 0x04,
            Flags::Serial => 0x08,
            Flags::Joypad => 0x10,
        }
    }
}

/// The request flags (IF).
pub struct Intf {
    pub data: u8,
}

impl Intf {
    pub fn power_up() -> (r: Self)
        ensures
            r.data == 0,
    {
        Self { data: 0x00 }
    }

    /// Raises the request bit of a line.
    pub fn hi(&mut self, flag: Flags)
        ensures
            final(self).data == old(self).data | flag.mask(),
            (flag == Flags::Vblank || flag == Flags::LCDStat) ==> final(self).data & 0xFC == old(self).data & 0xFC,
    {
        let m: u8 = match flag {
            Flags::Vblank => 0x01,
            Flags::LCDStat => 0x02,
            Flags::Timer => 0x04,
            Flags::Serial => 0x08,
            Flags::Joypad => 0x10,
        };
        let ghost d = self.data;
        self.data = self.data | m;
        assert((d | 1) & 0xFC == d & 0xFC && (d | 2) & 0xFC == d & 0xFC) by (bit_vector);
    }
}

} // verus!
