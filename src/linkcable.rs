//! The serial port's data and control registers.
use vstd::prelude::*;

verus! {

pub struct Serial {
    pub data: u8,
    pub control: u8,
}

impl Serial {
    pub fn power_up() -> (r: Self)
        ensures
            r.data == 0 && r.control == 0,
    {
        Self { data: 0x00, control: 0x00 }
    }

    pub fn get(&self, a: u16) -> (r: u8)
        requires
            a == 0xFF01 || a == 0xFF02,
        ensures
            r == if a == 0xFF01 { self.data } else { self.control },
    {
        if a == 0xFF01 {
            self.data
        } else {
            self.control
        }
    }

    pub fn set(&mut self, a: u16, v: u8)
        requires
            a == 0xFF01 || a == 0xFF02,
        ensures
            a == 0xFF01 ==> final(self).data == v && final(self).control == old(self).control,
            a == 0xFF02 ==> final(self).control == v && final(self).data == old(self).data,
    {
        if a == 0xFF01 {
            self.data = v;
        } else {
            self.control = v;
        }
    }
}

} // verus!
