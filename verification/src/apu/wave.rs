//! The wave channel's register store: on/off and length registers. Register
//! storage only; no waveform is generated.

use vstd::prelude::*;

verus! {

pub struct Wave {
    /// Channel on/off (bit 7 of the first register).
    pub status: bool,
    /// Sound length (second register).
    pub length: u8,
}

impl Wave {
    pub fn new() -> (r: Wave)
        ensures
            r == (Wave { status: false, length: 0u8 }),
    {
        Wave { status: false, length: 0 }
    }

    pub open spec fn spec_nr_x0(self) -> u8 {
        if self.status {
            0x80u8
        } else {
            0x00u8
        }
    }

    pub fn read_nr_x0(&self) -> (r: u8)
        ensures
            r == self.spec_nr_x0(),
    {
        if self.status {
            0x80
        } else {
            0x00
        }
    }

    pub open spec fn spec_write_nr_x0(self, v: u8) -> Wave {
        Wave { status: v & 0x80 != 0, ..self }
    }

    pub fn write_nr_x0(&mut self, v: u8)
        ensures
            *final(self) == old(self).spec_write_nr_x0(v),
    {
        self.status = v & 0x80 != 0;
    }

    pub fn read_nr_x1(&self) -> (r: u8)
        ensures
            r == self.length,
    {
        self.length
    }

    pub open spec fn spec_write_nr_x1(self, v: u8) -> Wave {
        Wave { length: v, ..self }
    }

    pub fn write_nr_x1(&mut self, v: u8)
        ensures
            *final(self) == old(self).spec_write_nr_x1(v),
    {
        self.length = v;
    }
}

} // verus!
