//! The serial port's two registers: a data byte and a control byte. Only
//! register storage is simulated; no transfer ever runs.

use vstd::prelude::*;

verus! {

pub struct Serial {
    /// Transfer data (address 0xff01).
    pub data: u8,
    /// Transfer control (address 0xff02): start, clock speed, clock source.
    pub control: u8,
}

impl Serial {
    /// Only the start, clock-speed and clock-source bits of the control byte
    /// are stored; the rest read back as zero.
    pub open spec fn spec_read(self, addr: u16) -> u8 {
        if addr == 0xff01 {
            self.data
        } else {
            self.control
        }
    }

    pub open spec fn spec_write(self, addr: u16, v: u8) -> Serial {
        if addr == 0xff01 {
            Serial { data: v, ..self }
        } else {
            Serial { control: v & 0x83, ..self }
        }
    }

    pub fn new() -> (r: Serial)
        ensures
            r == (Serial { data: 0u8, control: 0u8 }),
    {
        Serial { data: 0, control: 0 }
    }

    pub fn read_byte(&self, addr: u16) -> (r: u8)
        requires
            0xff01 <= addr <= 0xff02,
        ensures
            r == self.spec_read(addr),
    {
        match addr {
            0xff01 => self.data,
            _ => self.control,
        }
    }

    pub fn write_byte(&mut self, addr: u16, v: u8)
        requires
            0xff01 <= addr <= 0xff02,
        ensures
            *final(self) == old(self).spec_write(addr, v),
    {
        match addr {
            0xff01 => self.data = v,
            _ => self.control = v & 0x83,
        }
    }
}

} // verus!
