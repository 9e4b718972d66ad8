//! The noise channel's register store: length, envelope and polynomial
//! counter registers. Register storage only; no waveform is generated.

use vstd::prelude::*;

verus! {

pub struct Noise {
    /// Channel on/off, reported in the sound status register.
    pub status: bool,
    /// Stop on length expiry (bit 6 of the fourth register).
    pub use_length: bool,
    /// Polynomial counter shift clock (fourth nibble of the third register).
    pub polynomial_frequency: u8,
    /// Polynomial counter width bit.
    pub polynomial_width: bool,
    /// Polynomial counter dividing ratio.
    pub polynomial_ratio: u8,
    /// Envelope initial volume.
    pub volume: u8,
    /// Envelope direction.
    pub increase: bool,
    /// Envelope step length.
    pub length: u8,
    /// Sound length (bits 0-5 of the first register).
    pub sound_length: u8,
}

impl Noise {
    pub fn new() -> (r: Noise)
        ensures
            r == (Noise {
                status: false,
                use_length: false,
                polynomial_frequency: 0u8,
                polynomial_width: false,
                polynomial_ratio: 0u8,
                volume: 0u8,
                increase: false,
                length: 0u8,
                sound_length: 0u8,
            }),
    {
        Noise {
            status: false,
            use_length: false,
            polynomial_frequency: 0,
            polynomial_width: false,
            polynomial_ratio: 0,
            volume: 0,
            increase: false,
            length: 0,
            sound_length: 0,
        }
    }

    pub fn read_nr_x1(&self) -> (r: u8)
        ensures
            r == self.sound_length,
    {
        self.sound_length
    }

    pub open spec fn spec_write_nr_x1(self, v: u8) -> Noise {
        Noise { sound_length: v & 0x3f, ..self }
    }

    pub fn write_nr_x1(&mut self, v: u8)
        ensures
            *final(self) == old(self).spec_write_nr_x1(v),
    {
        self.sound_length = v & 0x3f;
    }

    pub open spec fn spec_nr_x2(self) -> u8 {
        (self.volume << 4) | (if self.increase {
            0x08u8
        } else {
            0u8
        }) | self.length
    }

    pub fn read_nr_x2(&self) -> (r: u8)
        ensures
            r == self.spec_nr_x2(),
    {
        (self.volume << 4) | (if self.increase {
            0x08
        } else {
            0
        }) | self.length
    }

    pub open spec fn spec_write_nr_x2(self, v: u8) -> Noise {
        Noise {
                volume: (v & 0xf0) >> 4,
                increase: v & 0x08 != 0,
                length: v & 0x07,
                ..self
            }
    }

    pub fn write_nr_x2(&mut self, v: u8)
        ensures
            *final(self) == old(self).spec_write_nr_x2(v),
    {
        self.volume = (v & 0xf0) >> 4;
        self.increase = v & 0x08 != 0;
        self.length = v & 0x07;
    }

    pub open spec fn spec_nr_x3(self) -> u8 {
        (self.polynomial_frequency << 4) | (if self.polynomial_width {
            0x08u8
        } else {
            0u8
        }) | self.polynomial_ratio
    }

    pub fn read_nr_x3(&self) -> (r: u8)
        ensures
            r == self.spec_nr_x3(),
    {
        (self.polynomial_frequency << 4) | (if self.polynomial_width {
            0x08
        } else {
            0
        }) | self.polynomial_ratio
    }

    pub open spec fn spec_write_nr_x3(self, v: u8) -> Noise {
        Noise {
                polynomial_frequency: (v & 0xf0) >> 4,
                polynomial_width: v & 0x08 != 0,
                polynomial_ratio: v & 0x07,
                ..self
            }
    }

    pub fn write_nr_x3(&mut self, v: u8)
        ensures
            *final(self) == old(self).spec_write_nr_x3(v),
    {
        self.polynomial_frequency = (v & 0xf0) >> 4;
        self.polynomial_width = v & 0x08 != 0;
        self.polynomial_ratio = v & 0x07;
    }

    pub open spec fn spec_nr_x4(self) -> u8 {
        0xbf | (if self.use_length {
            0x40u8
        } else {
            0u8
        })
    }

    pub fn read_nr_x4(&self) -> (r: u8)
        ensures
            r == self.spec_nr_x4(),
    {
        0b_1011_1111 | (if self.use_length {
            0x40
        } else {
            0
        })
    }

    pub open spec fn spec_write_nr_x4(self, v: u8) -> Noise {
        Noise {
                status: v & 0x80 != 0,
                use_length: v & 0x40 != 0,
                ..self
            }
    }

    pub fn write_nr_x4(&mut self, v: u8)
        ensures
            *final(self) == old(self).spec_write_nr_x4(v),
    {
        self.status = v & 0x80 != 0;
        self.use_length = v & 0x40 != 0;
    }
}

} // verus!
