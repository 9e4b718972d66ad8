//! A square-wave channel's register store: sweep, duty/length, envelope and
//! frequency registers. Register storage only; no waveform is generated.

use vstd::prelude::*;

verus! {

pub struct Square {
    /// Channel on/off, reported in the sound status register.
    pub status: bool,
    /// Stop on length expiry (bit 6 of the fourth register).
    pub use_length: bool,
    /// 11-bit frequency, low byte in the third register, high bits in the
    /// fourth.
    pub frequency: u16,
    /// Envelope initial volume.
    pub volume: u8,
    /// Envelope direction.
    pub increase: bool,
    /// Envelope step length.
    pub length: u8,
    /// Wave duty (bits 6-7 of the second register).
    pub wave_duty: u8,
    /// Sound length (bits 0-5 of the second register).
    pub sound_length: u8,
    /// Sweep time (first register, bits 4-6).
    pub sweep_time: u8,
    /// Sweep direction, stored inverted: 0 in bit 3 means increase.
    pub sweep_increase: bool,
    /// Sweep shift count (first register, bits 0-2).
    pub sweep_shift: u8,
}

impl Square {
    pub fn new() -> (r: Square)
        ensures
            r == (Square {
                status: false,
                use_length: false,
                frequency: 0u16,
                volume: 0u8,
                increase: false,
                length: 0u8,
                wave_duty: 0u8,
                sound_length: 0u8,
                sweep_time: 0u8,
                sweep_increase: false,
                sweep_shift: 0u8,
            }),
    {
        Square {
            status: false,
            use_length: false,
            frequency: 0,
            volume: 0,
            increase: false,
            length: 0,
            wave_duty: 0,
            sound_length: 0,
            sweep_time: 0,
            sweep_increase: false,
            sweep_shift: 0,
        }
    }

    pub open spec fn spec_nr_x0(self) -> u8 {
        (self.sweep_time << 4) | (if self.sweep_increase {
            0u8
        } else {
            0x08u8
        }) | self.sweep_shift
    }

    pub fn read_nr_x0(&self) -> (r: u8)
        ensures
            r == self.spec_nr_x0(),
    {
        (self.sweep_time << 4) | (if self.sweep_increase {
            0
        } else {
            0x08
        }) | self.sweep_shift
    }

    pub open spec fn spec_write_nr_x0(self, v: u8) -> Square {
        Square {
                sweep_time: (v & 0x70) >> 4,
                sweep_increase: v & 0x08 == 0,
                sweep_shift: v & 0x07,
                ..self
            }
    }

    pub fn write_nr_x0(&mut self, v: u8)
        ensures
            *final(self) == old(self).spec_write_nr_x0(v),
    {
        self.sweep_time = (v & 0x70) >> 4;
        self.sweep_increase = v & 0x08 == 0;
        self.sweep_shift = v & 0x07;
    }

    pub open spec fn spec_nr_x1(self) -> u8 {
        (self.wave_duty << 6) | 0x3f
    }

    pub fn read_nr_x1(&self) -> (r: u8)
        ensures
            r == self.spec_nr_x1(),
    {
        (self.wave_duty << 6) | 0x3f
    }

    pub open spec fn spec_write_nr_x1(self, v: u8) -> Square {
        Square {
                wave_duty: (v & 0xc0) >> 6,
                sound_length: v & 0x3f,
                ..self
            }
    }

    pub fn write_nr_x1(&mut self, v: u8)
        ensures
            *final(self) == old(self).spec_write_nr_x1(v),
    {
        self.wave_duty = (v & 0xc0) >> 6;
        self.sound_length = v & 0x3f;
    }

    pub open spec fn spec_nr_x2(self) -> u8 {
        (self.volume << 4) | (if self.increase {
            0x08u8
        } else {
            0u8
        }) | self.length
    }

    pub fn read_nr_x2(&self) -> (r: u8)
        ensures
            r == self.spec_nr_x2(),
    {
        (self.volume << 4) | (if self.increase {
            0x08
        } else {
            0
        }) | self.length
    }

    pub open spec fn spec_write_nr_x2(self, v: u8) -> Square {
        Square {
                volume: (v & 0xf0) >> 4,
                increase: v & 0x08 != 0,
                length: v & 0x07,
                ..self
            }
    }

    pub fn write_nr_x2(&mut self, v: u8)
        ensures
            *final(self) == old(self).spec_write_nr_x2(v),
    {
        self.volume = (v & 0xf0) >> 4;
        self.increase = v & 0x08 != 0;
        self.length = v & 0x07;
    }

    pub open spec fn spec_write_nr_x3(self, v: u8) -> Square {
        Square {
                frequency: (self.frequency & 0x0700) | (v as u16),
                ..self
            }
    }

    pub fn write_nr_x3(&mut self, v: u8)
        ensures
            *final(self) == old(self).spec_write_nr_x3(v),
    {
        self.frequency = (self.frequency & 0x0700) | (v as u16);
    }

    pub open spec fn spec_nr_x4(self) -> u8 {
        0xbf | (if self.use_length {
            0x40u8
        } else {
            0u8
        })
    }

    pub fn read_nr_x4(&self) -> (r: u8)
        ensures
            r == self.spec_nr_x4(),
    {
        0b_1011_1111 | (if self.use_length {
            0x40
        } else {
            0
        })
    }

    pub open spec fn spec_write_nr_x4(self, v: u8) -> Square {
        Square {
                status: v & 0x80 != 0,
                use_length: v & 0x40 != 0,
                frequency: (self.frequency & 0x00ff) | ((v as u16) << 8),
                ..self
            }
    }

    pub fn write_nr_x4(&mut self, v: u8)
        ensures
            *final(self) == old(self).spec_write_nr_x4(v),
    {
        self.status = v & 0x80 != 0;
        self.use_length = v & 0x40 != 0;
        self.frequency = (self.frequency & 0x00ff) | ((v as u16) << 8);
    }
}

} // verus!
