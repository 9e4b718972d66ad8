//! The sound unit's register file: four channels, master volume, channel
//! routing and the master enable. Only register storage is simulated, as the
//! bus needs it; no waveform is ever generated.

pub mod noise;
pub mod square;
pub mod wave;

use vstd::prelude::*;

use crate::apu::noise::Noise;
use crate::apu::square::Square;
use crate::apu::wave::Wave;

verus! {

/// One side's master volume: a level and the external-input mix bit.
#[derive(Clone, Copy, PartialEq, Eq, Structural, Debug)]
pub struct MasterVolume {
    pub vin: bool,
    pub level: u8,
}

impl MasterVolume {
    pub fn new() -> (r: MasterVolume)
        ensures
            r == (MasterVolume { vin: false, level: 0u8 }),
    {
        MasterVolume { vin: false, level: 0 }
    }
}

pub struct APU {
    pub channel1: Square,
    pub channel2: Square,
    pub channel3: Wave,
    pub channel4: Noise,
    pub left_volume: MasterVolume,
    /// Channels mixed into the left output, one bit each (low four bits).
    pub left_output: u8,
    pub right_volume: MasterVolume,
    /// Channels mixed into the right output, one bit each (low four bits).
    pub right_output: u8,
    pub enable: bool,
}

/// The sound register addresses the unit maps. Accesses to any other address
/// in the sound range indicate a simulation defect and are fatal.
pub open spec fn apu_mapped(addr: u16) -> bool {
    ||| 0xff10 <= addr <= 0xff14
    ||| 0xff16 <= addr <= 0xff1b
    ||| 0xff20 <= addr <= 0xff26
}

/// The sound unit's power-on state.
pub open spec fn initial_apu() -> APU {
    APU {
            channel1: (Square {
                status: false,
                use_length: false,
                frequency: 0u16,
                volume: 0u8,
                increase: false,
                length: 0u8,
                wave_duty: 0u8,
                sound_length: 0u8,
                sweep_time: 0u8,
                sweep_increase: false,
                sweep_shift: 0u8,
            }),
            channel2: (Square {
                status: false,
                use_length: false,
                frequency: 0u16,
                volume: 0u8,
                increase: false,
                length: 0u8,
                wave_duty: 0u8,
                sound_length: 0u8,
                sweep_time: 0u8,
                sweep_increase: false,
                sweep_shift: 0u8,
            }),
            channel3: (Wave { status: false, length: 0u8 }),
            channel4: (Noise {
                status: false,
                use_length: false,
                polynomial_frequency: 0u8,
                polynomial_width: false,
                polynomial_ratio: 0u8,
                volume: 0u8,
                increase: false,
                length: 0u8,
                sound_length: 0u8,
            }),
            left_volume: (MasterVolume { vin: false, level: 0u8 }),
            left_output: 0u8,
            right_volume: (MasterVolume { vin: false, level: 0u8 }),
            right_output: 0u8,
            enable: false,
    }
}

impl APU {
    /// What reading each mapped sound register returns; the two write-only
    /// frequency registers read as 0xff.
    pub open spec fn spec_read(self, addr: u16) -> u8 {
        if addr == 0xff10 {
            self.channel1.spec_nr_x0()
        } else if addr == 0xff11 {
            self.channel1.spec_nr_x1()
        } else if addr == 0xff12 {
            self.channel1.spec_nr_x2()
        } else if addr == 0xff13 {
            0xffu8
        } else if addr == 0xff14 {
            self.channel1.spec_nr_x4()
        } else if addr == 0xff16 {
            self.channel2.spec_nr_x1()
        } else if addr == 0xff17 {
            self.channel2.spec_nr_x2()
        } else if addr == 0xff18 {
            0xffu8
        } else if addr == 0xff19 {
            self.channel2.spec_nr_x4()
        } else if addr == 0xff1a {
            self.channel3.spec_nr_x0()
        } else if addr == 0xff1b {
            self.channel3.length
        } else if addr == 0xff20 {
            self.channel4.sound_length
        } else if addr == 0xff21 {
            self.channel4.spec_nr_x2()
        } else if addr == 0xff22 {
            self.channel4.spec_nr_x3()
        } else if addr == 0xff23 {
            self.channel4.spec_nr_x4()
        } else if addr == 0xff24 {
            (if self.left_volume.vin {
                0x80u8
            } else {
                0u8
            }) | (self.left_volume.level << 4) | (if self.right_volume.vin {
                0x08u8
            } else {
                0u8
            }) | self.right_volume.level
        } else if addr == 0xff25 {
            (self.left_output << 4) | self.right_output
        } else {
            (if self.enable {
                0x80u8
            } else {
                0u8
            }) | (if self.channel4.status {
                0x08u8
            } else {
                0u8
            }) | (if self.channel3.status {
                0x04u8
            } else {
                0u8
            }) | (if self.channel2.status {
                0x02u8
            } else {
                0u8
            }) | (if self.channel1.status {
                0x01u8
            } else {
                0u8
            })
        }
    }

    /// The unit after a write to a mapped sound register. Disabling the
    /// master enable also rewrites the channel status bits and clears the
    /// routing registers.
    pub open spec fn spec_write(self, addr: u16, v: u8) -> APU {
        if addr == 0xff10 {
            APU { channel1: self.channel1.spec_write_nr_x0(v), ..self }
        } else if addr == 0xff11 {
            APU { channel1: self.channel1.spec_write_nr_x1(v), ..self }
        } else if addr == 0xff12 {
            APU { channel1: self.channel1.spec_write_nr_x2(v), ..self }
        } else if addr == 0xff13 {
            APU { channel1: self.channel1.spec_write_nr_x3(v), ..self }
        } else if addr == 0xff14 {
            APU { channel1: self.channel1.spec_write_nr_x4(v), ..self }
        } else if addr == 0xff16 {
            APU { channel2: self.channel2.spec_write_nr_x1(v), ..self }
        } else if addr == 0xff17 {
            APU { channel2: self.channel2.spec_write_nr_x2(v), ..self }
        } else if addr == 0xff18 {
            APU { channel2: self.channel2.spec_write_nr_x3(v), ..self }
        } else if addr == 0xff19 {
            APU { channel2: self.channel2.spec_write_nr_x4(v), ..self }
        } else if addr == 0xff1a {
            APU { channel3: self.channel3.spec_write_nr_x0(v), ..self }
        } else if addr == 0xff1b {
            APU { channel3: self.channel3.spec_write_nr_x1(v), ..self }
        } else if addr == 0xff20 {
            APU { channel4: self.channel4.spec_write_nr_x1(v), ..self }
        } else if addr == 0xff21 {
            APU { channel4: self.channel4.spec_write_nr_x2(v), ..self }
        } else if addr == 0xff22 {
            APU { channel4: self.channel4.spec_write_nr_x3(v), ..self }
        } else if addr == 0xff23 {
            APU { channel4: self.channel4.spec_write_nr_x4(v), ..self }
        } else if addr == 0xff24 {
            APU {
                left_volume: MasterVolume { vin: v & 0x80 != 0, level: (v & 0x70) >> 4 },
                right_volume: MasterVolume { vin: v & 0x08 != 0, level: v & 0x07 },
                ..self
            }
        } else if addr == 0xff25 {
            APU { left_output: (v >> 4) & 0x0f, right_output: v & 0x0f, ..self }
        } else {
            if v & 0x80 != 0 {
                APU { enable: true, ..self }
            } else {
                APU {
                    enable: false,
                    channel1: Square { status: v & 0x01 != 0, ..self.channel1 },
                    channel2: Square { status: v & 0x02 != 0, ..self.channel2 },
                    channel3: Wave { status: v & 0x04 != 0, ..self.channel3 },
                    channel4: Noise { status: v & 0x08 != 0, ..self.channel4 },
                    left_output: 0u8,
                    right_output: 0u8,
                    ..self
                }
            }
        }
    }

    pub fn new() -> (r: APU)
        ensures
            r == initial_apu(),
    {
        APU {
            channel1: Square::new(),
            channel2: Square::new(),
            channel3: Wave::new(),
            channel4: Noise::new(),
            left_volume: MasterVolume::new(),
            left_output: 0,
            right_volume: MasterVolume::new(),
            right_output: 0,
            enable: false,
        }
    }

    pub fn read_byte(&self, addr: u16) -> (r: u8)
        requires
            apu_mapped(addr),
        ensures
            r == self.spec_read(addr),
    {
        match addr {
            0xff10 => self.channel1.read_nr_x0(),
            0xff11 => self.channel1.read_nr_x1(),
            0xff12 => self.channel1.read_nr_x2(),
            0xff13 => 0xff,  // write only
            0xff14 => self.channel1.read_nr_x4(),
            0xff16 => self.channel2.read_nr_x1(),
            0xff17 => self.channel2.read_nr_x2(),
            0xff18 => 0xff,  // write only
            0xff19 => self.channel2.read_nr_x4(),
            0xff1a => self.channel3.read_nr_x0(),
            0xff1b => self.channel3.read_nr_x1(),
            0xff20 => self.channel4.read_nr_x1(),
            0xff21 => self.channel4.read_nr_x2(),
            0xff22 => self.channel4.read_nr_x3(),
            0xff23 => self.channel4.read_nr_x4(),
            0xff24 => {
                (if self.left_volume.vin {
                    0x80
                } else {
                    0x00
                }) | (self.left_volume.level << 4) | (if self.right_volume.vin {
                    0x08
                } else {
                    0x00
                }) | self.right_volume.level
            },
            0xff25 => (self.left_output << 4) | self.right_output,
            _ => {
                (if self.enable {
                    0x80
                } else {
                    0
                }) | (if self.channel4.status {
                    0b_1000
                } else {
                    0
                }) | (if self.channel3.status {
                    0b_0100
                } else {
                    0
                }) | (if self.channel2.status {
                    0b_0010
                } else {
                    0
                }) | (if self.channel1.status {
                    0b_0001
                } else {
                    0
                })
            },
        }
    }

    pub fn write_byte(&mut self, addr: u16, v: u8)
        requires
            apu_mapped(addr),
        ensures
            *final(self) == old(self).spec_write(addr, v),
    {
        match addr {
            0xff10 => self.channel1.write_nr_x0(v),
            0xff11 => self.channel1.write_nr_x1(v),
            0xff12 => self.channel1.write_nr_x2(v),
            0xff13 => self.channel1.write_nr_x3(v),
            0xff14 => self.channel1.write_nr_x4(v),
            0xff16 => self.channel2.write_nr_x1(v),
            0xff17 => self.channel2.write_nr_x2(v),
            0xff18 => self.channel2.write_nr_x3(v),
            0xff19 => self.channel2.write_nr_x4(v),
            0xff1a => self.channel3.write_nr_x0(v),
            0xff1b => self.channel3.write_nr_x1(v),
            0xff20 => self.channel4.write_nr_x1(v),
            0xff21 => self.channel4.write_nr_x2(v),
            0xff22 => self.channel4.write_nr_x3(v),
            0xff23 => self.channel4.write_nr_x4(v),
            0xff24 => {
                self.left_volume = MasterVolume { vin: v & 0x80 != 0, level: (v & 0x70) >> 4 };
                self.right_volume = MasterVolume { vin: v & 0x08 != 0, level: v & 0x07 };
            },
            0xff25 => {
                self.left_output = (v >> 4) & 0x0f;
                self.right_output = v & 0x0f;
            },
            _ => {
                self.enable = v & 0x80 != 0;
                if !self.enable {
                    self.channel4.status = v & 0b_1000 != 0;
                    self.channel3.status = v & 0b_0100 != 0;
                    self.channel2.status = v & 0b_0010 != 0;
                    self.channel1.status = v & 0b_0001 != 0;
                    self.right_output = 0;
                    self.left_output = 0;
                }
            },
        }
    }
}

} // verus!
