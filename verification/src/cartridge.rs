//! The cartridge: a ROM image with bank switching and optional battery RAM.
//! Header byte 0x148 gives the ROM bank count and byte 0x149 the RAM size;
//! writes to the ROM address range drive the bank-select decoder.

use vstd::prelude::*;

use crate::bitmath::lemma_mask_bound8;
use crate::bitmath::lemma_mask_bound16;

verus! {

pub struct Cartridge {
    /// An optional 256-byte boot image overlaying addresses 0x00-0xff.
    pub bios: Vec<u8>,
    pub rom: Vec<u8>,
    /// Number of 16 KiB ROM banks, from header byte 0x148.
    pub rom_banks: u8,
    /// High two bits of the selected ROM bank (or the RAM bank, by mode).
    pub rom_bank_number_hi: u8,
    /// Low five bits of the selected ROM bank.
    pub rom_bank_number_lo: u8,
    pub ram: Vec<u8>,
    pub ram_enable: bool,
    /// Banking mode: false selects ROM banking, true RAM banking.
    pub mode: bool,
}

/// The cartridge's state as contracts speak of it.
#[verifier::ext_equal]
pub struct CartV {
    pub bios: Seq<u8>,
    pub rom: Seq<u8>,
    pub rom_banks: u8,
    pub hi: u8,
    pub lo: u8,
    pub ram: Seq<u8>,
    pub ram_enable: bool,
    pub mode: bool,
}

impl View for Cartridge {
    type V = CartV;

    open spec fn view(&self) -> CartV {
        CartV {
            bios: self.bios@,
            rom: self.rom@,
            rom_banks: self.rom_banks,
            hi: self.rom_bank_number_hi,
            lo: self.rom_bank_number_lo,
            ram: self.ram@,
            ram_enable: self.ram_enable,
            mode: self.mode,
        }
    }
}

/// The ROM bank count encoded by header byte 0x148.
pub open spec fn spec_rom_banks(code: u8) -> u8 {
    if code == 0 {
        2u8
    } else if code == 1 {
        4u8
    } else if code == 2 {
        8u8
    } else if code == 3 {
        16u8
    } else if code == 4 {
        32u8
    } else if code == 5 {
        64u8
    } else {
        128u8
    }
}

/// The RAM byte count encoded by header byte 0x149.
pub open spec fn spec_ram_size(code: u8) -> int {
    if code == 0 {
        0int
    } else if code == 1 {
        2048int
    } else if code == 2 {
        8192int
    } else if code == 3 {
        32768int
    } else {
        131072int
    }
}

impl CartV {
    /// The bank counts are powers of two and the image covers every bank, so
    /// every banked read lands inside the image.
    pub open spec fn wf(self) -> bool {
        &&& (self.rom_banks == 2 || self.rom_banks == 4 || self.rom_banks == 8 || self.rom_banks
            == 16 || self.rom_banks == 32 || self.rom_banks == 64 || self.rom_banks == 128)
        &&& self.rom.len() >= 16384 * self.rom_banks
        &&& self.hi <= 3
        &&& self.lo <= 31
        &&& (self.bios.len() == 0 || self.bios.len() == 256)
    }

    /// Byte offset of the selected switchable ROM bank.
    pub open spec fn rom_offset(self) -> int {
        let bank = if self.mode {
            self.lo
        } else {
            (self.hi << 5) | self.lo
        };
        let bank = if bank == 0x00 || bank == 0x20 || bank == 0x40 || bank == 0x60 {
            (bank + 1) as u8
        } else {
            bank
        };
        16384 * ((bank & (self.rom_banks - 1) as u8) as int)
    }

    /// Byte offset of the selected RAM bank.
    pub open spec fn ram_offset(self) -> int {
        if self.mode {
            8192 * (self.hi as int)
        } else {
            0
        }
    }

    /// Index into cartridge RAM for a bus address in 0xa000-0xbfff.
    pub open spec fn ram_index(self, addr: u16) -> int {
        (addr & 0x1fff) + self.ram_offset()
    }

    /// A RAM access is in bounds. The RAM image may be smaller than the
    /// reachable banked range; an access beyond it indicates a simulation
    /// defect and is fatal.
    pub open spec fn ram_access_ok(self, addr: u16) -> bool {
        0xa000 <= addr <= 0xbfff && self.ram_enable ==> self.ram_index(addr) < self.ram.len()
    }

    /// What reading each cartridge address returns: the boot image while one
    /// is loaded, the fixed and the switchable ROM bank, enabled RAM, and
    /// 0xff elsewhere.
    pub open spec fn spec_read(self, addr: u16) -> u8 {
        if addr < 0x100 {
            if self.bios.len() > 0 {
                self.bios[addr as int]
            } else {
                self.rom[addr as int]
            }
        } else if addr <= 0x3fff {
            self.rom[addr as int]
        } else if addr <= 0x7fff {
            self.rom[(addr & 0x3fff) + self.rom_offset()]
        } else if 0xa000 <= addr <= 0xbfff {
            if !self.ram_enable {
                0xffu8
            } else {
                self.ram[self.ram_index(addr)]
            }
        } else {
            0xffu8
        }
    }

    /// The cartridge after a write: writes into the ROM range drive the
    /// bank-select decoder, writes into enabled RAM stick, and all others
    /// are ignored.
    pub open spec fn spec_write(self, addr: u16, v: u8) -> CartV {
        if addr <= 0x1fff {
            CartV { ram_enable: v & 0x0f == 0x0a, ..self }
        } else if addr <= 0x3fff {
            CartV { lo: v & 0x1f, ..self }
        } else if addr <= 0x5fff {
            CartV { hi: v & 0x03, ..self }
        } else if addr <= 0x7fff {
            CartV { mode: v & 0x01 != 0, ..self }
        } else if 0xa000 <= addr <= 0xbfff {
            if !self.ram_enable {
                self
            } else {
                CartV { ram: self.ram.update(self.ram_index(addr), v), ..self }
            }
        } else {
            self
        }
    }
}

impl Cartridge {
    /// Build a cartridge from a ROM image whose header describes its own
    /// banking geometry. An image with an unknown size code, or one shorter
    /// than its declared bank count, indicates a corrupt image and is left
    /// out as fatal.
    pub fn new(rom: Vec<u8>) -> (r: Cartridge)
        requires
            rom@.len() >= 0x150,
            rom@[0x148] <= 6,
            rom@[0x149] <= 4,
            rom@.len() >= 16384 * spec_rom_banks(rom@[0x148]),
        ensures
            r@ == (CartV {
                bios: Seq::<u8>::empty(),
                rom: rom@,
                rom_banks: spec_rom_banks(rom@[0x148]),
                hi: 0u8,
                lo: 0u8,
                ram: Seq::new(spec_ram_size(rom@[0x149]) as nat, |i: int| 0u8),
                ram_enable: false,
                mode: false,
            }),
            r@.wf(),
    {
        let ram_size: usize = match rom[0x0149] {
            0 => 0,
            1 => 2 * 1024,
            2 => 8 * 1024,
            3 => 32 * 1024,
            _ => 128 * 1024,
        };
        let rom_banks: u8 = match rom[0x0148] {
            0 => 2,
            1 => 4,
            2 => 8,
            3 => 16,
            4 => 32,
            5 => 64,
            _ => 128,
        };

        let mut ram: Vec<u8> = Vec::new();
        let mut i: usize = 0;
        while i < ram_size
            invariant
                i <= ram_size,
                ram@ =~= Seq::new(i as nat, |j: int| 0u8),
            decreases ram_size - i,
        {
            ram.push(0);
            i = i + 1;
            proof {
                assert(ram@ =~= Seq::new(i as nat, |j: int| 0u8));
            }
        }

        let r = Cartridge {
            bios: Vec::new(),
            rom,
            rom_banks,
            rom_bank_number_hi: 0,
            rom_bank_number_lo: 0,
            ram,
            ram_enable: false,
            mode: false,
        };
        proof {
            assert(r@ =~= (CartV {
                bios: Seq::<u8>::empty(),
                rom: r.rom@,
                rom_banks: spec_rom_banks(r.rom@[0x148]),
                hi: 0u8,
                lo: 0u8,
                ram: Seq::new(spec_ram_size(r.rom@[0x149]) as nat, |i: int| 0u8),
                ram_enable: false,
                mode: false,
            }));
        }
        r
    }

    /// Overlay a 256-byte boot image over the bottom of the ROM.
    pub fn load_bios(&mut self, bios: Vec<u8>)
        requires
            bios@.len() == 256,
        ensures
            final(self)@ == (CartV { bios: bios@, ..old(self)@ }),
            old(self)@.wf() ==> final(self)@.wf(),
    {
        self.bios = bios;
        proof {
            assert(self@ =~= (CartV { bios: self.bios@, ..old(self)@ }));
        }
    }

    fn rom_offset(&self) -> (r: usize)
        requires
            self@.wf(),
        ensures
            r == self@.rom_offset(),
            r + 16384 <= self@.rom.len(),
    {
        let bank_number = if self.mode {
            self.rom_bank_number_lo
        } else {
            self.rom_bank_number_hi << 5 | self.rom_bank_number_lo
        };
        let bank_number = match bank_number {
            0x00 | 0x20 | 0x40 | 0x60 => bank_number + 1,
            _ => bank_number,
        };
        proof {
            lemma_mask_bound8(bank_number, (self.rom_banks - 1) as u8);
        }
        16384 * ((bank_number & (self.rom_banks - 1)) as usize)
    }

    pub fn read_byte(&self, addr: u16) -> (r: u8)
        requires
            self@.wf(),
            self@.ram_access_ok(addr),
        ensures
            r == self@.spec_read(addr),
    {
        proof {
            lemma_mask_bound16(addr, 0x3fff);
            lemma_mask_bound16(addr, 0x1fff);
        }
        match addr {
            0x0000..=0x00ff => {
                if self.bios.len() > 0 {
                    return self.bios[addr as usize];
                }
                self.rom[addr as usize]
            },
            0x0100..=0x3fff => self.rom[addr as usize],
            0x4000..=0x7fff => self.rom[(addr & 0x3fff) as usize + self.rom_offset()],
            0xa000..=0xbfff => {
                if !self.ram_enable {
                    return 0xff;
                }
                self.ram[(addr & 0x1fff) as usize + self.ram_offset()]
            },
            _ => 0xff,
        }
    }

    pub fn write_byte(&mut self, addr: u16, v: u8)
        requires
            old(self)@.wf(),
            old(self)@.ram_access_ok(addr),
        ensures
            final(self)@ == old(self)@.spec_write(addr, v),
            final(self)@.wf(),
    {
        proof {
            lemma_mask_bound16(addr, 0x1fff);
            lemma_mask_bound8(v, 0x03);
            lemma_mask_bound8(v, 0x1f);
        }
        match addr {
            // RAM enable
            0x0000..=0x1fff => self.ram_enable = v & 0x0f == 0x0a,
            // ROM bank number (lower 5 bits)
            0x2000..=0x3fff => self.rom_bank_number_lo = v & 0x1f,
            // RAM bank number or ROM bank number (higher 2 bits)
            0x4000..=0x5fff => self.rom_bank_number_hi = v & 0x03,
            // ROM/RAM mode (0=ROM, 1=RAM)
            0x6000..=0x7fff => self.mode = v & 0x01 != 0,
            // RAM bank 00-03
            0xa000..=0xbfff => {
                if !self.ram_enable {
                    proof {
                        assert(self@ =~= old(self)@.spec_write(addr, v));
                    }
                    return ;
                }
                let offset = self.ram_offset();
                self.ram.set((addr & 0x1fff) as usize + offset, v);
            },
            _ => (),
        }
        proof {
            assert(self@ =~= old(self)@.spec_write(addr, v));
        }
    }

    fn ram_offset(&self) -> (r: usize)
        requires
            self@.wf(),
        ensures
            r == self@.ram_offset(),
    {
        if self.mode {
            8192 * (self.rom_bank_number_hi as usize)
        } else {
            0
        }
    }
}

} // verus!
