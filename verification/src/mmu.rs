//! The memory bus: owns working RAM, high RAM and the devices, routes every
//! byte access by address range, performs the sprite-table copy, and, when
//! run, advances the timer and the pixel unit and latches their interrupt
//! requests into the interrupt-flag register.
//!
//! Unmapped addresses read 0xff and ignore writes. A small set of registers
//! is neither mapped nor tolerated; accessing one indicates a simulation
//! defect and is fatal, so such accesses are left outside the contracts.

use vstd::prelude::*;

use crate::apu::apu_mapped;
use crate::apu::APU;
use crate::cartridge::CartV;
use crate::cartridge::Cartridge;
use crate::joypad::JoyPad;
use crate::ppu::ppu_write_mapped;
use crate::ppu::PpuV;
use crate::ppu::PPU;
use crate::serial::Serial;
use crate::timer::Timer;

verus! {

/// One of the five interrupt sources, highest priority first.
#[derive(Clone, Copy, PartialEq, Eq, Structural, Debug)]
pub enum IntSource {
    VBlank,
    LcdStat,
    Timer,
    Serial,
    Joypad,
}

impl IntSource {
    /// The bit this source occupies in the two interrupt registers.
    pub open spec fn spec_mask(self) -> u8 {
        match self {
            IntSource::VBlank => 0x01,
            IntSource::LcdStat => 0x02,
            IntSource::Timer => 0x04,
            IntSource::Serial => 0x08,
            IntSource::Joypad => 0x10,
        }
    }

    pub fn mask(self) -> (m: u8)
        ensures
            m == self.spec_mask(),
    {
        match self {
            IntSource::VBlank => 0x01,
            IntSource::LcdStat => 0x02,
            IntSource::Timer => 0x04,
            IntSource::Serial => 0x08,
            IntSource::Joypad => 0x10,
        }
    }

    /// The fixed address the CPU jumps to when servicing this source.
    pub open spec fn spec_vector(self) -> u16 {
        match self {
            IntSource::VBlank => 0x0040,
            IntSource::LcdStat => 0x0048,
            IntSource::Timer => 0x0050,
            IntSource::Serial => 0x0080,
            IntSource::Joypad => 0x0070,
        }
    }

    pub fn vector(self) -> (a: u16)
        ensures
            a == self.spec_vector(),
    {
        match self {
            IntSource::VBlank => 0x0040,
            IntSource::LcdStat => 0x0048,
            IntSource::Timer => 0x0050,
            IntSource::Serial => 0x0080,
            IntSource::Joypad => 0x0070,
        }
    }
}

/// A set of interrupt sources: the shape of the interrupt-enable and
/// interrupt-flag registers. Only the low five bits are ever set.
#[derive(Clone, Copy, PartialEq, Eq, Structural, Debug)]
pub struct Interrupt {
    pub bits: u8,
}

impl Interrupt {
    pub open spec fn wf(self) -> bool {
        self.bits & 0xe0 == 0
    }

    pub open spec fn spec_contains(self, s: IntSource) -> bool {
        self.bits & s.spec_mask() != 0
    }

    pub open spec fn spec_assign(self, s: IntSource, v: bool) -> Interrupt {
        if v {
            Interrupt { bits: self.bits | s.spec_mask() }
        } else {
            Interrupt { bits: self.bits & !s.spec_mask() }
        }
    }

    pub fn empty() -> (r: Interrupt)
        ensures
            r.bits == 0,
            r.wf(),
    {
        proof {
            lemma_int_bits();
        }
        Interrupt { bits: 0 }
    }

    /// Keeps the five interrupt bits of `v` and drops the rest.
    pub fn from_bits_truncate(v: u8) -> (r: Interrupt)
        ensures
            r.bits == v & 0x1f,
            r.wf(),
    {
        proof {
            lemma_int_bits();
        }
        Interrupt { bits: v & 0x1f }
    }

    pub fn bits(&self) -> (r: u8)
        ensures
            r == self.bits,
    {
        self.bits
    }

    pub fn contains(&self, s: IntSource) -> (r: bool)
        ensures
            r == self.spec_contains(s),
    {
        self.bits & s.mask() != 0
    }

    pub fn assign(&mut self, s: IntSource, v: bool)
        ensures
            *final(self) == old(self).spec_assign(s, v),
            old(self).wf() ==> final(self).wf(),
    {
        proof {
            lemma_int_bits();
        }
        if v {
            self.bits = self.bits | s.mask();
        } else {
            self.bits = self.bits & !s.mask();
        }
    }
}

/// Setting or clearing an interrupt bit keeps the unused high bits zero.
proof fn lemma_int_bits()
    by (bit_vector)
    ensures
        forall|b: u8, m: u8|
            b & 0xe0 == 0 && (m == 0x01 || m == 0x02 || m == 0x04 || m == 0x08 || m == 0x10)
                ==> (#[trigger] (b | m)) & 0xe0 == 0,
        forall|b: u8, m: u8|
            b & 0xe0 == 0 && (m == 0x01 || m == 0x02 || m == 0x04 || m == 0x08 || m == 0x10)
                ==> (#[trigger] (b & !m)) & 0xe0 == 0,
        forall|v: u8| (#[trigger] (v & 0x1f)) & 0xe0 == 0,
        0u8 & 0xe0 == 0,
{
}

/// Bit facts the bus routing relies on.
proof fn lemma_bus_bits()
    by (bit_vector)
    ensures
        forall|addr: u16| (#[trigger] (addr & 0x1fff)) < 8192,
        forall|addr: u16| (#[trigger] (addr & 0x7f)) < 128,
        forall|addr: u16|
            0xa000 <= addr <= 0xbfff ==> (#[trigger] (addr & 0x1fff)) == addr - 0xa000,
        forall|addr: u16|
            0xc000 <= addr <= 0xdfff ==> (#[trigger] (addr & 0x1fff)) == addr - 0xc000,
        forall|addr: u16|
            0xff80 <= addr <= 0xffff ==> (#[trigger] (addr & 0x7f)) == addr - 0xff80,
        forall|v: u8| (#[trigger] ((v as u16) << 8)) == v * 256,
{
}

pub struct MMU {
    pub cartridge: Cartridge,
    pub wram: Vec<u8>,
    pub hram: Vec<u8>,
    pub ppu: PPU,
    pub apu: APU,
    pub interrupt_enable: Interrupt,
    pub interrupt_flag: Interrupt,
    pub serial: Serial,
    pub timer: Timer,
    pub joypad: JoyPad,
}

/// The bus's state as contracts speak of it: the two interrupt registers
/// appear as their raw five-bit values.
#[verifier::ext_equal]
pub struct MmuV {
    pub cartridge: CartV,
    pub wram: Seq<u8>,
    pub hram: Seq<u8>,
    pub ppu: PpuV,
    pub apu: APU,
    pub interrupt_enable: u8,
    pub interrupt_flag: u8,
    pub serial: Serial,
    pub timer: Timer,
    pub joypad: JoyPad,
}

impl View for MMU {
    type V = MmuV;

    open spec fn view(&self) -> MmuV {
        MmuV {
            cartridge: self.cartridge@,
            wram: self.wram@,
            hram: self.hram@,
            ppu: self.ppu@,
            apu: self.apu,
            interrupt_enable: self.interrupt_enable.bits,
            interrupt_flag: self.interrupt_flag.bits,
            serial: self.serial,
            timer: self.timer,
            joypad: self.joypad,
        }
    }
}

impl MmuV {
    pub open spec fn wf(self) -> bool {
        &&& self.cartridge.wf()
        &&& self.wram.len() == 8192
        &&& self.hram.len() == 128
        &&& self.ppu.wf()
        &&& self.timer.wf()
        &&& self.interrupt_enable & 0xe0 == 0
        &&& self.interrupt_flag & 0xe0 == 0
    }

    /// Reading this address aborts the simulation: the boot-disable
    /// register, an unmapped sound register, or a cartridge RAM access
    /// beyond the RAM image.
    pub open spec fn fatal_read(self, addr: u16) -> bool {
        ||| addr == 0xff50
        ||| (0xff10 <= addr <= 0xff3f && !apu_mapped(addr))
        ||| !self.cartridge.ram_access_ok(addr)
    }

    /// Starting the sprite-table copy from page `v` would read a fatal
    /// address: page 0xff overlaps the fatal registers, and a cartridge RAM
    /// page may run past the RAM image.
    pub open spec fn dma_fatal(self, v: u8) -> bool {
        ||| v == 0xff
        ||| (0xa0 <= v <= 0xbf && !self.cartridge.ram_access_ok((v as int * 256 + 159) as u16))
    }

    /// Writing this address aborts the simulation.
    pub open spec fn fatal_write(self, addr: u16, v: u8) -> bool {
        ||| addr == 0xff50
        ||| (0xff10 <= addr <= 0xff3f && !apu_mapped(addr))
        ||| !self.cartridge.ram_access_ok(addr)
        ||| (addr == 0xff46 && self.dma_fatal(v))
    }

    /// What reading each bus address returns, by the memory map.
    #[verifier::opaque]
    pub open spec fn spec_read(self, addr: u16) -> u8 {
        if addr <= 0x7fff {
            self.cartridge.spec_read(addr)
        } else if addr <= 0x9fff {
            self.ppu.spec_read(addr)
        } else if addr <= 0xbfff {
            self.cartridge.spec_read(addr)
        } else if addr <= 0xdfff {
            self.wram[(addr & 0x1fff) as int]
        } else if addr <= 0xfdff {
            self.wram[(((addr - 0x2000) as u16) & 0x1fff) as int]
        } else if addr <= 0xfe9f {
            self.ppu.spec_read(addr)
        } else if addr <= 0xfeff {
            0xffu8
        } else if addr == 0xff00 {
            self.joypad.spec_read()
        } else if 0xff01 <= addr <= 0xff02 {
            self.serial.spec_read(addr)
        } else if 0xff04 <= addr <= 0xff07 {
            self.timer.spec_read(addr)
        } else if addr == 0xff0f {
            self.interrupt_flag
        } else if apu_mapped(addr) {
            self.apu.spec_read(addr)
        } else if 0xff40 <= addr <= 0xff45 || 0xff47 <= addr <= 0xff4b {
            self.ppu.spec_read(addr)
        } else if 0xff80 <= addr <= 0xfffe {
            self.hram[(addr & 0x7f) as int]
        } else if addr == 0xffff {
            self.interrupt_enable
        } else {
            0xffu8
        }
    }

    /// The bus after a write anywhere but the sprite-copy trigger.
    #[verifier::opaque]
    pub open spec fn spec_write_plain(self, addr: u16, v: u8) -> MmuV {
        if addr <= 0x7fff {
            MmuV { cartridge: self.cartridge.spec_write(addr, v), ..self }
        } else if addr <= 0x9fff {
            MmuV { ppu: self.ppu.spec_write(addr, v), ..self }
        } else if addr <= 0xbfff {
            MmuV { cartridge: self.cartridge.spec_write(addr, v), ..self }
        } else if addr <= 0xdfff {
            MmuV { wram: self.wram.update((addr & 0x1fff) as int, v), ..self }
        } else if addr <= 0xfdff {
            MmuV { wram: self.wram.update((((addr - 0x2000) as u16) & 0x1fff) as int, v), ..self }
        } else if addr <= 0xfe9f {
            MmuV { ppu: self.ppu.spec_write(addr, v), ..self }
        } else if addr <= 0xfeff {
            self
        } else if addr == 0xff00 {
            MmuV { joypad: (JoyPad { register: (self.joypad.register & 0xcf) | (v & 0x30), ..self.joypad }), ..self }
        } else if 0xff01 <= addr <= 0xff02 {
            MmuV { serial: self.serial.spec_write(addr, v), ..self }
        } else if 0xff04 <= addr <= 0xff07 {
            MmuV { timer: self.timer.spec_write(addr, v), ..self }
        } else if addr == 0xff0f {
            MmuV { interrupt_flag: v & 0x1f, ..self }
        } else if apu_mapped(addr) {
            MmuV { apu: self.apu.spec_write(addr, v), ..self }
        } else if 0xff40 <= addr <= 0xff45 || 0xff47 <= addr <= 0xff4b {
            MmuV { ppu: self.ppu.spec_write(addr, v), ..self }
        } else if 0xff80 <= addr <= 0xfffe {
            MmuV { hram: self.hram.update((addr & 0x7f) as int, v), ..self }
        } else if addr == 0xffff {
            MmuV { interrupt_enable: v & 0x1f, ..self }
        } else {
            self
        }
    }

    /// The bus after the first `i` bytes of the sprite-table copy from page
    /// `v`: each byte is read through the bus and written into the sprite
    /// table as ordinary bus traffic.
    pub open spec fn spec_dma(self, v: u8, i: nat) -> MmuV
        decreases i,
    {
        if i == 0 {
            self
        } else {
            let prev = self.spec_dma(v, (i - 1) as nat);
            prev.spec_write_plain(
                (0xfe00 + i - 1) as u16,
                prev.spec_read((v as int * 256 + i - 1) as u16),
            )
        }
    }

    /// The bus after any write: the sprite-copy trigger copies 160 bytes,
    /// every other address writes plainly.
    pub open spec fn spec_write(self, addr: u16, v: u8) -> MmuV {
        if addr == 0xff46 {
            self.spec_dma(v, 160)
        } else {
            self.spec_write_plain(addr, v)
        }
    }

    /// The bus after `ticks` cycles: the pixel unit and the timer advance,
    /// then each one-shot interrupt request they raised is latched into the
    /// interrupt-flag register and cleared at its source.
    pub open spec fn spec_run(self, ticks: u32) -> MmuV {
        let p = self.ppu.spec_run(ticks);
        let t = self.timer.spec_run(ticks);
        let f1 = if p.int_vblank {
            self.interrupt_flag | 0x01
        } else {
            self.interrupt_flag
        };
        let f2 = if p.int_lcdc {
            f1 | 0x02
        } else {
            f1
        };
        let f3 = if t.interrupt {
            f2 | 0x04
        } else {
            f2
        };
        MmuV {
            ppu: (PpuV { int_vblank: false, int_lcdc: false, ..p }),
            timer: (Timer { interrupt: false, ..t }),
            interrupt_flag: f3,
            ..self
        }
    }
}


/// The bus's power-on state for a given ROM image.
pub open spec fn initial_mmu(rom: Seq<u8>) -> MmuV {
    MmuV {
        cartridge: (CartV {
            bios: Seq::<u8>::empty(),
            rom: rom,
            rom_banks: crate::cartridge::spec_rom_banks(rom[0x148]),
            hi: 0u8,
            lo: 0u8,
            ram: Seq::new(crate::cartridge::spec_ram_size(rom[0x149]) as nat, |i: int| 0u8),
            ram_enable: false,
            mode: false,
        }),
        wram: Seq::new(8192, |i: int| 0u8),
        hram: Seq::new(128, |i: int| 0u8),
        ppu: crate::ppu::initial_ppu(),
        apu: crate::apu::initial_apu(),
        interrupt_enable: 0u8,
        interrupt_flag: 0u8,
        serial: (Serial { data: 0u8, control: 0u8 }),
        timer: (Timer {
            divider: 0u8,
            counter: 0u8,
            modulo: 0u8,
            start: false,
            step: 1024u32,
            cnt: 0u32,
            div: 0u32,
            interrupt: false,
        }),
        joypad: (JoyPad { register: 0xffu8, input: 0xffu8 }),
    }
}


impl MMU {
    pub fn new(rom: Vec<u8>) -> (r: MMU)
        requires
            rom@.len() >= 0x150,
            rom@[0x148] <= 6,
            rom@[0x149] <= 4,
            rom@.len() >= 16384 * crate::cartridge::spec_rom_banks(rom@[0x148]),
        ensures
            r@ == initial_mmu(rom@),
            r@.wf(),
    {
        let r = MMU {
            cartridge: Cartridge::new(rom),
            wram: crate::ppu::filled_vec_u8(8192, 0),
            hram: crate::ppu::filled_vec_u8(128, 0),
            ppu: PPU::new(),
            apu: APU::new(),
            interrupt_enable: Interrupt::empty(),
            interrupt_flag: Interrupt::empty(),
            serial: Serial::new(),
            timer: Timer::new(),
            joypad: JoyPad::new(),
        };
        proof {
            assert(r@.wram =~= Seq::new(8192, |i: int| 0u8));
            assert(r@.hram =~= Seq::new(128, |i: int| 0u8));
            assert(r@ =~= initial_mmu(r.cartridge.rom@));
        }
        r
    }

    /// Whether reading `addr` would abort the simulation. The CPU tests
    /// this before every bus read it makes on the guest's behalf.
    pub fn read_fault(&self, addr: u16) -> (r: bool)
        requires
            self@.wf(),
        ensures
            r == self@.fatal_read(addr),
    {
        if addr == 0xff50 {
            return true;
        }
        if 0xff10 <= addr && addr <= 0xff3f {
            let mapped = (0xff10 <= addr && addr <= 0xff14) || (0xff16 <= addr && addr <= 0xff1b)
                || (0xff20 <= addr && addr <= 0xff26);
            if !mapped {
                return true;
            }
        }
        if 0xa000 <= addr && addr <= 0xbfff && self.cartridge.ram_enable {
            proof {
                lemma_bus_bits();
            }
            let offset: usize = if self.cartridge.mode {
                8192 * (self.cartridge.rom_bank_number_hi as usize)
            } else {
                0
            };
            let idx = (addr & 0x1fff) as usize + offset;
            if idx >= self.cartridge.ram.len() {
                return true;
            }
        }
        false
    }

    /// Whether writing `v` to `addr` would abort the simulation.
    pub fn write_fault(&self, addr: u16, v: u8) -> (r: bool)
        requires
            self@.wf(),
        ensures
            r == self@.fatal_write(addr, v),
    {
        if self.read_fault(addr) {
            return true;
        }
        if addr == 0xff46 {
            if v == 0xff {
                return true;
            }
            if 0xa0 <= v && v <= 0xbf && self.cartridge.ram_enable {
                proof {
                    lemma_bus_bits();
                }
                let offset: usize = if self.cartridge.mode {
                    8192 * (self.cartridge.rom_bank_number_hi as usize)
                } else {
                    0
                };
                let src: u16 = (v as u16) * 256 + 159;
                let idx = (src & 0x1fff) as usize + offset;
                if idx >= self.cartridge.ram.len() {
                    return true;
                }
            }
        }
        false
    }

    pub fn read_byte(&self, addr: u16) -> (r: u8)
        requires
            self@.wf(),
            !self@.fatal_read(addr),
        ensures
            r == self@.spec_read(addr),
    {
        proof {
            lemma_bus_bits();
            reveal(MmuV::spec_read);
        }
        match addr {
            0x0000..=0x7fff => self.cartridge.read_byte(addr),
            0x8000..=0x9fff => self.ppu.read_byte(addr),
            0xa000..=0xbfff => self.cartridge.read_byte(addr),
            0xc000..=0xdfff => self.wram[(addr & 0x1fff) as usize],
            0xe000..=0xfdff => self.wram[((addr - 0x2000) & 0x1fff) as usize],
            0xfe00..=0xfe9f => self.ppu.read_byte(addr),
            0xfea0..=0xfeff => 0xff,  // unused
            0xff00 => self.joypad.read_byte(addr),
            0xff01..=0xff02 => self.serial.read_byte(addr),
            0xff04..=0xff07 => self.timer.read_byte(addr),
            0xff0f => self.interrupt_flag.bits(),
            0xff10..=0xff3f => self.apu.read_byte(addr),
            0xff40..=0xff45 | 0xff47..=0xff4b => self.ppu.read_byte(addr),
            0xff46 => 0xff,
            0xff80..=0xfffe => self.hram[(addr & 0x7f) as usize],
            0xffff => self.interrupt_enable.bits(),
            _ => 0xff,  // tolerated unmapped registers
        }
    }

    fn write_plain(&mut self, addr: u16, v: u8)
        requires
            old(self)@.wf(),
            !old(self)@.fatal_write(addr, v),
            addr != 0xff46,
        ensures
            final(self)@ == old(self)@.spec_write_plain(addr, v),
            final(self)@.wf(),
    {
        proof {
            lemma_bus_bits();
            lemma_int_bits();
            reveal(MmuV::spec_write_plain);
        }
        match addr {
            0x0000..=0x7fff => self.cartridge.write_byte(addr, v),
            0x8000..=0x9fff => self.ppu.write_byte(addr, v),
            0xa000..=0xbfff => self.cartridge.write_byte(addr, v),
            0xc000..=0xdfff => {
                self.wram.set((addr & 0x1fff) as usize, v);
            },
            0xe000..=0xfdff => {
                self.wram.set(((addr - 0x2000) & 0x1fff) as usize, v);
            },
            0xfe00..=0xfe9f => self.ppu.write_byte(addr, v),
            0xfea0..=0xfeff => (),  // unused
            0xff00 => self.joypad.write_byte(addr, v),
            0xff01..=0xff02 => self.serial.write_byte(addr, v),
            0xff04..=0xff07 => self.timer.write_byte(addr, v),
            0xff0f => self.interrupt_flag = Interrupt::from_bits_truncate(v),
            0xff10..=0xff3f => self.apu.write_byte(addr, v),
            0xff40..=0xff45 | 0xff47..=0xff4b => self.ppu.write_byte(addr, v),
            0xff80..=0xfffe => {
                self.hram.set((addr & 0x7f) as usize, v);
            },
            0xffff => self.interrupt_enable = Interrupt::from_bits_truncate(v),
            _ => (),  // tolerated unmapped registers
        }
        proof {
            assert(self@ =~= old(self)@.spec_write_plain(addr, v));
        }
    }

    /// Copy 160 bytes from page `v` into the sprite table, byte by byte,
    /// as ordinary bus traffic.
    fn dma_transfer(&mut self, v: u8)
        requires
            old(self)@.wf(),
            !old(self)@.dma_fatal(v),
        ensures
            final(self)@ == old(self)@.spec_dma(v, 160),
            final(self)@.wf(),
    {
        proof {
            lemma_bus_bits();
        }
        let src: u16 = (v as u16) << 8;
        let mut i: u16 = 0;
        while i < 160
            invariant
                i <= 160,
                src == v as int * 256,
                self@ == old(self)@.spec_dma(v, i as nat),
                self@.wf(),
                self@.cartridge == old(self)@.cartridge,
                !old(self)@.dma_fatal(v),
            decreases 160 - i,
        {
            proof {
                lemma_bus_bits();
                reveal(MmuV::spec_write_plain);
                let a = (src + i) as u16;
                assert(!self@.fatal_read(a)) by {
                    lemma_bus_bits();
                    if v <= 0xfe {
                        assert(a <= 0xfe * 256 + 159);
                    }
                    if 0xa000 <= a && a <= 0xbfff && self@.cartridge.ram_enable {
                        assert(0xa0 <= v && v <= 0xbf);
                        let b = (v as int * 256 + 159) as u16;
                        assert(self@.cartridge.ram_access_ok(b));
                        assert(a & 0x1fff == a - 0xa000);
                        assert(b & 0x1fff == b - 0xa000);
                    }
                }
            }
            let b = self.read_byte(src + i);
            self.write_plain(0xfe00 + i, b);
            i = i + 1;
        }
    }

    pub fn write_byte(&mut self, addr: u16, v: u8)
        requires
            old(self)@.wf(),
            !old(self)@.fatal_write(addr, v),
        ensures
            final(self)@ == old(self)@.spec_write(addr, v),
            final(self)@.wf(),
    {
        if addr == 0xff46 {
            self.dma_transfer(v);
        } else {
            self.write_plain(addr, v);
        }
    }

    /// Read a 16-bit word, little-endian, from two byte reads.
    pub fn read_word(&self, addr: u16) -> (r: u16)
        requires
            self@.wf(),
            !self@.fatal_read(addr),
            !self@.fatal_read(((addr + 1) % 0x10000) as u16),
        ensures
            r == crate::bitmath::word(
                self@.spec_read(((addr + 1) % 0x10000) as u16),
                self@.spec_read(addr),
            ),
    {
        proof {
            crate::bitmath::lemma_word_parts();
        }
        ((self.read_byte(addr.wrapping_add(1)) as u16) << 8) | self.read_byte(addr) as u16
    }

    /// Write a 16-bit word, little-endian, as two byte writes.
    pub fn write_word(&mut self, addr: u16, v: u16)
        requires
            old(self)@.wf(),
            !old(self)@.fatal_write(addr, crate::bitmath::low_byte(v)),
            !old(self)@.spec_write(addr, crate::bitmath::low_byte(v)).fatal_write(
                ((addr + 1) % 0x10000) as u16,
                crate::bitmath::high_byte(v),
            ),
        ensures
            final(self)@ == old(self)@.spec_write(addr, crate::bitmath::low_byte(v)).spec_write(
                ((addr + 1) % 0x10000) as u16,
                crate::bitmath::high_byte(v),
            ),
            final(self)@.wf(),
    {
        self.write_byte(addr, v as u8);
        self.write_byte(addr.wrapping_add(1), (v >> 8) as u8);
    }

    /// Advance the timer and the pixel unit by `tick` cycles and latch any
    /// interrupt requests they raised for the next step.
    pub fn run(&mut self, tick: u32)
        requires
            old(self)@.wf(),
            tick <= 24,
        ensures
            final(self)@ == old(self)@.spec_run(tick),
            final(self)@.wf(),
    {
        proof {
            lemma_int_bits();
        }
        self.ppu.run(tick);
        self.timer.run(tick);

        if self.ppu.interrupt_vblank {
            self.interrupt_flag.assign(IntSource::VBlank, true);
            self.ppu.interrupt_vblank = false;
        }

        if self.ppu.interrupt_lcdc {
            self.interrupt_flag.assign(IntSource::LcdStat, true);
            self.ppu.interrupt_lcdc = false;
        }

        if self.timer.interrupt {
            self.interrupt_flag.assign(IntSource::Timer, true);
            self.timer.interrupt = false;
        }
        proof {
            assert(self@ =~= old(self)@.spec_run(tick));
        }
    }

    /// Set the architecturally defined post-boot values of the I/O
    /// registers. The two wave registers the sound unit does not store are
    /// skipped; they hold no state to set.
    #[verifier::rlimit(100)]
    pub fn init(&mut self)
        requires
            old(self)@.wf(),
        ensures
            final(self)@ == old(self)@.spec_init(),
            final(self)@.wf(),
    {
        self.write_byte(0xff05, 0x00);
        self.write_byte(0xff06, 0x00);
        self.write_byte(0xff07, 0x00);
        self.write_byte(0xff10, 0x80);
        self.write_byte(0xff11, 0xbf);
        self.write_byte(0xff12, 0xf3);
        self.write_byte(0xff14, 0xbf);
        self.write_byte(0xff16, 0x3f);
        self.write_byte(0xff17, 0x00);
        self.write_byte(0xff19, 0xbf);
        self.write_byte(0xff1a, 0x7f);
        self.write_byte(0xff1b, 0xff);
        self.write_byte(0xff20, 0xff);
        self.write_byte(0xff21, 0x00);
        self.write_byte(0xff22, 0x00);
        self.write_byte(0xff23, 0xbf);
        self.write_byte(0xff24, 0x77);
        self.write_byte(0xff25, 0xf3);
        self.write_byte(0xff26, 0xf1);
        self.write_byte(0xff40, 0x91);
        self.write_byte(0xff42, 0x00);
        self.write_byte(0xff43, 0x00);
        self.write_byte(0xff45, 0x00);
        self.write_byte(0xff47, 0xfc);
        self.write_byte(0xff48, 0xff);
        self.write_byte(0xff49, 0xff);
        self.write_byte(0xff4a, 0x00);
        self.write_byte(0xff4b, 0x00);
        self.write_byte(0xffff, 0x00);
    }
}

impl MmuV {
    /// The bus after the post-boot register setup: the documented table of
    /// initial I/O register values, applied in order.
    pub open spec fn spec_init(self) -> MmuV {
        self.spec_write(0xff05, 0x00).spec_write(0xff06, 0x00).spec_write(0xff07, 0x00).spec_write(
            0xff10,
            0x80,
        ).spec_write(0xff11, 0xbf).spec_write(0xff12, 0xf3).spec_write(0xff14, 0xbf).spec_write(
            0xff16,
            0x3f,
        ).spec_write(0xff17, 0x00).spec_write(0xff19, 0xbf).spec_write(0xff1a, 0x7f).spec_write(
            0xff1b,
            0xff,
        ).spec_write(0xff20, 0xff).spec_write(0xff21, 0x00).spec_write(0xff22, 0x00).spec_write(
            0xff23,
            0xbf,
        ).spec_write(0xff24, 0x77).spec_write(0xff25, 0xf3).spec_write(0xff26, 0xf1).spec_write(
            0xff40,
            0x91,
        ).spec_write(0xff42, 0x00).spec_write(0xff43, 0x00).spec_write(0xff45, 0x00).spec_write(
            0xff47,
            0xfc,
        ).spec_write(0xff48, 0xff).spec_write(0xff49, 0xff).spec_write(0xff4a, 0x00).spec_write(
            0xff4b,
            0x00,
        ).spec_write(0xffff, 0x00)
    }
}


/// Round trip through the byte stores the bus owns: a write to working RAM,
/// to its echo range, to high RAM, or to video RAM outside pixel transfer
/// is read back unchanged at the same address; and a working-RAM write is
/// observable through the 0xe000-0xfdff echo at the corresponding address,
/// and the other way round.
pub proof fn lemma_ram_round_trip(m: MmuV, addr: u16, v: u8)
    requires
        m.wf(),
    ensures
        0xc000 <= addr <= 0xdfff ==> m.spec_write(addr, v).spec_read(addr) == v,
        0xc000 <= addr <= 0xddff ==> m.spec_write(addr, v).spec_read((addr + 0x2000) as u16) == v,
        0xe000 <= addr <= 0xfdff ==> m.spec_write(addr, v).spec_read(addr) == v && m.spec_write(
            addr,
            v,
        ).spec_read((addr - 0x2000) as u16) == v,
        0xff80 <= addr <= 0xfffe ==> m.spec_write(addr, v).spec_read(addr) == v,
        0x8000 <= addr <= 0x9fff && m.ppu.mode != crate::ppu::Mode::AccessVRAM ==> m.spec_write(
            addr,
            v,
        ).spec_read(addr) == v,
{
    reveal(MmuV::spec_read);
    reveal(MmuV::spec_write_plain);
    lemma_bus_bits();
}

} // verus!
