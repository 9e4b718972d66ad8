//! The instruction execution engine: fetch, decode and execute over the
//! register file and the memory bus, with the interrupt controller invoked
//! once per step.
//!
//! Every helper returns the instruction's clock cycle cost. A fatal
//! condition — an opcode outside the instruction set, or a bus access to an
//! address the bus treats as a simulation defect — surfaces as a [`Fault`]
//! instead of a result; the driver is expected to stop on one, as nothing
//! meaningful can continue after it.

use vstd::prelude::*;

use crate::bitmath::high_byte;
use crate::bitmath::low_byte;
use crate::bitmath::word;
use crate::mmu::IntSource;
use crate::mmu::MmuV;
use crate::mmu::MMU;
use crate::register::Flag;
use crate::register::Flags;
use crate::register::Register;
use crate::register::Register16;

verus! {

/// A fatal condition: the simulation must stop, with this as the diagnosis.
#[derive(Clone, Copy, PartialEq, Eq, Structural, Debug)]
pub enum Fault {
    /// An opcode outside the instruction set was fetched.
    Opcode(u8),
    /// The guest read an address whose access indicates a defect.
    BusRead(u16),
    /// The guest wrote an address whose access indicates a defect.
    BusWrite(u16),
}

/// The machine state one step transforms: the register file, the bus, and
/// the interrupt controller's own bits. The step functions below give each
/// instruction's exact effect on it, `None` standing for a fatal bus access.
#[verifier::ext_equal]
pub struct CpuS {
    pub reg: Register,
    pub mmu: MmuV,
    pub ime: bool,
    pub ei: u8,
    pub halted: bool,
}

/// The low 8 bits of an integer, as instruction arithmetic wraps.
pub open spec fn wrap8(x: int) -> u8 {
    (x % 256) as u8
}

/// The low 16 bits of an integer, as pointer arithmetic wraps.
pub open spec fn wrap16(x: int) -> u16 {
    (x % 0x10000) as u16
}

/// Result and flags of 8-bit addition with optional carry in: Zero of the
/// result, Subtract clear, Half-carry out of bit 3, Carry out of bit 7.
pub open spec fn alu_add(a: u8, n: u8, carry: bool) -> (u8, Flags) {
    let c: int = if carry {
        1
    } else {
        0
    };
    let r = wrap8(a + n + c);
    (r, Flags::flag_bits(r == 0, false, (a & 0x0f) + (n & 0x0f) + c > 0x0f, a + n + c > 0xff))
}

/// Result and flags of 8-bit subtraction with optional borrow in: Zero of
/// the result, Subtract set, Half-carry iff the low nibble borrows, Carry
/// iff the whole subtraction borrows.
pub open spec fn alu_sub(a: u8, n: u8, borrow: bool) -> (u8, Flags) {
    let c: int = if borrow {
        1
    } else {
        0
    };
    let r = wrap8(a - n - c);
    (r, Flags::flag_bits(r == 0, true, (a & 0x0f) < (n & 0x0f) + c, (a as int) < n + c))
}

/// Result and flags of AND: Half-carry set, Carry and Subtract clear.
pub open spec fn alu_and(a: u8, n: u8) -> (u8, Flags) {
    (a & n, Flags::flag_bits(a & n == 0, false, true, false))
}

/// Result and flags of OR: only Zero may be set.
pub open spec fn alu_or(a: u8, n: u8) -> (u8, Flags) {
    (a | n, Flags::flag_bits(a | n == 0, false, false, false))
}

/// Result and flags of XOR: only Zero may be set.
pub open spec fn alu_xor(a: u8, n: u8) -> (u8, Flags) {
    (a ^ n, Flags::flag_bits(a ^ n == 0, false, false, false))
}

/// The 8-bit register the 3-bit operand field selects; index 6 selects
/// memory at HL and is handled at the access helpers.
pub open spec fn spec_reg8(reg: Register, idx: u8) -> u8 {
    if idx == 0 {
        reg.b
    } else if idx == 1 {
        reg.c
    } else if idx == 2 {
        reg.d
    } else if idx == 3 {
        reg.e
    } else if idx == 4 {
        reg.h
    } else if idx == 5 {
        reg.l
    } else {
        reg.a
    }
}

/// The register file with the selected 8-bit register replaced (not index
/// 6, which is memory).
pub open spec fn spec_reg8_write(reg: Register, idx: u8, v: u8) -> Register {
    if idx == 0 {
        Register { b: v, ..reg }
    } else if idx == 1 {
        Register { c: v, ..reg }
    } else if idx == 2 {
        Register { d: v, ..reg }
    } else if idx == 3 {
        Register { e: v, ..reg }
    } else if idx == 4 {
        Register { h: v, ..reg }
    } else if idx == 5 {
        Register { l: v, ..reg }
    } else {
        Register { a: v, ..reg }
    }
}

/// The 16-bit register pair the 2-bit operand field selects, SP form.
pub open spec fn spec_rp(reg: Register, idx: u8) -> u16 {
    if idx == 0 {
        reg.spec_read_word(Register16::BC)
    } else if idx == 1 {
        reg.spec_read_word(Register16::DE)
    } else if idx == 2 {
        reg.spec_read_word(Register16::HL)
    } else {
        reg.sp
    }
}

/// The register file after writing the selected pair, SP form.
pub open spec fn spec_rp_write(reg: Register, idx: u8, v: u16) -> Register {
    if idx == 0 {
        reg.spec_write_word(Register16::BC, v)
    } else if idx == 1 {
        reg.spec_write_word(Register16::DE, v)
    } else if idx == 2 {
        reg.spec_write_word(Register16::HL, v)
    } else {
        Register { sp: v, ..reg }
    }
}

/// The 16-bit register pair the 2-bit operand field selects, AF form.
pub open spec fn spec_rp2(reg: Register, idx: u8) -> u16 {
    if idx == 3 {
        reg.spec_read_word(Register16::AF)
    } else {
        spec_rp(reg, idx)
    }
}

/// The register file after writing the selected pair, AF form.
pub open spec fn spec_rp2_write(reg: Register, idx: u8, v: u16) -> Register {
    if idx == 3 {
        reg.spec_write_word(Register16::AF, v)
    } else {
        spec_rp_write(reg, idx, v)
    }
}

/// The condition the 2-bit condition field selects: NZ, Z, NC, C.
pub open spec fn spec_cc(reg: Register, idx: u8) -> bool {
    if idx == 0 {
        !reg.f.z()
    } else if idx == 1 {
        reg.f.z()
    } else if idx == 2 {
        !reg.f.c()
    } else {
        reg.f.c()
    }
}

/// Writing two bytes little-endian at `addr`, as the bus sees it.
pub open spec fn spec_write_word(m: MmuV, addr: u16, v: u16) -> MmuV {
    m.spec_write(addr, low_byte(v)).spec_write(wrap16(addr + 1), high_byte(v))
}

/// Whether writing the word `v` at `addr` faults on either byte.
pub open spec fn word_write_fault(m: MmuV, addr: u16, v: u16) -> bool {
    ||| m.fatal_write(addr, low_byte(v))
    ||| m.spec_write(addr, low_byte(v)).fatal_write(wrap16(addr + 1), high_byte(v))
}

/// Whether reading a word at `addr` faults on either byte.
pub open spec fn word_read_fault(m: MmuV, addr: u16) -> bool {
    m.fatal_read(addr) || m.fatal_read(wrap16(addr + 1))
}

/// The word read little-endian at `addr`.
pub open spec fn spec_read_word(m: MmuV, addr: u16) -> u16 {
    word(m.spec_read(wrap16(addr + 1)), m.spec_read(addr))
}


/// A signed 8-bit immediate, as the 16-bit value its addition wraps to.
pub open spec fn sign_extend(n: u8) -> u16 {
    if n < 128 {
        n as u16
    } else {
        (n + 0xff00) as u16
    }
}

fn sign_extend_exec(n: u8) -> (v: u16)
    ensures
        v == sign_extend(n),
{
    if n < 128 {
        n as u16
    } else {
        0xff00u16 + n as u16
    }
}

/// The flag set with Zero kept and the other three replaced.
pub open spec fn flags_keep_z(f: Flags, n: bool, h: bool, c: bool) -> Flags {
    Flags { bits: (f.bits & 0x80) | Flags::flag_bits(false, n, h, c).bits }
}

/// The flag set with Carry kept and the other three replaced.
pub open spec fn flags_keep_c(f: Flags, z: bool, n: bool, h: bool) -> Flags {
    Flags { bits: (f.bits & 0x10) | Flags::flag_bits(z, n, h, false).bits }
}

/// The flag set with Subtract kept, Zero and Carry replaced, Half-carry
/// cleared.
pub open spec fn flags_keep_n(f: Flags, z: bool, c: bool) -> Flags {
    Flags { bits: (f.bits & 0x40) | Flags::flag_bits(z, false, false, c).bits }
}

/// The flag set with Zero and Carry kept, Subtract and Half-carry replaced.
pub open spec fn flags_keep_zc(f: Flags, n: bool, h: bool) -> Flags {
    Flags { bits: (f.bits & 0x90) | Flags::flag_bits(false, n, h, false).bits }
}

/// Bounds of the opcode's operand fields.
proof fn lemma_opcode_fields()
    by (bit_vector)
    ensures
        forall|op: u8| (#[trigger] ((op & 0x38) >> 3)) <= 7,
        forall|op: u8| (#[trigger] (op & 0x07)) <= 7,
        forall|op: u8| (#[trigger] ((op & 0x30) >> 4)) <= 3,
        forall|op: u8| (#[trigger] ((op >> 3) & 0x03)) <= 3,
        forall|op: u8| (#[trigger] ((op & 0x38) >> 3)) >= 4 ==> ((op & 0x38) >> 3) - 4 <= 3,
{
}

/// A flag byte from its four flag values.
fn flags_byte(z: bool, n: bool, h: bool, c: bool) -> (r: u8)
    ensures
        r == Flags::flag_bits(z, n, h, c).bits,
{
    (if z {
        0x80u8
    } else {
        0u8
    }) | (if n {
        0x40u8
    } else {
        0u8
    }) | (if h {
        0x20u8
    } else {
        0u8
    }) | (if c {
        0x10u8
    } else {
        0u8
    })
}

/// The four flag constants, and combinations of them, live in the high
/// nibble.
proof fn lemma_flag_bits_wf()
    by (bit_vector)
    ensures
        forall|a: u8, b: u8|
            a & 0x0f == 0 && b & 0x0f == 0 ==> (#[trigger] (a | b)) & 0x0f == 0,
        forall|b: u8| (#[trigger] (b & 0xf0)) & 0x0f == 0,
        forall|b: u8| (#[trigger] (b & 0x80)) & 0x0f == 0,
        forall|b: u8| (#[trigger] (b & 0x40)) & 0x0f == 0,
        forall|b: u8| (#[trigger] (b & 0x10)) & 0x0f == 0,
        forall|b: u8| (#[trigger] (b & 0x90)) & 0x0f == 0,
        0x80u8 & 0x0f == 0,
        0x40u8 & 0x0f == 0,
        0x20u8 & 0x0f == 0,
        0x10u8 & 0x0f == 0,
        0u8 & 0x0f == 0,
        0xb0u8 & 0x0f == 0,
{
}

pub struct CPU {
    pub register: Register,
    pub mmu: MMU,
    /// Interrupt master enable.
    pub ime: bool,
    /// Pending-enable countdown for EI's one-instruction latency.
    pub ei: u8,
    pub halted: bool,
}

impl CPU {
    pub open spec fn wf(self) -> bool {
        &&& self.register.wf()
        &&& self.mmu@.wf()
    }

    /// The machine state as the step functions transform it.
    pub open spec fn state(self) -> CpuS {
        CpuS {
            reg: self.register,
            mmu: self.mmu@,
            ime: self.ime,
            ei: self.ei,
            halted: self.halted,
        }
    }

    /// Everything but the bus: the register file and the controller state.
    pub open spec fn regs(self) -> (Register, bool, u8, bool) {
        (self.register, self.ime, self.ei, self.halted)
    }

    /// Read a byte for the guest, stopping on a fatal address.
    fn mem_read(&self, addr: u16) -> (r: Result<u8, Fault>)
        requires
            self.wf(),
        ensures
            match r {
                Ok(b) => !self.mmu@.fatal_read(addr) && b == self.mmu@.spec_read(addr),
                Err(f) => self.mmu@.fatal_read(addr) && f == Fault::BusRead(addr),
            },
    {
        if self.mmu.read_fault(addr) {
            Err(Fault::BusRead(addr))
        } else {
            Ok(self.mmu.read_byte(addr))
        }
    }

    /// Write a byte for the guest, stopping on a fatal address.
    fn mem_write(&mut self, addr: u16, v: u8) -> (r: Result<(), Fault>)
        requires
            old(self).wf(),
        ensures
            final(self).wf(),
            final(self).regs() == old(self).regs(),
            match r {
                Ok(u) => !old(self).mmu@.fatal_write(addr, v) && final(self).mmu@ == old(self).mmu@.spec_write(addr, v),
                Err(f) => old(self).mmu@.fatal_write(addr, v) && f == Fault::BusWrite(addr)
                    && final(self).mmu@ == old(self).mmu@,
            },
    {
        if self.mmu.write_fault(addr, v) {
            Err(Fault::BusWrite(addr))
        } else {
            self.mmu.write_byte(addr, v);
            Ok(())
        }
    }

    /// Read a word for the guest, little-endian.
    fn mem_read_word(&self, addr: u16) -> (r: Result<u16, Fault>)
        requires
            self.wf(),
        ensures
            match r {
                Ok(w) => !word_read_fault(self.mmu@, addr) && w == spec_read_word(self.mmu@, addr),
                Err(f) => word_read_fault(self.mmu@, addr) && f is BusRead,
            },
    {
        let lo = self.mem_read(addr)?;
        let hi = self.mem_read(addr.wrapping_add(1))?;
        proof {
            crate::bitmath::lemma_word_parts();
        }
        Ok(((hi as u16) << 8) | lo as u16)
    }

    /// Write a word for the guest, little-endian.
    fn mem_write_word(&mut self, addr: u16, v: u16) -> (r: Result<(), Fault>)
        requires
            old(self).wf(),
        ensures
            final(self).wf(),
            final(self).regs() == old(self).regs(),
            match r {
                Ok(u) => !word_write_fault(old(self).mmu@, addr, v) && final(self).mmu@
                    == spec_write_word(old(self).mmu@, addr, v),
                Err(f) => word_write_fault(old(self).mmu@, addr, v) && f is BusWrite,
            },
    {
        self.mem_write(addr, v as u8)?;
        self.mem_write(addr.wrapping_add(1), (v >> 8) as u8)?;
        Ok(())
    }

    /// Fetch the byte at `pc` and advance `pc`, wrapping.
    fn fetch_byte(&mut self) -> (r: Result<u8, Fault>)
        requires
            old(self).wf(),
        ensures
            final(self).wf(),
            final(self).mmu@ == old(self).mmu@,
            match r {
                Ok(b) => !old(self).mmu@.fatal_read(old(self).register.pc) && b == old(self).mmu@.spec_read(old(self).register.pc) && final(self).regs() == (
                    (Register { pc: wrap16(old(self).register.pc + 1), ..old(self).register }),
                    old(self).ime,
                    old(self).ei,
                    old(self).halted,
                ),
                Err(f) => old(self).mmu@.fatal_read(old(self).register.pc) && f == Fault::BusRead(
                    old(self).register.pc,
                ) && final(self).regs() == old(self).regs(),
            },
    {
        let n = self.mem_read(self.register.pc)?;
        self.register.pc = self.register.pc.wrapping_add(1);
        Ok(n)
    }

    /// Fetch the word at `pc`, little-endian, and advance `pc` by two.
    fn fetch_word(&mut self) -> (r: Result<u16, Fault>)
        requires
            old(self).wf(),
        ensures
            final(self).wf(),
            final(self).mmu@ == old(self).mmu@,
            match r {
                Ok(w) => !word_read_fault(old(self).mmu@, old(self).register.pc) && w
                    == spec_read_word(old(self).mmu@, old(self).register.pc) && final(self).regs()
                    == ((Register { pc: wrap16(old(self).register.pc + 2), ..old(self).register }),
                    old(self).ime,
                    old(self).ei,
                    old(self).halted,
                ),
                Err(f) => word_read_fault(old(self).mmu@, old(self).register.pc) && f is BusRead
                    && final(self).regs() == old(self).regs(),
            },
    {
        let nn = self.mem_read_word(self.register.pc)?;
        self.register.pc = self.register.pc.wrapping_add(2);
        Ok(nn)
    }

    /// Read the 8-bit operand the 3-bit field selects; 6 reads memory at HL.
    fn read_r(&self, idx: u8) -> (r: Result<u8, Fault>)
        requires
            self.wf(),
            idx <= 7,
        ensures
            match r {
                Ok(b) => if idx == 6 {
                    !self.mmu@.fatal_read(self.register.spec_read_word(Register16::HL)) && b
                        == self.mmu@.spec_read(self.register.spec_read_word(Register16::HL))
                } else {
                    b == spec_reg8(self.register, idx)
                },
                Err(f) => idx == 6 && self.mmu@.fatal_read(
                    self.register.spec_read_word(Register16::HL),
                ) && f == Fault::BusRead(self.register.spec_read_word(Register16::HL)),
            },
    {
        match idx {
            0 => Ok(self.register.b),
            1 => Ok(self.register.c),
            2 => Ok(self.register.d),
            3 => Ok(self.register.e),
            4 => Ok(self.register.h),
            5 => Ok(self.register.l),
            6 => {
                let hl = self.register.read_word(Register16::HL);
                self.mem_read(hl)
            },
            _ => Ok(self.register.a),
        }
    }

    /// Write the 8-bit operand the 3-bit field selects; 6 writes memory at
    /// HL.
    fn write_r(&mut self, idx: u8, v: u8) -> (r: Result<(), Fault>)
        requires
            old(self).wf(),
            idx <= 7,
        ensures
            final(self).wf(),
            (final(self).ime, final(self).ei, final(self).halted) == (
                old(self).ime,
                old(self).ei,
                old(self).halted,
            ),
            match r {
                Ok(u) => if idx == 6 {
                    !old(self).mmu@.fatal_write(
                        old(self).register.spec_read_word(Register16::HL),
                        v,
                    ) && final(self).mmu@ == old(self).mmu@.spec_write(
                        old(self).register.spec_read_word(Register16::HL),
                        v,
                    ) && final(self).register == old(self).register
                } else {
                    final(self).register == spec_reg8_write(old(self).register, idx, v) && final(self).mmu@ == old(self).mmu@
                },
                Err(f) => idx == 6 && old(self).mmu@.fatal_write(
                    old(self).register.spec_read_word(Register16::HL),
                    v,
                ) && f == Fault::BusWrite(old(self).register.spec_read_word(Register16::HL))
                    && final(self).register == old(self).register && final(self).mmu@ == old(self).mmu@,
            },
    {
        match idx {
            0 => {
                self.register.b = v;
                Ok(())
            },
            1 => {
                self.register.c = v;
                Ok(())
            },
            2 => {
                self.register.d = v;
                Ok(())
            },
            3 => {
                self.register.e = v;
                Ok(())
            },
            4 => {
                self.register.h = v;
                Ok(())
            },
            5 => {
                self.register.l = v;
                Ok(())
            },
            6 => {
                let hl = self.register.read_word(Register16::HL);
                self.mem_write(hl, v)
            },
            _ => {
                self.register.a = v;
                Ok(())
            },
        }
    }

    /// Read the register pair the 2-bit field selects (SP form).
    fn read_rp(&self, idx: u8) -> (r: u16)
        requires
            idx <= 3,
        ensures
            r == spec_rp(self.register, idx),
    {
        match idx {
            0 => self.register.read_word(Register16::BC),
            1 => self.register.read_word(Register16::DE),
            2 => self.register.read_word(Register16::HL),
            _ => self.register.sp,
        }
    }

    /// Write the register pair the 2-bit field selects (SP form).
    fn write_rp(&mut self, idx: u8, v: u16)
        requires
            idx <= 3,
            old(self).wf(),
        ensures
            final(self).wf(),
            final(self).register == spec_rp_write(old(self).register, idx, v),
            final(self).mmu@ == old(self).mmu@,
            (final(self).ime, final(self).ei, final(self).halted) == (
                old(self).ime,
                old(self).ei,
                old(self).halted,
            ),
    {
        match idx {
            0 => self.register.write_word(Register16::BC, v),
            1 => self.register.write_word(Register16::DE, v),
            2 => self.register.write_word(Register16::HL, v),
            _ => self.register.sp = v,
        }
    }

    /// Read the register pair the 2-bit field selects (AF form).
    fn read_rp2(&self, idx: u8) -> (r: u16)
        requires
            idx <= 3,
        ensures
            r == spec_rp2(self.register, idx),
    {
        match idx {
            0 => self.register.read_word(Register16::BC),
            1 => self.register.read_word(Register16::DE),
            2 => self.register.read_word(Register16::HL),
            _ => self.register.read_word(Register16::AF),
        }
    }

    /// Write the register pair the 2-bit field selects (AF form); a write
    /// to AF masks the flag nibble's low bits.
    fn write_rp2(&mut self, idx: u8, v: u16)
        requires
            idx <= 3,
            old(self).wf(),
        ensures
            final(self).wf(),
            final(self).register == spec_rp2_write(old(self).register, idx, v),
            final(self).mmu@ == old(self).mmu@,
            (final(self).ime, final(self).ei, final(self).halted) == (
                old(self).ime,
                old(self).ei,
                old(self).halted,
            ),
    {
        match idx {
            0 => self.register.write_word(Register16::BC, v),
            1 => self.register.write_word(Register16::DE, v),
            2 => self.register.write_word(Register16::HL, v),
            _ => self.register.write_word(Register16::AF, v),
        }
    }

    /// Test the condition the 2-bit field selects.
    fn read_cc(&self, idx: u8) -> (r: bool)
        requires
            idx <= 3,
        ensures
            r == spec_cc(self.register, idx),
    {
        match idx {
            0 => !self.register.get_flag(Flag::Z),
            1 => self.register.get_flag(Flag::Z),
            2 => !self.register.get_flag(Flag::C),
            _ => self.register.get_flag(Flag::C),
        }
    }

    /// Push a word: `sp` moves down by exactly two, then the word is
    /// stored at the new `sp`.
    #[verifier::rlimit(100)]
    fn push_stack(&mut self, v: u16) -> (r: Result<(), Fault>)
        requires
            old(self).wf(),
        ensures
            final(self).wf(),
            (final(self).ime, final(self).ei, final(self).halted) == (
                old(self).ime,
                old(self).ei,
                old(self).halted,
            ),
            match r {
                Ok(u) => !word_write_fault(old(self).mmu@, wrap16(old(self).register.sp - 2), v)
                    && final(self).register == (Register {
                    sp: wrap16(old(self).register.sp - 2),
                    ..old(self).register
                }) && final(self).mmu@ == spec_write_word(
                    old(self).mmu@,
                    wrap16(old(self).register.sp - 2),
                    v,
                ),
                Err(f) => word_write_fault(old(self).mmu@, wrap16(old(self).register.sp - 2), v)
                    && f is BusWrite,
            },
    {
        self.register.sp = self.register.sp.wrapping_sub(2);
        self.mem_write_word(self.register.sp, v)
    }

    /// Pop a word: read at `sp`, then `sp` moves up by exactly two.
    fn pop_stack(&mut self) -> (r: Result<u16, Fault>)
        requires
            old(self).wf(),
        ensures
            final(self).wf(),
            final(self).mmu@ == old(self).mmu@,
            match r {
                Ok(w) => !word_read_fault(old(self).mmu@, old(self).register.sp) && w
                    == spec_read_word(old(self).mmu@, old(self).register.sp) && final(self).regs()
                    == ((Register { sp: wrap16(old(self).register.sp + 2), ..old(self).register }),
                    old(self).ime,
                    old(self).ei,
                    old(self).halted,
                ),
                Err(f) => word_read_fault(old(self).mmu@, old(self).register.sp) && f is BusRead
                    && final(self).regs() == old(self).regs(),
            },
    {
        let nn = self.mem_read_word(self.register.sp)?;
        self.register.sp = self.register.sp.wrapping_add(2);
        Ok(nn)
    }

    /// Replace all four flags.
    fn set_flags(&mut self, z: bool, n: bool, h: bool, c: bool)
        requires
            old(self).wf(),
        ensures
            final(self).wf(),
            *final(self) == (CPU {
                register: (Register {
                    f: Flags::flag_bits(z, n, h, c),
                    ..old(self).register
                }),
                ..*old(self)
            }),
    {
        proof {
            lemma_flag_bits_wf();
        }
        self.register.f = Flags { bits: flags_byte(z, n, h, c) };
    }
}


/// The register file with `pc` advanced by `k`, wrapping.
pub open spec fn pc_plus(reg: Register, k: int) -> Register {
    Register { pc: wrap16(reg.pc + k), ..reg }
}

impl CPU {
    /// Load a 16-bit immediate into the selected register pair.
    fn ld_r16_d16(&mut self, opcode: u8) -> (r: Result<u32, Fault>)
        requires
            old(self).wf(),
        ensures
            final(self).wf(),
            r is Err <==> step_ld_r16_d16(old(self).state(), opcode) is None,
            match r {
                Ok(t) => Some((final(self).state(), t)) == step_ld_r16_d16(old(self).state(), opcode),
                Err(f) => !(f is Opcode),
            },
    {
        proof {
            lemma_opcode_fields();
        }
        let p = (opcode & 0b_0011_0000) >> 4;
        let nn = self.fetch_word()?;
        self.write_rp(p, nn);
        Ok(12)
    }

    /// Load an 8-bit immediate into the selected register or into memory
    /// at HL.
    fn ld_r8_d8(&mut self, opcode: u8) -> (r: Result<u32, Fault>)
        requires
            old(self).wf(),
        ensures
            final(self).wf(),
            r is Err <==> step_ld_r8_d8(old(self).state(), opcode) is None,
            match r {
                Ok(t) => Some((final(self).state(), t)) == step_ld_r8_d8(old(self).state(), opcode),
                Err(f) => !(f is Opcode),
            },
    {
        proof {
            lemma_opcode_fields();
        }
        let y = (opcode & 0b_0011_1000) >> 3;
        let n = self.fetch_byte()?;
        self.write_r(y, n)?;
        Ok(if y == 6 {
            12
        } else {
            8
        })
    }

    /// Copy between two 8-bit operands (either may be memory at HL).
    fn ld_r8_r8(&mut self, opcode: u8) -> (r: Result<u32, Fault>)
        requires
            old(self).wf(),
        ensures
            final(self).wf(),
            r is Err <==> step_ld_r8_r8(old(self).state(), opcode) is None,
            match r {
                Ok(t) => Some((final(self).state(), t)) == step_ld_r8_r8(old(self).state(), opcode),
                Err(f) => !(f is Opcode),
            },
    {
        proof {
            lemma_opcode_fields();
        }
        let z = opcode & 0b_0000_0111;
        let y = (opcode & 0b_0011_1000) >> 3;
        let v = self.read_r(z)?;
        self.write_r(y, v)?;
        Ok(if y == 6 || z == 6 {
            8
        } else {
            4
        })
    }

    /// Load the accumulator from an 8-bit operand.
    fn ld_a_r8(&mut self, opcode: u8) -> (r: Result<u32, Fault>)
        requires
            old(self).wf(),
        ensures
            final(self).wf(),
            r is Err <==> step_ld_a_r8(old(self).state(), opcode) is None,
            match r {
                Ok(t) => Some((final(self).state(), t)) == step_ld_a_r8(old(self).state(), opcode),
                Err(f) => !(f is Opcode),
            },
    {
        proof {
            lemma_opcode_fields();
        }
        let z = opcode & 0b_0000_0111;
        let n = self.read_r(z)?;
        self.register.a = n;
        Ok(if z == 6 {
            8
        } else {
            4
        })
    }

    /// Load the accumulator from memory at the selected register pair.
    fn ld_a_r16(&mut self, opcode: u8) -> (r: Result<u32, Fault>)
        requires
            old(self).wf(),
        ensures
            final(self).wf(),
            r is Err <==> step_ld_a_r16(old(self).state(), opcode) is None,
            match r {
                Ok(t) => Some((final(self).state(), t)) == step_ld_a_r16(old(self).state(), opcode),
                Err(f) => !(f is Opcode),
            },
    {
        proof {
            lemma_opcode_fields();
        }
        let p = (opcode & 0b_0011_0000) >> 4;
        let nn = self.read_rp(p);
        self.register.a = self.mem_read(nn)?;
        Ok(8)
    }

    /// Load the accumulator from memory at a 16-bit immediate address.
    fn ld_a_d16(&mut self) -> (r: Result<u32, Fault>)
        requires
            old(self).wf(),
        ensures
            final(self).wf(),
            r is Err <==> step_ld_a_d16(old(self).state()) is None,
            match r {
                Ok(t) => Some((final(self).state(), t)) == step_ld_a_d16(old(self).state()),
                Err(f) => !(f is Opcode),
            },
    {
        let nn = self.fetch_word()?;
        self.register.a = self.mem_read(nn)?;
        Ok(16)
    }

    /// Store the accumulator into an 8-bit operand.
    fn ld_r8_a(&mut self, opcode: u8) -> (r: Result<u32, Fault>)
        requires
            old(self).wf(),
        ensures
            final(self).wf(),
            r is Err <==> step_ld_r8_a(old(self).state(), opcode) is None,
            match r {
                Ok(t) => Some((final(self).state(), t)) == step_ld_r8_a(old(self).state(), opcode),
                Err(f) => !(f is Opcode),
            },
    {
        proof {
            lemma_opcode_fields();
        }
        let y = (opcode & 0b_0011_1000) >> 3;
        self.write_r(y, self.register.a)?;
        Ok(if y == 6 {
            8
        } else {
            4
        })
    }

    /// Store the accumulator into memory at the selected register pair.
    fn ld_r16_a(&mut self, opcode: u8) -> (r: Result<u32, Fault>)
        requires
            old(self).wf(),
        ensures
            final(self).wf(),
            r is Err <==> step_ld_r16_a(old(self).state(), opcode) is None,
            match r {
                Ok(t) => Some((final(self).state(), t)) == step_ld_r16_a(old(self).state(), opcode),
                Err(f) => !(f is Opcode),
            },
    {
        proof {
            lemma_opcode_fields();
        }
        let p = (opcode & 0b_0011_0000) >> 4;
        let nn = self.read_rp(p);
        self.mem_write(nn, self.register.a)?;
        Ok(8)
    }

    /// Store the accumulator into memory at a 16-bit immediate address.
    fn ld_d16_a(&mut self) -> (r: Result<u32, Fault>)
        requires
            old(self).wf(),
        ensures
            final(self).wf(),
            r is Err <==> step_ld_d16_a(old(self).state()) is None,
            match r {
                Ok(t) => Some((final(self).state(), t)) == step_ld_d16_a(old(self).state()),
                Err(f) => !(f is Opcode),
            },
    {
        let nn = self.fetch_word()?;
        self.mem_write(nn, self.register.a)?;
        Ok(16)
    }

    /// Store the accumulator into the high page at 0xff00 plus register C.
    fn ldh_c_a(&mut self) -> (r: Result<u32, Fault>)
        requires
            old(self).wf(),
        ensures
            final(self).wf(),
            r is Err <==> step_ldh_c_a(old(self).state()) is None,
            match r {
                Ok(t) => Some((final(self).state(), t)) == step_ldh_c_a(old(self).state()),
                Err(f) => !(f is Opcode),
            },
    {
        let addr = 0xff00 | (self.register.c as u16);
        self.mem_write(addr, self.register.a)?;
        Ok(8)
    }

    /// Load the accumulator from the high page at 0xff00 plus register C.
    fn ldh_a_c(&mut self) -> (r: Result<u32, Fault>)
        requires
            old(self).wf(),
        ensures
            final(self).wf(),
            r is Err <==> step_ldh_a_c(old(self).state()) is None,
            match r {
                Ok(t) => Some((final(self).state(), t)) == step_ldh_a_c(old(self).state()),
                Err(f) => !(f is Opcode),
            },
    {
        let addr = 0xff00 | (self.register.c as u16);
        let n = self.mem_read(addr)?;
        self.register.a = n;
        Ok(8)
    }

    /// Store the accumulator into the high page at 0xff00 plus an 8-bit
    /// immediate.
    fn ldh_d8_a(&mut self) -> (r: Result<u32, Fault>)
        requires
            old(self).wf(),
        ensures
            final(self).wf(),
            r is Err <==> step_ldh_d8_a(old(self).state()) is None,
            match r {
                Ok(t) => Some((final(self).state(), t)) == step_ldh_d8_a(old(self).state()),
                Err(f) => !(f is Opcode),
            },
    {
        let n = self.fetch_byte()?;
        self.mem_write(0xff00 | (n as u16), self.register.a)?;
        Ok(12)
    }

    /// Load the accumulator from the high page at 0xff00 plus an 8-bit
    /// immediate.
    fn ldh_a_d8(&mut self) -> (r: Result<u32, Fault>)
        requires
            old(self).wf(),
        ensures
            final(self).wf(),
            r is Err <==> step_ldh_a_d8(old(self).state()) is None,
            match r {
                Ok(t) => Some((final(self).state(), t)) == step_ldh_a_d8(old(self).state()),
                Err(f) => !(f is Opcode),
            },
    {
        let n = self.fetch_byte()?;
        self.register.a = self.mem_read(0xff00 | (n as u16))?;
        Ok(12)
    }

    /// Store the accumulator at HL, then increment HL.
    fn ldi_hl_a(&mut self) -> (r: Result<u32, Fault>)
        requires
            old(self).wf(),
        ensures
            final(self).wf(),
            r is Err <==> step_ld_hl_a_move(old(self).state(), 1) is None,
            match r {
                Ok(t) => Some((final(self).state(), t)) == step_ld_hl_a_move(old(self).state(), 1),
                Err(f) => !(f is Opcode),
            },
    {
        let hl = self.register.read_word(Register16::HL);
        self.mem_write(hl, self.register.a)?;
        self.register.write_word(Register16::HL, hl.wrapping_add(1));
        Ok(8)
    }

    /// Load the accumulator from HL, then increment HL.
    fn ldi_a_hl(&mut self) -> (r: Result<u32, Fault>)
        requires
            old(self).wf(),
        ensures
            final(self).wf(),
            r is Err <==> step_ld_a_hl_move(old(self).state(), 1) is None,
            match r {
                Ok(t) => Some((final(self).state(), t)) == step_ld_a_hl_move(old(self).state(), 1),
                Err(f) => !(f is Opcode),
            },
    {
        let hl = self.register.read_word(Register16::HL);
        self.register.a = self.mem_read(hl)?;
        self.register.write_word(Register16::HL, hl.wrapping_add(1));
        Ok(8)
    }

    /// Store the accumulator at HL, then decrement HL.
    fn ldd_hl_a(&mut self) -> (r: Result<u32, Fault>)
        requires
            old(self).wf(),
        ensures
            final(self).wf(),
            r is Err <==> step_ld_hl_a_move(old(self).state(), -1) is None,
            match r {
                Ok(t) => Some((final(self).state(), t)) == step_ld_hl_a_move(old(self).state(), -1),
                Err(f) => !(f is Opcode),
            },
    {
        let hl = self.register.read_word(Register16::HL);
        self.mem_write(hl, self.register.a)?;
        self.register.write_word(Register16::HL, hl.wrapping_sub(1));
        Ok(8)
    }

    /// Load the accumulator from HL, then decrement HL.
    fn ldd_a_hl(&mut self) -> (r: Result<u32, Fault>)
        requires
            old(self).wf(),
        ensures
            final(self).wf(),
            r is Err <==> step_ld_a_hl_move(old(self).state(), -1) is None,
            match r {
                Ok(t) => Some((final(self).state(), t)) == step_ld_a_hl_move(old(self).state(), -1),
                Err(f) => !(f is Opcode),
            },
    {
        let hl = self.register.read_word(Register16::HL);
        self.register.a = self.mem_read(hl)?;
        self.register.write_word(Register16::HL, hl.wrapping_sub(1));
        Ok(8)
    }

    /// Copy HL into the stack pointer.
    fn ld_sp_hl(&mut self) -> (t: u32)
        requires
            old(self).wf(),
        ensures
            final(self).wf(),
            (final(self).state(), t) == step_ld_sp_hl(old(self).state()),
    {
        let hl = self.register.read_word(Register16::HL);
        self.register.sp = hl;
        8
    }

    /// Load HL with the stack pointer plus a signed 8-bit immediate;
    /// Half-carry and Carry come from the low byte's addition.
    fn ld_hl_sp_d8(&mut self) -> (r: Result<u32, Fault>)
        requires
            old(self).wf(),
        ensures
            final(self).wf(),
            r is Err <==> step_ld_hl_sp_d8(old(self).state()) is None,
            match r {
                Ok(t) => Some((final(self).state(), t)) == step_ld_hl_sp_d8(old(self).state()),
                Err(f) => !(f is Opcode),
            },
    {
        let n = self.fetch_byte()?;
        let v = sign_extend_exec(n);
        let h = (self.register.sp & 0x0f) as u32 + (v & 0x0f) as u32 > 0x0f;
        let c = (self.register.sp & 0xff) as u32 + (v & 0xff) as u32 > 0xff;
        let sp = self.register.sp;
        self.set_flags(false, false, h, c);
        self.register.write_word(Register16::HL, sp.wrapping_add(v));
        Ok(12)
    }

    /// Store the stack pointer at a 16-bit immediate address.
    fn ld_d16_sp(&mut self) -> (r: Result<u32, Fault>)
        requires
            old(self).wf(),
        ensures
            final(self).wf(),
            r is Err <==> step_ld_d16_sp(old(self).state()) is None,
            match r {
                Ok(t) => Some((final(self).state(), t)) == step_ld_d16_sp(old(self).state()),
                Err(f) => !(f is Opcode),
            },
    {
        let nn = self.fetch_word()?;
        self.mem_write_word(nn, self.register.sp)?;
        Ok(20)
    }

    /// Push the selected register pair (AF form).
    fn push(&mut self, opcode: u8) -> (r: Result<u32, Fault>)
        requires
            old(self).wf(),
        ensures
            final(self).wf(),
            r is Err <==> step_push(old(self).state(), opcode) is None,
            match r {
                Ok(t) => Some((final(self).state(), t)) == step_push(old(self).state(), opcode),
                Err(f) => !(f is Opcode),
            },
    {
        proof {
            lemma_opcode_fields();
        }
        let p = (opcode & 0b_0011_0000) >> 4;
        let nn = self.read_rp2(p);
        self.push_stack(nn)?;
        Ok(16)
    }

    /// Pop into the selected register pair (AF form); a pop into AF masks
    /// the flag nibble's low bits.
    fn pop(&mut self, opcode: u8) -> (r: Result<u32, Fault>)
        requires
            old(self).wf(),
        ensures
            final(self).wf(),
            r is Err <==> step_pop(old(self).state(), opcode) is None,
            match r {
                Ok(t) => Some((final(self).state(), t)) == step_pop(old(self).state(), opcode),
                Err(f) => !(f is Opcode),
            },
    {
        proof {
            lemma_opcode_fields();
        }
        let p = (opcode & 0b_0011_0000) >> 4;
        let nn = self.pop_stack()?;
        self.write_rp2(p, nn);
        Ok(12)
    }

    /// Add the selected register pair to HL; Half-carry from bit 11, Carry
    /// from bit 15, Zero unaffected.
    fn add_hl(&mut self, opcode: u8) -> (t: u32)
        requires
            old(self).wf(),
        ensures
            final(self).wf(),
            (final(self).state(), t) == step_add_hl(old(self).state(), opcode),
    {
        proof {
            lemma_opcode_fields();
            lemma_flag_bits_wf();
        }
        let p = (opcode & 0b_0011_0000) >> 4;
        let nn = self.read_rp(p);
        let hl = self.register.read_word(Register16::HL);

        let h = (hl & 0x0fff) as u32 + (nn & 0x0fff) as u32 > 0x0fff;
        let c = hl as u32 + nn as u32 > 0xffff;
        let result = hl.wrapping_add(nn);

        let zbit = self.register.f.bits & 0x80;
        self.register.f = Flags { bits: zbit | flags_byte(false, false, h, c) };
        self.register.write_word(Register16::HL, result);
        8
    }

    /// Add a signed 8-bit immediate to the stack pointer; Half-carry and
    /// Carry come from the low byte's addition, Zero cleared.
    fn add_sp(&mut self) -> (r: Result<u32, Fault>)
        requires
            old(self).wf(),
        ensures
            final(self).wf(),
            r is Err <==> step_add_sp(old(self).state()) is None,
            match r {
                Ok(t) => Some((final(self).state(), t)) == step_add_sp(old(self).state()),
                Err(f) => !(f is Opcode),
            },
    {
        let n = self.fetch_byte()?;
        let v = sign_extend_exec(n);
        let h = (self.register.sp & 0x0f) as u32 + (v & 0x0f) as u32 > 0x0f;
        let c = (self.register.sp & 0xff) as u32 + (v & 0xff) as u32 > 0xff;
        self.register.sp = self.register.sp.wrapping_add(v);
        self.set_flags(false, false, h, c);
        Ok(16)
    }
}


impl CPU {
    /// Replace Zero, Subtract and Half-carry, keeping Carry.
    fn set_flags_keep_c(&mut self, z: bool, n: bool, h: bool)
        requires
            old(self).wf(),
        ensures
            final(self).wf(),
            *final(self) == (CPU {
                register: (Register {
                    f: flags_keep_c(old(self).register.f, z, n, h),
                    ..old(self).register
                }),
                ..*old(self)
            }),
    {
        proof {
            lemma_flag_bits_wf();
        }
        let cbit = self.register.f.bits & 0x10;
        self.register.f = Flags { bits: cbit | flags_byte(z, n, h, false) };
    }

    /// Add with optional carry into the accumulator.
    fn alu_add_a(&mut self, n: u8, use_carry: bool)
        requires
            old(self).wf(),
        ensures
            final(self).wf(),
            *final(self) == (CPU {
                register: (Register {
                    a: alu_add(
                        old(self).register.a,
                        n,
                        use_carry && old(self).register.f.c(),
                    ).0,
                    f: alu_add(old(self).register.a, n, use_carry && old(self).register.f.c()).1,
                    ..old(self).register
                }),
                ..*old(self)
            }),
    {
        let a = self.register.a;
        let carry: u8 = if use_carry && self.register.get_flag(Flag::C) {
            1
        } else {
            0
        };
        let result = a.wrapping_add(n).wrapping_add(carry);
        let h = (a & 0x0f) as u16 + (n & 0x0f) as u16 + carry as u16 > 0x0f;
        let c = a as u16 + n as u16 + carry as u16 > 0xff;
        self.register.a = result;
        self.set_flags(result == 0, false, h, c);
    }

    /// Subtract with optional borrow from the accumulator. Carry is set iff
    /// the subtraction borrows — iff the accumulator is smaller than what is
    /// taken from it — and Half-carry iff its low nibble is.
    fn alu_sub_a(&mut self, n: u8, use_carry: bool)
        requires
            old(self).wf(),
        ensures
            final(self).wf(),
            *final(self) == (CPU {
                register: (Register {
                    a: alu_sub(
                        old(self).register.a,
                        n,
                        use_carry && old(self).register.f.c(),
                    ).0,
                    f: alu_sub(old(self).register.a, n, use_carry && old(self).register.f.c()).1,
                    ..old(self).register
                }),
                ..*old(self)
            }),
    {
        let a = self.register.a;
        let carry: u8 = if use_carry && self.register.get_flag(Flag::C) {
            1
        } else {
            0
        };
        let result = a.wrapping_sub(n).wrapping_sub(carry);
        let h = ((a & 0x0f) as u16) < (n & 0x0f) as u16 + carry as u16;
        let c = (a as u16) < n as u16 + carry as u16;
        self.register.a = result;
        self.set_flags(result == 0, true, h, c);
    }

    /// Compare: the flags of subtraction, with the accumulator kept.
    fn alu_cp_a(&mut self, n: u8)
        requires
            old(self).wf(),
        ensures
            final(self).wf(),
            *final(self) == (CPU {
                register: (Register {
                    f: alu_sub(old(self).register.a, n, false).1,
                    ..old(self).register
                }),
                ..*old(self)
            }),
    {
        let a = self.register.a;
        let h = ((a & 0x0f) as u16) < (n & 0x0f) as u16;
        let c = (a as u16) < n as u16;
        let result = a.wrapping_sub(n);
        self.set_flags(result == 0, true, h, c);
    }

    /// AND into the accumulator: Half-carry set, Carry cleared.
    fn alu_and_a(&mut self, n: u8)
        requires
            old(self).wf(),
        ensures
            final(self).wf(),
            *final(self) == (CPU {
                register: (Register {
                    a: alu_and(old(self).register.a, n).0,
                    f: alu_and(old(self).register.a, n).1,
                    ..old(self).register
                }),
                ..*old(self)
            }),
    {
        let result = self.register.a & n;
        self.register.a = result;
        self.set_flags(result == 0, false, true, false);
    }

    /// OR into the accumulator: only Zero may end up set.
    fn alu_or_a(&mut self, n: u8)
        requires
            old(self).wf(),
        ensures
            final(self).wf(),
            *final(self) == (CPU {
                register: (Register {
                    a: alu_or(old(self).register.a, n).0,
                    f: alu_or(old(self).register.a, n).1,
                    ..old(self).register
                }),
                ..*old(self)
            }),
    {
        let result = self.register.a | n;
        self.register.a = result;
        self.set_flags(result == 0, false, false, false);
    }

    /// XOR into the accumulator: only Zero may end up set.
    fn alu_xor_a(&mut self, n: u8)
        requires
            old(self).wf(),
        ensures
            final(self).wf(),
            *final(self) == (CPU {
                register: (Register {
                    a: alu_xor(old(self).register.a, n).0,
                    f: alu_xor(old(self).register.a, n).1,
                    ..old(self).register
                }),
                ..*old(self)
            }),
    {
        let result = self.register.a ^ n;
        self.register.a = result;
        self.set_flags(result == 0, false, false, false);
    }

    /// Read the 8-bit operand of a register-form arithmetic opcode, with
    /// its cycle cost.
    fn alu_operand(&self, opcode: u8) -> (r: Result<(u8, u32), Fault>)
        requires
            self.wf(),
        ensures
            r is Err <==> (opcode & 0x07 == 6 && self.mmu@.fatal_read(
                self.register.spec_read_word(Register16::HL),
            )),
            match r {
                Ok(p) => {
                    let z = opcode & 0x07;
                    &&& p.0 == (if z == 6 {
                        self.mmu@.spec_read(self.register.spec_read_word(Register16::HL))
                    } else {
                        spec_reg8(self.register, z)
                    })
                    &&& p.1 == (if z == 6 {
                        8int
                    } else {
                        4int
                    })
                },
                Err(f) => f == Fault::BusRead(self.register.spec_read_word(Register16::HL)),
            },
    {
        proof {
            lemma_opcode_fields();
        }
        let z = opcode & 0b_0000_0111;
        let n = self.read_r(z)?;
        Ok((n, if z == 6 {
            8
        } else {
            4
        }))
    }
}


impl CPU {

    /// Add an 8-bit operand into the accumulator. (register form)
    fn add(&mut self, opcode: u8) -> (r: Result<u32, Fault>)
        requires
            old(self).wf(),
        ensures
            final(self).wf(),
            r is Err <==> step_add(old(self).state(), opcode) is None,
            match r {
                Ok(t) => Some((final(self).state(), t)) == step_add(old(self).state(), opcode),
                Err(f) => !(f is Opcode),
            },
    {
        let (n, t) = self.alu_operand(opcode)?;
        self.alu_add_a(n, false);
        Ok(t)
    }

    /// Add an 8-bit operand into the accumulator. (immediate form)
    fn add_d8(&mut self) -> (r: Result<u32, Fault>)
        requires
            old(self).wf(),
        ensures
            final(self).wf(),
            r is Err <==> step_add_d8(old(self).state()) is None,
            match r {
                Ok(t) => Some((final(self).state(), t)) == step_add_d8(old(self).state()),
                Err(f) => !(f is Opcode),
            },
    {
        let n = self.fetch_byte()?;
        self.alu_add_a(n, false);
        Ok(8)
    }

    /// Add an 8-bit operand and the carry into the accumulator. (register form)
    fn adc(&mut self, opcode: u8) -> (r: Result<u32, Fault>)
        requires
            old(self).wf(),
        ensures
            final(self).wf(),
            r is Err <==> step_adc(old(self).state(), opcode) is None,
            match r {
                Ok(t) => Some((final(self).state(), t)) == step_adc(old(self).state(), opcode),
                Err(f) => !(f is Opcode),
            },
    {
        let (n, t) = self.alu_operand(opcode)?;
        self.alu_add_a(n, true);
        Ok(t)
    }

    /// Add an 8-bit operand and the carry into the accumulator. (immediate form)
    fn adc_d8(&mut self) -> (r: Result<u32, Fault>)
        requires
            old(self).wf(),
        ensures
            final(self).wf(),
            r is Err <==> step_adc_d8(old(self).state()) is None,
            match r {
                Ok(t) => Some((final(self).state(), t)) == step_adc_d8(old(self).state()),
                Err(f) => !(f is Opcode),
            },
    {
        let n = self.fetch_byte()?;
        self.alu_add_a(n, true);
        Ok(8)
    }

    /// Subtract an 8-bit operand from the accumulator. (register form)
    fn sub(&mut self, opcode: u8) -> (r: Result<u32, Fault>)
        requires
            old(self).wf(),
        ensures
            final(self).wf(),
            r is Err <==> step_sub(old(self).state(), opcode) is None,
            match r {
                Ok(t) => Some((final(self).state(), t)) == step_sub(old(self).state(), opcode),
                Err(f) => !(f is Opcode),
            },
    {
        let (n, t) = self.alu_operand(opcode)?;
        self.alu_sub_a(n, false);
        Ok(t)
    }

    /// Subtract an 8-bit operand from the accumulator. (immediate form)
    fn sub_d8(&mut self) -> (r: Result<u32, Fault>)
        requires
            old(self).wf(),
        ensures
            final(self).wf(),
            r is Err <==> step_sub_d8(old(self).state()) is None,
            match r {
                Ok(t) => Some((final(self).state(), t)) == step_sub_d8(old(self).state()),
                Err(f) => !(f is Opcode),
            },
    {
        let n = self.fetch_byte()?;
        self.alu_sub_a(n, false);
        Ok(8)
    }

    /// Subtract an 8-bit operand and the carry from the accumulator. (register form)
    fn sbc(&mut self, opcode: u8) -> (r: Result<u32, Fault>)
        requires
            old(self).wf(),
        ensures
            final(self).wf(),
            r is Err <==> step_sbc(old(self).state(), opcode) is None,
            match r {
                Ok(t) => Some((final(self).state(), t)) == step_sbc(old(self).state(), opcode),
                Err(f) => !(f is Opcode),
            },
    {
        let (n, t) = self.alu_operand(opcode)?;
        self.alu_sub_a(n, true);
        Ok(t)
    }

    /// Subtract an 8-bit operand and the carry from the accumulator. (immediate form)
    fn sbc_d8(&mut self) -> (r: Result<u32, Fault>)
        requires
            old(self).wf(),
        ensures
            final(self).wf(),
            r is Err <==> step_sbc_d8(old(self).state()) is None,
            match r {
                Ok(t) => Some((final(self).state(), t)) == step_sbc_d8(old(self).state()),
                Err(f) => !(f is Opcode),
            },
    {
        let n = self.fetch_byte()?;
        self.alu_sub_a(n, true);
        Ok(8)
    }

    /// AND an 8-bit operand into the accumulator. (register form)
    fn and(&mut self, opcode: u8) -> (r: Result<u32, Fault>)
        requires
            old(self).wf(),
        ensures
            final(self).wf(),
            r is Err <==> step_and(old(self).state(), opcode) is None,
            match r {
                Ok(t) => Some((final(self).state(), t)) == step_and(old(self).state(), opcode),
                Err(f) => !(f is Opcode),
            },
    {
        let (n, t) = self.alu_operand(opcode)?;
        self.alu_and_a(n);
        Ok(t)
    }

    /// AND an 8-bit operand into the accumulator. (immediate form)
    fn and_d8(&mut self) -> (r: Result<u32, Fault>)
        requires
            old(self).wf(),
        ensures
            final(self).wf(),
            r is Err <==> step_and_d8(old(self).state()) is None,
            match r {
                Ok(t) => Some((final(self).state(), t)) == step_and_d8(old(self).state()),
                Err(f) => !(f is Opcode),
            },
    {
        let n = self.fetch_byte()?;
        self.alu_and_a(n);
        Ok(8)
    }

    /// XOR an 8-bit operand into the accumulator. (register form)
    fn xor(&mut self, opcode: u8) -> (r: Result<u32, Fault>)
        requires
            old(self).wf(),
        ensures
            final(self).wf(),
            r is Err <==> step_xor(old(self).state(), opcode) is None,
            match r {
                Ok(t) => Some((final(self).state(), t)) == step_xor(old(self).state(), opcode),
                Err(f) => !(f is Opcode),
            },
    {
        let (n, t) = self.alu_operand(opcode)?;
        self.alu_xor_a(n);
        Ok(t)
    }

    /// XOR an 8-bit operand into the accumulator. (immediate form)
    fn xor_d8(&mut self) -> (r: Result<u32, Fault>)
        requires
            old(self).wf(),
        ensures
            final(self).wf(),
            r is Err <==> step_xor_d8(old(self).state()) is None,
            match r {
                Ok(t) => Some((final(self).state(), t)) == step_xor_d8(old(self).state()),
                Err(f) => !(f is Opcode),
            },
    {
        let n = self.fetch_byte()?;
        self.alu_xor_a(n);
        Ok(8)
    }

    /// OR an 8-bit operand into the accumulator. (register form)
    fn or(&mut self, opcode: u8) -> (r: Result<u32, Fault>)
        requires
            old(self).wf(),
        ensures
            final(self).wf(),
            r is Err <==> step_or(old(self).state(), opcode) is None,
            match r {
                Ok(t) => Some((final(self).state(), t)) == step_or(old(self).state(), opcode),
                Err(f) => !(f is Opcode),
            },
    {
        let (n, t) = self.alu_operand(opcode)?;
        self.alu_or_a(n);
        Ok(t)
    }

    /// OR an 8-bit operand into the accumulator. (immediate form)
    fn or_d8(&mut self) -> (r: Result<u32, Fault>)
        requires
            old(self).wf(),
        ensures
            final(self).wf(),
            r is Err <==> step_or_d8(old(self).state()) is None,
            match r {
                Ok(t) => Some((final(self).state(), t)) == step_or_d8(old(self).state()),
                Err(f) => !(f is Opcode),
            },
    {
        let n = self.fetch_byte()?;
        self.alu_or_a(n);
        Ok(8)
    }

    /// Compare an 8-bit operand against the accumulator: the flags of the subtraction, accumulator kept. (register form)
    fn cp(&mut self, opcode: u8) -> (r: Result<u32, Fault>)
        requires
            old(self).wf(),
        ensures
            final(self).wf(),
            r is Err <==> step_cp(old(self).state(), opcode) is None,
            match r {
                Ok(t) => Some((final(self).state(), t)) == step_cp(old(self).state(), opcode),
                Err(f) => !(f is Opcode),
            },
    {
        let (n, t) = self.alu_operand(opcode)?;
        self.alu_cp_a(n);
        Ok(t)
    }

    /// Compare an 8-bit operand against the accumulator: the flags of the subtraction, accumulator kept. (immediate form)
    fn cp_d8(&mut self) -> (r: Result<u32, Fault>)
        requires
            old(self).wf(),
        ensures
            final(self).wf(),
            r is Err <==> step_cp_d8(old(self).state()) is None,
            match r {
                Ok(t) => Some((final(self).state(), t)) == step_cp_d8(old(self).state()),
                Err(f) => !(f is Opcode),
            },
    {
        let n = self.fetch_byte()?;
        self.alu_cp_a(n);
        Ok(8)
    }

    /// Increment an 8-bit operand: Zero and Half-carry of the result,
    /// Subtract cleared, Carry untouched.
    fn inc8(&mut self, opcode: u8) -> (r: Result<u32, Fault>)
        requires
            old(self).wf(),
        ensures
            final(self).wf(),
            r is Err <==> step_inc8(old(self).state(), opcode) is None,
            match r {
                Ok(t) => Some((final(self).state(), t)) == step_inc8(old(self).state(), opcode),
                Err(f) => !(f is Opcode),
            },
    {
        proof {
            lemma_opcode_fields();
        }
        let y = (opcode & 0b_0011_1000) >> 3;
        let n = self.read_r(y)?;
        let result = n.wrapping_add(1);
        self.write_r(y, result)?;
        self.set_flags_keep_c(result == 0, false, (n & 0x0f) as u16 + 1 > 0x0f);
        Ok(if y == 6 {
            12
        } else {
            4
        })
    }

    /// Decrement an 8-bit operand: Zero and Half-carry of the result,
    /// Subtract set, Carry untouched.
    fn dec8(&mut self, opcode: u8) -> (r: Result<u32, Fault>)
        requires
            old(self).wf(),
        ensures
            final(self).wf(),
            r is Err <==> step_dec8(old(self).state(), opcode) is None,
            match r {
                Ok(t) => Some((final(self).state(), t)) == step_dec8(old(self).state(), opcode),
                Err(f) => !(f is Opcode),
            },
    {
        proof {
            lemma_opcode_fields();
        }
        let y = (opcode & 0b_0011_1000) >> 3;
        let n = self.read_r(y)?;
        let result = n.wrapping_sub(1);
        self.write_r(y, result)?;
        self.set_flags_keep_c(result == 0, true, n & 0x0f == 0x00);
        Ok(if y == 6 {
            12
        } else {
            4
        })
    }

    /// Increment a register pair; flags untouched.
    fn inc16(&mut self, opcode: u8) -> (t: u32)
        requires
            old(self).wf(),
        ensures
            final(self).wf(),
            (final(self).state(), t) == step_inc16(old(self).state(), opcode),
    {
        proof {
            lemma_opcode_fields();
        }
        let p = (opcode & 0b_0011_0000) >> 4;
        let nn = self.read_rp(p);
        self.write_rp(p, nn.wrapping_add(1));
        8
    }

    /// Decrement a register pair; flags untouched.
    fn dec16(&mut self, opcode: u8) -> (t: u32)
        requires
            old(self).wf(),
        ensures
            final(self).wf(),
            (final(self).state(), t) == step_dec16(old(self).state(), opcode),
    {
        proof {
            lemma_opcode_fields();
        }
        let p = (opcode & 0b_0011_0000) >> 4;
        let nn = self.read_rp(p);
        self.write_rp(p, nn.wrapping_sub(1));
        8
    }
}


impl CPU {

    /// Rotate left, bit 7 into both bit 0 and Carry. Zero reflects the result.
    fn rlc(&mut self, opcode: u8) -> (r: Result<u32, Fault>)
        requires
            old(self).wf(),
        ensures
            final(self).wf(),
            r is Err <==> step_rlc(old(self).state(), opcode) is None,
            match r {
                Ok(t) => Some((final(self).state(), t)) == step_rlc(old(self).state(), opcode),
                Err(f) => !(f is Opcode),
            },
    {
        proof {
            lemma_opcode_fields();
        }
        let z = opcode & 0b_0000_0111;
        let n = self.read_r(z)?;
        let result: u8 = (n << 1) | (n >> 7);
        self.write_r(z, result)?;
        self.set_flags(result == 0, false, false, n & 0x80 != 0);
        Ok(if z == 6 {
            16
        } else {
            8
        })
    }

    /// Rotate right, bit 0 into both bit 7 and Carry. Zero reflects the result.
    fn rrc(&mut self, opcode: u8) -> (r: Result<u32, Fault>)
        requires
            old(self).wf(),
        ensures
            final(self).wf(),
            r is Err <==> step_rrc(old(self).state(), opcode) is None,
            match r {
                Ok(t) => Some((final(self).state(), t)) == step_rrc(old(self).state(), opcode),
                Err(f) => !(f is Opcode),
            },
    {
        proof {
            lemma_opcode_fields();
        }
        let z = opcode & 0b_0000_0111;
        let n = self.read_r(z)?;
        let result: u8 = (n >> 1) | (n << 7);
        self.write_r(z, result)?;
        self.set_flags(result == 0, false, false, n & 0x01 != 0);
        Ok(if z == 6 {
            16
        } else {
            8
        })
    }

    /// Rotate left through Carry. Zero reflects the result.
    fn rl(&mut self, opcode: u8) -> (r: Result<u32, Fault>)
        requires
            old(self).wf(),
        ensures
            final(self).wf(),
            r is Err <==> step_rl(old(self).state(), opcode) is None,
            match r {
                Ok(t) => Some((final(self).state(), t)) == step_rl(old(self).state(), opcode),
                Err(f) => !(f is Opcode),
            },
    {
        proof {
            lemma_opcode_fields();
        }
        let z = opcode & 0b_0000_0111;
        let n = self.read_r(z)?;
        let cin: u8 = if self.register.get_flag(Flag::C) {
            1
        } else {
            0
        };
        let result: u8 = (n << 1) | cin;
        self.write_r(z, result)?;
        self.set_flags(result == 0, false, false, n & 0x80 != 0);
        Ok(if z == 6 {
            16
        } else {
            8
        })
    }

    /// Rotate right through Carry. Zero reflects the result.
    fn rr(&mut self, opcode: u8) -> (r: Result<u32, Fault>)
        requires
            old(self).wf(),
        ensures
            final(self).wf(),
            r is Err <==> step_rr(old(self).state(), opcode) is None,
            match r {
                Ok(t) => Some((final(self).state(), t)) == step_rr(old(self).state(), opcode),
                Err(f) => !(f is Opcode),
            },
    {
        proof {
            lemma_opcode_fields();
        }
        let z = opcode & 0b_0000_0111;
        let n = self.read_r(z)?;
        let cin: u8 = if self.register.get_flag(Flag::C) {
            1
        } else {
            0
        };
        let result: u8 = (n >> 1) | (cin << 7);
        self.write_r(z, result)?;
        self.set_flags(result == 0, false, false, n & 0x01 != 0);
        Ok(if z == 6 {
            16
        } else {
            8
        })
    }

    /// Shift left arithmetic, bit 7 into Carry. Zero reflects the result.
    fn sla(&mut self, opcode: u8) -> (r: Result<u32, Fault>)
        requires
            old(self).wf(),
        ensures
            final(self).wf(),
            r is Err <==> step_sla(old(self).state(), opcode) is None,
            match r {
                Ok(t) => Some((final(self).state(), t)) == step_sla(old(self).state(), opcode),
                Err(f) => !(f is Opcode),
            },
    {
        proof {
            lemma_opcode_fields();
        }
        let z = opcode & 0b_0000_0111;
        let n = self.read_r(z)?;
        let result: u8 = n << 1;
        self.write_r(z, result)?;
        self.set_flags(result == 0, false, false, n & 0x80 != 0);
        Ok(if z == 6 {
            16
        } else {
            8
        })
    }

    /// Shift right arithmetic, bit 7 kept, bit 0 into Carry. Zero reflects the result.
    fn sra(&mut self, opcode: u8) -> (r: Result<u32, Fault>)
        requires
            old(self).wf(),
        ensures
            final(self).wf(),
            r is Err <==> step_sra(old(self).state(), opcode) is None,
            match r {
                Ok(t) => Some((final(self).state(), t)) == step_sra(old(self).state(), opcode),
                Err(f) => !(f is Opcode),
            },
    {
        proof {
            lemma_opcode_fields();
        }
        let z = opcode & 0b_0000_0111;
        let n = self.read_r(z)?;
        let result: u8 = (n >> 1) | (n & 0x80);
        self.write_r(z, result)?;
        self.set_flags(result == 0, false, false, n & 0x01 != 0);
        Ok(if z == 6 {
            16
        } else {
            8
        })
    }

    /// Swap the two nibbles; Carry cleared. Zero reflects the result.
    fn swap(&mut self, opcode: u8) -> (r: Result<u32, Fault>)
        requires
            old(self).wf(),
        ensures
            final(self).wf(),
            r is Err <==> step_swap(old(self).state(), opcode) is None,
            match r {
                Ok(t) => Some((final(self).state(), t)) == step_swap(old(self).state(), opcode),
                Err(f) => !(f is Opcode),
            },
    {
        proof {
            lemma_opcode_fields();
        }
        let z = opcode & 0b_0000_0111;
        let n = self.read_r(z)?;
        let result: u8 = ((n & 0x0f) << 4) | ((n & 0xf0) >> 4);
        self.write_r(z, result)?;
        self.set_flags(result == 0, false, false, false);
        Ok(if z == 6 {
            16
        } else {
            8
        })
    }

    /// Shift right logical, bit 0 into Carry. Zero reflects the result.
    fn srl(&mut self, opcode: u8) -> (r: Result<u32, Fault>)
        requires
            old(self).wf(),
        ensures
            final(self).wf(),
            r is Err <==> step_srl(old(self).state(), opcode) is None,
            match r {
                Ok(t) => Some((final(self).state(), t)) == step_srl(old(self).state(), opcode),
                Err(f) => !(f is Opcode),
            },
    {
        proof {
            lemma_opcode_fields();
        }
        let z = opcode & 0b_0000_0111;
        let n = self.read_r(z)?;
        let result: u8 = n >> 1;
        self.write_r(z, result)?;
        self.set_flags(result == 0, false, false, n & 0x01 != 0);
        Ok(if z == 6 {
            16
        } else {
            8
        })
    }

    /// Rotate the accumulator left; Zero forced clear.
    fn rlca(&mut self) -> (t: u32)
        requires
            old(self).wf(),
        ensures
            final(self).wf(),
            (final(self).state(), t) == step_rlca(old(self).state()),
    {
        let n = self.register.a;
        let result: u8 = (n << 1) | (n >> 7);
        self.register.a = result;
        self.set_flags(false, false, false, n & 0x80 != 0);
        4
    }

    /// Rotate the accumulator right; Zero forced clear.
    fn rrca(&mut self) -> (t: u32)
        requires
            old(self).wf(),
        ensures
            final(self).wf(),
            (final(self).state(), t) == step_rrca(old(self).state()),
    {
        let n = self.register.a;
        let result: u8 = (n >> 1) | (n << 7);
        self.register.a = result;
        self.set_flags(false, false, false, n & 0x01 != 0);
        4
    }

    /// Rotate the accumulator left through Carry; Zero forced clear.
    fn rla(&mut self) -> (t: u32)
        requires
            old(self).wf(),
        ensures
            final(self).wf(),
            (final(self).state(), t) == step_rla(old(self).state()),
    {
        let n = self.register.a;
        let cin: u8 = if self.register.get_flag(Flag::C) {
            1
        } else {
            0
        };
        let result: u8 = (n << 1) | cin;
        self.register.a = result;
        self.set_flags(false, false, false, n & 0x80 != 0);
        4
    }

    /// Rotate the accumulator right through Carry; Zero forced clear.
    fn rra(&mut self) -> (t: u32)
        requires
            old(self).wf(),
        ensures
            final(self).wf(),
            (final(self).state(), t) == step_rra(old(self).state()),
    {
        let n = self.register.a;
        let cin: u8 = if self.register.get_flag(Flag::C) {
            1
        } else {
            0
        };
        let result: u8 = (n >> 1) | (cin << 7);
        self.register.a = result;
        self.set_flags(false, false, false, n & 0x01 != 0);
        4
    }

    /// Test a bit of an 8-bit operand: Zero is the tested bit's complement,
    /// Half-carry forced set, Subtract cleared, Carry untouched.
    fn bit(&mut self, opcode: u8) -> (r: Result<u32, Fault>)
        requires
            old(self).wf(),
        ensures
            final(self).wf(),
            r is Err <==> step_bit(old(self).state(), opcode) is None,
            match r {
                Ok(t) => Some((final(self).state(), t)) == step_bit(old(self).state(), opcode),
                Err(f) => !(f is Opcode),
            },
    {
        proof {
            lemma_opcode_fields();
        }
        let y = (opcode & 0b_0011_1000) >> 3;
        let z = opcode & 0b_0000_0111;
        let v = self.read_r(z)?;
        let result = (v >> y) & 1;
        self.set_flags_keep_c(result == 0, false, true);
        Ok(if z == 6 {
            12
        } else {
            8
        })
    }

    /// Clear a bit of an 8-bit operand; flags untouched.
    fn res(&mut self, opcode: u8) -> (r: Result<u32, Fault>)
        requires
            old(self).wf(),
        ensures
            final(self).wf(),
            r is Err <==> step_bit_write(old(self).state(), opcode, false) is None,
            match r {
                Ok(t) => Some((final(self).state(), t)) == step_bit_write(old(self).state(), opcode, false),
                Err(f) => !(f is Opcode),
            },
    {
        proof {
            lemma_opcode_fields();
        }
        let y = (opcode & 0b_0011_1000) >> 3;
        let z = opcode & 0b_0000_0111;
        let v = self.read_r(z)?;
        let result = v & !(1u8 << y);
        self.write_r(z, result)?;
        Ok(if z == 6 {
            16
        } else {
            8
        })
    }

    /// Set a bit of an 8-bit operand; flags untouched.
    fn set_bit(&mut self, opcode: u8) -> (r: Result<u32, Fault>)
        requires
            old(self).wf(),
        ensures
            final(self).wf(),
            r is Err <==> step_bit_write(old(self).state(), opcode, true) is None,
            match r {
                Ok(t) => Some((final(self).state(), t)) == step_bit_write(old(self).state(), opcode, true),
                Err(f) => !(f is Opcode),
            },
    {
        proof {
            lemma_opcode_fields();
        }
        let y = (opcode & 0b_0011_1000) >> 3;
        let z = opcode & 0b_0000_0111;
        let v = self.read_r(z)?;
        let result = v | (1u8 << y);
        self.write_r(z, result)?;
        Ok(if z == 6 {
            16
        } else {
            8
        })
    }
}


/// Whether the opcode belongs to the instruction set; the eleven gaps in
/// the opcode table are fatal to execute.
pub open spec fn spec_opcode_valid(op: u8) -> bool {
    !(op == 0xd3 || op == 0xdb || op == 0xdd || op == 0xe3 || op == 0xe4 || op == 0xeb || op
        == 0xec || op == 0xed || op == 0xf4 || op == 0xfc || op == 0xfd)
}

/// The pending interrupt with the highest priority: the lowest-numbered set
/// bit of `enabled & requested`.
pub open spec fn spec_lowest_source(req: u8) -> IntSource {
    if req & 0x01 != 0 {
        IntSource::VBlank
    } else if req & 0x02 != 0 {
        IntSource::LcdStat
    } else if req & 0x04 != 0 {
        IntSource::Timer
    } else if req & 0x08 != 0 {
        IntSource::Serial
    } else {
        IntSource::Joypad
    }
}

/// The pending-enable countdown after one step.
pub open spec fn spec_ei_after(ei: u8) -> u8 {
    if ei == 2 {
        1u8
    } else {
        0u8
    }
}

/// The interrupt master enable after the countdown ticks: enabling takes
/// effect only one instruction after EI (or the return from a service)
/// executes, while disabling is immediate.
pub open spec fn spec_ime_after(ime: bool, ei: u8) -> bool {
    if ei == 1 {
        true
    } else {
        ime
    }
}

impl CPU {
    /// Jump to a 16-bit immediate address.
    fn jp_nn(&mut self) -> (r: Result<u32, Fault>)
        requires
            old(self).wf(),
        ensures
            final(self).wf(),
            r is Err <==> step_jp_nn(old(self).state()) is None,
            match r {
                Ok(t) => Some((final(self).state(), t)) == step_jp_nn(old(self).state()),
                Err(f) => !(f is Opcode),
            },
    {
        let nn = self.fetch_word()?;
        self.register.pc = nn;
        Ok(16)
    }

    /// Conditional jump to a 16-bit immediate address: 16 cycles taken, 12
    /// not taken.
    fn jp_cc_nn(&mut self, opcode: u8) -> (r: Result<u32, Fault>)
        requires
            old(self).wf(),
        ensures
            final(self).wf(),
            r is Err <==> step_jp_cc_nn(old(self).state(), opcode) is None,
            match r {
                Ok(t) => Some((final(self).state(), t)) == step_jp_cc_nn(old(self).state(), opcode),
                Err(f) => !(f is Opcode),
            },
    {
        proof {
            lemma_opcode_fields();
        }
        let cc = self.read_cc((opcode >> 3) & 0x03);
        let nn = self.fetch_word()?;
        if cc {
            self.register.pc = nn;
            Ok(16)
        } else {
            Ok(12)
        }
    }

    /// Jump to the address in HL.
    fn jp_hl(&mut self) -> (t: u32)
        requires
            old(self).wf(),
        ensures
            final(self).wf(),
            (final(self).state(), t) == step_jp_hl(old(self).state()),
    {
        let hl = self.register.read_word(Register16::HL);
        self.register.pc = hl;
        4
    }

    /// Relative jump by a signed 8-bit immediate.
    fn jr_n(&mut self) -> (r: Result<u32, Fault>)
        requires
            old(self).wf(),
        ensures
            final(self).wf(),
            r is Err <==> step_jr_n(old(self).state()) is None,
            match r {
                Ok(t) => Some((final(self).state(), t)) == step_jr_n(old(self).state()),
                Err(f) => !(f is Opcode),
            },
    {
        let n = self.fetch_byte()?;
        self.register.pc = self.register.pc.wrapping_add(sign_extend_exec(n));
        Ok(12)
    }

    /// Conditional relative jump: 12 cycles taken, 8 not taken.
    fn jr_cc_n(&mut self, opcode: u8) -> (r: Result<u32, Fault>)
        requires
            old(self).wf(),
        ensures
            final(self).wf(),
            r is Err <==> step_jr_cc_n(old(self).state(), opcode) is None,
            match r {
                Ok(t) => Some((final(self).state(), t)) == step_jr_cc_n(old(self).state(), opcode),
                Err(f) => !(f is Opcode),
            },
    {
        proof {
            lemma_opcode_fields();
        }
        let cc = self.read_cc((opcode >> 3) & 0x03);
        let n = self.fetch_byte()?;

        if cc {
            self.register.pc = self.register.pc.wrapping_add(sign_extend_exec(n));
            Ok(12)
        } else {
            Ok(8)
        }
    }

    /// Push `pc` and jump to `addr`.
    fn call_to(&mut self, addr: u16) -> (r: Result<(), Fault>)
        requires
            old(self).wf(),
        ensures
            final(self).wf(),
            (final(self).ime, final(self).ei, final(self).halted) == (
                old(self).ime,
                old(self).ei,
                old(self).halted,
            ),
            r is Err <==> word_write_fault(
                old(self).mmu@,
                wrap16(old(self).register.sp - 2),
                old(self).register.pc,
            ),
            match r {
                Ok(u) => final(self).register == (Register {
                    pc: addr,
                    sp: wrap16(old(self).register.sp - 2),
                    ..old(self).register
                }) && final(self).mmu@ == spec_write_word(
                    old(self).mmu@,
                    wrap16(old(self).register.sp - 2),
                    old(self).register.pc,
                ),
                Err(f) => f is BusWrite,
            },
    {
        self.push_stack(self.register.pc)?;
        self.register.pc = addr;
        Ok(())
    }

    /// Conditional call: 24 cycles taken, 12 not taken; the pushed return
    /// address points past the immediate.
    fn call_cc(&mut self, opcode: u8) -> (r: Result<u32, Fault>)
        requires
            old(self).wf(),
        ensures
            final(self).wf(),
            r is Err <==> step_call_cc(old(self).state(), opcode) is None,
            match r {
                Ok(t) => Some((final(self).state(), t)) == step_call_cc(old(self).state(), opcode),
                Err(f) => !(f is Opcode),
            },
    {
        proof {
            lemma_opcode_fields();
        }
        let cc = self.read_cc((opcode >> 3) & 0x03);
        let addr = self.fetch_word()?;
        if cc {
            self.call_to(addr)?;
            Ok(24)
        } else {
            Ok(12)
        }
    }

    /// Call a 16-bit immediate address.
    fn call(&mut self) -> (r: Result<u32, Fault>)
        requires
            old(self).wf(),
        ensures
            final(self).wf(),
            r is Err <==> step_call(old(self).state()) is None,
            match r {
                Ok(t) => Some((final(self).state(), t)) == step_call(old(self).state()),
                Err(f) => !(f is Opcode),
            },
    {
        let addr = self.fetch_word()?;
        self.call_to(addr)?;
        Ok(24)
    }

    /// Restart: call one of the eight fixed low addresses.
    fn rst(&mut self, opcode: u8) -> (r: Result<u32, Fault>)
        requires
            old(self).wf(),
        ensures
            final(self).wf(),
            r is Err <==> step_rst(old(self).state(), opcode) is None,
            match r {
                Ok(t) => Some((final(self).state(), t)) == step_rst(old(self).state(), opcode),
                Err(f) => !(f is Opcode),
            },
    {
        proof {
            lemma_opcode_fields();
        }
        let y = (opcode & 0b_0011_1000) >> 3;
        let addr = y * 8;
        self.call_to(addr as u16)?;
        Ok(16)
    }

    /// Return: pop `pc`.
    fn ret(&mut self) -> (r: Result<u32, Fault>)
        requires
            old(self).wf(),
        ensures
            final(self).wf(),
            r is Err <==> step_ret(old(self).state()) is None,
            match r {
                Ok(t) => Some((final(self).state(), t)) == step_ret(old(self).state()),
                Err(f) => !(f is Opcode),
            },
    {
        let nn = self.pop_stack()?;
        self.register.pc = nn;
        Ok(16)
    }

    /// Conditional return: 20 cycles taken, 8 not taken.
    fn ret_cc(&mut self, opcode: u8) -> (r: Result<u32, Fault>)
        requires
            old(self).wf(),
        ensures
            final(self).wf(),
            r is Err <==> step_ret_cc(old(self).state(), opcode) is None,
            match r {
                Ok(t) => Some((final(self).state(), t)) == step_ret_cc(old(self).state(), opcode),
                Err(f) => !(f is Opcode),
            },
    {
        proof {
            lemma_opcode_fields();
        }
        let cc = self.read_cc((opcode >> 3) & 0x03);
        if cc {
            let nn = self.pop_stack()?;
            self.register.pc = nn;
            Ok(20)
        } else {
            Ok(8)
        }
    }

    /// Return and re-arm interrupts with the usual one-instruction latency.
    fn reti(&mut self) -> (r: Result<u32, Fault>)
        requires
            old(self).wf(),
        ensures
            final(self).wf(),
            r is Err <==> step_reti(old(self).state()) is None,
            match r {
                Ok(t) => Some((final(self).state(), t)) == step_reti(old(self).state()),
                Err(f) => !(f is Opcode),
            },
    {
        let nn = self.pop_stack()?;
        self.register.pc = nn;
        self.ei = 2;
        Ok(16)
    }

    /// Decimal adjust after BCD arithmetic: corrects the accumulator using
    /// the prior Subtract, Half-carry and Carry flags; updates Zero and
    /// Carry, clears Half-carry, keeps Subtract.
    fn dda(&mut self) -> (t: u32)
        requires
            old(self).wf(),
        ensures
            final(self).wf(),
            (final(self).state(), t) == step_dda(old(self).state()),
    {
        proof {
            lemma_flag_bits_wf();
        }
        let mut a = self.register.a;
        let c_adj: u8 = if self.register.get_flag(Flag::C) {
            0x60
        } else {
            0
        };
        let h_adj: u8 = if self.register.get_flag(Flag::H) {
            0x06
        } else {
            0
        };
        let mut adjust = c_adj | h_adj;
        if !self.register.get_flag(Flag::N) {
            adjust = adjust | (if a & 0x0f > 0x09 {
                0x06
            } else {
                0
            });
            adjust = adjust | (if a > 0x99 {
                0x60
            } else {
                0
            });
            a = a.wrapping_add(adjust);
        } else {
            a = a.wrapping_sub(adjust);
        }

        self.register.a = a;
        let nbit = self.register.f.bits & 0x40;
        self.register.f = Flags { bits: nbit | flags_byte(a == 0, false, false, adjust >= 0x60) };
        4
    }

    /// Complement the Carry flag; Subtract and Half-carry cleared, Zero
    /// kept.
    fn ccf(&mut self) -> (t: u32)
        requires
            old(self).wf(),
        ensures
            final(self).wf(),
            (final(self).state(), t) == step_ccf(old(self).state()),
    {
        proof {
            lemma_flag_bits_wf();
        }
        let c = self.register.get_flag(Flag::C);
        let zbit = self.register.f.bits & 0x80;
        self.register.f = Flags { bits: zbit | flags_byte(false, false, false, !c) };
        4
    }

    /// Complement the accumulator; Subtract and Half-carry set, Zero and
    /// Carry kept.
    fn cpl(&mut self) -> (t: u32)
        requires
            old(self).wf(),
        ensures
            final(self).wf(),
            (final(self).state(), t) == step_cpl(old(self).state()),
    {
        proof {
            lemma_flag_bits_wf();
        }
        self.register.a = !self.register.a;
        let zc = self.register.f.bits & 0x90;
        self.register.f = Flags { bits: zc | flags_byte(false, true, true, false) };
        4
    }

    /// Suspend fetching until an interrupt is pending.
    fn halt(&mut self) -> (t: u32)
        requires
            old(self).wf(),
        ensures
            final(self).wf(),
            (final(self).state(), t) == step_halt(old(self).state()),
    {
        self.halted = true;
        4
    }

    /// Set the Carry flag; Subtract and Half-carry cleared, Zero kept.
    fn scf(&mut self) -> (t: u32)
        requires
            old(self).wf(),
        ensures
            final(self).wf(),
            (final(self).state(), t) == step_scf(old(self).state()),
    {
        proof {
            lemma_flag_bits_wf();
        }
        let zbit = self.register.f.bits & 0x80;
        self.register.f = Flags { bits: zbit | flags_byte(false, false, false, true) };
        4
    }

    /// Disable interrupt servicing immediately, cancelling any pending
    /// enable.
    fn di(&mut self) -> (t: u32)
        requires
            old(self).wf(),
        ensures
            final(self).wf(),
            (final(self).state(), t) == step_di(old(self).state()),
    {
        self.ime = false;
        self.ei = 0;
        4
    }

    /// Start the two-step countdown that enables interrupt servicing.
    fn ei(&mut self) -> (t: u32)
        requires
            old(self).wf(),
        ensures
            final(self).wf(),
            (final(self).state(), t) == step_ei(old(self).state()),
    {
        self.ei = 2;
        4
    }

    /// Tick the pending-enable countdown: a started enable takes effect
    /// one instruction after it was started.
    fn update_ime(&mut self)
        requires
            old(self).wf(),
        ensures
            final(self).wf(),
            final(self).mmu@ == old(self).mmu@,
            final(self).regs() == (
                old(self).register,
                spec_ime_after(old(self).ime, old(self).ei),
                spec_ei_after(old(self).ei),
                old(self).halted,
            ),
    {
        self.ei = match self.ei {
            2 => 1,
            1 => {
                self.ime = true;
                0
            },
            _ => 0,
        };
    }

    /// The interrupt controller, run once per step before any fetch: wake
    /// from halt on any pending request; when servicing is permitted and a
    /// request is pending, service exactly the highest-priority one — clear
    /// only its request bit, disable further servicing, push `pc`, jump to
    /// its vector, and charge 16 cycles.
    fn handle_interrupt(&mut self) -> (r: Result<u32, Fault>)
        requires
            old(self).wf(),
        ensures
            final(self).wf(),
            ({
                let req = old(self).mmu@.interrupt_enable & old(self).mmu@.interrupt_flag;
                let s = spec_lowest_source(req);
                let cleared = (MmuV {
                    interrupt_flag: old(self).mmu@.interrupt_flag & !s.spec_mask(),
                    ..old(self).mmu@
                });
                if !old(self).ime && !old(self).halted {
                    r == Ok::<u32, Fault>(0u32) && *final(self) == *old(self)
                } else if req == 0 {
                    r == Ok::<u32, Fault>(0u32) && *final(self) == *old(self)
                } else if !old(self).ime {
                    // only a pending request wakes a halted engine
                    r == Ok::<u32, Fault>(0u32) && final(self).regs() == (
                        old(self).register,
                        old(self).ime,
                        old(self).ei,
                        false,
                    ) && final(self).mmu@ == old(self).mmu@
                } else {
                    &&& (r is Err <==> word_write_fault(
                        cleared,
                        wrap16(old(self).register.sp - 2),
                        old(self).register.pc,
                    ))
                    &&& (r is Ok ==> r == Ok::<u32, Fault>(16u32) && final(self).regs() == (
                        (Register {
                            pc: s.spec_vector(),
                            sp: wrap16(old(self).register.sp - 2),
                            ..old(self).register
                        }),
                        false,
                        old(self).ei,
                        false,
                    ) && final(self).mmu@ == spec_write_word(
                        cleared,
                        wrap16(old(self).register.sp - 2),
                        old(self).register.pc,
                    ))
                }
            }),
    {
        if !self.ime && !self.halted {
            return Ok(0);
        }
        let request = self.mmu.interrupt_enable.bits() & self.mmu.interrupt_flag.bits();
        if request == 0 {
            return Ok(0);
        }
        self.halted = false;
        if !self.ime {
            return Ok(0);
        }
        self.ime = false;

        let source = if request & 0x01 != 0 {
            IntSource::VBlank
        } else if request & 0x02 != 0 {
            IntSource::LcdStat
        } else if request & 0x04 != 0 {
            IntSource::Timer
        } else if request & 0x08 != 0 {
            IntSource::Serial
        } else {
            IntSource::Joypad
        };
        self.mmu.interrupt_flag.assign(source, false);
        let vector = source.vector();
        self.call_to(vector)?;
        Ok(16)
    }
}


impl CPU {
    /// Decode and execute one fetched opcode against the register file and
    /// the bus: the machine state and cycle cost become exactly what the
    /// instruction's step function gives, a fatal bus access surfaces as a
    /// fault, and an opcode outside the instruction set is fatal and
    /// changes nothing.
    #[verifier::rlimit(100)]
    #[verifier::spinoff_prover]
    fn execute(&mut self, opcode: u8) -> (r: Result<u32, Fault>)
        requires
            old(self).wf(),
        ensures
            final(self).wf(),
            !spec_opcode_valid(opcode) <==> r == Err::<u32, Fault>(Fault::Opcode(opcode)),
            !spec_opcode_valid(opcode) ==> *final(self) == *old(self),
            spec_opcode_valid(opcode) ==> ((r is Err) <==> spec_execute(
                old(self).state(),
                opcode,
            ) is None),
            match r {
                Ok(t) => Some((final(self).state(), t)) == spec_execute(old(self).state(), opcode)
                    && 4 <= t <= 24 && t % 4 == 0,
                Err(f) => f is Opcode ==> f == Fault::Opcode(opcode) && !spec_opcode_valid(opcode),
            },
    {
        match opcode {
            // loads
            0x01 | 0x11 | 0x21 | 0x31 => self.ld_r16_d16(opcode),
            0x06 | 0x0e | 0x16 | 0x1e | 0x26 | 0x2e | 0x36 | 0x3e => self.ld_r8_d8(opcode),
            0x40..=0x46 | 0x48..=0x4e | 0x50..=0x56 | 0x58..=0x5e => self.ld_r8_r8(opcode),
            0x60..=0x66 | 0x68..=0x6e | 0x70..=0x75 => self.ld_r8_r8(opcode),
            0x78..=0x7f => self.ld_a_r8(opcode),
            0x47 | 0x4f | 0x57 | 0x5f | 0x67 | 0x6f | 0x77 => self.ld_r8_a(opcode),
            0x02 | 0x12 => self.ld_r16_a(opcode),
            0x0a | 0x1a => self.ld_a_r16(opcode),
            0xfa => self.ld_a_d16(),
            0xea => self.ld_d16_a(),
            0xe0 => self.ldh_d8_a(),
            0xf0 => self.ldh_a_d8(),
            0xe2 => self.ldh_c_a(),
            0xf2 => self.ldh_a_c(),
            0x22 => self.ldi_hl_a(),
            0x2a => self.ldi_a_hl(),
            0x32 => self.ldd_hl_a(),
            0x3a => self.ldd_a_hl(),
            0x08 => self.ld_d16_sp(),
            0xf8 => self.ld_hl_sp_d8(),
            0xf9 => Ok(self.ld_sp_hl()),
            0xc1 | 0xd1 | 0xe1 | 0xf1 => self.pop(opcode),
            0xc5 | 0xd5 | 0xe5 | 0xf5 => self.push(opcode),
            // arithmetic
            0x09 | 0x19 | 0x29 | 0x39 => Ok(self.add_hl(opcode)),
            0xe8 => self.add_sp(),
            0x80..=0x87 => self.add(opcode),
            0x88..=0x8f => self.adc(opcode),
            0x90..=0x97 => self.sub(opcode),
            0x98..=0x9f => self.sbc(opcode),
            0xa0..=0xa7 => self.and(opcode),
            0xa8..=0xaf => self.xor(opcode),
            0xb0..=0xb7 => self.or(opcode),
            0xb8..=0xbf => self.cp(opcode),
            0xc6 => self.add_d8(),
            0xce => self.adc_d8(),
            0xd6 => self.sub_d8(),
            0xde => self.sbc_d8(),
            0xe6 => self.and_d8(),
            0xee => self.xor_d8(),
            0xf6 => self.or_d8(),
            0xfe => self.cp_d8(),
            0x04 | 0x0c | 0x14 | 0x1c | 0x24 | 0x2c | 0x34 | 0x3c => self.inc8(opcode),
            0x05 | 0x0d | 0x15 | 0x1d | 0x25 | 0x2d | 0x35 | 0x3d => self.dec8(opcode),
            0x03 | 0x13 | 0x23 | 0x33 => Ok(self.inc16(opcode)),
            0x0b | 0x1b | 0x2b | 0x3b => Ok(self.dec16(opcode)),
            // rotates & shifts
            0x07 => Ok(self.rlca()),
            0x0f => Ok(self.rrca()),
            0x17 => Ok(self.rla()),
            0x1f => Ok(self.rra()),
            // jumps
            0xc3 => self.jp_nn(),
            0xc2 | 0xca | 0xd2 | 0xda => self.jp_cc_nn(opcode),
            0xe9 => Ok(self.jp_hl()),
            0x18 => self.jr_n(),
            0x20 | 0x28 | 0x30 | 0x38 => self.jr_cc_n(opcode),
            // calls
            0xc4 | 0xcc | 0xd4 | 0xdc => self.call_cc(opcode),
            0xcd => self.call(),
            // restarts
            0xc7 | 0xcf | 0xd7 | 0xdf | 0xe7 | 0xef | 0xf7 | 0xff => self.rst(opcode),
            // returns
            0xc0 | 0xc8 | 0xd0 | 0xd8 => self.ret_cc(opcode),
            0xc9 => self.ret(),
            0xd9 => self.reti(),
            // miscellaneous
            0x00 => Ok(4),  // nop
            0x10 => Ok(4),  // stop
            0x27 => Ok(self.dda()),
            0x2f => Ok(self.cpl()),
            0x37 => Ok(self.scf()),
            0x3f => Ok(self.ccf()),
            0x76 => Ok(self.halt()),
            0xf3 => Ok(self.di()),
            0xfb => Ok(self.ei()),
            0xcb => self.prefix(),
            _ => Err(Fault::Opcode(opcode)),
        }
    }

    /// Fetch and execute one opcode of the two-byte table: rotates, shifts,
    /// swap, and the bit test/clear/set family. Every one of its 256
    /// opcodes is defined.
    fn prefix(&mut self) -> (r: Result<u32, Fault>)
        requires
            old(self).wf(),
        ensures
            final(self).wf(),
            r is Err <==> step_prefix(old(self).state()) is None,
            match r {
                Ok(t) => Some((final(self).state(), t)) == step_prefix(old(self).state()),
                Err(f) => !(f is Opcode),
            },
    {
        let opcode = self.fetch_byte()?;
        match opcode {
            // rotates & shifts
            0x00..=0x07 => self.rlc(opcode),
            0x08..=0x0f => self.rrc(opcode),
            0x10..=0x17 => self.rl(opcode),
            0x18..=0x1f => self.rr(opcode),
            0x20..=0x27 => self.sla(opcode),
            0x28..=0x2f => self.sra(opcode),
            0x30..=0x37 => self.swap(opcode),
            0x38..=0x3f => self.srl(opcode),
            // bit
            0x40..=0x7f => self.bit(opcode),
            0x80..=0xbf => self.res(opcode),
            _ => self.set_bit(opcode),
        }
    }

    /// One step: tick the pending-enable countdown, service at most one pending
    /// interrupt, and otherwise execute one instruction (a no-op while
    /// halted). Returns the cycles consumed. With servicing permitted and a
    /// request pending, exactly one service occurs: it jumps to the
    /// highest-priority source's vector and clears only that source's
    /// request bit, leaving the others set for the following steps.
    #[verifier::rlimit(100)]
    #[verifier::spinoff_prover]
    pub fn run_with_interrupt(&mut self) -> (r: Result<u32, Fault>)
        requires
            old(self).wf(),
        ensures
            final(self).wf(),
            match r {
                Ok(t) => 4 <= t <= 24 && t % 4 == 0,
                Err(f) => true,
            },
            ({
                let ime1 = spec_ime_after(old(self).ime, old(self).ei);
                let ei1 = spec_ei_after(old(self).ei);
                let req = old(self).mmu@.interrupt_enable & old(self).mmu@.interrupt_flag;
                let s = spec_lowest_source(req);
                let cleared = (MmuV {
                    interrupt_flag: old(self).mmu@.interrupt_flag & !s.spec_mask(),
                    ..old(self).mmu@
                });
                if ime1 && req != 0 {
                    // the service path, pinned exactly
                    &&& (r is Err <==> word_write_fault(
                        cleared,
                        wrap16(old(self).register.sp - 2),
                        old(self).register.pc,
                    ))
                    &&& (r is Ok ==> r == Ok::<u32, Fault>(16u32) && final(self).regs() == (
                        (Register {
                            pc: s.spec_vector(),
                            sp: wrap16(old(self).register.sp - 2),
                            ..old(self).register
                        }),
                        false,
                        ei1,
                        false,
                    ) && final(self).mmu@ == spec_write_word(
                        cleared,
                        wrap16(old(self).register.sp - 2),
                        old(self).register.pc,
                    ))
                } else if old(self).halted && req == 0 {
                    // halted with nothing pending: burn a no-op
                    r == Ok::<u32, Fault>(4u32) && final(self).regs() == (
                        old(self).register,
                        ime1,
                        ei1,
                        true,
                    ) && final(self).mmu@ == old(self).mmu@
                } else {
                    // ordinary decode; any halt was woken by the pending
                    // request, the opcode at pc is fetched and executed
                    let s1 = (CpuS {
                        reg: pc_plus(old(self).register, 1),
                        mmu: old(self).mmu@,
                        ime: ime1,
                        ei: ei1,
                        halted: false,
                    });
                    let op = old(self).mmu@.spec_read(old(self).register.pc);
                    if old(self).mmu@.fatal_read(old(self).register.pc) {
                        r == Err::<u32, Fault>(Fault::BusRead(old(self).register.pc))
                    } else if !spec_opcode_valid(op) {
                        r == Err::<u32, Fault>(Fault::Opcode(op)) && final(self).state() == s1
                    } else {
                        &&& (r is Err <==> spec_execute(s1, op) is None)
                        &&& match r {
                            Ok(t) => Some((final(self).state(), t)) == spec_execute(s1, op),
                            Err(f) => !(f is Opcode),
                        }
                    }
                }
            }),
    {
        self.update_ime();
        let n = self.handle_interrupt()?;
        if n != 0 {
            return Ok(n);
        }
        if self.halted {
            self.execute(0x00)  // nop
        } else {
            let opcode = self.fetch_byte()?;
            self.execute(opcode)
        }
    }

    /// One step of the whole machine: execute one CPU step, then advance
    /// the bus — the timer and the pixel unit — by exactly the cycles that
    /// step consumed, so that interrupts they raise are visible to the next
    /// step and never mid-instruction.
    pub fn run(&mut self) -> (r: Result<u32, Fault>)
        requires
            old(self).wf(),
        ensures
            final(self).wf(),
            match r {
                Ok(t) => 4 <= t <= 24 && t % 4 == 0,
                Err(f) => true,
            },
            ({
                let ime1 = spec_ime_after(old(self).ime, old(self).ei);
                let ei1 = spec_ei_after(old(self).ei);
                let req = old(self).mmu@.interrupt_enable & old(self).mmu@.interrupt_flag;
                let s = spec_lowest_source(req);
                let cleared = (MmuV {
                    interrupt_flag: old(self).mmu@.interrupt_flag & !s.spec_mask(),
                    ..old(self).mmu@
                });
                if ime1 && req != 0 {
                    r is Ok ==> r == Ok::<u32, Fault>(16u32) && final(self).regs() == (
                        (Register {
                            pc: s.spec_vector(),
                            sp: wrap16(old(self).register.sp - 2),
                            ..old(self).register
                        }),
                        false,
                        ei1,
                        false,
                    ) && final(self).mmu@ == spec_write_word(
                        cleared,
                        wrap16(old(self).register.sp - 2),
                        old(self).register.pc,
                    ).spec_run(16)
                } else if old(self).halted && req == 0 {
                    r == Ok::<u32, Fault>(4u32) && final(self).regs() == (
                        old(self).register,
                        ime1,
                        ei1,
                        true,
                    ) && final(self).mmu@ == old(self).mmu@.spec_run(4)
                } else {
                    // ordinary decode: the instruction executes, then the
                    // bus advances by exactly the cycles it consumed
                    let s1 = (CpuS {
                        reg: pc_plus(old(self).register, 1),
                        mmu: old(self).mmu@,
                        ime: ime1,
                        ei: ei1,
                        halted: false,
                    });
                    let op = old(self).mmu@.spec_read(old(self).register.pc);
                    match r {
                        Ok(t) => {
                            &&& !old(self).mmu@.fatal_read(old(self).register.pc)
                            &&& spec_opcode_valid(op)
                            &&& spec_execute(s1, op) is Some
                            &&& t == spec_execute(s1, op)->Some_0.1
                            &&& final(self).state() == (CpuS {
                                mmu: spec_execute(s1, op)->Some_0.0.mmu.spec_run(t),
                                ..spec_execute(s1, op)->Some_0.0
                            })
                        },
                        Err(f) => true,
                    }
                }
            }),
    {
        let ticks = self.run_with_interrupt()?;
        self.mmu.run(ticks);
        Ok(ticks)
    }

    /// A powered-on machine holding the given ROM image.
    pub fn new(rom: Vec<u8>) -> (r: CPU)
        requires
            rom@.len() >= 0x150,
            rom@[0x148] <= 6,
            rom@[0x149] <= 4,
            rom@.len() >= 16384 * crate::cartridge::spec_rom_banks(rom@[0x148]),
        ensures
            r.wf(),
            r.mmu@ == crate::mmu::initial_mmu(rom@),
            r.regs() == (
                (Register {
                    a: 0u8,
                    f: (Flags { bits: 0u8 }),
                    b: 0u8,
                    c: 0u8,
                    d: 0u8,
                    e: 0u8,
                    h: 0u8,
                    l: 0u8,
                    sp: 0u16,
                    pc: 0u16,
                }),
                false,
                0u8,
                false,
            ),
    {
        CPU {
            register: Register::new(),
            mmu: MMU::new(rom),
            ime: false,
            ei: 0,
            halted: false,
        }
    }

    /// Set the architecturally defined post-boot register and I/O values,
    /// for running without a boot image.
    pub fn init(&mut self)
        requires
            old(self).wf(),
        ensures
            final(self).wf(),
            final(self).regs() == (
                (Register {
                    a: 0x01u8,
                    f: (Flags { bits: 0xb0u8 }),
                    b: 0x00u8,
                    c: 0x13u8,
                    d: 0x00u8,
                    e: 0xd8u8,
                    h: 0x01u8,
                    l: 0x4du8,
                    sp: 0xfffeu16,
                    pc: 0x0100u16,
                }),
                old(self).ime,
                old(self).ei,
                old(self).halted,
            ),
            final(self).mmu@ == old(self).mmu@.spec_init(),
    {
        proof {
            lemma_flag_bits_wf();
        }
        // the architecturally defined post-boot values: AF=0x01b0,
        // BC=0x0013, DE=0x00d8, HL=0x014d
        self.register.a = 0x01;
        self.register.f = Flags { bits: 0xb0 };
        self.register.b = 0x00;
        self.register.c = 0x13;
        self.register.d = 0x00;
        self.register.e = 0xd8;
        self.register.h = 0x01;
        self.register.l = 0x4d;
        self.register.sp = 0xfffe;
        self.register.pc = 0x0100;
        self.mmu.init();
    }
}


/// Executing a subtraction with operands `(a, n)` yields Carry iff `a < n`,
/// Half-carry iff `(a & 0xf) < (n & 0xf)`, Zero iff the result is 0, and
/// the Subtract flag always set.
pub proof fn lemma_sub_flags(a: u8, n: u8)
    ensures
        alu_sub(a, n, false).0 == wrap8(a - n),
        alu_sub(a, n, false).1.c() == (a < n),
        alu_sub(a, n, false).1.h() == ((a & 0x0f) < (n & 0x0f)),
        alu_sub(a, n, false).1.z() == (wrap8(a - n) == 0),
        alu_sub(a, n, false).1.n(),
{
    crate::register::lemma_flag_bits_props(
        wrap8(a - n) == 0,
        true,
        (a & 0x0f) < (n & 0x0f),
        a < n,
    );
}


/// Shorthand: the HL pair of a machine state.
pub open spec fn hl_of(s: CpuS) -> u16 {
    s.reg.spec_read_word(Register16::HL)
}

/// Load a 16-bit immediate into the selected register pair.
pub open spec fn step_ld_r16_d16(s: CpuS, opcode: u8) -> Option<(CpuS, u32)> {
    if word_read_fault(s.mmu, s.reg.pc) {
        None
    } else {
        Some(
            (
                CpuS {
                    reg: spec_rp_write(
                        pc_plus(s.reg, 2),
                        (opcode & 0x30) >> 4,
                        spec_read_word(s.mmu, s.reg.pc),
                    ),
                    ..s
                },
                12,
            ),
        )
    }
}

/// Load an 8-bit immediate into a register or into memory at HL.
pub open spec fn step_ld_r8_d8(s: CpuS, opcode: u8) -> Option<(CpuS, u32)> {
    let y = (opcode & 0x38) >> 3;
    if s.mmu.fatal_read(s.reg.pc) {
        None
    } else {
        let n = s.mmu.spec_read(s.reg.pc);
        if y == 6 {
            if s.mmu.fatal_write(hl_of(s), n) {
                None
            } else {
                Some(
                    (
                        CpuS {
                            reg: pc_plus(s.reg, 1),
                            mmu: s.mmu.spec_write(hl_of(s), n),
                            ..s
                        },
                        12,
                    ),
                )
            }
        } else {
            Some((CpuS { reg: spec_reg8_write(pc_plus(s.reg, 1), y, n), ..s }, 8))
        }
    }
}

/// Copy between two 8-bit operands (either may be memory at HL).
pub open spec fn step_ld_r8_r8(s: CpuS, opcode: u8) -> Option<(CpuS, u32)> {
    let z = opcode & 0x07;
    let y = (opcode & 0x38) >> 3;
    if z == 6 && s.mmu.fatal_read(hl_of(s)) {
        None
    } else {
        let v = if z == 6 {
            s.mmu.spec_read(hl_of(s))
        } else {
            spec_reg8(s.reg, z)
        };
        if y == 6 {
            if s.mmu.fatal_write(hl_of(s), v) {
                None
            } else {
                Some((CpuS { mmu: s.mmu.spec_write(hl_of(s), v), ..s }, 8))
            }
        } else {
            Some(
                (
                    CpuS { reg: spec_reg8_write(s.reg, y, v), ..s },
                    if z == 6 {
                        8
                    } else {
                        4
                    },
                ),
            )
        }
    }
}

/// Load the accumulator from an 8-bit operand.
pub open spec fn step_ld_a_r8(s: CpuS, opcode: u8) -> Option<(CpuS, u32)> {
    let z = opcode & 0x07;
    if z == 6 && s.mmu.fatal_read(hl_of(s)) {
        None
    } else {
        let v = if z == 6 {
            s.mmu.spec_read(hl_of(s))
        } else {
            spec_reg8(s.reg, z)
        };
        Some(
            (
                CpuS { reg: (Register { a: v, ..s.reg }), ..s },
                if z == 6 {
                    8
                } else {
                    4
                },
            ),
        )
    }
}

/// Store the accumulator into an 8-bit operand.
pub open spec fn step_ld_r8_a(s: CpuS, opcode: u8) -> Option<(CpuS, u32)> {
    let y = (opcode & 0x38) >> 3;
    if y == 6 {
        if s.mmu.fatal_write(hl_of(s), s.reg.a) {
            None
        } else {
            Some((CpuS { mmu: s.mmu.spec_write(hl_of(s), s.reg.a), ..s }, 8))
        }
    } else {
        Some((CpuS { reg: spec_reg8_write(s.reg, y, s.reg.a), ..s }, 4))
    }
}

/// Load the accumulator from memory at the selected register pair.
pub open spec fn step_ld_a_r16(s: CpuS, opcode: u8) -> Option<(CpuS, u32)> {
    let addr = spec_rp(s.reg, (opcode & 0x30) >> 4);
    if s.mmu.fatal_read(addr) {
        None
    } else {
        Some((CpuS { reg: (Register { a: s.mmu.spec_read(addr), ..s.reg }), ..s }, 8))
    }
}

/// Store the accumulator into memory at the selected register pair.
pub open spec fn step_ld_r16_a(s: CpuS, opcode: u8) -> Option<(CpuS, u32)> {
    let addr = spec_rp(s.reg, (opcode & 0x30) >> 4);
    if s.mmu.fatal_write(addr, s.reg.a) {
        None
    } else {
        Some((CpuS { mmu: s.mmu.spec_write(addr, s.reg.a), ..s }, 8))
    }
}

/// Load the accumulator from a 16-bit immediate address.
pub open spec fn step_ld_a_d16(s: CpuS) -> Option<(CpuS, u32)> {
    if word_read_fault(s.mmu, s.reg.pc) {
        None
    } else {
        let nn = spec_read_word(s.mmu, s.reg.pc);
        if s.mmu.fatal_read(nn) {
            None
        } else {
            Some(
                (
                    CpuS {
                        reg: (Register { a: s.mmu.spec_read(nn), ..pc_plus(s.reg, 2) }),
                        ..s
                    },
                    16,
                ),
            )
        }
    }
}

/// Store the accumulator at a 16-bit immediate address.
pub open spec fn step_ld_d16_a(s: CpuS) -> Option<(CpuS, u32)> {
    if word_read_fault(s.mmu, s.reg.pc) {
        None
    } else {
        let nn = spec_read_word(s.mmu, s.reg.pc);
        if s.mmu.fatal_write(nn, s.reg.a) {
            None
        } else {
            Some(
                (
                    CpuS {
                        reg: pc_plus(s.reg, 2),
                        mmu: s.mmu.spec_write(nn, s.reg.a),
                        ..s
                    },
                    16,
                ),
            )
        }
    }
}

/// Store the accumulator into the high page at 0xff00 plus register C.
pub open spec fn step_ldh_c_a(s: CpuS) -> Option<(CpuS, u32)> {
    let addr = (0xff00 | s.reg.c as u16) as u16;
    if s.mmu.fatal_write(addr, s.reg.a) {
        None
    } else {
        Some((CpuS { mmu: s.mmu.spec_write(addr, s.reg.a), ..s }, 8))
    }
}

/// Load the accumulator from the high page at 0xff00 plus register C.
pub open spec fn step_ldh_a_c(s: CpuS) -> Option<(CpuS, u32)> {
    let addr = (0xff00 | s.reg.c as u16) as u16;
    if s.mmu.fatal_read(addr) {
        None
    } else {
        Some((CpuS { reg: (Register { a: s.mmu.spec_read(addr), ..s.reg }), ..s }, 8))
    }
}

/// Store the accumulator into the high page at 0xff00 plus an immediate.
pub open spec fn step_ldh_d8_a(s: CpuS) -> Option<(CpuS, u32)> {
    if s.mmu.fatal_read(s.reg.pc) {
        None
    } else {
        let n = s.mmu.spec_read(s.reg.pc);
        let addr = (0xff00 | n as u16) as u16;
        if s.mmu.fatal_write(addr, s.reg.a) {
            None
        } else {
            Some(
                (
                    CpuS {
                        reg: pc_plus(s.reg, 1),
                        mmu: s.mmu.spec_write(addr, s.reg.a),
                        ..s
                    },
                    12,
                ),
            )
        }
    }
}

/// Load the accumulator from the high page at 0xff00 plus an immediate.
pub open spec fn step_ldh_a_d8(s: CpuS) -> Option<(CpuS, u32)> {
    if s.mmu.fatal_read(s.reg.pc) {
        None
    } else {
        let n = s.mmu.spec_read(s.reg.pc);
        let addr = (0xff00 | n as u16) as u16;
        if s.mmu.fatal_read(addr) {
            None
        } else {
            Some(
                (
                    CpuS {
                        reg: (Register { a: s.mmu.spec_read(addr), ..pc_plus(s.reg, 1) }),
                        ..s
                    },
                    12,
                ),
            )
        }
    }
}

/// Store the accumulator at HL, then move HL by `delta`.
pub open spec fn step_ld_hl_a_move(s: CpuS, delta: int) -> Option<(CpuS, u32)> {
    if s.mmu.fatal_write(hl_of(s), s.reg.a) {
        None
    } else {
        Some(
            (
                CpuS {
                    reg: s.reg.spec_write_word(Register16::HL, wrap16(hl_of(s) + delta)),
                    mmu: s.mmu.spec_write(hl_of(s), s.reg.a),
                    ..s
                },
                8,
            ),
        )
    }
}

/// Load the accumulator from HL, then move HL by `delta`.
pub open spec fn step_ld_a_hl_move(s: CpuS, delta: int) -> Option<(CpuS, u32)> {
    if s.mmu.fatal_read(hl_of(s)) {
        None
    } else {
        Some(
            (
                CpuS {
                    reg: (Register {
                        a: s.mmu.spec_read(hl_of(s)),
                        ..s.reg
                    }).spec_write_word(Register16::HL, wrap16(hl_of(s) + delta)),
                    ..s
                },
                8,
            ),
        )
    }
}

/// Copy HL into the stack pointer.
pub open spec fn step_ld_sp_hl(s: CpuS) -> (CpuS, u32) {
    (CpuS { reg: (Register { sp: hl_of(s), ..s.reg }), ..s }, 8)
}

/// Load HL with the stack pointer plus a signed immediate.
pub open spec fn step_ld_hl_sp_d8(s: CpuS) -> Option<(CpuS, u32)> {
    if s.mmu.fatal_read(s.reg.pc) {
        None
    } else {
        let v = sign_extend(s.mmu.spec_read(s.reg.pc));
        let sp = s.reg.sp;
        let h = (sp & 0x0f) + (v & 0x0f) > 0x0f;
        let c = (sp & 0xff) + (v & 0xff) > 0xff;
        Some(
            (
                CpuS {
                    reg: (Register {
                        f: Flags::flag_bits(false, false, h, c),
                        ..pc_plus(s.reg, 1)
                    }).spec_write_word(Register16::HL, wrap16(sp + v)),
                    ..s
                },
                12,
            ),
        )
    }
}

/// Store the stack pointer at a 16-bit immediate address.
pub open spec fn step_ld_d16_sp(s: CpuS) -> Option<(CpuS, u32)> {
    if word_read_fault(s.mmu, s.reg.pc) {
        None
    } else {
        let nn = spec_read_word(s.mmu, s.reg.pc);
        if word_write_fault(s.mmu, nn, s.reg.sp) {
            None
        } else {
            Some(
                (
                    CpuS {
                        reg: pc_plus(s.reg, 2),
                        mmu: spec_write_word(s.mmu, nn, s.reg.sp),
                        ..s
                    },
                    20,
                ),
            )
        }
    }
}

/// Push the selected register pair (AF form).
pub open spec fn step_push(s: CpuS, opcode: u8) -> Option<(CpuS, u32)> {
    let nn = spec_rp2(s.reg, (opcode & 0x30) >> 4);
    if word_write_fault(s.mmu, wrap16(s.reg.sp - 2), nn) {
        None
    } else {
        Some(
            (
                CpuS {
                    reg: (Register { sp: wrap16(s.reg.sp - 2), ..s.reg }),
                    mmu: spec_write_word(s.mmu, wrap16(s.reg.sp - 2), nn),
                    ..s
                },
                16,
            ),
        )
    }
}

/// Pop into the selected register pair (AF form).
pub open spec fn step_pop(s: CpuS, opcode: u8) -> Option<(CpuS, u32)> {
    if word_read_fault(s.mmu, s.reg.sp) {
        None
    } else {
        Some(
            (
                CpuS {
                    reg: spec_rp2_write(
                        (Register { sp: wrap16(s.reg.sp + 2), ..s.reg }),
                        (opcode & 0x30) >> 4,
                        spec_read_word(s.mmu, s.reg.sp),
                    ),
                    ..s
                },
                12,
            ),
        )
    }
}

/// Add the selected register pair to HL.
pub open spec fn step_add_hl(s: CpuS, opcode: u8) -> (CpuS, u32) {
    let nn = spec_rp(s.reg, (opcode & 0x30) >> 4);
    let hl = hl_of(s);
    let h = (hl & 0x0fff) + (nn & 0x0fff) > 0x0fff;
    let c = hl + nn > 0xffff;
    (
        CpuS {
            reg: (Register {
                f: flags_keep_z(s.reg.f, false, h, c),
                ..s.reg
            }).spec_write_word(Register16::HL, wrap16(hl + nn)),
            ..s
        },
        8,
    )
}

/// Add a signed immediate to the stack pointer.
pub open spec fn step_add_sp(s: CpuS) -> Option<(CpuS, u32)> {
    if s.mmu.fatal_read(s.reg.pc) {
        None
    } else {
        let v = sign_extend(s.mmu.spec_read(s.reg.pc));
        let sp = s.reg.sp;
        let h = (sp & 0x0f) + (v & 0x0f) > 0x0f;
        let c = (sp & 0xff) + (v & 0xff) > 0xff;
        Some(
            (
                CpuS {
                    reg: (Register {
                        sp: wrap16(sp + v),
                        f: Flags::flag_bits(false, false, h, c),
                        ..pc_plus(s.reg, 1)
                    }),
                    ..s
                },
                16,
            ),
        )
    }
}


/// Add an 8-bit operand into the accumulator. (register form)
pub open spec fn step_add(s: CpuS, opcode: u8) -> Option<(CpuS, u32)> {
    let z = opcode & 0x07;
    if z == 6 && s.mmu.fatal_read(hl_of(s)) {
        None
    } else {
        let n = if z == 6 {
            s.mmu.spec_read(hl_of(s))
        } else {
            spec_reg8(s.reg, z)
        };
        let r = alu_add(s.reg.a, n, false);
        Some(
            (
                CpuS { reg: (Register { a: r.0, f: r.1, ..s.reg }), ..s },
                if z == 6 {
                    8
                } else {
                    4
                },
            ),
        )
    }
}

/// Add an 8-bit operand into the accumulator. (immediate form)
pub open spec fn step_add_d8(s: CpuS) -> Option<(CpuS, u32)> {
    if s.mmu.fatal_read(s.reg.pc) {
        None
    } else {
        let n = s.mmu.spec_read(s.reg.pc);
        let r = alu_add(s.reg.a, n, false);
        Some((CpuS { reg: (Register { a: r.0, f: r.1, ..pc_plus(s.reg, 1) }), ..s }, 8))
    }
}

/// Add an 8-bit operand and the carry into the accumulator. (register form)
pub open spec fn step_adc(s: CpuS, opcode: u8) -> Option<(CpuS, u32)> {
    let z = opcode & 0x07;
    if z == 6 && s.mmu.fatal_read(hl_of(s)) {
        None
    } else {
        let n = if z == 6 {
            s.mmu.spec_read(hl_of(s))
        } else {
            spec_reg8(s.reg, z)
        };
        let r = alu_add(s.reg.a, n, s.reg.f.c());
        Some(
            (
                CpuS { reg: (Register { a: r.0, f: r.1, ..s.reg }), ..s },
                if z == 6 {
                    8
                } else {
                    4
                },
            ),
        )
    }
}

/// Add an 8-bit operand and the carry into the accumulator. (immediate form)
pub open spec fn step_adc_d8(s: CpuS) -> Option<(CpuS, u32)> {
    if s.mmu.fatal_read(s.reg.pc) {
        None
    } else {
        let n = s.mmu.spec_read(s.reg.pc);
        let r = alu_add(s.reg.a, n, s.reg.f.c());
        Some((CpuS { reg: (Register { a: r.0, f: r.1, ..pc_plus(s.reg, 1) }), ..s }, 8))
    }
}

/// Subtract an 8-bit operand from the accumulator. (register form)
pub open spec fn step_sub(s: CpuS, opcode: u8) -> Option<(CpuS, u32)> {
    let z = opcode & 0x07;
    if z == 6 && s.mmu.fatal_read(hl_of(s)) {
        None
    } else {
        let n = if z == 6 {
            s.mmu.spec_read(hl_of(s))
        } else {
            spec_reg8(s.reg, z)
        };
        let r = alu_sub(s.reg.a, n, false);
        Some(
            (
                CpuS { reg: (Register { a: r.0, f: r.1, ..s.reg }), ..s },
                if z == 6 {
                    8
                } else {
                    4
                },
            ),
        )
    }
}

/// Subtract an 8-bit operand from the accumulator. (immediate form)
pub open spec fn step_sub_d8(s: CpuS) -> Option<(CpuS, u32)> {
    if s.mmu.fatal_read(s.reg.pc) {
        None
    } else {
        let n = s.mmu.spec_read(s.reg.pc);
        let r = alu_sub(s.reg.a, n, false);
        Some((CpuS { reg: (Register { a: r.0, f: r.1, ..pc_plus(s.reg, 1) }), ..s }, 8))
    }
}

/// Subtract an 8-bit operand and the carry from the accumulator. (register form)
pub open spec fn step_sbc(s: CpuS, opcode: u8) -> Option<(CpuS, u32)> {
    let z = opcode & 0x07;
    if z == 6 && s.mmu.fatal_read(hl_of(s)) {
        None
    } else {
        let n = if z == 6 {
            s.mmu.spec_read(hl_of(s))
        } else {
            spec_reg8(s.reg, z)
        };
        let r = alu_sub(s.reg.a, n, s.reg.f.c());
        Some(
            (
                CpuS { reg: (Register { a: r.0, f: r.1, ..s.reg }), ..s },
                if z == 6 {
                    8
                } else {
                    4
                },
            ),
        )
    }
}

/// Subtract an 8-bit operand and the carry from the accumulator. (immediate form)
pub open spec fn step_sbc_d8(s: CpuS) -> Option<(CpuS, u32)> {
    if s.mmu.fatal_read(s.reg.pc) {
        None
    } else {
        let n = s.mmu.spec_read(s.reg.pc);
        let r = alu_sub(s.reg.a, n, s.reg.f.c());
        Some((CpuS { reg: (Register { a: r.0, f: r.1, ..pc_plus(s.reg, 1) }), ..s }, 8))
    }
}

/// AND an 8-bit operand into the accumulator. (register form)
pub open spec fn step_and(s: CpuS, opcode: u8) -> Option<(CpuS, u32)> {
    let z = opcode & 0x07;
    if z == 6 && s.mmu.fatal_read(hl_of(s)) {
        None
    } else {
        let n = if z == 6 {
            s.mmu.spec_read(hl_of(s))
        } else {
            spec_reg8(s.reg, z)
        };
        let r = alu_and(s.reg.a, n);
        Some(
            (
                CpuS { reg: (Register { a: r.0, f: r.1, ..s.reg }), ..s },
                if z == 6 {
                    8
                } else {
                    4
                },
            ),
        )
    }
}

/// AND an 8-bit operand into the accumulator. (immediate form)
pub open spec fn step_and_d8(s: CpuS) -> Option<(CpuS, u32)> {
    if s.mmu.fatal_read(s.reg.pc) {
        None
    } else {
        let n = s.mmu.spec_read(s.reg.pc);
        let r = alu_and(s.reg.a, n);
        Some((CpuS { reg: (Register { a: r.0, f: r.1, ..pc_plus(s.reg, 1) }), ..s }, 8))
    }
}

/// XOR an 8-bit operand into the accumulator. (register form)
pub open spec fn step_xor(s: CpuS, opcode: u8) -> Option<(CpuS, u32)> {
    let z = opcode & 0x07;
    if z == 6 && s.mmu.fatal_read(hl_of(s)) {
        None
    } else {
        let n = if z == 6 {
            s.mmu.spec_read(hl_of(s))
        } else {
            spec_reg8(s.reg, z)
        };
        let r = alu_xor(s.reg.a, n);
        Some(
            (
                CpuS { reg: (Register { a: r.0, f: r.1, ..s.reg }), ..s },
                if z == 6 {
                    8
                } else {
                    4
                },
            ),
        )
    }
}

/// XOR an 8-bit operand into the accumulator. (immediate form)
pub open spec fn step_xor_d8(s: CpuS) -> Option<(CpuS, u32)> {
    if s.mmu.fatal_read(s.reg.pc) {
        None
    } else {
        let n = s.mmu.spec_read(s.reg.pc);
        let r = alu_xor(s.reg.a, n);
        Some((CpuS { reg: (Register { a: r.0, f: r.1, ..pc_plus(s.reg, 1) }), ..s }, 8))
    }
}

/// OR an 8-bit operand into the accumulator. (register form)
pub open spec fn step_or(s: CpuS, opcode: u8) -> Option<(CpuS, u32)> {
    let z = opcode & 0x07;
    if z == 6 && s.mmu.fatal_read(hl_of(s)) {
        None
    } else {
        let n = if z == 6 {
            s.mmu.spec_read(hl_of(s))
        } else {
            spec_reg8(s.reg, z)
        };
        let r = alu_or(s.reg.a, n);
        Some(
            (
                CpuS { reg: (Register { a: r.0, f: r.1, ..s.reg }), ..s },
                if z == 6 {
                    8
                } else {
                    4
                },
            ),
        )
    }
}

/// OR an 8-bit operand into the accumulator. (immediate form)
pub open spec fn step_or_d8(s: CpuS) -> Option<(CpuS, u32)> {
    if s.mmu.fatal_read(s.reg.pc) {
        None
    } else {
        let n = s.mmu.spec_read(s.reg.pc);
        let r = alu_or(s.reg.a, n);
        Some((CpuS { reg: (Register { a: r.0, f: r.1, ..pc_plus(s.reg, 1) }), ..s }, 8))
    }
}

/// Compare an 8-bit operand against the accumulator. (register form)
pub open spec fn step_cp(s: CpuS, opcode: u8) -> Option<(CpuS, u32)> {
    let z = opcode & 0x07;
    if z == 6 && s.mmu.fatal_read(hl_of(s)) {
        None
    } else {
        let n = if z == 6 {
            s.mmu.spec_read(hl_of(s))
        } else {
            spec_reg8(s.reg, z)
        };
        let r = alu_sub(s.reg.a, n, false);
        Some(
            (
                CpuS { reg: (Register { f: r.1, ..s.reg }), ..s },
                if z == 6 {
                    8
                } else {
                    4
                },
            ),
        )
    }
}

/// Compare an 8-bit operand against the accumulator. (immediate form)
pub open spec fn step_cp_d8(s: CpuS) -> Option<(CpuS, u32)> {
    if s.mmu.fatal_read(s.reg.pc) {
        None
    } else {
        let n = s.mmu.spec_read(s.reg.pc);
        let r = alu_sub(s.reg.a, n, false);
        Some((CpuS { reg: (Register { f: r.1, ..pc_plus(s.reg, 1) }), ..s }, 8))
    }
}

/// Increment an 8-bit operand; Carry untouched.
pub open spec fn step_inc8(s: CpuS, opcode: u8) -> Option<(CpuS, u32)> {
    let y = (opcode & 0x38) >> 3;
    if y == 6 && s.mmu.fatal_read(hl_of(s)) {
        None
    } else {
        let n = if y == 6 {
            s.mmu.spec_read(hl_of(s))
        } else {
            spec_reg8(s.reg, y)
        };
        let v = wrap8(n + 1);
        let fl = flags_keep_c(s.reg.f, v == 0, false, (n & 0x0f) + 1 > 0x0f);
        if y == 6 {
            if s.mmu.fatal_write(hl_of(s), v) {
                None
            } else {
                Some(
                    (
                        CpuS {
                            reg: (Register { f: fl, ..s.reg }),
                            mmu: s.mmu.spec_write(hl_of(s), v),
                            ..s
                        },
                        12,
                    ),
                )
            }
        } else {
            Some((CpuS { reg: (Register { f: fl, ..spec_reg8_write(s.reg, y, v) }), ..s }, 4))
        }
    }
}

/// Decrement an 8-bit operand; Carry untouched.
pub open spec fn step_dec8(s: CpuS, opcode: u8) -> Option<(CpuS, u32)> {
    let y = (opcode & 0x38) >> 3;
    if y == 6 && s.mmu.fatal_read(hl_of(s)) {
        None
    } else {
        let n = if y == 6 {
            s.mmu.spec_read(hl_of(s))
        } else {
            spec_reg8(s.reg, y)
        };
        let v = wrap8(n - 1);
        let fl = flags_keep_c(s.reg.f, v == 0, true, n & 0x0f == 0);
        if y == 6 {
            if s.mmu.fatal_write(hl_of(s), v) {
                None
            } else {
                Some(
                    (
                        CpuS {
                            reg: (Register { f: fl, ..s.reg }),
                            mmu: s.mmu.spec_write(hl_of(s), v),
                            ..s
                        },
                        12,
                    ),
                )
            }
        } else {
            Some((CpuS { reg: (Register { f: fl, ..spec_reg8_write(s.reg, y, v) }), ..s }, 4))
        }
    }
}

/// Increment a register pair; flags untouched.
pub open spec fn step_inc16(s: CpuS, opcode: u8) -> (CpuS, u32) {
    let p = (opcode & 0x30) >> 4;
    (CpuS { reg: spec_rp_write(s.reg, p, wrap16(spec_rp(s.reg, p) + 1)), ..s }, 8)
}

/// Decrement a register pair; flags untouched.
pub open spec fn step_dec16(s: CpuS, opcode: u8) -> (CpuS, u32) {
    let p = (opcode & 0x30) >> 4;
    (CpuS { reg: spec_rp_write(s.reg, p, wrap16(spec_rp(s.reg, p) - 1)), ..s }, 8)
}

/// Rotate left, bit 7 into bit 0 and Carry. Zero reflects the result.
pub open spec fn step_rlc(s: CpuS, opcode: u8) -> Option<(CpuS, u32)> {
    let z = opcode & 0x07;
    if z == 6 && s.mmu.fatal_read(hl_of(s)) {
        None
    } else {
        let n = if z == 6 {
            s.mmu.spec_read(hl_of(s))
        } else {
            spec_reg8(s.reg, z)
        };
        let v: u8 = (n << 1) | (n >> 7);
        let fl = Flags::flag_bits(v == 0, false, false, n & 0x80 != 0);
        if z == 6 {
            if s.mmu.fatal_write(hl_of(s), v) {
                None
            } else {
                Some(
                    (
                        CpuS {
                            reg: (Register { f: fl, ..s.reg }),
                            mmu: s.mmu.spec_write(hl_of(s), v),
                            ..s
                        },
                        16,
                    ),
                )
            }
        } else {
            Some((CpuS { reg: (Register { f: fl, ..spec_reg8_write(s.reg, z, v) }), ..s }, 8))
        }
    }
}

/// Rotate right, bit 0 into bit 7 and Carry. Zero reflects the result.
pub open spec fn step_rrc(s: CpuS, opcode: u8) -> Option<(CpuS, u32)> {
    let z = opcode & 0x07;
    if z == 6 && s.mmu.fatal_read(hl_of(s)) {
        None
    } else {
        let n = if z == 6 {
            s.mmu.spec_read(hl_of(s))
        } else {
            spec_reg8(s.reg, z)
        };
        let v: u8 = (n >> 1) | (n << 7);
        let fl = Flags::flag_bits(v == 0, false, false, n & 0x01 != 0);
        if z == 6 {
            if s.mmu.fatal_write(hl_of(s), v) {
                None
            } else {
                Some(
                    (
                        CpuS {
                            reg: (Register { f: fl, ..s.reg }),
                            mmu: s.mmu.spec_write(hl_of(s), v),
                            ..s
                        },
                        16,
                    ),
                )
            }
        } else {
            Some((CpuS { reg: (Register { f: fl, ..spec_reg8_write(s.reg, z, v) }), ..s }, 8))
        }
    }
}

/// Rotate left through Carry. Zero reflects the result.
pub open spec fn step_rl(s: CpuS, opcode: u8) -> Option<(CpuS, u32)> {
    let z = opcode & 0x07;
    if z == 6 && s.mmu.fatal_read(hl_of(s)) {
        None
    } else {
        let n = if z == 6 {
            s.mmu.spec_read(hl_of(s))
        } else {
            spec_reg8(s.reg, z)
        };
        let cin: u8 = if s.reg.f.c() {
            1u8
        } else {
            0u8
        };
        let v: u8 = (n << 1) | cin;
        let fl = Flags::flag_bits(v == 0, false, false, n & 0x80 != 0);
        if z == 6 {
            if s.mmu.fatal_write(hl_of(s), v) {
                None
            } else {
                Some(
                    (
                        CpuS {
                            reg: (Register { f: fl, ..s.reg }),
                            mmu: s.mmu.spec_write(hl_of(s), v),
                            ..s
                        },
                        16,
                    ),
                )
            }
        } else {
            Some((CpuS { reg: (Register { f: fl, ..spec_reg8_write(s.reg, z, v) }), ..s }, 8))
        }
    }
}

/// Rotate right through Carry. Zero reflects the result.
pub open spec fn step_rr(s: CpuS, opcode: u8) -> Option<(CpuS, u32)> {
    let z = opcode & 0x07;
    if z == 6 && s.mmu.fatal_read(hl_of(s)) {
        None
    } else {
        let n = if z == 6 {
            s.mmu.spec_read(hl_of(s))
        } else {
            spec_reg8(s.reg, z)
        };
        let cin: u8 = if s.reg.f.c() {
            1u8
        } else {
            0u8
        };
        let v: u8 = (n >> 1) | (cin << 7);
        let fl = Flags::flag_bits(v == 0, false, false, n & 0x01 != 0);
        if z == 6 {
            if s.mmu.fatal_write(hl_of(s), v) {
                None
            } else {
                Some(
                    (
                        CpuS {
                            reg: (Register { f: fl, ..s.reg }),
                            mmu: s.mmu.spec_write(hl_of(s), v),
                            ..s
                        },
                        16,
                    ),
                )
            }
        } else {
            Some((CpuS { reg: (Register { f: fl, ..spec_reg8_write(s.reg, z, v) }), ..s }, 8))
        }
    }
}

/// Shift left arithmetic. Zero reflects the result.
pub open spec fn step_sla(s: CpuS, opcode: u8) -> Option<(CpuS, u32)> {
    let z = opcode & 0x07;
    if z == 6 && s.mmu.fatal_read(hl_of(s)) {
        None
    } else {
        let n = if z == 6 {
            s.mmu.spec_read(hl_of(s))
        } else {
            spec_reg8(s.reg, z)
        };
        let v: u8 = n << 1;
        let fl = Flags::flag_bits(v == 0, false, false, n & 0x80 != 0);
        if z == 6 {
            if s.mmu.fatal_write(hl_of(s), v) {
                None
            } else {
                Some(
                    (
                        CpuS {
                            reg: (Register { f: fl, ..s.reg }),
                            mmu: s.mmu.spec_write(hl_of(s), v),
                            ..s
                        },
                        16,
                    ),
                )
            }
        } else {
            Some((CpuS { reg: (Register { f: fl, ..spec_reg8_write(s.reg, z, v) }), ..s }, 8))
        }
    }
}

/// Shift right arithmetic, bit 7 kept. Zero reflects the result.
pub open spec fn step_sra(s: CpuS, opcode: u8) -> Option<(CpuS, u32)> {
    let z = opcode & 0x07;
    if z == 6 && s.mmu.fatal_read(hl_of(s)) {
        None
    } else {
        let n = if z == 6 {
            s.mmu.spec_read(hl_of(s))
        } else {
            spec_reg8(s.reg, z)
        };
        let v: u8 = (n >> 1) | (n & 0x80);
        let fl = Flags::flag_bits(v == 0, false, false, n & 0x01 != 0);
        if z == 6 {
            if s.mmu.fatal_write(hl_of(s), v) {
                None
            } else {
                Some(
                    (
                        CpuS {
                            reg: (Register { f: fl, ..s.reg }),
                            mmu: s.mmu.spec_write(hl_of(s), v),
                            ..s
                        },
                        16,
                    ),
                )
            }
        } else {
            Some((CpuS { reg: (Register { f: fl, ..spec_reg8_write(s.reg, z, v) }), ..s }, 8))
        }
    }
}

/// Swap the two nibbles. Zero reflects the result.
pub open spec fn step_swap(s: CpuS, opcode: u8) -> Option<(CpuS, u32)> {
    let z = opcode & 0x07;
    if z == 6 && s.mmu.fatal_read(hl_of(s)) {
        None
    } else {
        let n = if z == 6 {
            s.mmu.spec_read(hl_of(s))
        } else {
            spec_reg8(s.reg, z)
        };
        let v: u8 = ((n & 0x0f) << 4) | ((n & 0xf0) >> 4);
        let fl = Flags::flag_bits(v == 0, false, false, false);
        if z == 6 {
            if s.mmu.fatal_write(hl_of(s), v) {
                None
            } else {
                Some(
                    (
                        CpuS {
                            reg: (Register { f: fl, ..s.reg }),
                            mmu: s.mmu.spec_write(hl_of(s), v),
                            ..s
                        },
                        16,
                    ),
                )
            }
        } else {
            Some((CpuS { reg: (Register { f: fl, ..spec_reg8_write(s.reg, z, v) }), ..s }, 8))
        }
    }
}

/// Shift right logical. Zero reflects the result.
pub open spec fn step_srl(s: CpuS, opcode: u8) -> Option<(CpuS, u32)> {
    let z = opcode & 0x07;
    if z == 6 && s.mmu.fatal_read(hl_of(s)) {
        None
    } else {
        let n = if z == 6 {
            s.mmu.spec_read(hl_of(s))
        } else {
            spec_reg8(s.reg, z)
        };
        let v: u8 = n >> 1;
        let fl = Flags::flag_bits(v == 0, false, false, n & 0x01 != 0);
        if z == 6 {
            if s.mmu.fatal_write(hl_of(s), v) {
                None
            } else {
                Some(
                    (
                        CpuS {
                            reg: (Register { f: fl, ..s.reg }),
                            mmu: s.mmu.spec_write(hl_of(s), v),
                            ..s
                        },
                        16,
                    ),
                )
            }
        } else {
            Some((CpuS { reg: (Register { f: fl, ..spec_reg8_write(s.reg, z, v) }), ..s }, 8))
        }
    }
}

/// Rotate the accumulator left; Zero forced clear.
pub open spec fn step_rlca(s: CpuS) -> (CpuS, u32) {
    let n = s.reg.a;
    let v: u8 = (n << 1) | (n >> 7);
    (
        CpuS {
            reg: (Register {
                a: v,
                f: Flags::flag_bits(false, false, false, n & 0x80 != 0),
                ..s.reg
            }),
            ..s
        },
        4,
    )
}

/// Rotate the accumulator right; Zero forced clear.
pub open spec fn step_rrca(s: CpuS) -> (CpuS, u32) {
    let n = s.reg.a;
    let v: u8 = (n >> 1) | (n << 7);
    (
        CpuS {
            reg: (Register {
                a: v,
                f: Flags::flag_bits(false, false, false, n & 0x01 != 0),
                ..s.reg
            }),
            ..s
        },
        4,
    )
}

/// Rotate the accumulator left through Carry; Zero forced clear.
pub open spec fn step_rla(s: CpuS) -> (CpuS, u32) {
    let n = s.reg.a;
    let cin: u8 = if s.reg.f.c() {
        1u8
    } else {
        0u8
    };
    let v: u8 = (n << 1) | cin;
    (
        CpuS {
            reg: (Register {
                a: v,
                f: Flags::flag_bits(false, false, false, n & 0x80 != 0),
                ..s.reg
            }),
            ..s
        },
        4,
    )
}

/// Rotate the accumulator right through Carry; Zero forced clear.
pub open spec fn step_rra(s: CpuS) -> (CpuS, u32) {
    let n = s.reg.a;
    let cin: u8 = if s.reg.f.c() {
        1u8
    } else {
        0u8
    };
    let v: u8 = (n >> 1) | (cin << 7);
    (
        CpuS {
            reg: (Register {
                a: v,
                f: Flags::flag_bits(false, false, false, n & 0x01 != 0),
                ..s.reg
            }),
            ..s
        },
        4,
    )
}

/// Test a bit: Zero is its complement, Half-carry set, Carry untouched.
pub open spec fn step_bit(s: CpuS, opcode: u8) -> Option<(CpuS, u32)> {
    let y = (opcode & 0x38) >> 3;
    let z = opcode & 0x07;
    if z == 6 && s.mmu.fatal_read(hl_of(s)) {
        None
    } else {
        let v = if z == 6 {
            s.mmu.spec_read(hl_of(s))
        } else {
            spec_reg8(s.reg, z)
        };
        Some(
            (
                CpuS {
                    reg: (Register {
                        f: flags_keep_c(s.reg.f, (v >> y) & 1 == 0, false, true),
                        ..s.reg
                    }),
                    ..s
                },
                if z == 6 {
                    12
                } else {
                    8
                },
            ),
        )
    }
}

/// Clear (`res`) or set a bit of an 8-bit operand; flags untouched.
pub open spec fn step_bit_write(s: CpuS, opcode: u8, set: bool) -> Option<(CpuS, u32)> {
    let y = (opcode & 0x38) >> 3;
    let z = opcode & 0x07;
    if z == 6 && s.mmu.fatal_read(hl_of(s)) {
        None
    } else {
        let n = if z == 6 {
            s.mmu.spec_read(hl_of(s))
        } else {
            spec_reg8(s.reg, z)
        };
        let v = if set {
            n | ((1u8 << y) as u8)
        } else {
            n & !((1u8 << y) as u8)
        };
        if z == 6 {
            if s.mmu.fatal_write(hl_of(s), v) {
                None
            } else {
                Some((CpuS { mmu: s.mmu.spec_write(hl_of(s), v), ..s }, 16))
            }
        } else {
            Some((CpuS { reg: spec_reg8_write(s.reg, z, v), ..s }, 8))
        }
    }
}

/// Jump to a 16-bit immediate address.
pub open spec fn step_jp_nn(s: CpuS) -> Option<(CpuS, u32)> {
    if word_read_fault(s.mmu, s.reg.pc) {
        None
    } else {
        Some((CpuS { reg: (Register { pc: spec_read_word(s.mmu, s.reg.pc), ..s.reg }), ..s }, 16))
    }
}

/// Conditional jump: 16 cycles taken, 12 not taken.
pub open spec fn step_jp_cc_nn(s: CpuS, opcode: u8) -> Option<(CpuS, u32)> {
    if word_read_fault(s.mmu, s.reg.pc) {
        None
    } else if spec_cc(s.reg, (opcode >> 3) & 0x03) {
        Some((CpuS { reg: (Register { pc: spec_read_word(s.mmu, s.reg.pc), ..s.reg }), ..s }, 16))
    } else {
        Some((CpuS { reg: pc_plus(s.reg, 2), ..s }, 12))
    }
}

/// Jump to the address in HL.
pub open spec fn step_jp_hl(s: CpuS) -> (CpuS, u32) {
    (CpuS { reg: (Register { pc: hl_of(s), ..s.reg }), ..s }, 4)
}

/// Relative jump by a signed immediate.
pub open spec fn step_jr_n(s: CpuS) -> Option<(CpuS, u32)> {
    if s.mmu.fatal_read(s.reg.pc) {
        None
    } else {
        let v = sign_extend(s.mmu.spec_read(s.reg.pc));
        Some((CpuS { reg: (Register { pc: wrap16(s.reg.pc + 1 + v), ..s.reg }), ..s }, 12))
    }
}

/// Conditional relative jump: 12 cycles taken, 8 not taken.
pub open spec fn step_jr_cc_n(s: CpuS, opcode: u8) -> Option<(CpuS, u32)> {
    if s.mmu.fatal_read(s.reg.pc) {
        None
    } else if spec_cc(s.reg, (opcode >> 3) & 0x03) {
        let v = sign_extend(s.mmu.spec_read(s.reg.pc));
        Some((CpuS { reg: (Register { pc: wrap16(s.reg.pc + 1 + v), ..s.reg }), ..s }, 12))
    } else {
        Some((CpuS { reg: pc_plus(s.reg, 1), ..s }, 8))
    }
}

/// Push `ret` and jump to `addr`, as calls, restarts and services do.
pub open spec fn step_call_to(s: CpuS, addr: u16, ret: u16, cycles: u32) -> Option<(CpuS, u32)> {
    if word_write_fault(s.mmu, wrap16(s.reg.sp - 2), ret) {
        None
    } else {
        Some(
            (
                CpuS {
                    reg: (Register { pc: addr, sp: wrap16(s.reg.sp - 2), ..s.reg }),
                    mmu: spec_write_word(s.mmu, wrap16(s.reg.sp - 2), ret),
                    ..s
                },
                cycles,
            ),
        )
    }
}

/// Call a 16-bit immediate address.
pub open spec fn step_call(s: CpuS) -> Option<(CpuS, u32)> {
    if word_read_fault(s.mmu, s.reg.pc) {
        None
    } else {
        step_call_to(s, spec_read_word(s.mmu, s.reg.pc), wrap16(s.reg.pc + 2), 24)
    }
}

/// Conditional call: 24 cycles taken, 12 not taken.
pub open spec fn step_call_cc(s: CpuS, opcode: u8) -> Option<(CpuS, u32)> {
    if word_read_fault(s.mmu, s.reg.pc) {
        None
    } else if spec_cc(s.reg, (opcode >> 3) & 0x03) {
        step_call_to(s, spec_read_word(s.mmu, s.reg.pc), wrap16(s.reg.pc + 2), 24)
    } else {
        Some((CpuS { reg: pc_plus(s.reg, 2), ..s }, 12))
    }
}

/// Restart: call one of the eight fixed low addresses.
pub open spec fn step_rst(s: CpuS, opcode: u8) -> Option<(CpuS, u32)> {
    step_call_to(s, (((opcode & 0x38) >> 3) * 8) as u16, s.reg.pc, 16)
}

/// Return: pop `pc`.
pub open spec fn step_ret(s: CpuS) -> Option<(CpuS, u32)> {
    if word_read_fault(s.mmu, s.reg.sp) {
        None
    } else {
        Some(
            (
                CpuS {
                    reg: (Register {
                        pc: spec_read_word(s.mmu, s.reg.sp),
                        sp: wrap16(s.reg.sp + 2),
                        ..s.reg
                    }),
                    ..s
                },
                16,
            ),
        )
    }
}

/// Conditional return: 20 cycles taken, 8 not taken.
pub open spec fn step_ret_cc(s: CpuS, opcode: u8) -> Option<(CpuS, u32)> {
    if spec_cc(s.reg, (opcode >> 3) & 0x03) {
        if word_read_fault(s.mmu, s.reg.sp) {
            None
        } else {
            Some(
                (
                    CpuS {
                        reg: (Register {
                            pc: spec_read_word(s.mmu, s.reg.sp),
                            sp: wrap16(s.reg.sp + 2),
                            ..s.reg
                        }),
                        ..s
                    },
                    20,
                ),
            )
        }
    } else {
        Some((s, 8))
    }
}

/// Return and start the countdown that re-arms interrupt servicing.
pub open spec fn step_reti(s: CpuS) -> Option<(CpuS, u32)> {
    if word_read_fault(s.mmu, s.reg.sp) {
        None
    } else {
        Some(
            (
                CpuS {
                    reg: (Register {
                        pc: spec_read_word(s.mmu, s.reg.sp),
                        sp: wrap16(s.reg.sp + 2),
                        ..s.reg
                    }),
                    ei: 2u8,
                    ..s
                },
                16,
            ),
        )
    }
}

/// Decimal adjust after BCD arithmetic.
pub open spec fn step_dda(s: CpuS) -> (CpuS, u32) {
    let a = s.reg.a;
    let f = s.reg.f;
    let adj0: u8 = (if f.c() {
        0x60u8
    } else {
        0u8
    }) | (if f.h() {
        0x06u8
    } else {
        0u8
    });
    if !f.n() {
        let adj1: u8 = adj0 | (if a & 0x0f > 0x09 {
            0x06u8
        } else {
            0u8
        });
        let adj: u8 = adj1 | (if a > 0x99 {
            0x60u8
        } else {
            0u8
        });
        (
            CpuS {
                reg: (Register {
                    a: wrap8(a + adj),
                    f: flags_keep_n(f, wrap8(a + adj) == 0, adj >= 0x60),
                    ..s.reg
                }),
                ..s
            },
            4,
        )
    } else {
        (
            CpuS {
                reg: (Register {
                    a: wrap8(a - adj0),
                    f: flags_keep_n(f, wrap8(a - adj0) == 0, adj0 >= 0x60),
                    ..s.reg
                }),
                ..s
            },
            4,
        )
    }
}

/// Complement the Carry flag.
pub open spec fn step_ccf(s: CpuS) -> (CpuS, u32) {
    (
        CpuS {
            reg: (Register {
                f: flags_keep_z(s.reg.f, false, false, !s.reg.f.c()),
                ..s.reg
            }),
            ..s
        },
        4,
    )
}

/// Complement the accumulator.
pub open spec fn step_cpl(s: CpuS) -> (CpuS, u32) {
    (
        CpuS {
            reg: (Register { a: !s.reg.a, f: flags_keep_zc(s.reg.f, true, true), ..s.reg }),
            ..s
        },
        4,
    )
}

/// Set the Carry flag.
pub open spec fn step_scf(s: CpuS) -> (CpuS, u32) {
    (
        CpuS {
            reg: (Register { f: flags_keep_z(s.reg.f, false, false, true), ..s.reg }),
            ..s
        },
        4,
    )
}

/// Suspend fetching until an interrupt is pending.
pub open spec fn step_halt(s: CpuS) -> (CpuS, u32) {
    (CpuS { halted: true, ..s }, 4)
}

/// Disable interrupt servicing immediately, cancelling any pending enable.
pub open spec fn step_di(s: CpuS) -> (CpuS, u32) {
    (CpuS { ime: false, ei: 0u8, ..s }, 4)
}

/// Start the countdown that enables interrupt servicing.
pub open spec fn step_ei(s: CpuS) -> (CpuS, u32) {
    (CpuS { ei: 2u8, ..s }, 4)
}

/// Fetch and execute one opcode of the two-byte table.
pub open spec fn step_prefix(s: CpuS) -> Option<(CpuS, u32)> {
    if s.mmu.fatal_read(s.reg.pc) {
        None
    } else {
        let op = s.mmu.spec_read(s.reg.pc);
        let s1 = CpuS { reg: pc_plus(s.reg, 1), ..s };
        if op <= 0x07 {
            step_rlc(s1, op)
        } else if op <= 0x0f {
            step_rrc(s1, op)
        } else if op <= 0x17 {
            step_rl(s1, op)
        } else if op <= 0x1f {
            step_rr(s1, op)
        } else if op <= 0x27 {
            step_sla(s1, op)
        } else if op <= 0x2f {
            step_sra(s1, op)
        } else if op <= 0x37 {
            step_swap(s1, op)
        } else if op <= 0x3f {
            step_srl(s1, op)
        } else if op <= 0x7f {
            step_bit(s1, op)
        } else if op <= 0xbf {
            step_bit_write(s1, op, false)
        } else {
            step_bit_write(s1, op, true)
        }
    }
}


/// One decoded instruction's exact effect on the machine state and its
/// cycle cost; `None` where one of its bus accesses is fatal. Defined for
/// every opcode of the instruction set; the eleven gaps are fatal before
/// any effect and never consult this function.
pub open spec fn spec_execute(s: CpuS, op: u8) -> Option<(CpuS, u32)> {
    if op == 0x00 || op == 0x10 {
        // no-op; stop idles the same way
        Some((s, 4))
    } else if op == 0x01 || op == 0x11 || op == 0x21 || op == 0x31 {
        step_ld_r16_d16(s, op)
    } else if op == 0x06 || op == 0x0e || op == 0x16 || op == 0x1e || op == 0x26 || op == 0x2e
        || op == 0x36 || op == 0x3e {
        step_ld_r8_d8(s, op)
    } else if (0x40 <= op <= 0x46) || (0x48 <= op <= 0x4e) || (0x50 <= op <= 0x56) || (0x58 <= op
        <= 0x5e) || (0x60 <= op <= 0x66) || (0x68 <= op <= 0x6e) || (0x70 <= op <= 0x75) {
        step_ld_r8_r8(s, op)
    } else if 0x78 <= op <= 0x7f {
        step_ld_a_r8(s, op)
    } else if op == 0x47 || op == 0x4f || op == 0x57 || op == 0x5f || op == 0x67 || op == 0x6f
        || op == 0x77 {
        step_ld_r8_a(s, op)
    } else if op == 0x02 || op == 0x12 {
        step_ld_r16_a(s, op)
    } else if op == 0x0a || op == 0x1a {
        step_ld_a_r16(s, op)
    } else if op == 0xfa {
        step_ld_a_d16(s)
    } else if op == 0xea {
        step_ld_d16_a(s)
    } else if op == 0xe0 {
        step_ldh_d8_a(s)
    } else if op == 0xf0 {
        step_ldh_a_d8(s)
    } else if op == 0xe2 {
        step_ldh_c_a(s)
    } else if op == 0xf2 {
        step_ldh_a_c(s)
    } else if op == 0x22 {
        step_ld_hl_a_move(s, 1)
    } else if op == 0x2a {
        step_ld_a_hl_move(s, 1)
    } else if op == 0x32 {
        step_ld_hl_a_move(s, -1)
    } else if op == 0x3a {
        step_ld_a_hl_move(s, -1)
    } else if op == 0x08 {
        step_ld_d16_sp(s)
    } else if op == 0xf8 {
        step_ld_hl_sp_d8(s)
    } else if op == 0xf9 {
        Some(step_ld_sp_hl(s))
    } else if op == 0xc1 || op == 0xd1 || op == 0xe1 || op == 0xf1 {
        step_pop(s, op)
    } else if op == 0xc5 || op == 0xd5 || op == 0xe5 || op == 0xf5 {
        step_push(s, op)
    } else if op == 0x09 || op == 0x19 || op == 0x29 || op == 0x39 {
        Some(step_add_hl(s, op))
    } else if op == 0xe8 {
        step_add_sp(s)
    } else if 0x80 <= op <= 0x87 {
        step_add(s, op)
    } else if 0x88 <= op <= 0x8f {
        step_adc(s, op)
    } else if 0x90 <= op <= 0x97 {
        step_sub(s, op)
    } else if 0x98 <= op <= 0x9f {
        step_sbc(s, op)
    } else if 0xa0 <= op <= 0xa7 {
        step_and(s, op)
    } else if 0xa8 <= op <= 0xaf {
        step_xor(s, op)
    } else if 0xb0 <= op <= 0xb7 {
        step_or(s, op)
    } else if 0xb8 <= op <= 0xbf {
        step_cp(s, op)
    } else if op == 0xc6 {
        step_add_d8(s)
    } else if op == 0xce {
        step_adc_d8(s)
    } else if op == 0xd6 {
        step_sub_d8(s)
    } else if op == 0xde {
        step_sbc_d8(s)
    } else if op == 0xe6 {
        step_and_d8(s)
    } else if op == 0xee {
        step_xor_d8(s)
    } else if op == 0xf6 {
        step_or_d8(s)
    } else if op == 0xfe {
        step_cp_d8(s)
    } else if op == 0x04 || op == 0x0c || op == 0x14 || op == 0x1c || op == 0x24 || op == 0x2c
        || op == 0x34 || op == 0x3c {
        step_inc8(s, op)
    } else if op == 0x05 || op == 0x0d || op == 0x15 || op == 0x1d || op == 0x25 || op == 0x2d
        || op == 0x35 || op == 0x3d {
        step_dec8(s, op)
    } else if op == 0x03 || op == 0x13 || op == 0x23 || op == 0x33 {
        Some(step_inc16(s, op))
    } else if op == 0x0b || op == 0x1b || op == 0x2b || op == 0x3b {
        Some(step_dec16(s, op))
    } else if op == 0x07 {
        Some(step_rlca(s))
    } else if op == 0x0f {
        Some(step_rrca(s))
    } else if op == 0x17 {
        Some(step_rla(s))
    } else if op == 0x1f {
        Some(step_rra(s))
    } else if op == 0xc3 {
        step_jp_nn(s)
    } else if op == 0xc2 || op == 0xca || op == 0xd2 || op == 0xda {
        step_jp_cc_nn(s, op)
    } else if op == 0xe9 {
        Some(step_jp_hl(s))
    } else if op == 0x18 {
        step_jr_n(s)
    } else if op == 0x20 || op == 0x28 || op == 0x30 || op == 0x38 {
        step_jr_cc_n(s, op)
    } else if op == 0xc4 || op == 0xcc || op == 0xd4 || op == 0xdc {
        step_call_cc(s, op)
    } else if op == 0xcd {
        step_call(s)
    } else if op == 0xc7 || op == 0xcf || op == 0xd7 || op == 0xdf || op == 0xe7 || op == 0xef
        || op == 0xf7 || op == 0xff {
        step_rst(s, op)
    } else if op == 0xc0 || op == 0xc8 || op == 0xd0 || op == 0xd8 {
        step_ret_cc(s, op)
    } else if op == 0xc9 {
        step_ret(s)
    } else if op == 0xd9 {
        step_reti(s)
    } else if op == 0x27 {
        Some(step_dda(s))
    } else if op == 0x2f {
        Some(step_cpl(s))
    } else if op == 0x37 {
        Some(step_scf(s))
    } else if op == 0x3f {
        Some(step_ccf(s))
    } else if op == 0x76 {
        Some(step_halt(s))
    } else if op == 0xf3 {
        Some(step_di(s))
    } else if op == 0xfb {
        Some(step_ei(s))
    } else if op == 0xcb {
        step_prefix(s)
    } else {
        None
    }
}
} // verus!
