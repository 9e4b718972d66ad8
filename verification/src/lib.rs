//! Cycle-level simulation of an 8-bit handheld game console: an instruction
//! execution engine, interrupt controller, memory bus, programmable timer and
//! pixel processing unit sharing one clock.
//!
//! The driver repeatedly calls [`cpu::CPU::run`]; each call executes one
//! instruction (or services an interrupt, or idles while halted), forwards the
//! elapsed cycle count to the bus, which advances the timer and the pixel unit
//! and latches their interrupt requests for the next step.

pub mod apu;
pub mod bitmath;
pub mod cartridge;
pub mod cpu;
pub mod joypad;
pub mod mmu;
pub mod ppu;
pub mod register;
pub mod serial;
pub mod timer;

pub use register::Flag;
pub use register::Flags;
pub use register::Register;
pub use register::Register16;
