//! End-to-end tests of the machine: timer, bus, cartridge, peripherals,
//! and the instruction engine driven through small programs placed in
//! working RAM or in a ROM image built in memory.

use gameboy::cpu::{Fault, CPU};
use gameboy::joypad::{JoyPad, KeyInput};
use gameboy::mmu::MMU;
use gameboy::register::{Flag, Register, Register16};
use gameboy::serial::Serial;
use gameboy::timer::Timer;

/// A minimal ROM image: two banks, no cartridge RAM unless asked for.
fn make_rom(ram_code: u8) -> Vec<u8> {
    let mut rom = vec![0u8; 0x8000];
    rom[0x147] = 0x01;
    rom[0x148] = 0x00; // 2 banks of 16 KiB
    rom[0x149] = ram_code;
    rom
}

/// A machine with `pc` parked in working RAM, ready to run hand-placed
/// opcodes without touching the ROM.
fn cpu_in_wram() -> CPU {
    let mut cpu = CPU::new(make_rom(0));
    cpu.register.pc = 0xc000;
    cpu.register.sp = 0xd000;
    cpu
}

#[test]
fn timer_divisor_16_counts_up() {
    let mut t = Timer::new();
    t.write_byte(0xff07, 0b101); // enabled, divisor 16
    t.run(16 * 250);
    assert_eq!(t.read_byte(0xff05), 250);
    assert!(!t.interrupt);
}

#[test]
fn timer_divisor_16_wraps_to_modulo_and_interrupts_once() {
    let mut t = Timer::new();
    t.write_byte(0xff07, 0b101);
    t.run(16 * 250);
    t.run(16 * 6); // 16 * 256 cycles in all
    assert_eq!(t.read_byte(0xff05), t.read_byte(0xff06));
    assert!(t.interrupt);
    // the flag is one-shot: consuming it and running a little further
    // raises nothing new
    t.interrupt = false;
    t.run(16 * 255);
    assert!(!t.interrupt);
}

#[test]
fn timer_divider_increments_every_256_cycles_and_write_resets() {
    let mut t = Timer::new();
    t.run(256 * 3 + 10);
    assert_eq!(t.read_byte(0xff04), 3);
    t.write_byte(0xff04, 0x77);
    assert_eq!(t.read_byte(0xff04), 0);
}

#[test]
fn timer_control_reads_back() {
    let mut t = Timer::new();
    for v in [0b000u8, 0b001, 0b010, 0b011, 0b100, 0b101, 0b110, 0b111] {
        t.write_byte(0xff07, v);
        assert_eq!(t.read_byte(0xff07), v);
    }
}

#[test]
fn wram_round_trip_and_echo() {
    let mut m = MMU::new(make_rom(0));
    m.write_byte(0xc123, 0xab);
    assert_eq!(m.read_byte(0xc123), 0xab);
    assert_eq!(m.read_byte(0xe123), 0xab); // echo of the same cell
    m.write_byte(0xf0ff, 0x5a); // write through the echo
    assert_eq!(m.read_byte(0xd0ff), 0x5a);
    assert_eq!(m.read_byte(0xf0ff), 0x5a);
}

#[test]
fn hram_and_vram_round_trip() {
    let mut m = MMU::new(make_rom(0));
    m.write_byte(0xff85, 0x42);
    assert_eq!(m.read_byte(0xff85), 0x42);
    // the pixel unit starts in horizontal blank, so video RAM is readable
    m.write_byte(0x8abc, 0x99);
    assert_eq!(m.read_byte(0x8abc), 0x99);
}

#[test]
fn unmapped_addresses_read_ff_and_ignore_writes() {
    let mut m = MMU::new(make_rom(0));
    assert_eq!(m.read_byte(0xfea5), 0xff);
    m.write_byte(0xfea5, 0x12);
    assert_eq!(m.read_byte(0xfea5), 0xff);
    assert_eq!(m.read_byte(0xff7f), 0xff);
    assert_eq!(m.read_byte(0xff03), 0xff); // tolerated unmapped register
}

#[test]
fn interrupt_registers_store_five_bits() {
    let mut m = MMU::new(make_rom(0));
    m.write_byte(0xffff, 0xff);
    assert_eq!(m.read_byte(0xffff), 0x1f);
    m.write_byte(0xff0f, 0xe3);
    assert_eq!(m.read_byte(0xff0f), 0x03);
}

#[test]
fn dma_copies_160_bytes_into_the_sprite_table() {
    let mut m = MMU::new(make_rom(0));
    for i in 0..160u16 {
        m.write_byte(0xc000 + i, (i as u8).wrapping_mul(3).wrapping_add(7));
    }
    m.write_byte(0xff46, 0xc0);
    for i in 0..160u16 {
        assert_eq!(
            m.read_byte(0xfe00 + i),
            (i as u8).wrapping_mul(3).wrapping_add(7)
        );
    }
}

#[test]
fn word_access_is_little_endian() {
    let mut m = MMU::new(make_rom(0));
    m.write_word(0xc100, 0xbeef);
    assert_eq!(m.read_byte(0xc100), 0xef);
    assert_eq!(m.read_byte(0xc101), 0xbe);
    assert_eq!(m.read_word(0xc100), 0xbeef);
}

#[test]
fn cartridge_rom_banking_switches_the_high_window() {
    let mut rom = vec![0u8; 4 * 16384];
    rom[0x147] = 0x01;
    rom[0x148] = 0x01; // 4 banks
    rom[0x149] = 0x00;
    rom[0x4000] = 0x11; // bank 1
    rom[2 * 0x4000] = 0x22; // bank 2
    rom[3 * 0x4000] = 0x33; // bank 3
    let mut m = MMU::new(rom);
    assert_eq!(m.read_byte(0x4000), 0x11); // bank 0 selects bank 1
    m.write_byte(0x2000, 2);
    assert_eq!(m.read_byte(0x4000), 0x22);
    m.write_byte(0x2000, 3);
    assert_eq!(m.read_byte(0x4000), 0x33);
}

#[test]
fn cartridge_ram_needs_enabling() {
    let mut m = MMU::new(make_rom(3)); // 32 KiB of cartridge RAM
    m.write_byte(0xa010, 0x77); // ignored: RAM disabled
    assert_eq!(m.read_byte(0xa010), 0xff);
    m.write_byte(0x0000, 0x0a); // enable
    assert_eq!(m.read_byte(0xa010), 0x00);
    m.write_byte(0xa010, 0x77);
    assert_eq!(m.read_byte(0xa010), 0x77);
    m.write_byte(0x0000, 0x00); // disable again
    assert_eq!(m.read_byte(0xa010), 0xff);
}

#[test]
fn joypad_reports_the_selected_key_group() {
    let mut j = JoyPad::new();
    j.key_down(KeyInput::A);
    j.key_down(KeyInput::Up);
    j.write_byte(0xff00, 0x20); // select direction keys
    assert_eq!(j.read_byte(0xff00), 0xe0 | 0x0b); // Up low in the group nibble
    j.write_byte(0xff00, 0x10); // select button keys
    assert_eq!(j.read_byte(0xff00), 0xd0 | 0x0e); // A low
    j.key_up(KeyInput::A);
    assert_eq!(j.read_byte(0xff00), 0xd0 | 0x0f);
}

#[test]
fn serial_stores_data_and_masked_control() {
    let mut s = Serial::new();
    s.write_byte(0xff01, 0x5a);
    s.write_byte(0xff02, 0xff);
    assert_eq!(s.read_byte(0xff01), 0x5a);
    assert_eq!(s.read_byte(0xff02), 0x83);
}

#[test]
fn sound_registers_store_and_read_back() {
    let mut m = MMU::new(make_rom(0));
    m.write_byte(0xff12, 0xf3);
    assert_eq!(m.read_byte(0xff12), 0xf3);
    m.write_byte(0xff11, 0xbf);
    assert_eq!(m.read_byte(0xff11), 0xbf | 0x3f); // length bits are write-only
    m.write_byte(0xff13, 0x55);
    assert_eq!(m.read_byte(0xff13), 0xff); // write-only frequency byte
    m.write_byte(0xff25, 0xf3);
    assert_eq!(m.read_byte(0xff25), 0xf3);
    m.write_byte(0xff26, 0x80);
    m.write_byte(0xff14, 0x80); // start channel 1
    assert_eq!(m.read_byte(0xff26) & 0x81, 0x81);
}

#[test]
fn register_pairs_compose_and_af_masks_the_flag_nibble() {
    let mut r = Register::new();
    r.write_word(Register16::BC, 0xab_cd);
    assert_eq!(r.b, 0xab);
    assert_eq!(r.c, 0xcd);
    assert_eq!(r.read_word(Register16::BC), 0xabcd);
    r.write_word(Register16::AF, 0x12ff);
    assert_eq!(r.a, 0x12);
    assert_eq!(r.f.bits, 0xf0); // low nibble forced to zero
    assert_eq!(r.read_word(Register16::AF), 0x12f0);
    r.set_flag(Flag::Z, false);
    assert!(!r.get_flag(Flag::Z));
    assert!(r.get_flag(Flag::C));
}

#[test]
fn post_boot_state_matches_the_documented_table() {
    let mut cpu = CPU::new(make_rom(0));
    cpu.init();
    assert_eq!(cpu.register.read_word(Register16::AF), 0x01b0);
    assert_eq!(cpu.register.read_word(Register16::BC), 0x0013);
    assert_eq!(cpu.register.read_word(Register16::DE), 0x00d8);
    assert_eq!(cpu.register.read_word(Register16::HL), 0x014d);
    assert_eq!(cpu.register.sp, 0xfffe);
    assert_eq!(cpu.register.pc, 0x0100);
    assert_eq!(cpu.mmu.read_byte(0xff40), 0x91);
    assert_eq!(cpu.mmu.read_byte(0xff47), 0xfc);
    assert_eq!(cpu.mmu.read_byte(0xff07), 0x00);
    assert_eq!(cpu.mmu.read_byte(0xffff), 0x00);
}

#[test]
fn load_immediate_then_xor_clears_the_accumulator() {
    // 0x3e 0x05 (LD A,5) then 0xee 0x05 (XOR 5)
    let mut rom = make_rom(0);
    rom[0x100] = 0x3e;
    rom[0x101] = 0x05;
    rom[0x102] = 0xee;
    rom[0x103] = 0x05;
    let mut cpu = CPU::new(rom);
    cpu.init();
    let t1 = cpu.run().unwrap();
    assert_eq!(cpu.register.a, 0x05);
    let t2 = cpu.run().unwrap();
    assert_eq!(cpu.register.a, 0x00);
    assert!(cpu.register.get_flag(Flag::Z));
    assert!(!cpu.register.get_flag(Flag::N));
    assert!(!cpu.register.get_flag(Flag::H));
    assert!(!cpu.register.get_flag(Flag::C));
    assert_eq!(cpu.register.pc, 0x0104);
    assert_eq!(t1, 8);
    assert_eq!(t2, 8);
    assert_eq!(t1 + t2, 16);
}

#[test]
fn sub_sets_borrow_flags_exactly() {
    // SUB B over a few operand pairs: Carry iff a < n, Half-carry iff the
    // low nibble of a is smaller, Zero iff equal, Subtract always.
    for (a, n) in [
        (0x10u8, 0x20u8),
        (0x20, 0x10),
        (0x21, 0x03),
        (0x13, 0x13),
        (0x00, 0x01),
        (0xf0, 0x0f),
    ] {
        let mut cpu = cpu_in_wram();
        cpu.register.a = a;
        cpu.register.b = n;
        cpu.mmu.write_byte(0xc000, 0x90); // SUB B
        let t = cpu.run().unwrap();
        assert_eq!(t, 4);
        assert_eq!(cpu.register.a, a.wrapping_sub(n));
        assert_eq!(cpu.register.get_flag(Flag::C), a < n);
        assert_eq!(cpu.register.get_flag(Flag::H), (a & 0x0f) < (n & 0x0f));
        assert_eq!(cpu.register.get_flag(Flag::Z), a == n);
        assert!(cpu.register.get_flag(Flag::N));
    }
}

#[test]
fn interrupt_priority_services_vblank_first() {
    let mut cpu = cpu_in_wram();
    cpu.ime = true;
    cpu.mmu.interrupt_enable.bits = 0x05; // VBlank and Timer enabled
    cpu.mmu.interrupt_flag.bits = 0x05; // both requested
    let t = cpu.run_with_interrupt().unwrap();
    assert_eq!(t, 16);
    assert_eq!(cpu.register.pc, 0x0040); // the VBlank vector
    assert_eq!(cpu.mmu.interrupt_flag.bits, 0x04); // Timer still requested
    assert!(!cpu.ime);
    assert_eq!(cpu.register.sp, 0xcffe);
    assert_eq!(cpu.mmu.read_word(0xcffe), 0xc000); // old pc pushed
}

#[test]
fn halt_wakes_on_a_pending_request_even_without_servicing() {
    let mut cpu = cpu_in_wram();
    cpu.mmu.write_byte(0xc000, 0x76); // HALT
    cpu.mmu.write_byte(0xc001, 0x04); // INC B
    assert_eq!(cpu.run().unwrap(), 4);
    assert!(cpu.halted);
    // with nothing pending, the engine idles at 4 cycles per step
    assert_eq!(cpu.run().unwrap(), 4);
    assert_eq!(cpu.register.pc, 0xc001);
    // a pending request wakes it although servicing is disabled
    cpu.mmu.interrupt_enable.bits = 0x04;
    cpu.mmu.interrupt_flag.bits = 0x04;
    assert_eq!(cpu.run().unwrap(), 4);
    assert!(!cpu.halted);
    assert_eq!(cpu.register.b, 1); // the INC executed
    assert_eq!(cpu.mmu.interrupt_flag.bits, 0x04); // nothing was serviced
}

#[test]
fn ei_takes_effect_only_after_the_next_instruction() {
    let mut cpu = cpu_in_wram();
    cpu.mmu.write_byte(0xc000, 0xfb); // EI
    cpu.mmu.write_byte(0xc001, 0x00); // NOP
    cpu.run().unwrap(); // EI itself
    assert!(!cpu.ime);
    cpu.run().unwrap(); // the one instruction of latency
    assert!(!cpu.ime);
    cpu.run().unwrap(); // servicing is now re-enabled
    assert!(cpu.ime);
}

#[test]
fn unknown_opcode_is_a_fault_naming_the_opcode() {
    let mut cpu = cpu_in_wram();
    cpu.mmu.write_byte(0xc000, 0xd3);
    assert_eq!(cpu.run(), Err(Fault::Opcode(0xd3)));
}

#[test]
fn daa_adjusts_bcd_addition() {
    let mut cpu = cpu_in_wram();
    cpu.register.a = 0x15;
    cpu.mmu.write_byte(0xc000, 0xc6); // ADD 0x27
    cpu.mmu.write_byte(0xc001, 0x27);
    cpu.mmu.write_byte(0xc002, 0x27); // DAA
    cpu.run().unwrap();
    assert_eq!(cpu.register.a, 0x3c);
    cpu.run().unwrap();
    assert_eq!(cpu.register.a, 0x42); // 15 + 27 = 42 in decimal
    assert!(!cpu.register.get_flag(Flag::C));
}

#[test]
fn call_pushes_and_ret_pops_the_return_address() {
    let mut cpu = cpu_in_wram();
    cpu.mmu.write_byte(0xc000, 0xcd); // CALL 0xc010
    cpu.mmu.write_word(0xc001, 0xc010);
    cpu.mmu.write_byte(0xc010, 0xc9); // RET
    assert_eq!(cpu.run().unwrap(), 24);
    assert_eq!(cpu.register.pc, 0xc010);
    assert_eq!(cpu.register.sp, 0xcffe);
    assert_eq!(cpu.mmu.read_word(0xcffe), 0xc003);
    assert_eq!(cpu.run().unwrap(), 16);
    assert_eq!(cpu.register.pc, 0xc003);
    assert_eq!(cpu.register.sp, 0xd000);
}

#[test]
fn conditional_relative_jump_costs_differ() {
    let mut cpu = cpu_in_wram();
    cpu.mmu.write_byte(0xc000, 0x20); // JR NZ, -2
    cpu.mmu.write_byte(0xc001, 0xfe);
    cpu.register.set_flag(Flag::Z, false);
    assert_eq!(cpu.run().unwrap(), 12); // taken: back to 0xc000
    assert_eq!(cpu.register.pc, 0xc000);
    cpu.register.set_flag(Flag::Z, true);
    assert_eq!(cpu.run().unwrap(), 8); // not taken
    assert_eq!(cpu.register.pc, 0xc002);
}

#[test]
fn rotate_through_carry_via_the_prefixed_table() {
    let mut cpu = cpu_in_wram();
    cpu.register.c = 0x80;
    cpu.register.set_flag(Flag::C, true);
    cpu.mmu.write_byte(0xc000, 0xcb); // RL C
    cpu.mmu.write_byte(0xc001, 0x11);
    assert_eq!(cpu.run().unwrap(), 8);
    assert_eq!(cpu.register.c, 0x01); // carry rotated in
    assert!(cpu.register.get_flag(Flag::C)); // bit 7 rotated out
    assert!(!cpu.register.get_flag(Flag::Z));
}

#[test]
fn add_hl_keeps_zero_and_sets_carries_from_bits_11_and_15() {
    let mut cpu = cpu_in_wram();
    cpu.register.write_word(Register16::HL, 0x8fff);
    cpu.register.write_word(Register16::BC, 0x7001);
    cpu.register.set_flag(Flag::Z, true);
    cpu.mmu.write_byte(0xc000, 0x09); // ADD HL, BC
    assert_eq!(cpu.run().unwrap(), 8);
    assert_eq!(cpu.register.read_word(Register16::HL), 0x0000);
    assert!(cpu.register.get_flag(Flag::Z)); // untouched
    assert!(cpu.register.get_flag(Flag::H));
    assert!(cpu.register.get_flag(Flag::C));
}

#[test]
fn pop_af_masks_the_flag_nibble() {
    let mut cpu = cpu_in_wram();
    cpu.mmu.write_word(0xcffe, 0x12ff);
    cpu.register.sp = 0xcffe;
    cpu.mmu.write_byte(0xc000, 0xf1); // POP AF
    assert_eq!(cpu.run().unwrap(), 12);
    assert_eq!(cpu.register.a, 0x12);
    assert_eq!(cpu.register.f.bits, 0xf0);
    assert_eq!(cpu.register.sp, 0xd000);
}

#[test]
fn memory_operand_goes_through_the_bus() {
    let mut cpu = cpu_in_wram();
    cpu.register.write_word(Register16::HL, 0xc100);
    cpu.mmu.write_byte(0xc100, 0x41);
    cpu.mmu.write_byte(0xc000, 0x34); // INC (HL)
    assert_eq!(cpu.run().unwrap(), 12);
    assert_eq!(cpu.mmu.read_byte(0xc100), 0x42);
}

#[test]
fn add_sp_uses_low_byte_carries() {
    let mut cpu = cpu_in_wram();
    cpu.register.sp = 0x00ff;
    cpu.mmu.write_byte(0xc000, 0xe8); // ADD SP, +1
    cpu.mmu.write_byte(0xc001, 0x01);
    assert_eq!(cpu.run().unwrap(), 16);
    assert_eq!(cpu.register.sp, 0x0100);
    assert!(cpu.register.get_flag(Flag::H));
    assert!(cpu.register.get_flag(Flag::C));
    assert!(!cpu.register.get_flag(Flag::Z));
}

#[test]
fn add_sp_negative_offset_wraps() {
    let mut cpu = cpu_in_wram();
    cpu.register.sp = 0xd000;
    cpu.mmu.write_byte(0xc000, 0xe8); // ADD SP, -2
    cpu.mmu.write_byte(0xc001, 0xfe);
    cpu.run().unwrap();
    assert_eq!(cpu.register.sp, 0xcffe);
}

#[test]
fn ld_hl_sp_offset_keeps_sp() {
    let mut cpu = cpu_in_wram();
    cpu.register.sp = 0xfff8;
    cpu.mmu.write_byte(0xc000, 0xf8); // LD HL, SP+2
    cpu.mmu.write_byte(0xc001, 0x02);
    assert_eq!(cpu.run().unwrap(), 12);
    assert_eq!(cpu.register.read_word(Register16::HL), 0xfffa);
    assert_eq!(cpu.register.sp, 0xfff8);
    assert!(!cpu.register.get_flag(Flag::Z));
}

#[test]
fn adc_adds_the_carry_in() {
    let mut cpu = cpu_in_wram();
    cpu.register.a = 0xfe;
    cpu.register.c = 0x01;
    cpu.register.set_flag(Flag::C, true);
    cpu.mmu.write_byte(0xc000, 0x89); // ADC A, C
    cpu.run().unwrap();
    assert_eq!(cpu.register.a, 0x00);
    assert!(cpu.register.get_flag(Flag::Z));
    assert!(cpu.register.get_flag(Flag::C));
    assert!(cpu.register.get_flag(Flag::H));
}

#[test]
fn swap_exchanges_nibbles_and_clears_carry() {
    let mut cpu = cpu_in_wram();
    cpu.register.d = 0xa5;
    cpu.register.set_flag(Flag::C, true);
    cpu.mmu.write_byte(0xc000, 0xcb); // SWAP D
    cpu.mmu.write_byte(0xc001, 0x32);
    cpu.run().unwrap();
    assert_eq!(cpu.register.d, 0x5a);
    assert!(!cpu.register.get_flag(Flag::C));
}

#[test]
fn bit_test_keeps_carry_and_complements_into_zero() {
    let mut cpu = cpu_in_wram();
    cpu.register.e = 0b0100_0000;
    cpu.register.set_flag(Flag::C, true);
    cpu.mmu.write_byte(0xc000, 0xcb); // BIT 6, E
    cpu.mmu.write_byte(0xc001, 0x73);
    assert_eq!(cpu.run().unwrap(), 8);
    assert!(!cpu.register.get_flag(Flag::Z)); // the bit is set
    assert!(cpu.register.get_flag(Flag::H));
    assert!(cpu.register.get_flag(Flag::C)); // untouched
    cpu.mmu.write_byte(0xc002, 0xcb); // BIT 7, E
    cpu.mmu.write_byte(0xc003, 0x7b);
    cpu.run().unwrap();
    assert!(cpu.register.get_flag(Flag::Z));
}

#[test]
fn res_and_set_touch_only_the_target_bit() {
    let mut cpu = cpu_in_wram();
    cpu.register.h = 0xff;
    cpu.mmu.write_byte(0xc000, 0xcb); // RES 3, H
    cpu.mmu.write_byte(0xc001, 0x9c);
    cpu.mmu.write_byte(0xc002, 0xcb); // SET 3, H
    cpu.mmu.write_byte(0xc003, 0xdc);
    cpu.run().unwrap();
    assert_eq!(cpu.register.h, 0xf7);
    cpu.run().unwrap();
    assert_eq!(cpu.register.h, 0xff);
}

#[test]
fn rst_jumps_to_a_fixed_vector() {
    let mut cpu = cpu_in_wram();
    cpu.mmu.write_byte(0xc000, 0xef); // RST 0x28
    assert_eq!(cpu.run().unwrap(), 16);
    assert_eq!(cpu.register.pc, 0x0028);
    assert_eq!(cpu.mmu.read_word(0xcffe), 0xc001);
}

#[test]
fn high_page_loads_go_through_0xff00() {
    let mut cpu = cpu_in_wram();
    cpu.register.a = 0x2a;
    cpu.mmu.write_byte(0xc000, 0xe0); // LDH (0x85), A
    cpu.mmu.write_byte(0xc001, 0x85);
    cpu.mmu.write_byte(0xc002, 0xf0); // LDH A, (0x85)
    cpu.mmu.write_byte(0xc003, 0x85);
    assert_eq!(cpu.run().unwrap(), 12);
    assert_eq!(cpu.mmu.read_byte(0xff85), 0x2a);
    cpu.register.a = 0;
    assert_eq!(cpu.run().unwrap(), 12);
    assert_eq!(cpu.register.a, 0x2a);
}

#[test]
fn ldi_and_ldd_move_hl() {
    let mut cpu = cpu_in_wram();
    cpu.register.a = 0x77;
    cpu.register.write_word(Register16::HL, 0xc200);
    cpu.mmu.write_byte(0xc000, 0x22); // LD (HL+), A
    cpu.mmu.write_byte(0xc001, 0x32); // LD (HL-), A
    cpu.run().unwrap();
    assert_eq!(cpu.mmu.read_byte(0xc200), 0x77);
    assert_eq!(cpu.register.read_word(Register16::HL), 0xc201);
    cpu.run().unwrap();
    assert_eq!(cpu.mmu.read_byte(0xc201), 0x77);
    assert_eq!(cpu.register.read_word(Register16::HL), 0xc200);
}

#[test]
fn di_disables_immediately_and_cancels_a_pending_enable() {
    let mut cpu = cpu_in_wram();
    cpu.ime = true;
    cpu.mmu.write_byte(0xc000, 0xf3); // DI
    assert_eq!(cpu.run().unwrap(), 4);
    assert!(!cpu.ime); // disabled at once, no latency
    cpu.mmu.write_byte(0xc001, 0xfb); // EI
    cpu.mmu.write_byte(0xc002, 0xf3); // DI cancels the pending enable
    cpu.run().unwrap();
    cpu.run().unwrap();
    cpu.run().unwrap();
    cpu.run().unwrap();
    assert!(!cpu.ime);
}

#[test]
fn reti_rearms_with_one_instruction_latency() {
    let mut cpu = cpu_in_wram();
    cpu.register.sp = 0xcffe;
    cpu.mmu.write_word(0xcffe, 0xc100); // return address
    cpu.mmu.write_byte(0xc000, 0xd9); // RETI
    assert_eq!(cpu.run().unwrap(), 16);
    assert_eq!(cpu.register.pc, 0xc100);
    assert!(!cpu.ime);
    cpu.run().unwrap(); // the one instruction of latency (a NOP)
    assert!(!cpu.ime);
    cpu.run().unwrap();
    assert!(cpu.ime);
}
