use oxidboy::cartridge::{self, Cartridge, LoadError};
use oxidboy::cpu::{Cpu, CpuError};
use oxidboy::mmunit::{Mmunit, Sound};
use oxidboy::motherboard::MotherBoard;
use oxidboy::registers::{Flags, Register, Term};

struct Mute;

impl Sound for Mute {
    fn get(&self, _a: u16) -> u8 {
        0xFF
    }
    fn set(&mut self, _a: u16, _v: u8) {}
    fn next(&mut self, _cycles: u32) {}
}

const LOGO: [u8; 48] = [
    0xCE, 0xED, 0x66, 0x66, 0xCC, 0x0D, 0x00, 0x0B, 0x03, 0x73, 0x00, 0x83, 0x00, 0x0C, 0x00, 0x0D, 0x00, 0x08,
    0x11, 0x1F, 0x88, 0x89, 0x00, 0x0E, 0xDC, 0xCC, 0x6E, 0xE6, 0xDD, 0xDD, 0xD9, 0x99, 0xBB, 0xBB, 0x67, 0x63,
    0x6E, 0x0E, 0xEC, 0xCC, 0xDD, 0xDC, 0x99, 0x9F, 0xBB, 0xB9, 0x33, 0x3E,
];

fn fix_checksum(rom: &mut [u8]) {
    let mut v: u8 = 0;
    for i in 0x0134..0x014D {
        v = v.wrapping_sub(rom[i]).wrapping_sub(1);
    }
    rom[0x014D] = v;
}

/// A valid image of `banks` 16 KiB banks with the given type and size codes;
/// each switchable bank starts with its own number.
fn image(kind: u8, rom_code: u8, ram_code: u8, banks: usize) -> Vec<u8> {
    let mut rom = vec![0u8; 0x4000 * banks];
    rom[0x0104..0x0134].copy_from_slice(&LOGO);
    rom[0x0134..0x0138].copy_from_slice(b"TEST");
    rom[0x0147] = kind;
    rom[0x0148] = rom_code;
    rom[0x0149] = ram_code;
    for b in 1..banks {
        rom[b * 0x4000] = b as u8;
    }
    fix_checksum(&mut rom);
    rom
}

fn board_with(program: &[u8]) -> MotherBoard<Mute> {
    let mut rom = image(0x00, 0x00, 0x00, 2);
    rom[0x0100..0x0100 + program.len()].copy_from_slice(program);
    fix_checksum(&mut rom);
    let cart = cartridge::power_up(rom, None, None, 1_000_000).unwrap();
    MotherBoard::power_up(cart, Mute)
}

/// A board whose program starts at 0x0150, past the header.
fn board_running(program: &[u8]) -> MotherBoard<Mute> {
    let mut rom = image(0x00, 0x00, 0x00, 2);
    rom[0x0150..0x0150 + program.len()].copy_from_slice(program);
    let cart = cartridge::power_up(rom, None, None, 1_000_000).unwrap();
    let mut b = MotherBoard::power_up(cart, Mute);
    b.cpu.cpu.reg.program_counter = 0x0150;
    b
}

fn bus() -> Mmunit<Mute> {
    let cart = cartridge::power_up(image(0x00, 0x00, 0x00, 2), None, None, 1_000_000).unwrap();
    Mmunit::power_up(cart, Mute)
}

fn cpu_with_a(a: u8) -> Cpu {
    let mut cpu = Cpu::power_up(Term::GB);
    cpu.reg.a_reg = a;
    cpu.reg.f_reg = 0;
    cpu
}

#[test]
fn add_then_sub_restores_accumulator() {
    for (a, b) in [(0x00u8, 0x00u8), (0x3A, 0xC6), (0xFF, 0x01), (0x0F, 0x01), (0x80, 0x80), (0x12, 0x34)] {
        let mut cpu = cpu_with_a(a);
        cpu.alu_add(b);
        let wide = a as u16 + b as u16;
        assert_eq!(cpu.reg.get_flag(Flags::CarryFlag), wide & 0x100 != 0);
        assert_eq!(cpu.reg.get_flag(Flags::HalfCarryFlag), ((a as u16 & 0xF) + (b as u16 & 0xF)) & 0x10 != 0);
        assert_eq!(cpu.reg.a_reg, wide as u8);
        cpu.alu_sub(b);
        assert_eq!(cpu.reg.a_reg, a);
    }
}

#[test]
fn add_sets_zero_half_and_carry() {
    let mut cpu = cpu_with_a(0x3A);
    cpu.alu_add(0xC6);
    assert_eq!(cpu.reg.a_reg, 0x00);
    assert_eq!(cpu.reg.f_reg, 0xB0);
}

#[test]
fn set_af_clears_low_nibble_of_f() {
    let mut r = Register::power_up(Term::GB);
    for x in [0x0000u16, 0xFFFF, 0x12AB, 0x80F7, 0x010F] {
        r.set_af(x);
        assert_eq!(r.parse_af(), x & 0xFFF0);
    }
}

#[test]
fn pairs_pack_two_bytes() {
    let mut r = Register::power_up(Term::GBC);
    assert_eq!(r.a_reg, 0x11);
    assert_eq!(r.parse_bc(), 0x0013);
    assert_eq!(r.parse_de(), 0x00D8);
    assert_eq!(r.parse_hl(), 0x014D);
    r.set_bc(0xBEEF);
    assert_eq!((r.b_reg, r.c_reg), (0xBE, 0xEF));
    r.set_de(0x1234);
    assert_eq!(r.parse_de(), 0x1234);
    r.set_hl(0x00FF);
    assert_eq!((r.h_reg, r.l_reg), (0x00, 0xFF));
}

#[test]
fn working_and_high_ram_round_trip() {
    let mut m = bus();
    m.set(0xC123, 0x5A);
    assert_eq!(m.get(0xC123), 0x5A);
    assert_eq!(m.get(0xE123), 0x5A);
    m.set(0xD010, 0x77);
    assert_eq!(m.get(0xD010), 0x77);
    m.set(0xFF70, 0x03);
    assert_eq!(m.get(0xFF70), 0x03);
    assert_eq!(m.get(0xD010), 0x00);
    m.set(0xD010, 0x99);
    m.set(0xFF70, 0x01);
    assert_eq!(m.get(0xD010), 0x77);
    m.set(0xFF70, 0x00);
    assert_eq!(m.get(0xFF70), 0x01);
    m.set(0xFF80, 0x42);
    m.set(0xFFFE, 0x24);
    assert_eq!(m.get(0xFF80), 0x42);
    assert_eq!(m.get(0xFFFE), 0x24);
}

#[test]
fn unusable_region_reads_zero() {
    let mut m = bus();
    m.set(0xFEA0, 0x12);
    assert_eq!(m.get(0xFEA0), 0x00);
    assert_eq!(m.get(0xFEFF), 0x00);
}

#[test]
fn bank_zero_selects_bank_one() {
    for (kind, rom_code, ram_code) in [(0x01u8, 0x02u8, 0x00u8), (0x05, 0x02, 0x00), (0x11, 0x02, 0x00), (0x19, 0x02, 0x00)] {
        let mut c = cartridge::power_up(image(kind, rom_code, ram_code, 8), None, None, 1_000_000).unwrap();
        c.set(0x2100, 0x03);
        assert_eq!(c.get(0x4000), 0x03);
        c.set(0x2100, 0x00);
        assert_eq!(c.get(0x4000), 0x01, "type {:02x}", kind);
    }
}

#[test]
fn interrupt_priority_serves_vblank_first() {
    let mut b = board_with(&[0x00]);
    b.mmu.set(0xFF0F, 0b0001_0011);
    b.mmu.set(0xFFFF, 0xFF);
    let (cycles, _) = b.next().unwrap();
    assert_eq!(cycles, 20);
    assert_eq!(b.cpu.cpu.reg.program_counter, 0x0040);
    assert_eq!(b.mmu.get(0xFF0F) & 0x1F, 0b0001_0010);
    assert!(!b.cpu.cpu.ei);
    assert_eq!(b.cpu.cpu.reg.stack_pointer, 0xFFFC);
    assert_eq!(b.mmu.get_word(0xFFFC), 0x0100);
}

#[test]
fn halt_without_global_enable_wakes_and_falls_through() {
    let mut b = board_with(&[0xF3, 0x76, 0x3C]);
    b.mmu.set(0xFFFF, 0x04);
    b.next().unwrap();
    b.next().unwrap();
    assert!(b.cpu.cpu.halted);
    assert_eq!(b.cpu.cpu.reg.program_counter, 0x0102);
    b.next().unwrap();
    assert!(b.cpu.cpu.halted);
    assert_eq!(b.cpu.cpu.reg.program_counter, 0x0102);
    b.mmu.set(0xFF0F, 0x04);
    let a = b.cpu.cpu.reg.a_reg;
    b.next().unwrap();
    assert!(!b.cpu.cpu.halted);
    assert_eq!(b.cpu.cpu.reg.program_counter, 0x0103);
    assert_eq!(b.cpu.cpu.reg.a_reg, a.wrapping_add(1));
    assert_eq!(b.mmu.get(0xFF0F) & 0x1F, 0x04);
}

#[test]
fn nop_at_entry_point() {
    let mut b = board_with(&[0x00]);
    assert_eq!(b.cpu.cpu.reg.program_counter, 0x0100);
    assert_eq!(b.cpu.cpu.reg.stack_pointer, 0xFFFE);
    let (cycles, _) = b.next().unwrap();
    assert_eq!(cycles, 4);
    assert_eq!(b.cpu.cpu.reg.program_counter, 0x0101);
}

#[test]
fn absolute_jump() {
    for f in [0x00u8, 0xF0] {
        let mut b = board_with(&[0xC3, 0x34, 0x12]);
        b.cpu.cpu.reg.f_reg = f;
        let (cycles, _) = b.next().unwrap();
        assert_eq!(cycles, 16);
        assert_eq!(b.cpu.cpu.reg.program_counter, 0x1234);
    }
}

#[test]
fn conditional_relative_jump_costs_more_when_taken() {
    let mut b = board_with(&[0x20, 0x05]);
    b.cpu.cpu.reg.f_reg = 0x00;
    let (cycles, _) = b.next().unwrap();
    assert_eq!(cycles, 12);
    assert_eq!(b.cpu.cpu.reg.program_counter, 0x0107);
    let mut b = board_with(&[0x20, 0x05]);
    b.cpu.cpu.reg.f_reg = 0x80;
    let (cycles, _) = b.next().unwrap();
    assert_eq!(cycles, 8);
    assert_eq!(b.cpu.cpu.reg.program_counter, 0x0102);
    let mut b = board_with(&[0x38, 0xFE]);
    b.cpu.cpu.reg.f_reg = 0x10;
    let (cycles, _) = b.next().unwrap();
    assert_eq!(cycles, 12);
    assert_eq!(b.cpu.cpu.reg.program_counter, 0x0100);
}

#[test]
fn call_and_return() {
    let mut b = board_with(&[0xCD, 0x10, 0x01]);
    let (cycles, _) = b.next().unwrap();
    assert_eq!(cycles, 24);
    assert_eq!(b.cpu.cpu.reg.program_counter, 0x0110);
    assert_eq!(b.mmu.get_word(0xFFFC), 0x0103);
}

#[test]
fn daa_after_bcd_add() {
    let mut cpu = cpu_with_a(0x15);
    cpu.alu_add(0x27);
    assert_eq!(cpu.reg.a_reg, 0x3C);
    assert!(!cpu.reg.get_flag(Flags::CarryFlag));
    assert!(!cpu.reg.get_flag(Flags::HalfCarryFlag));
    cpu.alu_daa();
    assert_eq!(cpu.reg.a_reg, 0x42);
    assert!(!cpu.reg.get_flag(Flags::CarryFlag));
}

#[test]
fn daa_after_subtract_and_overflow() {
    let mut cpu = cpu_with_a(0x42);
    cpu.alu_sub(0x15);
    cpu.alu_daa();
    assert_eq!(cpu.reg.a_reg, 0x27);
    let mut cpu = cpu_with_a(0x99);
    cpu.alu_add(0x01);
    cpu.alu_daa();
    assert_eq!(cpu.reg.a_reg, 0x00);
    assert!(cpu.reg.get_flag(Flags::CarryFlag));
    assert!(cpu.reg.get_flag(Flags::ZeroFlag));
}

#[test]
fn mbc1_ram_enable_latch() {
    let mut c = cartridge::power_up(image(0x02, 0x01, 0x02, 4), None, None, 1_000_000).unwrap();
    c.set(0x0000, 0x0A);
    c.set(0xA000, 0x5C);
    assert_eq!(c.get(0xA000), 0x5C);
    c.set(0x0000, 0x00);
    assert_eq!(c.get(0xA000), 0x00);
    c.set(0x0000, 0x1A);
    assert_eq!(c.get(0xA000), 0x5C);
}

#[test]
fn load_rejects_malformed_images() {
    assert_eq!(cartridge::power_up(vec![0; 0x100], None, None, 1_000_000).err(), Some(LoadError::TooShort));
    let mut rom = image(0x00, 0x00, 0x00, 2);
    rom[0x0104] = 0;
    fix_checksum(&mut rom);
    assert_eq!(cartridge::power_up(rom, None, None, 1_000_000).err(), Some(LoadError::BadLogo));
    let mut rom = image(0x00, 0x00, 0x00, 2);
    rom[0x014D] ^= 1;
    assert_eq!(cartridge::power_up(rom, None, None, 1_000_000).err(), Some(LoadError::BadChecksum));
    let rom = image(0x22, 0x00, 0x00, 2);
    assert_eq!(cartridge::power_up(rom, None, None, 1_000_000).err(), Some(LoadError::UnsupportedType(0x22)));
    let rom = image(0x00, 0x09, 0x00, 2);
    assert_eq!(cartridge::power_up(rom, None, None, 1_000_000).err(), Some(LoadError::UnsupportedRomSize(0x09)));
    let rom = image(0x00, 0x00, 0x00, 4);
    assert_eq!(cartridge::power_up(rom, None, None, 1_000_000).err(), Some(LoadError::TooLarge));
    let rom = image(0x03, 0x00, 0x07, 2);
    assert_eq!(cartridge::power_up(rom, None, None, 1_000_000).err(), Some(LoadError::UnsupportedRamSize(0x07)));
}

#[test]
fn unassigned_opcode_is_fatal() {
    for op in [0xD3u8, 0xDB, 0xDD, 0xE3, 0xE4, 0xEB, 0xEC, 0xED, 0xF4, 0xFC, 0xFD] {
        let mut b = board_with(&[op]);
        assert_eq!(b.next().err(), Some(CpuError::UnsupportedOperation(op)));
    }
}

#[test]
fn header_helpers() {
    assert_eq!(cartridge::rom_size(0x00), Some(0x8000));
    assert_eq!(cartridge::rom_size(0x08), Some(16384 * 512));
    assert_eq!(cartridge::rom_size(0x52), Some(16384 * 72));
    assert_eq!(cartridge::rom_size(0x10), None);
    assert_eq!(cartridge::ram_size(0x03), Some(32768));
    assert_eq!(cartridge::ram_size(0x05), Some(65536));
    assert_eq!(cartridge::ram_size(0x06), None);
    assert_eq!(cartridge::cart_type(0x13), "MBC3+RAM+BATTERY");
    assert_eq!(cartridge::cart_type(0x00), "ROM ONLY");
    let rom = image(0x00, 0x00, 0x00, 2);
    assert_eq!(cartridge::title(&rom), b"TEST".to_vec());
    assert!(cartridge::ensure_logo(&rom));
    assert!(cartridge::ensure_header_checksum(&rom));
}

#[test]
fn battery_ram_is_restored_and_saved() {
    let saved = vec![7u8; 8192];
    let c: Cartridge = cartridge::power_up(image(0x03, 0x01, 0x02, 4), Some(saved.clone()), None, 1_000_000).unwrap();
    assert_eq!(c.sav(), Some(&saved));
    let c = cartridge::power_up(image(0x02, 0x01, 0x02, 4), Some(saved), None, 1_000_000).unwrap();
    assert_eq!(c.sav(), None);
}

#[test]
fn clock_latches_elapsed_time() {
    let mut c = cartridge::power_up(image(0x0F, 0x01, 0x00, 4), None, Some(1000), 1_000_000).unwrap();
    assert_eq!(c.rtc_sav(), Some(1000));
    let mut rtc = cartridge::RTC::power_up(1000);
    rtc.tic(1000 + 2 * 86400 + 3 * 3600 + 4 * 60 + 5);
    assert_eq!((rtc.second, rtc.minute, rtc.hour, rtc.dl, rtc.dh), (5, 4, 3, 2, 0));
    rtc.tic(1000 + 300 * 86400);
    assert_eq!((rtc.dl, rtc.dh), (44, 0x01));
    rtc.tic(1000 + 600 * 86400);
    assert_eq!(rtc.dh, 0x81);
    c.set(0x0000, 0x0A);
    c.set(0x4000, 0x08);
    c.set(0xA000, 0x21);
    assert_eq!(c.get(0xA000), 0x21);
    c.set_clock(1000 + 3 * 3600 + 2 * 60 + 1);
    c.set(0x6000, 0x01);
    assert_eq!(c.get(0xA000), 1);
    c.set(0x4000, 0x09);
    assert_eq!(c.get(0xA000), 2);
    c.set(0x4000, 0x0A);
    assert_eq!(c.get(0xA000), 3);
}

#[test]
fn timer_overflow_raises_interrupt() {
    let mut m = bus();
    m.set(0xFF06, 0xF0);
    m.set(0xFF07, 0x05);
    m.set(0xFF05, 0xFF);
    m.next(16);
    assert_eq!(m.get(0xFF05), 0xF0);
    assert_eq!(m.get(0xFF0F) & 0x04, 0x04);
    m.next(256);
    assert_eq!(m.get(0xFF04), 0x01);
}

#[test]
fn oam_dma_copies_160_bytes() {
    let mut m = bus();
    for i in 0..0xA0u16 {
        m.set(0xC000 + i, i as u8 ^ 0x5A);
    }
    m.set(0xFF46, 0xC0);
    for i in 0..0xA0u16 {
        assert_eq!(m.get(0xFE00 + i), i as u8 ^ 0x5A);
    }
}

#[test]
fn general_vram_transfer() {
    let mut m = bus();
    for i in 0..0x20u16 {
        m.set(0xC100 + i, i as u8 + 1);
    }
    m.set(0xFF51, 0xC1);
    m.set(0xFF52, 0x00);
    m.set(0xFF53, 0x00);
    m.set(0xFF54, 0x40);
    m.set(0xFF55, 0x01);
    let cycles = m.next(4);
    assert_eq!(cycles, 4 + 16);
    for i in 0..0x20u16 {
        assert_eq!(m.get(0x8040 + i), i as u8 + 1);
    }
    assert_eq!(m.get(0xFF55) & 0x80, 0x80);
}

#[test]
fn speed_switch_on_stop() {
    let mut b = board_with(&[0x10, 0x00]);
    b.mmu.set(0xFF4D, 0x01);
    assert_eq!(b.mmu.get(0xFF4D), 0x01);
    b.next().unwrap();
    assert_eq!(b.mmu.get(0xFF4D), 0x80);
}

#[test]
fn bit_res_set_and_rotations() {
    let mut cpu = cpu_with_a(0);
    cpu.alu_bit(0x10, 4);
    assert!(!cpu.reg.get_flag(Flags::ZeroFlag));
    assert!(cpu.reg.get_flag(Flags::HalfCarryFlag));
    cpu.alu_bit(0x10, 3);
    assert!(cpu.reg.get_flag(Flags::ZeroFlag));
    assert_eq!(cpu.alu_set(0x00, 7), 0x80);
    assert_eq!(cpu.alu_res(0xFF, 0), 0xFE);
    assert_eq!(cpu.alu_rlc(0x85), 0x0B);
    assert!(cpu.reg.get_flag(Flags::CarryFlag));
    assert_eq!(cpu.alu_rr(0x01), 0x80);
    assert!(cpu.reg.get_flag(Flags::CarryFlag));
    assert_eq!(cpu.alu_sra(0x81), 0xC0);
    assert_eq!(cpu.alu_srl(0x81), 0x40);
    assert_eq!(cpu.alu_swap(0xAB), 0xBA);
    assert_eq!(cpu.alu_sla(0x80), 0x00);
    assert!(cpu.reg.get_flag(Flags::ZeroFlag));
}

#[test]
fn inc_dec_keep_carry() {
    let mut cpu = cpu_with_a(0);
    cpu.alu_scf();
    assert_eq!(cpu.alu_inc(0x0F), 0x10);
    assert!(cpu.reg.get_flag(Flags::HalfCarryFlag));
    assert!(cpu.reg.get_flag(Flags::CarryFlag));
    assert_eq!(cpu.alu_dec(0x10), 0x0F);
    assert!(cpu.reg.get_flag(Flags::HalfCarryFlag));
    assert!(cpu.reg.get_flag(Flags::SubtractionFlag));
    assert!(cpu.reg.get_flag(Flags::CarryFlag));
}

#[test]
fn sixteen_bit_adds() {
    let mut cpu = cpu_with_a(0);
    cpu.reg.set_hl(0x0FFF);
    cpu.alu_add_hl(0x0001);
    assert_eq!(cpu.reg.parse_hl(), 0x1000);
    assert!(cpu.reg.get_flag(Flags::HalfCarryFlag));
    assert!(!cpu.reg.get_flag(Flags::CarryFlag));
    cpu.reg.stack_pointer = 0x00F8;
    assert_eq!(cpu.sp_offset(0x08), 0x0100);
    assert!(cpu.reg.get_flag(Flags::HalfCarryFlag));
    assert!(cpu.reg.get_flag(Flags::CarryFlag));
    cpu.reg.stack_pointer = 0x0000;
    assert_eq!(cpu.sp_offset(0xFF), 0xFFFF);
    assert!(!cpu.reg.get_flag(Flags::ZeroFlag));
}

#[test]
fn loads_and_stores_through_hl() {
    // LD HL, 0xC000; LD (HL), 0x5A; LD B, (HL); INC (HL); LD A, (HL+); LD (HL-), A
    let mut b = board_running(&[0x21, 0x00, 0xC0, 0x36, 0x5A, 0x46, 0x34, 0x2A, 0x32]);
    b.next().unwrap();
    assert_eq!(b.cpu.cpu.reg.parse_hl(), 0xC000);
    b.next().unwrap();
    assert_eq!(b.mmu.get(0xC000), 0x5A);
    b.next().unwrap();
    assert_eq!(b.cpu.cpu.reg.b_reg, 0x5A);
    let (cycles, _) = b.next().unwrap();
    assert_eq!(cycles, 12);
    assert_eq!(b.mmu.get(0xC000), 0x5B);
    b.next().unwrap();
    assert_eq!(b.cpu.cpu.reg.a_reg, 0x5B);
    assert_eq!(b.cpu.cpu.reg.parse_hl(), 0xC001);
    b.next().unwrap();
    assert_eq!(b.mmu.get(0xC001), 0x5B);
    assert_eq!(b.cpu.cpu.reg.parse_hl(), 0xC000);
}

#[test]
fn push_pop_and_high_page() {
    // LD BC, 0x1234; PUSH BC; POP DE; LD A, 0x77; LDH (0x80), A; LDH A, (0x81)
    let mut b = board_running(&[0x01, 0x34, 0x12, 0xC5, 0xD1, 0x3E, 0x77, 0xE0, 0x80, 0xF0, 0x81]);
    b.next().unwrap();
    let (cycles, _) = b.next().unwrap();
    assert_eq!(cycles, 16);
    assert_eq!(b.cpu.cpu.reg.stack_pointer, 0xFFFC);
    assert_eq!(b.mmu.get(0xFFFC), 0x34);
    assert_eq!(b.mmu.get(0xFFFD), 0x12);
    b.next().unwrap();
    assert_eq!(b.cpu.cpu.reg.parse_de(), 0x1234);
    assert_eq!(b.cpu.cpu.reg.stack_pointer, 0xFFFE);
    b.next().unwrap();
    b.next().unwrap();
    assert_eq!(b.mmu.get(0xFF80), 0x77);
    b.next().unwrap();
    assert_eq!(b.cpu.cpu.reg.a_reg, 0x00);
}

#[test]
fn pop_af_clears_low_nibble() {
    // LD BC, 0x12FF; PUSH BC; POP AF
    let mut b = board_running(&[0x01, 0xFF, 0x12, 0xC5, 0xF1]);
    b.next().unwrap();
    b.next().unwrap();
    b.next().unwrap();
    assert_eq!(b.cpu.cpu.reg.parse_af(), 0x12F0);
}

#[test]
fn restart_and_return() {
    let mut b = board_running(&[0xEF]);
    let (cycles, _) = b.next().unwrap();
    assert_eq!(cycles, 16);
    assert_eq!(b.cpu.cpu.reg.program_counter, 0x0028);
    assert_eq!(b.mmu.get_word(0xFFFC), 0x0151);
}

#[test]
fn extended_ops_on_memory_and_registers() {
    // LD HL, 0xC010; LD (HL), 0x81; RLC (HL); BIT 7, (HL); SET 0, B; SWAP B
    let mut b = board_running(&[0x21, 0x10, 0xC0, 0x36, 0x81, 0xCB, 0x06, 0xCB, 0x7E, 0xCB, 0xC0, 0xCB, 0x30]);
    b.next().unwrap();
    b.next().unwrap();
    let (cycles, _) = b.next().unwrap();
    assert_eq!(cycles, 16);
    assert_eq!(b.mmu.get(0xC010), 0x03);
    assert!(b.cpu.cpu.reg.get_flag(Flags::CarryFlag));
    let (cycles, _) = b.next().unwrap();
    assert_eq!(cycles, 12);
    assert!(b.cpu.cpu.reg.get_flag(Flags::ZeroFlag));
    b.next().unwrap();
    assert_eq!(b.cpu.cpu.reg.b_reg, 0x01);
    b.next().unwrap();
    assert_eq!(b.cpu.cpu.reg.b_reg, 0x10);
}

#[test]
fn rotate_accumulator_clears_zero() {
    // XOR A; RLCA
    let mut b = board_running(&[0xAF, 0x07]);
    b.next().unwrap();
    assert!(b.cpu.cpu.reg.get_flag(Flags::ZeroFlag));
    b.next().unwrap();
    assert_eq!(b.cpu.cpu.reg.a_reg, 0);
    assert!(!b.cpu.cpu.reg.get_flag(Flags::ZeroFlag));
}

#[test]
fn add_sp_and_load_hl_offset() {
    // LD SP, 0xFFF8; ADD SP, -8; LD HL, SP+0x10
    let mut b = board_running(&[0x31, 0xF8, 0xFF, 0xE8, 0xF8, 0xF8, 0x10]);
    b.next().unwrap();
    b.next().unwrap();
    assert_eq!(b.cpu.cpu.reg.stack_pointer, 0xFFF0);
    assert!(b.cpu.cpu.reg.get_flag(Flags::CarryFlag));
    b.next().unwrap();
    assert_eq!(b.cpu.cpu.reg.parse_hl(), 0x0000);
}

#[test]
fn mbc5_nine_bit_bank_and_mbc2_nibble_ram() {
    let mut c = cartridge::power_up(image(0x19, 0x08, 0x00, 0x140), None, None, 1_000_000).unwrap();
    c.set(0x2000, 0x05);
    c.set(0x3000, 0x01);
    assert_eq!(c.get(0x4000), 0x05);
    c.set(0x3000, 0x00);
    c.set(0x2000, 0x3F);
    assert_eq!(c.get(0x4000), 0x3F);
    let mut m2 = cartridge::power_up(image(0x06, 0x01, 0x00, 4), None, None, 1_000_000).unwrap();
    m2.set(0x0000, 0x0A);
    m2.set(0xA010, 0xF7);
    assert_eq!(m2.get(0xA010), 0x07);
    m2.set(0x2100, 0x02);
    assert_eq!(m2.get(0x4000), 0x02);
    assert_eq!(m2.sav().map(|r| r.len()), Some(512));
}
