//! Cartridge images: the header checks and the bank controllers that map a
//! large ROM and RAM into the 16-bit address space.
use vstd::prelude::*;
use crate::bits::{filled, lemma_masks};

verus! {

/// Why an image cannot be loaded.
#[derive(Clone, Copy, PartialEq, Eq, Structural, Debug)]
pub enum LoadError {
    /// The image is shorter than its header.
    TooShort,
    /// The ROM-size code is not one of the known codes.
    UnsupportedRomSize(u8),
    /// The image is longer than its ROM-size code allows.
    TooLarge,
    /// The cartridge-type byte names no supported bank controller.
    UnsupportedType(u8),
    /// The RAM-size code is not one of the known codes.
    UnsupportedRamSize(u8),
    /// The boot logo differs from the fixed one.
    BadLogo,
    /// The header checksum does not match.
    BadChecksum,
}

pub open spec fn rom_size_of(byte: u8) -> Option<nat> {
    let bank: nat = 16384;
    if byte <= 8 {
        Some(bank * pow2(byte as nat + 1))
    } else if byte == 0x52 {
        Some(bank * 72)
    } else if byte == 0x53 {
        Some(bank * 80)
    } else if byte == 0x54 {
        Some(bank * 96)
    } else {
        None
    }
}

pub open spec fn pow2(n: nat) -> nat
    decreases n,
{
    if n == 0 { 1 } else { 2 * pow2((n - 1) as nat) }
}

pub open spec fn ram_size_of(byte: u8) -> Option<nat> {
    if byte == 0 {
        Some(0)
    } else if byte == 1 {
        Some(2048)
    } else if byte == 2 {
        Some(8192)
    } else if byte == 3 {
        Some(32768)
    } else if byte == 4 {
        Some(131072)
    } else if byte == 5 {
        Some(65536)
    } else {
        None
    }
}

/// The largest image that a ROM-size code allows, if the code is known.
pub fn rom_size(byte: u8) -> (r: Option<usize>)
    ensures
        r matches Some(n) ==> rom_size_of(byte) == Some(n as nat),
        r is None ==> rom_size_of(byte) is None,
{
    reveal_with_fuel(pow2, 10);
    let bank: usize = 16384;
    match byte {
        0x00 => Some(bank * 2),
        0x01 => Some(bank * 4),
        0x02 => Some(bank * 8),
        0x03 => Some(bank * 16),
        0x04 => Some(bank * 32),
        0x05 => Some(bank * 64),
        0x06 => Some(bank * 128),
        0x07 => Some(bank * 256),
        0x08 => Some(bank * 512),
        0x52 => Some(bank * 72),
        0x53 => Some(bank * 80),
        0x54 => Some(bank * 96),
        _ => None,
    }
}

/// The size of the cartridge RAM that a RAM-size code declares, if the code
/// is known.
pub fn ram_size(byte: u8) -> (r: Option<usize>)
    ensures
        r matches Some(n) ==> ram_size_of(byte) == Some(n as nat),
        r is None ==> ram_size_of(byte) is None,
{
    match byte {
        0x00 => Some(0),
        0x01 => Some(1024 * 2),
        0x02 => Some(1024 * 8),
        0x03 => Some(1024 * 32),
        0x04 => Some(1024 * 128),
        0x05 => Some(1024 * 64),
        _ => None,
    }
}

pub open spec fn cart_type_name(byte: u8) -> &'static str {
    if byte == 0x00 { "ROM ONLY" }
    else if byte == 0x01 { "MBC1" }
    else if byte == 0x02 { "MBC1+RAM" }
    else if byte == 0x03 { "MBC1+RAM+BATTERY" }
    else if byte == 0x05 { "MBC2" }
    else if byte == 0x06 { "MBC2+BATTERY" }
    else if byte == 0x08 { "ROM+RAM" }
    else if byte == 0x09 { "ROM+RAM+BATTERY" }
    else if byte == 0x0B { "MMM01" }
    else if byte == 0x0C { "MMM01+RAM" }
    else if byte == 0x0D { "MMM01+RAM+BATTERY" }
    else if byte == 0x0F { "MBC3+TIMER+BATTERY" }
    else if byte == 0x10 { "MBC3+TIMER+RAM+BATTERY" }
    else if byte == 0x11 { "MBC3" }
    else if byte == 0x12 { "MBC3+RAM" }
    else if byte == 0x13 { "MBC3+RAM+BATTERY" }
    else if byte == 0x19 { "MBC5" }
    else if byte == 0x1A { "MBC5+RAM" }
    else if byte == 0x1B { "MBC5+RAM+BATTERY" }
    else if byte == 0x1C { "MBC5+RUMBLE" }
    else if byte == 0x1D { "MBC5+RUMBLE+RAM" }
    else if byte == 0x1E { "MBC5+RUMBLE+RAM+BATTERY" }
    else if byte == 0x20 { "MBC6" }
    else if byte == 0x22 { "MBC7+SENSOR+RUMBLE+RAM+BATTERY" }
    else if byte == 0xFC { "POCKET CAMERA" }
    else if byte == 0xFD { "BANDAI TAMA5" }
    else if byte == 0xFE { "HuC3" }
    else if byte == 0xFF { "HuC1+RAM+BATTERY" }
    else { "UNKNOWN" }
}

/// The name of a cartridge-type byte.
pub fn cart_type(byte: u8) -> (r: &'static str)
    ensures
        r == cart_type_name(byte),
{
    match byte {
        0x00 => "ROM ONLY",
        0x01 => "MBC1",
        0x02 => "MBC1+RAM",
        0x03 => "MBC1+RAM+BATTERY",
        0x05 => "MBC2",
        0x06 => "MBC2+BATTERY",
        0x08 => "ROM+RAM",
        0x09 => "ROM+RAM+BATTERY",
        0x0B => "MMM01",
        0x0C => "MMM01+RAM",
        0x0D => "MMM01+RAM+BATTERY",
        0x0F => "MBC3+TIMER+BATTERY",
        0x10 => "MBC3+TIMER+RAM+BATTERY",
        0x11 => "MBC3",
        0x12 => "MBC3+RAM",
        0x13 => "MBC3+RAM+BATTERY",
        0x19 => "MBC5",
        0x1A => "MBC5+RAM",
        0x1B => "MBC5+RAM+BATTERY",
        0x1C => "MBC5+RUMBLE",
        0x1D => "MBC5+RUMBLE+RAM",
        0x1E => "MBC5+RUMBLE+RAM+BATTERY",
        0x20 => "MBC6",
        0x22 => "MBC7+SENSOR+RUMBLE+RAM+BATTERY",
        0xFC => "POCKET CAMERA",
        0xFD => "BANDAI TAMA5",
        0xFE => "HuC3",
        0xFF => "HuC1+RAM+BATTERY",
        _ => "UNKNOWN",
    }
}

/// The boot logo that every image carries at 0x0104.
pub open spec fn logo() -> Seq<u8> {
    seq![
        0xCEu8, 0xED, 0x66, 0x66, 0xCC, 0x0D, 0x00, 0x0B, 0x03, 0x73, 0x00, 0x83, 0x00, 0x0C, 0x00, 0x0D,
        0x00, 0x08, 0x11, 0x1F, 0x88, 0x89, 0x00, 0x0E, 0xDC, 0xCC, 0x6E, 0xE6, 0xDD, 0xDD, 0xD9, 0x99,
        0xBB, 0xBB, 0x67, 0x63, 0x6E, 0x0E, 0xEC, 0xCC, 0xDD, 0xDC, 0x99, 0x9F, 0xBB, 0xB9, 0x33, 0x3E,
    ]
}

pub open spec fn logo_ok(rom: Seq<u8>) -> bool {
    forall|i: int| 0 <= i < 48 ==> rom[0x0104 + i] == logo()[i]
}

/// Whether the image carries the boot logo.
pub fn ensure_logo(rom: &Vec<u8>) -> (r: bool)
    requires
        rom@.len() >= 0x0150,
    ensures
        r == logo_ok(rom@),
{
    let expected: [u8; 48] = [
        0xCE, 0xED, 0x66, 0x66, 0xCC, 0x0D, 0x00, 0x0B, 0x03, 0x73, 0x00, 0x83, 0x00, 0x0C, 0x00, 0x0D,
        0x00, 0x08, 0x11, 0x1F, 0x88, 0x89, 0x00, 0x0E, 0xDC, 0xCC, 0x6E, 0xE6, 0xDD, 0xDD, 0xD9, 0x99,
        0xBB, 0xBB, 0x67, 0x63, 0x6E, 0x0E, 0xEC, 0xCC, 0xDD, 0xDC, 0x99, 0x9F, 0xBB, 0xB9, 0x33, 0x3E,
    ];
    assert(expected@ =~= logo());
    let mut i: usize = 0;
    while i < 48
        invariant
            i <= 48,
            rom@.len() >= 0x0150,
            expected@ == logo(),
            forall|j: int| 0 <= j < i ==> rom@[0x0104 + j] == logo()[j],
        decreases 48 - i,
    {
        if rom[0x0104 + i] != expected[i] {
            return false;
        }
        i = i + 1;
    }
    true
}

/// The header checksum over the bytes from 0x0134 up to, not including,
/// `end`: each byte is subtracted, and one more.
pub open spec fn header_sum(rom: Seq<u8>, end: int) -> u8
    decreases end - 0x0134,
{
    if end <= 0x0134 {
        0
    } else {
        let v = header_sum(rom, end - 1);
        ((v - rom[end - 1] - 1 + 512) % 256) as u8
    }
}

pub open spec fn checksum_ok(rom: Seq<u8>) -> bool {
    rom[0x014D] == header_sum(rom, 0x014D)
}

/// Whether the header checksum at 0x014D matches the header.
pub fn ensure_header_checksum(rom: &Vec<u8>) -> (r: bool)
    requires
        rom@.len() >= 0x0150,
    ensures
        r == checksum_ok(rom@),
{
    let mut v: u8 = 0;
    let mut i: usize = 0x0134;
    while i < 0x014D
        invariant
            0x0134 <= i <= 0x014D,
            rom@.len() >= 0x0150,
            v == header_sum(rom@, i as int),
        decreases 0x014D - i,
    {
        v = v.wrapping_sub(rom[i]).wrapping_sub(1);
        i = i + 1;
    }
    rom[0x014D] == v
}

/// The bytes of the title, up to the first zero byte; a color cartridge
/// (0x80 at 0x0143) has a shorter title field.
pub open spec fn title_end(rom: Seq<u8>) -> int {
    if rom[0x0143] == 0x80 { 0x013E } else { 0x0143 }
}

pub fn title(rom: &Vec<u8>) -> (r: Vec<u8>)
    requires
        rom@.len() >= 0x0150,
    ensures
        0x0134 + r@.len() <= title_end(rom@),
        r@ == rom@.subrange(0x0134, 0x0134 + r@.len() as int),
        forall|i: int| 0 <= i < r@.len() ==> r@[i] != 0,
        0x0134 + r@.len() < title_end(rom@) ==> rom@[0x0134 + r@.len() as int] == 0,
{
    let end: usize = if rom[0x0143] == 0x80 { 0x013E } else { 0x0143 };
    let mut buf: Vec<u8> = Vec::new();
    let mut i: usize = 0x0134;
    while i < end
        invariant
            0x0134 <= i <= end,
            end == title_end(rom@),
            rom@.len() >= 0x0150,
            buf@ == rom@.subrange(0x0134, i as int),
            forall|j: int| 0 <= j < buf@.len() ==> buf@[j] != 0,
        decreases end - i,
    {
        let v = rom[i];
        if v == 0 {
            return buf;
        }
        buf.push(v);
        i = i + 1;
        assert(buf@ =~= rom@.subrange(0x0134, i as int));
    }
    buf
}


/// A byte of an image, or 0xFF past its end.
pub open spec fn rom_at(rom: Seq<u8>, i: int) -> u8 {
    if 0 <= i < rom.len() {
        rom[i]
    } else {
        0xFF
    }
}

/// The number of 16 KiB banks that an image holds (at least one).
pub open spec fn bank_count(len: nat) -> nat {
    if len / 0x4000 == 0 {
        1
    } else {
        len / 0x4000
    }
}

/// The byte of the switchable ROM window at `a`, with `bank` taken modulo
/// the banks that the image has.
pub open spec fn banked_rom(rom: Seq<u8>, bank: nat, a: u16) -> u8 {
    rom_at(rom, (bank % bank_count(rom.len())) * 0x4000 + (a - 0x4000))
}

pub open spec fn ram_index(bank: nat, a: u16) -> int {
    bank * 0x2000 + (a - 0xA000)
}

/// RAM after writing `v` at index `i`; a write past the end is dropped.
pub open spec fn ram_written(ram: Seq<u8>, i: int, v: u8) -> Seq<u8> {
    if 0 <= i < ram.len() {
        ram.update(i, v)
    } else {
        ram
    }
}

fn read_at(mem: &Vec<u8>, i: usize) -> (r: u8)
    ensures
        r == rom_at(mem@, i as int),
{
    if i < mem.len() {
        mem[i]
    } else {
        0xFF
    }
}

fn write_at(mem: &mut Vec<u8>, i: usize, v: u8)
    ensures
        final(mem)@ == ram_written(old(mem)@, i as int, v),
{
    if i < mem.len() {
        mem.set(i, v);
    }
}

fn read_banked(rom: &Vec<u8>, bank: usize, a: u16) -> (r: u8)
    requires
        0x4000 <= a <= 0x7FFF,
    ensures
        r == banked_rom(rom@, bank as nat, a),
{
    let n = rom.len() / 0x4000;
    let nb = if n == 0 { 1 } else { n };
    let k = bank % nb;
    assert(k * 0x4000 <= (nb - 1) * 0x4000) by (nonlinear_arith)
        requires k < nb;
    assert((nb - 1) * 0x4000 + 0x4000 <= if rom.len() < 0x4000 { 0x4000 } else { rom.len() as int }) by (nonlinear_arith)
        requires nb == if rom.len() / 0x4000 == 0 { 1 } else { rom.len() / 0x4000 };
    read_at(rom, k * 0x4000 + (a as usize - 0x4000))
}

/// The real-time clock of the timer-bearing controller: the time since a
/// base instant, split into registers.
pub struct RTC {
    pub second: u8,
    pub minute: u8,
    pub hour: u8,
    /// The low eight bits of the day counter.
    pub dl: u8,
    /// Bit 0: day counter bit 8; bit 7: day counter overflow.
    pub dh: u8,
    /// The base instant, in seconds since the Unix epoch.
    pub zero: u64,
}

impl RTC {
    /// The registers after `tic` at the instant `now`.
    pub open spec fn ticked(self, now: u64) -> RTC {
        let d: int = if now >= self.zero { now - self.zero } else { 0 };
        let days = d / 86400;
        RTC {
            second: (d % 60) as u8,
            minute: (d / 60 % 60) as u8,
            hour: (d / 3600 % 24) as u8,
            dl: (days % 256) as u8,
            dh: if days < 0x100 {
                self.dh
            } else if days < 0x200 {
                self.dh | 0x01
            } else {
                self.dh | 0x81
            },
            zero: self.zero,
        }
    }

    pub open spec fn read(&self, a: u16) -> u8 {
        if a == 0x08 {
            self.second
        } else if a == 0x09 {
            self.minute
        } else if a == 0x0A {
            self.hour
        } else if a == 0x0B {
            self.dl
        } else if a == 0x0C {
            self.dh
        } else {
            0x00
        }
    }

    pub open spec fn written(self, a: u16, v: u8) -> RTC {
        if a == 0x08 {
            RTC { second: v, ..self }
        } else if a == 0x09 {
            RTC { minute: v, ..self }
        } else if a == 0x0A {
            RTC { hour: v, ..self }
        } else if a == 0x0B {
            RTC { dl: v, ..self }
        } else if a == 0x0C {
            RTC { dh: v, ..self }
        } else {
            self
        }
    }

    pub fn power_up(zero: u64) -> (r: Self)
        ensures
            r == (RTC { second: 0, minute: 0, hour: 0, dl: 0, dh: 0, zero }),
    {
        Self { zero, second: 0, minute: 0, hour: 0, dl: 0, dh: 0 }
    }

    /// Latches the time elapsed from the base instant to `now`.
    pub fn tic(&mut self, now: u64)
        ensures
            *final(self) == old(self).ticked(now),
    {
        let d = now.saturating_sub(self.zero);
        self.second = (d % 60) as u8;
        self.minute = (d / 60 % 60) as u8;
        self.hour = (d / 3600 % 24) as u8;
        let days = d / 86400;
        self.dl = (days % 256) as u8;
        if days < 0x100 {
        } else if days < 0x200 {
            self.dh = self.dh | 0x01;
        } else {
            self.dh = self.dh | 0x81;
        }
    }

    /// Reads a clock register; the registers are numbered 0x08 to 0x0C.
    pub fn get(&self, a: u16) -> (r: u8)
        ensures
            r == self.read(a),
    {
        match a {
            0x08 => self.second,
            0x09 => self.minute,
            0x0A => self.hour,
            0x0B => self.dl,
            0x0C => self.dh,
            _ => 0x00,
        }
    }

    pub fn set(&mut self, a: u16, v: u8)
        ensures
            *final(self) == old(self).written(a, v),
    {
        match a {
            0x08 => self.second = v,
            0x09 => self.minute = v,
            0x0A => self.hour = v,
            0x0B => self.dl = v,
            0x0C => self.dh = v,
            _ => {},
        }
    }
}

/// An image without a bank controller: 32 KiB of ROM and nothing else.
pub struct RomOnly {
    pub rom: Vec<u8>,
}

impl RomOnly {
    pub open spec fn read(&self, a: u16) -> u8 {
        if a <= 0x7FFF {
            rom_at(self.rom@, a as int)
        } else {
            0x00
        }
    }

    pub fn power_up(rom: Vec<u8>) -> (r: Self)
        ensures
            r.rom@ == rom@,
    {
        RomOnly { rom }
    }

    pub fn get(&self, a: u16) -> (r: u8)
        ensures
            r == self.read(a),
    {
        if a <= 0x7FFF {
            read_at(&self.rom, a as usize)
        } else {
            0x00
        }
    }

    /// Writes are ignored: there is nothing to select.
    pub fn set(&mut self, a: u16, v: u8)
        ensures
            final(self).rom@ == old(self).rom@,
    {
    }
}

/// Whether the upper two bank bits of the first controller family select
/// the ROM bank or the RAM bank.
#[derive(Clone, Copy, PartialEq, Eq, Structural, Debug)]
pub enum BankMode {
    Rom,
    Ram,
}

/// The first controller family: a 7-bit ROM bank, of which the upper two
/// bits select the RAM bank instead in RAM mode.
pub struct Mbc1 {
    pub rom: Vec<u8>,
    pub ram: Vec<u8>,
    pub bank_mode: BankMode,
    pub bank: u8,
    pub ram_enabled: bool,
}

impl Mbc1 {
    pub open spec fn spec_rom_bank(&self) -> nat {
        match self.bank_mode {
            BankMode::Rom => (self.bank & 0x7F) as nat,
            BankMode::Ram => (self.bank & 0x1F) as nat,
        }
    }

    pub open spec fn spec_ram_bank(&self) -> nat {
        match self.bank_mode {
            BankMode::Rom => 0,
            BankMode::Ram => ((self.bank & 0x60) >> 5u8) as nat,
        }
    }

    pub open spec fn read(&self, a: u16) -> u8 {
        if a <= 0x3FFF {
            rom_at(self.rom@, a as int)
        } else if a <= 0x7FFF {
            banked_rom(self.rom@, self.spec_rom_bank(), a)
        } else if 0xA000 <= a <= 0xBFFF {
            if self.ram_enabled {
                rom_at(self.ram@, ram_index(self.spec_ram_bank(), a))
            } else {
                0x00
            }
        } else {
            0x00
        }
    }

    /// Whether the write is the one that lands in RAM.
    pub open spec fn writes_ram(&self, a: u16) -> bool {
        0xA000 <= a <= 0xBFFF && self.ram_enabled
    }

    /// The controller state after writing `v` at `a`; the RAM bytes are in
    /// `ram_after`.
    pub open spec fn written_regs(&self, a: u16, v: u8) -> (BankMode, u8, bool) {
        if a <= 0x1FFF {
            (self.bank_mode, self.bank, v & 0x0F == 0x0A)
        } else if a <= 0x3FFF {
            let n = if v & 0x1F == 0 { 1u8 } else { v & 0x1F };
            (self.bank_mode, (self.bank & 0x60) | n, self.ram_enabled)
        } else if a <= 0x5FFF {
            (self.bank_mode, (self.bank & 0x9F) | ((v & 0x03) << 5u8), self.ram_enabled)
        } else if a <= 0x7FFF {
            (if v & 0x01 == 0 { BankMode::Rom } else { BankMode::Ram }, self.bank, self.ram_enabled)
        } else {
            (self.bank_mode, self.bank, self.ram_enabled)
        }
    }

    pub open spec fn ram_after(&self, a: u16, v: u8) -> Seq<u8> {
        if self.writes_ram(a) {
            ram_written(self.ram@, ram_index(self.spec_ram_bank(), a), v)
        } else {
            self.ram@
        }
    }

    pub open spec fn set_post(&self, old: &Mbc1, a: u16, v: u8) -> bool {
        let (mode, bank, en) = old.written_regs(a, v);
        &&& self.rom@ == old.rom@
        &&& self.ram@ == old.ram_after(a, v)
        &&& self.bank_mode == mode
        &&& self.bank == bank
        &&& self.ram_enabled == en
    }

    pub fn power_up(rom: Vec<u8>, ram: Vec<u8>) -> (r: Self)
        ensures
            r.rom@ == rom@,
            r.ram@ == ram@,
            r.bank_mode == BankMode::Rom,
            r.bank == 1,
            !r.ram_enabled,
    {
        Mbc1 { rom, ram, bank_mode: BankMode::Rom, bank: 0x01, ram_enabled: false }
    }

    /// The ROM bank of the switchable window.
    pub fn rom_bank(&self) -> (r: usize)
        ensures
            r == self.spec_rom_bank(),
    {
        let n = match self.bank_mode {
            BankMode::Rom => self.bank & 0x7F,
            BankMode::Ram => self.bank & 0x1F,
        };
        n as usize
    }

    /// The RAM bank of the 0xA000 window.
    pub fn ram_bank(&self) -> (r: usize)
        ensures
            r == self.spec_ram_bank(),
            r < 4,
    {
        let n = match self.bank_mode {
            BankMode::Rom => 0x00,
            BankMode::Ram => (self.bank & 0x60) >> 5,
        };
        let ghost b = self.bank;
        assert((b & 0x60) >> 5u8 < 4) by (bit_vector);
        n as usize
    }

    pub fn get(&self, a: u16) -> (r: u8)
        ensures
            r == self.read(a),
    {
        if a <= 0x3FFF {
            read_at(&self.rom, a as usize)
        } else if a <= 0x7FFF {
            read_banked(&self.rom, self.rom_bank(), a)
        } else if 0xA000 <= a && a <= 0xBFFF {
            if self.ram_enabled {
                read_at(&self.ram, self.ram_bank() * 0x2000 + (a as usize - 0xA000))
            } else {
                0x00
            }
        } else {
            0x00
        }
    }

    pub fn set(&mut self, a: u16, v: u8)
        ensures
            final(self).set_post(old(self), a, v),
    {
        if 0xA000 <= a && a <= 0xBFFF {
            if self.ram_enabled {
                let i = self.ram_bank() * 0x2000 + (a as usize - 0xA000);
                write_at(&mut self.ram, i, v);
            }
        } else if a <= 0x1FFF {
            self.ram_enabled = v & 0x0F == 0x0A;
        } else if a <= 0x3FFF {
            let n = if v & 0x1F == 0 { 0x01 } else { v & 0x1F };
            self.bank = (self.bank & 0x60) | n;
        } else if a <= 0x5FFF {
            self.bank = (self.bank & 0x9F) | ((v & 0x03) << 5);
        } else if a <= 0x7FFF {
            self.bank_mode = if v & 0x01 == 0 { BankMode::Rom } else { BankMode::Ram };
        }
    }
}


/// The second controller family: up to 16 ROM banks and 512 half-byte RAM
/// cells built in; bit 8 of the address tells the two registers apart.
pub struct Mbc2 {
    pub rom: Vec<u8>,
    pub ram: Vec<u8>,
    pub rom_bank: usize,
    pub ram_enable: bool,
}

impl Mbc2 {
    pub open spec fn read(&self, a: u16) -> u8 {
        if a <= 0x3FFF {
            rom_at(self.rom@, a as int)
        } else if a <= 0x7FFF {
            banked_rom(self.rom@, self.rom_bank as nat, a)
        } else if 0xA000 <= a <= 0xA1FF {
            if self.ram_enable {
                rom_at(self.ram@, a - 0xA000)
            } else {
                0x00
            }
        } else {
            0x00
        }
    }

    pub open spec fn set_post(&self, old: &Mbc2, a: u16, v: u8) -> bool {
        let v = v & 0x0F;
        &&& self.rom@ == old.rom@
        &&& self.ram@ == if 0xA000 <= a <= 0xA1FF && old.ram_enable {
            ram_written(old.ram@, a - 0xA000, v)
        } else {
            old.ram@
        }
        &&& self.ram_enable == if a <= 0x1FFF && a & 0x0100 == 0 {
            v == 0x0A
        } else {
            old.ram_enable
        }
        &&& self.rom_bank == if 0x2000 <= a <= 0x3FFF && a & 0x0100 != 0 {
            if v == 0 { 1 } else { v as usize }
        } else {
            old.rom_bank
        }
    }

    pub fn power_up(rom: Vec<u8>, ram: Vec<u8>) -> (r: Self)
        ensures
            r.rom@ == rom@,
            r.ram@ == ram@,
            r.rom_bank == 1,
            !r.ram_enable,
    {
        Self { rom, ram, rom_bank: 1, ram_enable: false }
    }

    pub fn get(&self, a: u16) -> (r: u8)
        ensures
            r == self.read(a),
    {
        if a <= 0x3FFF {
            read_at(&self.rom, a as usize)
        } else if a <= 0x7FFF {
            read_banked(&self.rom, self.rom_bank, a)
        } else if 0xA000 <= a && a <= 0xA1FF {
            if self.ram_enable {
                read_at(&self.ram, (a - 0xA000) as usize)
            } else {
                0x00
            }
        } else {
            0x00
        }
    }

    pub fn set(&mut self, a: u16, v: u8)
        ensures
            final(self).set_post(old(self), a, v),
    {
        let v = v & 0x0F;
        if 0xA000 <= a && a <= 0xA1FF {
            if self.ram_enable {
                write_at(&mut self.ram, (a - 0xA000) as usize, v);
            }
        } else if a <= 0x1FFF {
            if a & 0x0100 == 0 {
                self.ram_enable = v == 0x0A;
            }
        } else if a <= 0x3FFF {
            if a & 0x0100 != 0 {
                self.rom_bank = if v == 0 { 1 } else { v as usize };
            }
        }
    }
}

/// The third controller family: a 7-bit ROM bank, four RAM banks, and the
/// clock registers in place of RAM for RAM-bank values from 4 up.
pub struct Mbc3 {
    pub rom: Vec<u8>,
    pub ram: Vec<u8>,
    pub rtc: RTC,
    /// The wall-clock time in seconds since the Unix epoch, as last
    /// supplied by the driver; a latch reads the clock at this instant.
    pub clock: u64,
    pub rom_bank: usize,
    pub ram_bank: usize,
    pub ram_enable: bool,
}

impl Mbc3 {
    pub open spec fn wf(&self) -> bool {
        self.rom_bank <= 0x7F && self.ram_bank <= 0x0F
    }

    pub open spec fn read(&self, a: u16) -> u8 {
        if a <= 0x3FFF {
            rom_at(self.rom@, a as int)
        } else if a <= 0x7FFF {
            banked_rom(self.rom@, self.rom_bank as nat, a)
        } else if 0xA000 <= a <= 0xBFFF {
            if !self.ram_enable {
                0x00
            } else if self.ram_bank <= 3 {
                rom_at(self.ram@, ram_index(self.ram_bank as nat, a))
            } else {
                self.rtc.read(self.ram_bank as u16)
            }
        } else {
            0x00
        }
    }

    /// Whether a write latches the clock.
    pub open spec fn latches(a: u16, v: u8) -> bool {
        0x6000 <= a <= 0x7FFF && v & 0x01 != 0
    }

    pub open spec fn set_post(&self, old: &Mbc3, a: u16, v: u8) -> bool {
        let to_ram = 0xA000 <= a <= 0xBFFF && old.ram_enable;
        &&& self.wf()
        &&& self.rom@ == old.rom@
        &&& self.ram@ == if to_ram && old.ram_bank <= 3 {
            ram_written(old.ram@, ram_index(old.ram_bank as nat, a), v)
        } else {
            old.ram@
        }
        &&& self.clock == old.clock
        &&& if Mbc3::latches(a, v) {
            self.rtc == old.rtc.ticked(old.clock)
        } else if to_ram && old.ram_bank > 3 {
            self.rtc == old.rtc.written(old.ram_bank as u16, v)
        } else {
            self.rtc == old.rtc
        }
        &&& self.ram_enable == if a <= 0x1FFF {
            v & 0x0F == 0x0A
        } else {
            old.ram_enable
        }
        &&& self.rom_bank == if 0x2000 <= a <= 0x3FFF {
            if v & 0x7F == 0 { 1 } else { (v & 0x7F) as usize }
        } else {
            old.rom_bank
        }
        &&& self.ram_bank == if 0x4000 <= a <= 0x5FFF {
            (v & 0x0F) as usize
        } else {
            old.ram_bank
        }
    }

    pub fn power_up(rom: Vec<u8>, ram: Vec<u8>, zero: u64, now: u64) -> (r: Self)
        ensures
            r.wf(),
            r.rom@ == rom@,
            r.ram@ == ram@,
            r.rtc == RTC::power_up_spec(zero),
            r.clock == now,
            r.rom_bank == 1 && r.ram_bank == 0,
            !r.ram_enable,
    {
        Self { rom, ram, rtc: RTC::power_up(zero), clock: now, rom_bank: 1, ram_bank: 0, ram_enable: false }
    }

    pub fn get(&self, a: u16) -> (r: u8)
        requires
            self.wf(),
        ensures
            r == self.read(a),
    {
        if a <= 0x3FFF {
            read_at(&self.rom, a as usize)
        } else if a <= 0x7FFF {
            read_banked(&self.rom, self.rom_bank, a)
        } else if 0xA000 <= a && a <= 0xBFFF {
            if !self.ram_enable {
                0x00
            } else if self.ram_bank <= 0x03 {
                read_at(&self.ram, self.ram_bank * 0x2000 + (a as usize - 0xA000))
            } else {
                self.rtc.get(self.ram_bank as u16)
            }
        } else {
            0x00
        }
    }

    pub fn set(&mut self, a: u16, v: u8)
        requires
            old(self).wf(),
        ensures
            final(self).set_post(old(self), a, v),
    {
        proof {
            lemma_masks(v);
        }
        if 0xA000 <= a && a <= 0xBFFF {
            if self.ram_enable {
                if self.ram_bank <= 0x03 {
                    let i = self.ram_bank * 0x2000 + (a as usize - 0xA000);
                    write_at(&mut self.ram, i, v);
                } else {
                    self.rtc.set(self.ram_bank as u16, v);
                }
            }
        } else if a <= 0x1FFF {
            self.ram_enable = v & 0x0F == 0x0A;
        } else if a <= 0x3FFF {
            let n = v & 0x7F;
            self.rom_bank = if n == 0 { 1 } else { n as usize };
        } else if a <= 0x5FFF {
            self.ram_bank = (v & 0x0F) as usize;
        } else if a <= 0x7FFF {
            if v & 0x01 != 0 {
                self.rtc.tic(self.clock);
            }
        }
    }
}

impl RTC {
    pub open spec fn power_up_spec(zero: u64) -> RTC {
        RTC { second: 0, minute: 0, hour: 0, dl: 0, dh: 0, zero }
    }
}

/// The fourth controller family: a 9-bit ROM bank written through two
/// windows, and sixteen RAM banks.
pub struct Mbc5 {
    pub rom: Vec<u8>,
    pub ram: Vec<u8>,
    pub rom_bank: usize,
    pub ram_bank: usize,
    pub ram_enable: bool,
}

/// A bank number of zero selects bank one.
pub open spec fn not_zero(n: usize) -> usize {
    if n == 0 { 1 } else { n }
}

impl Mbc5 {
    pub open spec fn wf(&self) -> bool {
        self.rom_bank <= 0x1FF && self.ram_bank <= 0x0F
    }

    pub open spec fn read(&self, a: u16) -> u8 {
        if a <= 0x3FFF {
            rom_at(self.rom@, a as int)
        } else if a <= 0x7FFF {
            banked_rom(self.rom@, self.rom_bank as nat, a)
        } else if 0xA000 <= a <= 0xBFFF {
            if self.ram_enable {
                rom_at(self.ram@, ram_index(self.ram_bank as nat, a))
            } else {
                0x00
            }
        } else {
            0x00
        }
    }

    pub open spec fn set_post(&self, old: &Mbc5, a: u16, v: u8) -> bool {
        &&& self.wf()
        &&& self.rom@ == old.rom@
        &&& self.ram@ == if 0xA000 <= a <= 0xBFFF && old.ram_enable {
            ram_written(old.ram@, ram_index(old.ram_bank as nat, a), v)
        } else {
            old.ram@
        }
        &&& self.ram_enable == if a <= 0x1FFF {
            v & 0x0F == 0x0A
        } else {
            old.ram_enable
        }
        &&& self.rom_bank == if 0x2000 <= a <= 0x2FFF {
            not_zero((old.rom_bank / 256 * 256 + v) as usize)
        } else if 0x3000 <= a <= 0x3FFF {
            not_zero((old.rom_bank % 256 + (v % 2) * 256) as usize)
        } else {
            old.rom_bank
        }
        &&& self.ram_bank == if 0x4000 <= a <= 0x5FFF {
            (v % 16) as usize
        } else {
            old.ram_bank
        }
    }

    pub fn power_up(rom: Vec<u8>, ram: Vec<u8>) -> (r: Self)
        ensures
            r.wf(),
            r.rom@ == rom@,
            r.ram@ == ram@,
            r.rom_bank == 1 && r.ram_bank == 0,
            !r.ram_enable,
    {
        Self { rom, ram, rom_bank: 1, ram_bank: 0, ram_enable: false }
    }

    pub fn get(&self, a: u16) -> (r: u8)
        requires
            self.wf(),
        ensures
            r == self.read(a),
    {
        if a <= 0x3FFF {
            read_at(&self.rom, a as usize)
        } else if a <= 0x7FFF {
            read_banked(&self.rom, self.rom_bank, a)
        } else if 0xA000 <= a && a <= 0xBFFF {
            if self.ram_enable {
                read_at(&self.ram, self.ram_bank * 0x2000 + (a as usize - 0xA000))
            } else {
                0x00
            }
        } else {
            0x00
        }
    }

    pub fn set(&mut self, a: u16, v: u8)
        requires
            old(self).wf(),
        ensures
            final(self).set_post(old(self), a, v),
    {
        if 0xA000 <= a && a <= 0xBFFF {
            if self.ram_enable {
                let i = self.ram_bank * 0x2000 + (a as usize - 0xA000);
                write_at(&mut self.ram, i, v);
            }
        } else if a <= 0x1FFF {
            self.ram_enable = v & 0x0F == 0x0A;
        } else if a <= 0x2FFF {
            let n = self.rom_bank / 256 * 256 + v as usize;
            self.rom_bank = if n == 0 { 1 } else { n };
        } else if a <= 0x3FFF {
            let n = self.rom_bank % 256 + (v as usize % 2) * 256;
            self.rom_bank = if n == 0 { 1 } else { n };
        } else if a <= 0x5FFF {
            self.ram_bank = (v % 16) as usize;
        }
    }
}

/// A controller that behaves as the first family.
pub struct HuC1 {
    pub cart: Mbc1,
}

impl HuC1 {
    pub fn power_up(rom: Vec<u8>, ram: Vec<u8>) -> (r: Self)
        ensures
            r.cart.rom@ == rom@,
            r.cart.ram@ == ram@,
            r.cart.bank_mode == BankMode::Rom,
            r.cart.bank == 1,
            !r.cart.ram_enabled,
    {
        Self { cart: Mbc1::power_up(rom, ram) }
    }

    pub fn get(&self, a: u16) -> (r: u8)
        ensures
            r == self.cart.read(a),
    {
        self.cart.get(a)
    }

    pub fn set(&mut self, a: u16, v: u8)
        ensures
            final(self).cart.set_post(&old(self).cart, a, v),
    {
        self.cart.set(a, v);
    }
}


/// The bank controller of a cartridge, chosen by the cartridge-type byte.
pub enum Mapper {
    RomOnly(RomOnly),
    Mbc1(Mbc1),
    Mbc2(Mbc2),
    Mbc3(Mbc3),
    Mbc5(Mbc5),
    HuC1(HuC1),
}

/// A loaded cartridge: its controller, and whether its RAM and clock are
/// kept on a battery.
pub struct Cartridge {
    pub mapper: Mapper,
    pub battery: bool,
    pub timer: bool,
}

pub open spec fn supported(t: u8) -> bool {
    t == 0x00 || t == 0x01 || t == 0x02 || t == 0x03 || t == 0x05 || t == 0x06 || (0x0F <= t <= 0x13) || (0x19
        <= t <= 0x1B) || t == 0xFF
}

/// The types whose RAM size comes from the RAM-size code.
pub open spec fn reads_ram_code(t: u8) -> bool {
    t == 0x02 || t == 0x03 || t == 0x10 || t == 0x12 || t == 0x13 || t == 0x1A || t == 0x1B || t == 0xFF
}

pub open spec fn has_battery(t: u8) -> bool {
    t == 0x03 || t == 0x06 || t == 0x0F || t == 0x10 || t == 0x13 || t == 0x1B || t == 0xFF
}

pub open spec fn has_timer(t: u8) -> bool {
    t == 0x0F || t == 0x10
}

/// Why an image is refused, checked in this order; `None` when it loads.
pub open spec fn load_error(rom: Seq<u8>) -> Option<LoadError> {
    if rom.len() < 0x0150 {
        Some(LoadError::TooShort)
    } else if rom_size_of(rom[0x0148]) is None {
        Some(LoadError::UnsupportedRomSize(rom[0x0148]))
    } else if rom.len() > rom_size_of(rom[0x0148]).unwrap() {
        Some(LoadError::TooLarge)
    } else if !supported(rom[0x0147]) {
        Some(LoadError::UnsupportedType(rom[0x0147]))
    } else if reads_ram_code(rom[0x0147]) && ram_size_of(rom[0x0149]) is None {
        Some(LoadError::UnsupportedRamSize(rom[0x0149]))
    } else if !logo_ok(rom) {
        Some(LoadError::BadLogo)
    } else if !checksum_ok(rom) {
        Some(LoadError::BadChecksum)
    } else {
        None
    }
}

/// The RAM size of a supported cartridge type.
pub open spec fn ram_len(t: u8, code: u8) -> nat {
    if t == 0x05 || t == 0x06 {
        512
    } else if reads_ram_code(t) {
        ram_size_of(code).unwrap()
    } else {
        0
    }
}

/// The RAM a cartridge starts with: what was saved, for a battery-backed
/// type, else zeros.
pub open spec fn initial_ram(t: u8, code: u8, saved: Option<Seq<u8>>) -> Seq<u8> {
    if has_battery(t) && saved is Some {
        saved.unwrap()
    } else {
        Seq::new(ram_len(t, code), |i: int| 0u8)
    }
}

pub open spec fn bytes_of(o: Option<Vec<u8>>) -> Option<Seq<u8>> {
    match o {
        Some(v) => Some(v@),
        None => None,
    }
}

impl Cartridge {
    pub open spec fn wf(&self) -> bool {
        match self.mapper {
            Mapper::Mbc3(m) => m.wf(),
            Mapper::Mbc5(m) => m.wf(),
            _ => true,
        }
    }

    pub open spec fn rom_view(&self) -> Seq<u8> {
        match self.mapper {
            Mapper::RomOnly(m) => m.rom@,
            Mapper::Mbc1(m) => m.rom@,
            Mapper::Mbc2(m) => m.rom@,
            Mapper::Mbc3(m) => m.rom@,
            Mapper::Mbc5(m) => m.rom@,
            Mapper::HuC1(m) => m.cart.rom@,
        }
    }

    pub open spec fn ram_view(&self) -> Seq<u8> {
        match self.mapper {
            Mapper::RomOnly(m) => Seq::empty(),
            Mapper::Mbc1(m) => m.ram@,
            Mapper::Mbc2(m) => m.ram@,
            Mapper::Mbc3(m) => m.ram@,
            Mapper::Mbc5(m) => m.ram@,
            Mapper::HuC1(m) => m.cart.ram@,
        }
    }

    /// The controller is the one for the cartridge type `t`, in its
    /// power-up state.
    pub open spec fn fresh(&self, t: u8) -> bool {
        match self.mapper {
            Mapper::RomOnly(m) => t == 0x00,
            Mapper::Mbc1(m) => 0x01 <= t <= 0x03 && m.bank_mode == BankMode::Rom && m.bank == 1 && !m.ram_enabled,
            Mapper::Mbc2(m) => (t == 0x05 || t == 0x06) && m.rom_bank == 1 && !m.ram_enable,
            Mapper::Mbc3(m) => 0x0F <= t <= 0x13 && m.rom_bank == 1 && m.ram_bank == 0 && !m.ram_enable,
            Mapper::Mbc5(m) => 0x19 <= t <= 0x1B && m.rom_bank == 1 && m.ram_bank == 0 && !m.ram_enable,
            Mapper::HuC1(m) => t == 0xFF && m.cart.bank_mode == BankMode::Rom && m.cart.bank == 1
                && !m.cart.ram_enabled,
        }
    }

    pub open spec fn read(&self, a: u16) -> u8 {
        match self.mapper {
            Mapper::RomOnly(m) => m.read(a),
            Mapper::Mbc1(m) => m.read(a),
            Mapper::Mbc2(m) => m.read(a),
            Mapper::Mbc3(m) => m.read(a),
            Mapper::Mbc5(m) => m.read(a),
            Mapper::HuC1(m) => m.cart.read(a),
        }
    }

    pub open spec fn set_post(&self, old: &Cartridge, a: u16, v: u8) -> bool {
        &&& self.battery == old.battery
        &&& self.timer == old.timer
        &&& match (self.mapper, old.mapper) {
            (Mapper::RomOnly(n), Mapper::RomOnly(o)) => n.rom@ == o.rom@,
            (Mapper::Mbc1(n), Mapper::Mbc1(o)) => n.set_post(&o, a, v),
            (Mapper::Mbc2(n), Mapper::Mbc2(o)) => n.set_post(&o, a, v),
            (Mapper::Mbc3(n), Mapper::Mbc3(o)) => n.set_post(&o, a, v),
            (Mapper::Mbc5(n), Mapper::Mbc5(o)) => n.set_post(&o, a, v),
            (Mapper::HuC1(n), Mapper::HuC1(o)) => n.cart.set_post(&o.cart, a, v),
            _ => false,
        }
    }

    /// Reads a byte of the cartridge's address ranges.
    pub fn get(&self, a: u16) -> (r: u8)
        requires
            self.wf(),
        ensures
            r == self.read(a),
    {
        match &self.mapper {
            Mapper::RomOnly(m) => m.get(a),
            Mapper::Mbc1(m) => m.get(a),
            Mapper::Mbc2(m) => m.get(a),
            Mapper::Mbc3(m) => m.get(a),
            Mapper::Mbc5(m) => m.get(a),
            Mapper::HuC1(m) => m.get(a),
        }
    }

    /// Writes a byte: a bank-select register or cartridge RAM.
    pub fn set(&mut self, a: u16, v: u8)
        requires
            old(self).wf(),
        ensures
            final(self).wf(),
            final(self).set_post(old(self), a, v),
    {
        match &mut self.mapper {
            Mapper::RomOnly(m) => m.set(a, v),
            Mapper::Mbc1(m) => m.set(a, v),
            Mapper::Mbc2(m) => m.set(a, v),
            Mapper::Mbc3(m) => m.set(a, v),
            Mapper::Mbc5(m) => m.set(a, v),
            Mapper::HuC1(m) => m.set(a, v),
        }
    }

    /// Supplies the wall-clock time, in seconds since the Unix epoch, that
    /// the next clock latch reads.
    pub fn set_clock(&mut self, now: u64)
        requires
            old(self).wf(),
        ensures
            final(self).wf(),
            final(self).battery == old(self).battery && final(self).timer == old(self).timer,
            old(self).mapper matches Mapper::Mbc3(o) ==> (final(self).mapper matches Mapper::Mbc3(m) && m == (Mbc3 {
                clock: now,
                ..o
            })),
            !(old(self).mapper is Mbc3) ==> *final(self) == *old(self),
    {
        match &mut self.mapper {
            Mapper::Mbc3(m) => m.clock = now,
            _ => {},
        }
    }

    /// The RAM to persist: present for a battery-backed cartridge.
    pub fn sav(&self) -> (r: Option<&Vec<u8>>)
        ensures
            r is Some <==> self.battery && !(self.mapper is RomOnly),
            r matches Some(v) ==> v@ == self.ram_view(),
    {
        if !self.battery {
            return None;
        }
        match &self.mapper {
            Mapper::RomOnly(m) => None,
            Mapper::Mbc1(m) => Some(&m.ram),
            Mapper::Mbc2(m) => Some(&m.ram),
            Mapper::Mbc3(m) => Some(&m.ram),
            Mapper::Mbc5(m) => Some(&m.ram),
            Mapper::HuC1(m) => Some(&m.cart.ram),
        }
    }

    /// The clock's base instant to persist: present for a cartridge with a
    /// battery-backed clock.
    pub fn rtc_sav(&self) -> (r: Option<u64>)
        ensures
            r is Some <==> self.timer && self.mapper is Mbc3,
            r matches Some(z) ==> (self.mapper matches Mapper::Mbc3(m) && z == m.rtc.zero),
    {
        if !self.timer {
            return None;
        }
        match &self.mapper {
            Mapper::Mbc3(m) => Some(m.rtc.zero),
            _ => None,
        }
    }
}

/// Validates an image and builds its cartridge. `saved_ram` is the RAM
/// persisted by an earlier run and `rtc_zero` the clock's persisted base
/// instant; `now` is the wall-clock time in seconds since the Unix epoch,
/// from which a clock without a persisted base starts.
pub fn power_up(rom: Vec<u8>, saved_ram: Option<Vec<u8>>, rtc_zero: Option<u64>, now: u64) -> (r: Result<
    Cartridge,
    LoadError,
>)
    ensures
        r is Ok <==> load_error(rom@) is None,
        r matches Err(e) ==> load_error(rom@) == Some(e),
        r matches Ok(c) ==> {
            let t = rom@[0x0147];
            &&& c.wf()
            &&& c.fresh(t)
            &&& c.rom_view() == rom@
            &&& c.ram_view() == initial_ram(t, rom@[0x0149], bytes_of(saved_ram))
            &&& c.battery == has_battery(t)
            &&& c.timer == has_timer(t)
            &&& c.mapper matches Mapper::Mbc3(m) ==> m.clock == now && m.rtc == RTC::power_up_spec(
                if has_timer(t) && rtc_zero is Some { rtc_zero.unwrap() } else { now },
            )
        },
{
    if rom.len() < 0x0150 {
        return Err(LoadError::TooShort);
    }
    let rom_maximum = match rom_size(rom[0x0148]) {
        Some(n) => n,
        None => {
            return Err(LoadError::UnsupportedRomSize(rom[0x0148]));
        },
    };
    if rom.len() > rom_maximum {
        return Err(LoadError::TooLarge);
    }
    let t = rom[0x0147];
    let supported_type = t == 0x00 || t == 0x01 || t == 0x02 || t == 0x03 || t == 0x05 || t == 0x06 || (0x0F <= t
        && t <= 0x13) || (0x19 <= t && t <= 0x1B) || t == 0xFF;
    if !supported_type {
        return Err(LoadError::UnsupportedType(t));
    }
    let ram_code = t == 0x02 || t == 0x03 || t == 0x10 || t == 0x12 || t == 0x13 || t == 0x1A || t == 0x1B || t
        == 0xFF;
    let ram_maximum: usize = if t == 0x05 || t == 0x06 {
        512
    } else if ram_code {
        match ram_size(rom[0x0149]) {
            Some(n) => n,
            None => {
                return Err(LoadError::UnsupportedRamSize(rom[0x0149]));
            },
        }
    } else {
        0
    };
    if !ensure_logo(&rom) {
        return Err(LoadError::BadLogo);
    }
    if !ensure_header_checksum(&rom) {
        return Err(LoadError::BadChecksum);
    }
    let battery = t == 0x03 || t == 0x06 || t == 0x0F || t == 0x10 || t == 0x13 || t == 0x1B || t == 0xFF;
    let timer = t == 0x0F || t == 0x10;
    let ghost saved_view = bytes_of(saved_ram);
    let ram = match saved_ram {
        Some(s) if battery => s,
        _ => filled(ram_maximum, 0),
    };
    assert(ram@ == initial_ram(t, rom@[0x0149], saved_view));
    let mapper = if t == 0x00 {
        Mapper::RomOnly(RomOnly::power_up(rom))
    } else if t <= 0x03 {
        Mapper::Mbc1(Mbc1::power_up(rom, ram))
    } else if t <= 0x06 {
        Mapper::Mbc2(Mbc2::power_up(rom, ram))
    } else if t <= 0x13 {
        let zero = match rtc_zero {
            Some(z) if timer => z,
            _ => now,
        };
        Mapper::Mbc3(Mbc3::power_up(rom, ram, zero, now))
    } else if t <= 0x1B {
        Mapper::Mbc5(Mbc5::power_up(rom, ram))
    } else {
        Mapper::HuC1(HuC1::power_up(rom, ram))
    };
    Ok(Cartridge { mapper, battery, timer })
}


impl Cartridge {
    /// The ROM bank that the switchable window selects, before it is taken
    /// modulo the banks of the image; zero for an image without banking.
    pub open spec fn rom_bank_sel(&self) -> nat {
        match self.mapper {
            Mapper::RomOnly(m) => 0,
            Mapper::Mbc1(m) => m.spec_rom_bank(),
            Mapper::Mbc2(m) => m.rom_bank as nat,
            Mapper::Mbc3(m) => m.rom_bank as nat,
            Mapper::Mbc5(m) => m.rom_bank as nat,
            Mapper::HuC1(m) => m.cart.spec_rom_bank(),
        }
    }
}

/// On every banked controller, writing 0 to the ROM-bank register (0x2100
/// lies in it for all of them) never selects bank 0; with no upper bank
/// bits set it selects bank 1.
pub proof fn lemma_bank_zero_selects_one(c: Cartridge, n: Cartridge)
    requires
        n.set_post(&c, 0x2100, 0),
        !(c.mapper is RomOnly),
    ensures
        n.rom_bank_sel() != 0,
        c.rom_bank_sel() < 0x20 ==> n.rom_bank_sel() == 1,
{
    let b = match c.mapper {
        Mapper::Mbc1(m) => m.bank,
        Mapper::HuC1(m) => m.cart.bank,
        _ => 0u8,
    };
    assert(((b & 0x60) | 1) & 0x7F != 0 && ((b & 0x60) | 1) & 0x1F == 1 && (b & 0x7F < 0x20 ==> ((b & 0x60)
        | 1) & 0x7F == 1)) by (bit_vector);
    assert(0u8 & 0x1F == 0 && 0u8 & 0x7F == 0 && 0u8 & 0x0F == 0 && 0x2100u16 & 0x0100 != 0) by (bit_vector);
    match (n.mapper, c.mapper) {
        (Mapper::Mbc1(x), Mapper::Mbc1(o)) => {
            assert(x.bank == (o.bank & 0x60) | 1);
        },
        (Mapper::HuC1(x), Mapper::HuC1(o)) => {
            assert(x.cart.bank == (o.cart.bank & 0x60) | 1);
        },
        _ => {},
    }
}

} // verus!
