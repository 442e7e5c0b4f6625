//! The address bus: decodes every 16-bit address to the cartridge, video,
//! working RAM, an I/O register owner, high RAM or the interrupt-enable
//! register, and runs the DMA transfers.
use vstd::prelude::*;
use crate::bits::{filled, word, lemma_word, lemma_masks};
use crate::cartridge::Cartridge;
use crate::gpu::{Gpu, Hdma, HdmaMode};
use crate::intf::Intf;
use crate::joypad::Joypad;
use crate::linkcable::Serial;
use crate::registers::Term;
use crate::timer::Timer;

verus! {

/// The sound synthesizer as the bus sees it: the registers 0xFF10 to
/// 0xFF3F, and a step by elapsed cycles.
pub trait Sound {
    fn get(&self, a: u16) -> u8;

    fn set(&mut self, a: u16, v: u8);

    fn next(&mut self, cycles: u32);
}

#[derive(Clone, Copy, PartialEq, Eq, Structural, Debug)]
pub enum Speed {
    Normal,
    Double,
}

impl Speed {
    /// CPU cycles per peripheral cycle.
    pub open spec fn spec_divider(self) -> u32 {
        match self {
            Speed::Normal => 1,
            Speed::Double => 2,
        }
    }

    pub fn divider(self) -> (r: u32)
        ensures
            r == self.spec_divider(),
    {
        match self {
            Speed::Normal => 1,
            Speed::Double => 2,
        }
    }
}

/// Where an address of the working-RAM window or its echo lands in the
/// eight 4 KiB banks.
pub open spec fn wram_index(a: u16, bank: usize) -> int {
    if a <= 0xCFFF {
        a - 0xC000
    } else if a <= 0xDFFF {
        a - 0xD000 + 0x1000 * bank
    } else if a <= 0xEFFF {
        a - 0xE000
    } else {
        a - 0xF000 + 0x1000 * bank
    }
}

pub open spec fn is_wram(a: u16) -> bool {
    0xC000 <= a <= 0xFDFF
}

pub open spec fn is_hram(a: u16) -> bool {
    0xFF80 <= a <= 0xFFFE
}

pub open spec fn is_cart(a: u16) -> bool {
    a <= 0x7FFF || (0xA000 <= a <= 0xBFFF)
}

pub open spec fn is_video(a: u16) -> bool {
    (0x8000 <= a <= 0x9FFF) || (0xFE00 <= a <= 0xFE9F) || (0xFF40 <= a <= 0xFF45) || (0xFF47 <= a
        <= 0xFF4B) || a == 0xFF4F || (0xFF68 <= a <= 0xFF6B)
}

/// Where block `b` of a transfer from `s` starts.
pub open spec fn block_src(s: u16, b: int) -> u16 {
    ((s + 16 * b) % 65536) as u16
}

/// The offset in the video-RAM bank where block `b` of a transfer to `d`
/// lands.
pub open spec fn block_dst(d: u16, b: int) -> int {
    (d - 0x8000 + 16 * b) % 0x2000
}

/// A transfer source block, 16-byte aligned, that lies outside video RAM
/// and the I/O registers: cartridge, working RAM or its echo.
pub open spec fn dma_source_ok(s: u16) -> bool {
    s < 0x8000 || (0xA000 <= s && s < 0xFE00)
}

pub open spec fn is_sound(a: u16) -> bool {
    0xFF10 <= a <= 0xFF3F
}

pub struct Mmunit<A: Sound> {
    pub cartridge: Cartridge,
    pub apu: A,
    pub gpu: Gpu,
    pub serial: Serial,
    pub joypad: Joypad,
    /// A speed switch is pending.
    pub shift: bool,
    pub speed: Speed,
    pub term: Term,
    pub time: Timer,
    pub inte: u8,
    pub intf: Intf,
    pub hdma: Hdma,
    pub hram: Vec<u8>,
    pub wram: Vec<u8>,
    pub wram_bank: usize,
}

impl<A: Sound> Mmunit<A> {
    pub open spec fn wf(&self) -> bool {
        &&& self.cartridge.wf()
        &&& self.gpu.wf()
        &&& self.time.wf()
        &&& self.hdma.wf()
        &&& self.hram@.len() == 0x7F
        &&& self.wram@.len() == 0x8000
        &&& 1 <= self.wram_bank <= 7
    }

    /// The byte that a read at `a` returns; the sound registers belong to
    /// the synthesizer and are not described here.
    pub open spec fn read(&self, a: u16) -> u8 {
        if is_cart(a) {
            self.cartridge.read(a)
        } else if is_video(a) {
            self.gpu.read(a)
        } else if is_wram(a) {
            self.wram@[wram_index(a, self.wram_bank)]
        } else if 0xFEA0 <= a <= 0xFEFF {
            0x00
        } else if a == 0xFF00 {
            self.joypad.read()
        } else if a == 0xFF01 {
            self.serial.data
        } else if a == 0xFF02 {
            self.serial.control
        } else if 0xFF04 <= a <= 0xFF07 {
            self.time.read(a)
        } else if a == 0xFF0F {
            self.intf.data
        } else if a == 0xFF4D {
            (if self.speed == Speed::Double { 0x80u8 } else { 0x00u8 }) | (if self.shift { 0x01u8 } else { 0x00u8 })
        } else if 0xFF51 <= a <= 0xFF55 {
            self.hdma.read(a)
        } else if a == 0xFF70 {
            self.wram_bank as u8
        } else if is_hram(a) {
            self.hram@[a - 0xFF80]
        } else if a == 0xFFFF {
            self.inte
        } else {
            0x00
        }
    }

    /// What a write of `v` at `a` leaves.
    #[verifier::opaque]
    pub open spec fn set_post(&self, old: &Self, a: u16, v: u8) -> bool {
        &&& self.wf()
        &&& self.wram@ == if is_wram(a) {
            old.wram@.update(wram_index(a, old.wram_bank), v)
        } else {
            old.wram@
        }
        &&& self.hram@ == if is_hram(a) {
            old.hram@.update(a - 0xFF80, v)
        } else {
            old.hram@
        }
        &&& self.wram_bank == if a == 0xFF70 {
            if v & 0x07 == 0 { 1 } else { (v & 0x07) as usize }
        } else {
            old.wram_bank
        }
        &&& if is_cart(a) {
            self.cartridge.set_post(&old.cartridge, a, v)
        } else {
            self.cartridge == old.cartridge
        }
        &&& self.intf.data == if a == 0xFF0F { v } else { old.intf.data }
        &&& self.inte == if a == 0xFFFF { v } else { old.inte }
        &&& self.shift == if a == 0xFF4D { v & 0x01 == 0x01 } else { old.shift }
        &&& self.speed == old.speed
        &&& self.term == old.term
        &&& self.gpu.h_blank == old.gpu.h_blank
        &&& if 0xFF51 <= a <= 0xFF55 {
            self.hdma.set_post(&old.hdma, a, v)
        } else {
            self.hdma == old.hdma
        }
        &&& if is_video(a) {
            self.gpu.set_post(&old.gpu, a, v)
        } else if a == 0xFF46 && v <= 0xF1 {
            self.oam_copied(old, v)
        } else {
            self.gpu == old.gpu
        }
        &&& if a == 0xFF00 {
            self.joypad.select == v && self.joypad.matrix == old.joypad.matrix
        } else {
            self.joypad == old.joypad
        }
        &&& if a == 0xFF01 {
            self.serial.data == v && self.serial.control == old.serial.control
        } else if a == 0xFF02 {
            self.serial.control == v && self.serial.data == old.serial.data
        } else {
            self.serial == old.serial
        }
        &&& if 0xFF04 <= a <= 0xFF07 {
            self.time.set_post(&old.time, a, v)
        } else {
            self.time == old.time
        }
        &&& !is_sound(a) ==> self.apu == old.apu
        &&& (0x8000 <= a <= 0x9FFF) ==> self.gpu.ram@ == old.gpu.ram@.update(old.gpu.vram_index(a), v)
        &&& (0xFE00 <= a <= 0xFE9F) ==> self.gpu.oam@ == old.gpu.oam@.update(a - 0xFE00, v)
    }

    /// One block of a video-RAM transfer was moved: the 16 bytes read
    /// from the source (when it lies outside video RAM and the sound
    /// registers) are in video RAM at the destination, and both move on by
    /// 16, the destination wrapping within video RAM.
    pub open spec fn block_moved(&self, old: &Self) -> bool {
        let (s, d) = (old.hdma.src, old.hdma.dst);
        &&& self.hdma.src == ((s + 16) % 65536) as u16
        &&& self.hdma.dst == (0x8000 + (d - 0x8000 + 16) % 0x2000) as u16
        &&& self.gpu == (Gpu { ram: self.gpu.ram, ..old.gpu })
        &&& dma_source_ok(s) ==> forall|i: int|
            0 <= i < 16 ==> #[trigger] self.gpu.ram@[old.gpu.vram_index((d + i) as u16)] == old.read((s + i) as u16)
        &&& forall|j: int|
            0 <= j < 0x4000 && !(old.gpu.vram_index(d) <= j < old.gpu.vram_index(d) + 16) ==> #[trigger] self.gpu.ram@[j]
                == old.gpu.ram@[j]
    }

    /// `k` blocks of a general video-RAM transfer were moved: block `b`
    /// took the 16 bytes from `src + 16 b` (when that block lies in the
    /// cartridge or working RAM) to `dst + 16 b` (wrapping within video RAM).
    pub open spec fn blocks_moved(&self, old: &Self, k: int) -> bool {
        let (s, d) = (old.hdma.src, old.hdma.dst);
        &&& self.hdma.src == ((s + 16 * k) % 65536) as u16
        &&& self.hdma.dst == (0x8000 + (d - 0x8000 + 16 * k) % 0x2000) as u16
        &&& self.gpu == (Gpu { ram: self.gpu.ram, ..old.gpu })
        &&& forall|b: int, i: int|
            0 <= b < k && 0 <= i < 16 && dma_source_ok(block_src(s, b)) ==> #[trigger] self.gpu.ram@[old.gpu.ram_bank
                * 0x2000 + block_dst(d, b) + i] == old.read((block_src(s, b) + i) as u16)
    }

    /// Object attribute memory holds the 160 bytes read from `v << 8` on,
    /// and the rest of the video peripheral is as it was.
    pub open spec fn oam_copied(&self, old: &Self, v: u8) -> bool {
        &&& self.gpu == (Gpu { oam: self.gpu.oam, ..old.gpu })
        &&& self.gpu.oam@.len() == 0xA0
        &&& forall|i: int| 0 <= i < 0xA0 ==> #[trigger] self.gpu.oam@[i] == old.read((v as int * 256 + i) as u16)
    }

    fn read_wram(&self, a: u16) -> (r: u8)
        requires
            self.wf(),
            is_wram(a),
        ensures
            r == self.wram@[wram_index(a, self.wram_bank)],
    {
        let i = if a <= 0xCFFF {
            a as usize - 0xC000
        } else if a <= 0xDFFF {
            a as usize - 0xD000 + 0x1000 * self.wram_bank
        } else if a <= 0xEFFF {
            a as usize - 0xE000
        } else {
            a as usize - 0xF000 + 0x1000 * self.wram_bank
        };
        self.wram[i]
    }

    /// Reads a byte.
    pub fn get(&self, a: u16) -> (r: u8)
        requires
            self.wf(),
        ensures
            !is_sound(a) ==> r == self.read(a),
    {
        if a <= 0x7FFF || (0xA000 <= a && a <= 0xBFFF) {
            return self.cartridge.get(a);
        }
        if (0x8000 <= a && a <= 0x9FFF) || (0xFE00 <= a && a <= 0xFE9F) || (0xFF40 <= a && a <= 0xFF45) || (
        0xFF47 <= a && a <= 0xFF4B) || a == 0xFF4F || (0xFF68 <= a && a <= 0xFF6B) {
            return self.gpu.get(a);
        }
        if 0xC000 <= a && a <= 0xFDFF {
            return self.read_wram(a);
        }
        match a {
            0xFEA0..=0xFEFF => 0x00,
            0xFF00 => self.joypad.get(a),
            0xFF01..=0xFF02 => self.serial.get(a),
            0xFF04..=0xFF07 => self.time.get(a),
            0xFF0F => self.intf.data,
            0xFF10..=0xFF3F => self.apu.get(a),
            0xFF4D => {
                let a: u8 = if self.speed == Speed::Double { 0x80 } else { 0x00 };
                let b: u8 = if self.shift { 0x01 } else { 0x00 };
                a | b
            },
            0xFF51..=0xFF55 => self.hdma.get(a),
            0xFF70 => self.wram_bank as u8,
            0xFF80..=0xFFFE => self.hram[a as usize - 0xFF80],
            0xFFFF => self.inte,
            _ => 0x00,
        }
    }

    /// Reads a little-endian word.
    pub fn get_word(&self, a: u16) -> (r: u16)
        requires
            self.wf(),
        ensures
            !is_sound(a) && !is_sound(a.wrapping_add(1)) ==> r == word(self.read(a.wrapping_add(1)), self.read(a)),
    {
        let lo = self.get(a);
        let hi = self.get(a.wrapping_add(1));
        proof {
            lemma_word(hi, lo);
        }
        ((hi as u16) << 8) | (lo as u16)
    }

    fn write_wram(&mut self, a: u16, v: u8)
        requires
            old(self).wf(),
            is_wram(a),
        ensures
            final(self).wram@ == old(self).wram@.update(wram_index(a, old(self).wram_bank), v),
            *final(self) == (Mmunit { wram: final(self).wram, ..*old(self) }),
    {
        let i = if a <= 0xCFFF {
            a as usize - 0xC000
        } else if a <= 0xDFFF {
            a as usize - 0xD000 + 0x1000 * self.wram_bank
        } else if a <= 0xEFFF {
            a as usize - 0xE000
        } else {
            a as usize - 0xF000 + 0x1000 * self.wram_bank
        };
        self.wram.set(i, v);
    }

    /// Copies 160 bytes from `v << 8` into object attribute memory.
    fn oam_dma(&mut self, v: u8)
        requires
            old(self).wf(),
            v <= 0xF1,
        ensures
            *final(self) == (Mmunit { gpu: final(self).gpu, ..*old(self) }),
            final(self).gpu.wf(),
            final(self).oam_copied(old(self), v),
    {
        let base = (v as u16) * 256;
        let mut i: u16 = 0;
        while i < 0xA0
            invariant
                self.wf(),
                old(self).wf(),
                v <= 0xF1,
                base == v as int * 256,
                i <= 0xA0,
                *self == (Mmunit { gpu: self.gpu, ..*old(self) }),
                self.gpu == (Gpu { oam: self.gpu.oam, ..old(self).gpu }),
                forall|j: int| 0 <= j < i ==> #[trigger] self.gpu.oam@[j] == old(self).read((v as int * 256 + j) as u16),
            decreases 0xA0 - i,
        {
            let ghost x = (v as int * 256 + i) as u16;
            assert(base.wrapping_add(i) == x);
            assert(self.read(x) == old(self).read(x));
            let b = self.get(base.wrapping_add(i));
            self.gpu.set(0xFE00 + i, b);
            i = i + 1;
        }
    }

    /// Writes a byte.
    pub fn set(&mut self, a: u16, v: u8)
        requires
            old(self).wf(),
        ensures
            final(self).set_post(old(self), a, v),
            final(self).wf(),
            final(self).speed == old(self).speed,
            final(self).term == old(self).term,
            final(self).intf.data == if a == 0xFF0F { v } else { old(self).intf.data },
            final(self).inte == if a == 0xFFFF { v } else { old(self).inte },
    {
        proof {
            lemma_masks(v);
            reveal(Mmunit::set_post);
        }
        if a <= 0x7FFF || (0xA000 <= a && a <= 0xBFFF) {
            self.cartridge.set(a, v);
            return ;
        }
        if (0x8000 <= a && a <= 0x9FFF) || (0xFE00 <= a && a <= 0xFE9F) || (0xFF40 <= a && a <= 0xFF45) || (
        0xFF47 <= a && a <= 0xFF4B) || a == 0xFF4F || (0xFF68 <= a && a <= 0xFF6B) {
            self.gpu.set(a, v);
            return ;
        }
        if 0xC000 <= a && a <= 0xFDFF {
            self.write_wram(a, v);
            return ;
        }
        match a {
            0xFF00 => self.joypad.set(a, v),
            0xFF01..=0xFF02 => self.serial.set(a, v),
            0xFF04..=0xFF07 => self.time.set(a, v),
            0xFF0F => self.intf.data = v,
            0xFF10..=0xFF3F => self.apu.set(a, v),
            0xFF46 => {
                if v <= 0xF1 {
                    self.oam_dma(v);
                }
            },
            0xFF4D => self.shift = (v & 0x01) == 0x01,
            0xFF51..=0xFF55 => self.hdma.set(a, v),
            0xFF70 => {
                self.wram_bank = match v & 0x07 {
                    0 => 1,
                    n => n as usize,
                };
            },
            0xFF80..=0xFFFE => self.hram.set(a as usize - 0xFF80, v),
            0xFFFF => self.inte = v,
            _ => {},
        }
    }

    /// Writes a little-endian word.
    pub fn set_word(&mut self, a: u16, v: u16)
        requires
            old(self).wf(),
        ensures
            final(self).wf(),
            final(self).speed == old(self).speed,
            final(self).term == old(self).term,
            a != 0xFF0F && a.wrapping_add(1) != 0xFF0F ==> final(self).intf.data == old(self).intf.data,
            a != 0xFFFF && a.wrapping_add(1) != 0xFFFF ==> final(self).inte == old(self).inte,
            final(self).word_written(old(self), a, v),
    {
        proof {
            reveal(Mmunit::set_post);
        }
        self.set(a, (v % 256) as u8);
        let ghost mid = *self;
        self.set(a.wrapping_add(1), (v / 256) as u8);
        assert(mid.set_post(old(self), a, (v % 256) as u8));
        assert(a.wrapping_add(1) == ((a + 1) % 65536) as u16);
        assert(self.set_post(&mid, ((a + 1) % 65536) as u16, (v / 256) as u8));
    }

    /// The low byte of `v` was written at `a`, then the high byte at the
    /// next address.
    pub open spec fn word_written(&self, old: &Self, a: u16, v: u16) -> bool {
        exists|mid: Self|
            mid.set_post(old, a, (v % 256) as u8) && #[trigger] self.set_post(&mid, ((a + 1) % 65536) as u16, (v / 256) as u8)
    }
}


impl<A: Sound> Mmunit<A> {
    /// Builds the bus around a loaded cartridge and a sound synthesizer;
    /// the model is the color one when bit 7 of 0x0143 is set. The I/O
    /// registers then take their power-up values.
    pub fn power_up(cartridge: Cartridge, apu: A) -> (r: Self)
        requires
            cartridge.wf(),
        ensures
            r.wf(),
            r.cartridge == cartridge,
            r.term == if cartridge.read(0x0143) & 0x80 == 0x80 { Term::GBC } else { Term::GB },
            r.wram@ == Seq::new(0x8000, |i: int| 0u8),
            r.hram@ == Seq::new(0x7F, |i: int| 0u8),
            r.wram_bank == 1,
            r.speed == Speed::Normal,
            !r.shift,
            r.inte == 0,
            r.intf.data == 0,
            !r.hdma.active,
    {
        let term = if cartridge.get(0x0143) & 0x80 == 0x80 { Term::GBC } else { Term::GB };
        let mut mmu = Self {
            cartridge,
            apu,
            gpu: Gpu::power_up(term),
            serial: Serial::power_up(),
            joypad: Joypad::power_up(),
            shift: false,
            speed: Speed::Normal,
            term,
            time: Timer::power_up(),
            inte: 0x00,
            intf: Intf::power_up(),
            hdma: Hdma::power_up(),
            hram: filled(0x7F, 0),
            wram: filled(0x8000, 0),
            wram_bank: 0x01,
        };
        let ghost c = mmu.cartridge;
        let ghost w = mmu.wram@;
        let ghost h = mmu.hram@;
        let inits: [(u16, u8); 31] = [
            (0xFF05, 0x00),
            (0xFF06, 0x00),
            (0xFF07, 0x00),
            (0xFF10, 0x80),
            (0xFF11, 0xBF),
            (0xFF12, 0xF3),
            (0xFF14, 0xBF),
            (0xFF16, 0x3F),
            (0xFF16, 0x3F),
            (0xFF17, 0x00),
            (0xFF19, 0xBF),
            (0xFF1A, 0x7F),
            (0xFF1B, 0xFF),
            (0xFF1C, 0x9F),
            (0xFF1E, 0xFF),
            (0xFF20, 0xFF),
            (0xFF21, 0x00),
            (0xFF22, 0x00),
            (0xFF23, 0xBF),
            (0xFF24, 0x77),
            (0xFF25, 0xF3),
            (0xFF26, 0xF1),
            (0xFF40, 0x91),
            (0xFF42, 0x00),
            (0xFF43, 0x00),
            (0xFF45, 0x00),
            (0xFF47, 0xFC),
            (0xFF48, 0xFF),
            (0xFF49, 0xFF),
            (0xFF4A, 0x00),
            (0xFF4B, 0x00),
        ];
        let mut i: usize = 0;
        while i < 31
            invariant
                mmu.wf(),
                mmu.cartridge == c,
                mmu.wram@ == w,
                mmu.hram@ == h,
                mmu.wram_bank == 1,
                mmu.term == term,
                mmu.speed == Speed::Normal,
                !mmu.shift,
                mmu.inte == 0,
                mmu.intf.data == 0,
                !mmu.hdma.active,
                forall|k: int| 0 <= k < 31 ==> 0xFF05 <= (#[trigger] inits@[k]).0 <= 0xFF4B && inits@[k].0 != 0xFF0F,
            decreases 31 - i,
        {
            let (a, v) = inits[i];
            mmu.set(a, v);
            proof {
                reveal(Mmunit::set_post);
            }
            i = i + 1;
        }
        mmu
    }

    /// Advances the peripherals by the cycles of one CPU step and returns
    /// the peripheral cycles, which double speed halves; a pending video-RAM
    /// transfer runs first and adds its own cost.
    pub fn next(&mut self, cycles: u32) -> (r: u32)
        requires
            old(self).wf(),
            cycles <= 0xFFFF_0000,
        ensures
            final(self).advanced(old(self), cycles),
            r == cycles / old(self).speed.spec_divider() + old(self).dma_cost(),
    {
        let cpu_divider = self.speed.divider();
        let vram_cycles = self.run_dma();
        let gpu_cycles = cycles / cpu_divider + vram_cycles;
        let cpu_cycles = cycles + vram_cycles * cpu_divider;
        self.time.next(cpu_cycles, &mut self.intf);
        self.gpu.next(gpu_cycles, &mut self.intf);
        self.apu.next(gpu_cycles);
        gpu_cycles
    }

    /// What advancing the peripherals by the cycles of one CPU step leaves:
    /// the memories, the cartridge, the interrupt enable, the speed stay;
    /// the divider counts the CPU cycles, a pending video-RAM transfer's
    /// cost included.
    pub open spec fn advanced(&self, old: &Self, cycles: u32) -> bool {
        let cpu_cycles = cycles + old.dma_cost() * old.speed.spec_divider();
        &&& self.wf()
        &&& self.speed == old.speed
        &&& self.shift == old.shift
        &&& self.term == old.term
        &&& self.wram@ == old.wram@
        &&& self.hram@ == old.hram@
        &&& self.wram_bank == old.wram_bank
        &&& self.cartridge == old.cartridge
        &&& self.inte == old.inte
        &&& self.time.div == (old.time.div + (old.time.div_clock.n + cpu_cycles) / 256 % 256) % 256
        &&& self.time.tma == old.time.tma && self.time.tac == old.time.tac
    }

    /// The bus after a speed switch is committed.
    pub open spec fn switched(self) -> Self {
        Mmunit {
            shift: false,
            speed: if self.shift {
                if self.speed == Speed::Double { Speed::Normal } else { Speed::Double }
            } else {
                self.speed
            },
            ..self
        }
    }

    /// Commits a pending speed switch; called when the CPU meets STOP.
    pub fn switch_speed(&mut self)
        ensures
            final(self).shift == false,
            final(self).speed == if old(self).shift {
                if old(self).speed == Speed::Double { Speed::Normal } else { Speed::Double }
            } else {
                old(self).speed
            },
            *final(self) == (Mmunit { shift: final(self).shift, speed: final(self).speed, ..*old(self) }),
    {
        if self.shift {
            if self.speed == Speed::Double {
                self.speed = Speed::Normal;
            } else {
                self.speed = Speed::Double;
            }
        }
        self.shift = false;
    }

    /// The cycles that the pending video-RAM transfer takes in this step.
    pub open spec fn dma_cost(&self) -> u32 {
        if !self.hdma.active {
            0
        } else if self.hdma.mode == HdmaMode::Gdma {
            ((self.hdma.remain + 1) * 8) as u32
        } else if self.gpu.h_blank {
            8
        } else {
            0
        }
    }

    /// Runs the pending video-RAM transfer: a general one moves all its
    /// blocks now; an H-Blank one moves one block, only during H-Blank, and
    /// ends when its counter wraps past zero.
    pub fn run_dma(&mut self) -> (r: u32)
        requires
            old(self).wf(),
        ensures
            final(self).wf(),
            r == old(self).dma_cost(),
            final(self).speed == old(self).speed,
            final(self).shift == old(self).shift,
            final(self).term == old(self).term,
            final(self).wram@ == old(self).wram@,
            final(self).hram@ == old(self).hram@,
            final(self).wram_bank == old(self).wram_bank,
            final(self).cartridge == old(self).cartridge,
            final(self).inte == old(self).inte,
            final(self).intf == old(self).intf,
            final(self).time == old(self).time,
            final(self).gpu.h_blank == old(self).gpu.h_blank,
            old(self).hdma.active && old(self).hdma.mode == HdmaMode::Gdma ==> !final(self).hdma.active,
            old(self).hdma.active && old(self).hdma.mode == HdmaMode::Hdma && old(self).gpu.h_blank
                ==> final(self).hdma.active == (old(self).hdma.remain != 0) && final(self).block_moved(old(self)),
            (!old(self).hdma.active || (old(self).hdma.mode == HdmaMode::Hdma && !old(self).gpu.h_blank))
                ==> *final(self) == *old(self),
            (old(self).hdma.active && old(self).hdma.mode == HdmaMode::Gdma)
                ==> final(self).blocks_moved(old(self), old(self).hdma.remain + 1),
    {
        if !self.hdma.active {
            return 0;
        }
        match self.hdma.mode {
            HdmaMode::Gdma => {
                let len = self.hdma.remain as u32 + 1;
                let mut i: u32 = 0;
                while i < len
                    invariant
                        self.wf(),
                        old(self).wf(),
                        i <= len,
                        len <= 128,
                        self.hdma.active == old(self).hdma.active,
                        self.hdma.mode == old(self).hdma.mode,
                        self.blocks_moved(old(self), i as int),
                        len == old(self).hdma.remain + 1,
                        self.speed == old(self).speed,
                        self.shift == old(self).shift,
                        self.term == old(self).term,
                        self.wram@ == old(self).wram@,
                        self.hram@ == old(self).hram@,
                        self.wram_bank == old(self).wram_bank,
                        self.cartridge == old(self).cartridge,
                        self.inte == old(self).inte,
                        self.intf == old(self).intf,
                        self.time == old(self).time,
                        self.gpu.h_blank == old(self).gpu.h_blank,
                    decreases len - i,
                {
                    let ghost before = *self;
                    self.run_dma_hrampart();
                    proof {
                        lemma_next_block(*old(self), before, *self, i as int);
                    }
                    i = i + 1;
                }
                self.hdma.active = false;
                len * 8
            },
            HdmaMode::Hdma => {
                if !self.gpu.h_blank {
                    return 0;
                }
                self.run_dma_hrampart();
                if self.hdma.remain == 0x7F {
                    self.hdma.active = false;
                }
                8
            },
        }
    }

    /// Moves one block of 16 bytes from the source into video RAM and
    /// counts it.
    pub fn run_dma_hrampart(&mut self)
        requires
            old(self).wf(),
        ensures
            final(self).wf(),
            final(self).hdma.remain == if old(self).hdma.remain == 0 { 0x7F } else { old(self).hdma.remain - 1 },
            final(self).hdma.active == old(self).hdma.active,
            final(self).hdma.mode == old(self).hdma.mode,
            final(self).speed == old(self).speed,
            final(self).shift == old(self).shift,
            final(self).term == old(self).term,
            final(self).wram@ == old(self).wram@,
            final(self).hram@ == old(self).hram@,
            final(self).wram_bank == old(self).wram_bank,
            final(self).cartridge == old(self).cartridge,
            final(self).inte == old(self).inte,
            final(self).intf == old(self).intf,
            final(self).time == old(self).time,
            final(self).gpu.h_blank == old(self).gpu.h_blank,
            final(self).block_moved(old(self)),
    {
        let src = self.hdma.src;
        let dst = self.hdma.dst;
        let mut i: u16 = 0;
        while i < 0x10
            invariant
                self.wf(),
                old(self).wf(),
                i <= 0x10,
                src == old(self).hdma.src,
                dst == old(self).hdma.dst,
                *self == (Mmunit { gpu: self.gpu, ..*old(self) }),
                self.gpu == (Gpu { ram: self.gpu.ram, ..old(self).gpu }),
                dma_source_ok(src) ==> forall|j: int|
                    0 <= j < i ==> #[trigger] self.gpu.ram@[old(self).gpu.vram_index((dst + j) as u16)]
                        == old(self).read((src + j) as u16),
                forall|j: int|
                    0 <= j < 0x4000 && !(old(self).gpu.vram_index(dst) <= j < old(self).gpu.vram_index(dst) + i)
                        ==> #[trigger] self.gpu.ram@[j] == old(self).gpu.ram@[j],
            decreases 0x10 - i,
        {
            let ghost x = (src + i) as u16;
            assert(src.wrapping_add(i) == x);
            assert(dma_source_ok(src) ==> self.read(x) == old(self).read(x));
            let b = self.get(src.wrapping_add(i));
            self.gpu.set(dst + i, b);
            i = i + 1;
        }
        self.hdma.src = src.wrapping_add(0x10);
        self.hdma.dst = 0x8000 + (dst - 0x8000 + 0x10) % 0x2000;
        if self.hdma.remain == 0 {
            self.hdma.remain = 0x7F;
        } else {
            self.hdma.remain = self.hdma.remain - 1;
        }
    }
}

/// Working RAM and high RAM read back what was written (with the same
/// bank selected), and selecting another working-RAM bank and then the
/// first again shows the first bank's bytes again.
pub proof fn lemma_ram_round_trip<A: Sound>(
    m0: Mmunit<A>,
    m1: Mmunit<A>,
    m2: Mmunit<A>,
    m3: Mmunit<A>,
    a: u16,
    v: u8,
    k: u8,
)
    requires
        m0.wf(),
        is_wram(a) || is_hram(a),
        m1.set_post(&m0, a, v),
        m2.set_post(&m1, 0xFF70, k),
        m3.set_post(&m2, 0xFF70, m0.wram_bank as u8),
    ensures
        m1.read(a) == v,
        m3.read(a) == m1.read(a),
{
    reveal(Mmunit::set_post);
    lemma_masks(k);
    let b = m0.wram_bank as u8;
    assert(b & 0x07 == b) by (bit_vector)
        requires 1 <= b <= 7;
}


/// A word written to working RAM or high RAM reads back whole: the low
/// byte at its address, the high byte at the next.
pub proof fn lemma_word_round_trip<A: Sound>(m0: Mmunit<A>, m1: Mmunit<A>, a: u16, v: u16)
    requires
        m0.wf(),
        m1.word_written(&m0, a, v),
        a < 0xFFFF,
        (is_wram(a) && is_wram((a + 1) as u16)) || (is_hram(a) && is_hram((a + 1) as u16)),
    ensures
        word(m1.read((a + 1) as u16), m1.read(a)) == v,
{
    reveal(Mmunit::set_post);
    let mid = choose|mid: Mmunit<A>|
        mid.set_post(&m0, a, (v % 256) as u8) && #[trigger] m1.set_post(
            &mid,
            ((a + 1) % 65536) as u16,
            (v / 256) as u8,
        );
    assert(((a + 1) % 65536) as u16 == (a + 1) as u16);
    assert(m1.read(a) == (v % 256) as u8);
    assert(m1.read((a + 1) as u16) == (v / 256) as u8);
}

} // verus!

verus! {

proof fn lemma_block_aligned(x: int, b: int)
    requires
        0 <= x,
        x % 16 == 0,
        0 <= b,
    ensures
        (x + 16 * b) % 0x2000 % 16 == 0,
        0 <= (x + 16 * b) % 0x2000 <= 0x1FF0,
{
    assert((x + 16 * b) % 0x2000 % 16 == 0) by (nonlinear_arith)
        requires x % 16 == 0, b >= 0, x >= 0;
}

proof fn lemma_blocks_apart(x: int, b1: int, b2: int)
    requires
        0 <= x,
        x % 16 == 0,
        0 <= b1 < b2 <= 128,
    ensures
        (x + 16 * b1) % 0x2000 + 16 <= (x + 16 * b2) % 0x2000 || (x + 16 * b2) % 0x2000 + 16 <= (x + 16
            * b1) % 0x2000,
{
    lemma_block_aligned(x, b1);
    lemma_block_aligned(x, b2);
    assert((x + 16 * b1) % 0x2000 != (x + 16 * b2) % 0x2000) by (nonlinear_arith)
        requires 0 <= b1 < b2 <= 128, x >= 0;
}

/// One more block of a general transfer keeps the blocks moved before.
proof fn lemma_next_block<A: Sound>(o: Mmunit<A>, before: Mmunit<A>, after: Mmunit<A>, k: int)
    requires
        o.wf(),
        before.wf(),
        0 <= k < 128,
        before.blocks_moved(&o, k),
        after.block_moved(&before),
        before.cartridge == o.cartridge,
        before.wram@ == o.wram@,
        before.wram_bank == o.wram_bank,
    ensures
        after.blocks_moved(&o, k + 1),
{
    let (s, d) = (o.hdma.src, o.hdma.dst);
    let x = d - 0x8000;
    assert(x % 16 == 0 && x >= 0);
    vstd::arithmetic::div_mod::lemma_add_mod_noop(s + 16 * k, 16, 65536);
    vstd::arithmetic::div_mod::lemma_mod_twice(16, 65536);
    vstd::arithmetic::div_mod::lemma_add_mod_noop(x + 16 * k, 16, 0x2000);
    vstd::arithmetic::div_mod::lemma_mod_twice(16, 0x2000);
    assert(before.hdma.src == block_src(s, k));
    assert(before.hdma.dst == 0x8000 + block_dst(d, k));
    let bank = o.gpu.ram_bank;
    assert forall|b: int, i: int|
        0 <= b < k + 1 && 0 <= i < 16 && dma_source_ok(block_src(s, b)) implies #[trigger] after.gpu.ram@[bank
            * 0x2000 + block_dst(d, b) + i] == o.read((block_src(s, b) + i) as u16) by {
        lemma_block_aligned(x, b);
        assert(0 <= block_dst(d, b) <= 0x1FF0);
        if b < k {
            lemma_blocks_apart(x, b, k);
            assert(before.gpu.ram@[bank * 0x2000 + block_dst(d, b) + i] == o.read((block_src(s, b) + i) as u16));
        } else {
            let y = (block_src(s, b) + i) as u16;
            assert(before.read(y) == o.read(y));
            assert(before.gpu.vram_index((before.hdma.dst + i) as u16) == bank * 0x2000 + block_dst(d, b) + i);
        }
    }
}

} // verus!
