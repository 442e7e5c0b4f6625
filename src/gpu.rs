//! The video peripheral as the bus sees it: video RAM, object attribute
//! memory, the LCD registers, the color palettes, the scanline timing that
//! raises the video interrupts, and the scanline renderer.
use vstd::prelude::*;
use crate::bits::filled;
use crate::intf::{Flags, Intf};
use crate::registers::Term;

verus! {

pub const SCREEN_W: usize = 160;
pub const SCREEN_H: usize = 144;

/// How a video-RAM transfer runs: all at once, or 16 bytes per H-Blank.
#[derive(Clone, Copy, PartialEq, Eq, Structural, Debug)]
pub enum HdmaMode {
    Gdma,
    Hdma,
}

/// The video-RAM transfer descriptor.
pub struct Hdma {
    pub src: u16,
    pub dst: u16,
    pub active: bool,
    pub mode: HdmaMode,
    /// Blocks of 16 bytes left, minus one.
    pub remain: u8,
}

impl Hdma {
    pub open spec fn wf(&self) -> bool {
        0x8000 <= self.dst <= 0x9FF0 && self.dst % 16 == 0 && self.src % 16 == 0 && self.remain <= 0x7F
    }

    pub open spec fn read(&self, a: u16) -> u8 {
        if a == 0xFF51 {
            (self.src / 256) as u8
        } else if a == 0xFF52 {
            (self.src % 256) as u8
        } else if a == 0xFF53 {
            (self.dst / 256) as u8
        } else if a == 0xFF54 {
            (self.dst % 256) as u8
        } else {
            self.remain | if self.active { 0x00u8 } else { 0x80u8 }
        }
    }

    /// What a write of `v` to register `a` leaves: the source keeps 16-byte
    /// alignment, the destination stays in video RAM; a write to 0xFF55
    /// starts a transfer of `(v & 0x7F) + 1` blocks, or stops a running
    /// H-Blank transfer when bit 7 is clear.
    pub open spec fn set_post(&self, old: &Hdma, a: u16, v: u8) -> bool {
        &&& self.wf()
        &&& a == 0xFF51 ==> *self == (Hdma { src: (v as int * 256 + old.src % 256) as u16, ..*old })
        &&& a == 0xFF52 ==> *self == (Hdma { src: (old.src / 256 * 256 + v / 16 * 16) as u16, ..*old })
        &&& a == 0xFF53 ==> *self == (Hdma { dst: (0x8000 + (v % 32) * 256 + old.dst % 256) as u16, ..*old })
        &&& a == 0xFF54 ==> *self == (Hdma { dst: (old.dst / 256 * 256 + v / 16 * 16) as u16, ..*old })
        &&& (a == 0xFF55 && old.active && old.mode == HdmaMode::Hdma) ==> *self == (Hdma {
            active: v >= 0x80,
            ..*old
        })
        &&& (a == 0xFF55 && !(old.active && old.mode == HdmaMode::Hdma)) ==> *self == (Hdma {
            active: true,
            remain: v % 128,
            mode: if v >= 0x80 { HdmaMode::Hdma } else { HdmaMode::Gdma },
            ..*old
        })
    }

    pub fn power_up() -> (r: Self)
        ensures
            r.wf(),
            !r.active,
            r.src == 0 && r.dst == 0x8000 && r.remain == 0 && r.mode == HdmaMode::Gdma,
    {
        Self { src: 0x0000, dst: 0x8000, active: false, mode: HdmaMode::Gdma, remain: 0x00 }
    }

    pub fn get(&self, a: u16) -> (r: u8)
        requires
            0xFF51 <= a <= 0xFF55,
        ensures
            r == self.read(a),
    {
        match a {
            0xFF51 => (self.src / 256) as u8,
            0xFF52 => (self.src % 256) as u8,
            0xFF53 => (self.dst / 256) as u8,
            0xFF54 => (self.dst % 256) as u8,
            _ => self.remain | if self.active { 0x00 } else { 0x80 },
        }
    }

    /// Writes a register: the source keeps 16-byte alignment, the
    /// destination stays in video RAM; a write to 0xFF55 starts a transfer
    /// of `(v & 0x7F) + 1` blocks, or stops a running H-Blank transfer when
    /// bit 7 is clear.
    pub fn set(&mut self, a: u16, v: u8)
        requires
            old(self).wf(),
            0xFF51 <= a <= 0xFF55,
        ensures
            final(self).set_post(old(self), a, v),
    {
        match a {
            0xFF51 => self.src = (v as u16) * 256 + self.src % 256,
            0xFF52 => self.src = self.src / 256 * 256 + (v / 16 * 16) as u16,
            0xFF53 => self.dst = 0x8000 + ((v % 32) as u16) * 256 + self.dst % 256,
            0xFF54 => self.dst = self.dst / 256 * 256 + (v / 16 * 16) as u16,
            _ => {
                if self.active && self.mode == HdmaMode::Hdma {
                    if v < 0x80 {
                        self.active = false;
                    }
                    return ;
                }
                self.active = true;
                self.remain = v % 128;
                self.mode = if v >= 0x80 { HdmaMode::Hdma } else { HdmaMode::Gdma };
            },
        }
    }
}

/// The LCD control register.
pub struct Lcdc {
    pub data: u8,
}

impl Lcdc {
    pub open spec fn bit(&self, i: u8) -> bool {
        (self.data >> i) % 2 == 1
    }

    pub fn power_up() -> (r: Self)
        ensures
            r.data == 0x48,
    {
        Self { data: 0b0100_1000 }
    }

    /// Display on.
    pub fn bit7(&self) -> (r: bool)
        ensures r == self.bit(7),
    {
        (self.data >> 7) % 2 == 1
    }

    /// Window tile map at 0x9C00.
    pub fn bit6(&self) -> (r: bool)
        ensures r == self.bit(6),
    {
        (self.data >> 6) % 2 == 1
    }

    /// Window on.
    pub fn bit5(&self) -> (r: bool)
        ensures r == self.bit(5),
    {
        (self.data >> 5) % 2 == 1
    }

    /// Background tiles at 0x8000, unsigned.
    pub fn bit4(&self) -> (r: bool)
        ensures r == self.bit(4),
    {
        (self.data >> 4) % 2 == 1
    }

    /// Background tile map at 0x9C00.
    pub fn bit3(&self) -> (r: bool)
        ensures r == self.bit(3),
    {
        (self.data >> 3) % 2 == 1
    }

    /// Objects of 8x16 pixels.
    pub fn bit2(&self) -> (r: bool)
        ensures r == self.bit(2),
    {
        (self.data >> 2) % 2 == 1
    }

    /// Objects on.
    pub fn bit1(&self) -> (r: bool)
        ensures r == self.bit(1),
    {
        (self.data >> 1) % 2 == 1
    }

    /// Background on (monochrome) or background priority (color).
    pub fn bit0(&self) -> (r: bool)
        ensures r == self.bit(0),
    {
        (self.data >> 0u8) % 2 == 1
    }
}

/// The LCD status register: interrupt selects and the current mode.
pub struct Stat {
    pub ly_interrupt: bool,
    pub m2_interrupt: bool,
    pub m1_interrupt: bool,
    pub m0_interrupt: bool,
    pub mode: u8,
}

impl Stat {
    pub fn power_up() -> (r: Self)
        ensures
            r.mode == 0 && !r.ly_interrupt && !r.m2_interrupt && !r.m1_interrupt && !r.m0_interrupt,
    {
        Self { ly_interrupt: false, m2_interrupt: false, m1_interrupt: false, m0_interrupt: false, mode: 0x00 }
    }
}

/// A palette index register: a 6-bit index and an auto-increment flag.
pub struct Bgpi {
    pub i: u8,
    pub auto_increment: bool,
}

impl Bgpi {
    pub fn power_up() -> (r: Self)
        ensures
            r.i == 0 && !r.auto_increment,
    {
        Self { i: 0x00, auto_increment: false }
    }

    pub fn get(&self) -> (r: u8)
        requires
            self.i < 64,
        ensures
            r == self.i + if self.auto_increment { 0x80u8 } else { 0x00u8 },
    {
        let a: u8 = if self.auto_increment { 0x80 } else { 0x00 };
        a + self.i
    }

    pub fn set(&mut self, v: u8)
        ensures
            final(self).auto_increment == (v >= 0x80),
            final(self).i == v % 64,
    {
        self.auto_increment = v >= 0x80;
        self.i = v % 64;
    }
}

/// The four gray levels of the monochrome palette.
#[derive(Clone, Copy, PartialEq, Eq, Structural, Debug)]
pub enum GrayShades {
    White,
    Light,
    Dark,
    Black,
}

impl GrayShades {
    pub open spec fn spec_level(self) -> u8 {
        match self {
            GrayShades::White => 0xFF,
            GrayShades::Light => 0xC0,
            GrayShades::Dark => 0x60,
            GrayShades::Black => 0x00,
        }
    }

    /// The intensity of the shade.
    pub fn level(self) -> (r: u8)
        ensures
            r == self.spec_level(),
    {
        match self {
            GrayShades::White => 0xFF,
            GrayShades::Light => 0xC0,
            GrayShades::Dark => 0x60,
            GrayShades::Black => 0x00,
        }
    }
}

/// The attributes of a background tile or an object.
pub struct Attr {
    pub priority: bool,
    pub yflip: bool,
    pub xflip: bool,
    pub palette_num_0: usize,
    pub bank: bool,
    pub palette_num_1: usize,
}

impl Attr {
    pub fn from(u: u8) -> (r: Self)
        ensures
            r.priority == (u >= 128),
            r.yflip == ((u / 64) % 2 == 1),
            r.xflip == ((u / 32) % 2 == 1),
            r.palette_num_0 == (u / 16) % 2,
            r.bank == ((u / 8) % 2 == 1),
            r.palette_num_1 == u % 8,
    {
        Self {
            priority: u >= 128,
            yflip: (u / 64) % 2 == 1,
            xflip: (u / 32) % 2 == 1,
            palette_num_0: ((u / 16) % 2) as usize,
            bank: (u / 8) % 2 == 1,
            palette_num_1: (u % 8) as usize,
        }
    }
}


/// A color palette byte as read through the palette data register: the
/// index picks a palette, a color and the low or high byte of its 15 bits.
pub open spec fn palette_byte(p: Seq<u8>, i: u8) -> u8 {
    let base = ((i / 8) * 4 + (i / 2) % 4) * 3;
    if i % 2 == 0 {
        p[base] | (p[base + 1] << 5u8)
    } else {
        (p[base + 1] >> 3u8) | (p[base + 2] << 2u8)
    }
}

/// 8 palettes of 4 colors of 3 components, each at most 0x1F.
pub open spec fn palette_wf(p: Seq<u8>) -> bool {
    p.len() == 96 && forall|k: int| 0 <= k < 96 ==> #[trigger] p[k] <= 0x1F
}

proof fn lemma_palette_bits(x: u8, v: u8)
    requires
        x <= 0x1F,
    ensures
        v & 0x1F <= 0x1F,
        (x & 0x18) | (v >> 5u8) <= 0x1F,
        (x & 0x07) | ((v & 0x03) << 3u8) <= 0x1F,
        (v >> 2u8) & 0x1F <= 0x1F,
{
    assert(v & 0x1F <= 0x1F && (x & 0x18) | (v >> 5u8) <= 0x1F && (x & 0x07) | ((v & 0x03) << 3u8) <= 0x1F
        && (v >> 2u8) & 0x1F <= 0x1F) by (bit_vector)
        requires x <= 0x1F;
}

fn read_palette(p: &Vec<u8>, idx: &Bgpi) -> (r: u8)
    requires
        palette_wf(p@),
        idx.i < 64,
    ensures
        r == palette_byte(p@, idx.i),
{
    let i = idx.i;
    let base = (((i / 8) * 4 + (i / 2) % 4) * 3) as usize;
    if i % 2 == 0 {
        p[base] | (p[base + 1] << 5)
    } else {
        (p[base + 1] >> 3) | (p[base + 2] << 2)
    }
}

/// Writes a palette byte at the index, then moves the index on if it
/// auto-increments.
fn write_palette(p: &mut Vec<u8>, idx: &mut Bgpi, v: u8)
    requires
        palette_wf(old(p)@),
        old(idx).i < 64,
    ensures
        palette_wf(final(p)@),
        final(idx).i < 64,
        final(idx).auto_increment == old(idx).auto_increment,
        final(idx).i == if old(idx).auto_increment { (old(idx).i + 1) % 64 } else { old(idx).i as int },
{
    let i = idx.i;
    let base = (((i / 8) * 4 + (i / 2) % 4) * 3) as usize;
    if i % 2 == 0 {
        let x = p[base + 1];
        proof {
            lemma_palette_bits(x, v);
        }
        p.set(base, v & 0x1F);
        p.set(base + 1, (x & 0x18) | (v >> 5));
    } else {
        let x = p[base + 1];
        proof {
            lemma_palette_bits(x, v);
        }
        p.set(base + 1, (x & 0x07) | ((v & 0x03) << 3));
        p.set(base + 2, (v >> 2) & 0x1F);
    }
    if idx.auto_increment {
        idx.i = (idx.i + 1) % 64;
    }
}

pub struct Gpu {
    /// The frame: for each line and pixel, three color bytes.
    pub data: Vec<u8>,
    pub term: Term,
    pub h_blank: bool,
    pub v_blank: bool,
    pub lcdc: Lcdc,
    pub stat: Stat,
    pub sy: u8,
    pub sx: u8,
    pub wy: u8,
    pub wx: u8,
    pub ly: u8,
    pub lc: u8,
    pub bgp: u8,
    pub op0: u8,
    pub op1: u8,
    pub cbgpi: Bgpi,
    pub cbgpd: Vec<u8>,
    pub cobpi: Bgpi,
    pub cobpd: Vec<u8>,
    /// Two banks of 8 KiB.
    pub ram: Vec<u8>,
    pub ram_bank: usize,
    pub oam: Vec<u8>,
    /// For each pixel of the line: the background priority bit and color.
    pub prio: Vec<(bool, u8)>,
    pub dots: u32,
}

impl Gpu {
    pub open spec fn wf(&self) -> bool {
        &&& self.data@.len() == SCREEN_W * SCREEN_H * 3
        &&& palette_wf(self.cbgpd@)
        &&& palette_wf(self.cobpd@)
        &&& self.cbgpi.i < 64
        &&& self.cobpi.i < 64
        &&& self.ram@.len() == 0x4000
        &&& self.ram_bank <= 1
        &&& self.oam@.len() == 0xA0
        &&& self.prio@.len() == SCREEN_W
        &&& self.ly < 154
        &&& self.dots < 456
        &&& self.stat.mode <= 3
    }

    pub open spec fn vram_index(&self, a: u16) -> int {
        self.ram_bank * 0x2000 + a - 0x8000
    }

    pub open spec fn stat_byte(&self) -> u8 {
        ((if self.stat.ly_interrupt { 0x40u8 } else { 0u8 }) + (if self.stat.m2_interrupt { 0x20u8 } else { 0u8 })
            + (if self.stat.m1_interrupt { 0x10u8 } else { 0u8 }) + (if self.stat.m0_interrupt {
            0x08u8
        } else {
            0u8
        }) + (if self.ly == self.lc { 0x04u8 } else { 0u8 }) + self.stat.mode) as u8
    }

    /// What the bus reads at an address of the video peripheral; 0xFF
    /// elsewhere.
    pub open spec fn read(&self, a: u16) -> u8 {
        if 0x8000 <= a <= 0x9FFF {
            self.ram@[self.vram_index(a)]
        } else if 0xFE00 <= a <= 0xFE9F {
            self.oam@[a - 0xFE00]
        } else if a == 0xFF40 {
            self.lcdc.data
        } else if a == 0xFF41 {
            self.stat_byte()
        } else if a == 0xFF42 {
            self.sy
        } else if a == 0xFF43 {
            self.sx
        } else if a == 0xFF44 {
            self.ly
        } else if a == 0xFF45 {
            self.lc
        } else if a == 0xFF47 {
            self.bgp
        } else if a == 0xFF48 {
            self.op0
        } else if a == 0xFF49 {
            self.op1
        } else if a == 0xFF4A {
            self.wy
        } else if a == 0xFF4B {
            self.wx
        } else if a == 0xFF4F {
            0xFE | self.ram_bank as u8
        } else if a == 0xFF68 {
            (self.cbgpi.i + if self.cbgpi.auto_increment { 0x80u8 } else { 0x00u8 }) as u8
        } else if a == 0xFF69 {
            palette_byte(self.cbgpd@, self.cbgpi.i)
        } else if a == 0xFF6A {
            (self.cobpi.i + if self.cobpi.auto_increment { 0x80u8 } else { 0x00u8 }) as u8
        } else if a == 0xFF6B {
            palette_byte(self.cobpd@, self.cobpi.i)
        } else {
            0xFF
        }
    }

    pub fn power_up(term: Term) -> (r: Self)
        ensures
            r.wf(),
            r.term == term,
            !r.h_blank && !r.v_blank,
            r.ly == 0 && r.dots == 0,
            r.lcdc.data == 0x48,
    {
        let p = filled(96, 0);
        let q = filled(96, 0);
        let mut prio: Vec<(bool, u8)> = Vec::new();
        let mut i: usize = 0;
        while i < SCREEN_W
            invariant
                i <= SCREEN_W,
                prio@.len() == i,
            decreases SCREEN_W - i,
        {
            prio.push((true, 0));
            i = i + 1;
        }
        Self {
            data: filled(SCREEN_W * SCREEN_H * 3, 0xFF),
            term,
            h_blank: false,
            v_blank: false,
            lcdc: Lcdc::power_up(),
            stat: Stat::power_up(),
            sy: 0x00,
            sx: 0x00,
            wy: 0x00,
            wx: 0x00,
            ly: 0x00,
            lc: 0x00,
            bgp: 0x00,
            op0: 0x00,
            op1: 0x01,
            cbgpi: Bgpi::power_up(),
            cbgpd: p,
            cobpi: Bgpi::power_up(),
            cobpd: q,
            ram: filled(0x4000, 0),
            ram_bank: 0x00,
            oam: filled(0xA0, 0),
            prio,
            dots: 0,
        }
    }

    /// A byte of video RAM bank 0.
    pub fn get_ram0(&self, a: u16) -> (r: u8)
        requires
            self.wf(),
            0x8000 <= a <= 0x9FFF,
        ensures
            r == self.ram@[a - 0x8000],
    {
        self.ram[a as usize - 0x8000]
    }

    /// A byte of video RAM bank 1.
    pub fn get_ram1(&self, a: u16) -> (r: u8)
        requires
            self.wf(),
            0x8000 <= a <= 0x9FFF,
        ensures
            r == self.ram@[a - 0x6000],
    {
        self.ram[a as usize - 0x6000]
    }

    /// The gray shade of color `i` in the monochrome palette `v`.
    pub fn get_gray_shaders(v: u8, i: u8) -> (r: GrayShades)
        requires
            i < 4,
        ensures
            (v >> (2 * i) as u8) % 4 == 0 ==> r == GrayShades::White,
            (v >> (2 * i) as u8) % 4 == 1 ==> r == GrayShades::Light,
            (v >> (2 * i) as u8) % 4 == 2 ==> r == GrayShades::Dark,
            (v >> (2 * i) as u8) % 4 == 3 ==> r == GrayShades::Black,
    {
        match (v >> (2 * i)) % 4 {
            0x00 => GrayShades::White,
            0x01 => GrayShades::Light,
            0x02 => GrayShades::Dark,
            _ => GrayShades::Black,
        }
    }

    /// Paints pixel `x` of the current line gray.
    pub fn set_gre(&mut self, x: usize, g: u8)
        requires
            old(self).wf(),
            x < SCREEN_W,
            old(self).ly < SCREEN_H,
        ensures
            final(self).wf(),
            *final(self) == (Gpu { data: final(self).data, ..*old(self) }),
    {
        let i = (self.ly as usize * SCREEN_W + x) * 3;
        self.data.set(i, g);
        self.data.set(i + 1, g);
        self.data.set(i + 2, g);
    }

    /// Paints pixel `x` of the current line from a 15-bit color, with the
    /// color correction of the color model's screen.
    pub fn set_rgb(&mut self, x: usize, r: u8, g: u8, b: u8)
        requires
            old(self).wf(),
            x < SCREEN_W,
            old(self).ly < SCREEN_H,
            r <= 0x1F && g <= 0x1F && b <= 0x1F,
        ensures
            final(self).wf(),
            *final(self) == (Gpu { data: final(self).data, ..*old(self) }),
    {
        let r = r as u32;
        let g = g as u32;
        let b = b as u32;
        let lr = ((r * 13 + g * 2 + b) / 2) as u8;
        let lg = ((g * 3 + b) * 2) as u8;
        let lb = ((r * 3 + g * 2 + b * 11) / 2) as u8;
        let i = (self.ly as usize * SCREEN_W + x) * 3;
        self.data.set(i, lr);
        self.data.set(i + 1, lg);
        self.data.set(i + 2, lb);
    }
}


impl Gpu {
    /// What a write of `v` at `a` leaves: a byte of video RAM or object
    /// memory, or an LCD register; the frame and the H-Blank flag stay
    /// unless the display is switched off.
    pub open spec fn set_post(&self, old: &Gpu, a: u16, v: u8) -> bool {
        &&& self.wf()
        &&& self.h_blank == old.h_blank
        &&& (0x8000 <= a <= 0x9FFF) ==> *self == (Gpu { ram: self.ram, ..*old }) && self.ram@ == old.ram@.update(
            old.vram_index(a),
            v,
        )
        &&& (0xFE00 <= a <= 0xFE9F) ==> *self == (Gpu { oam: self.oam, ..*old }) && self.oam@ == old.oam@.update(
            a - 0xFE00,
            v,
        )
        &&& (!(0x8000 <= a <= 0x9FFF) && !(0xFE00 <= a <= 0xFE9F)) ==> self.ram@ == old.ram@ && self.oam@
            == old.oam@
        &&& a != 0xFF4F ==> self.ram_bank == old.ram_bank
        &&& a == 0xFF4F ==> *self == (Gpu { ram_bank: (v % 2) as usize, ..*old })
        &&& a == 0xFF40 ==> self.lcdc.data == v
        &&& a == 0xFF42 ==> *self == (Gpu { sy: v, ..*old })
        &&& a == 0xFF43 ==> *self == (Gpu { sx: v, ..*old })
        &&& a == 0xFF45 ==> *self == (Gpu { lc: v, ..*old })
        &&& a == 0xFF47 ==> *self == (Gpu { bgp: v, ..*old })
        &&& a == 0xFF48 ==> *self == (Gpu { op0: v, ..*old })
        &&& a == 0xFF49 ==> *self == (Gpu { op1: v, ..*old })
        &&& a == 0xFF4A ==> *self == (Gpu { wy: v, ..*old })
        &&& a == 0xFF4B ==> *self == (Gpu { wx: v, ..*old })
        &&& a == 0xFF44 ==> *self == *old
    }

    /// Reads video RAM, object memory or an LCD register.
    pub fn get(&self, a: u16) -> (r: u8)
        requires
            self.wf(),
        ensures
            r == self.read(a),
    {
        if 0x8000 <= a && a <= 0x9FFF {
            return self.ram[self.ram_bank * 0x2000 + a as usize - 0x8000];
        }
        if 0xFE00 <= a && a <= 0xFE9F {
            return self.oam[a as usize - 0xFE00];
        }
        match a {
            0xFF40 => self.lcdc.data,
            0xFF41 => {
                let bit6: u8 = if self.stat.ly_interrupt { 0x40 } else { 0x00 };
                let bit5: u8 = if self.stat.m2_interrupt { 0x20 } else { 0x00 };
                let bit4: u8 = if self.stat.m1_interrupt { 0x10 } else { 0x00 };
                let bit3: u8 = if self.stat.m0_interrupt { 0x08 } else { 0x00 };
                let bit2: u8 = if self.ly == self.lc { 0x04 } else { 0x00 };
                bit6 + bit5 + bit4 + bit3 + bit2 + self.stat.mode
            },
            0xFF42 => self.sy,
            0xFF43 => self.sx,
            0xFF44 => self.ly,
            0xFF45 => self.lc,
            0xFF47 => self.bgp,
            0xFF48 => self.op0,
            0xFF49 => self.op1,
            0xFF4A => self.wy,
            0xFF4B => self.wx,
            0xFF4F => 0xFE | self.ram_bank as u8,
            0xFF68 => self.cbgpi.get(),
            0xFF69 => read_palette(&self.cbgpd, &self.cbgpi),
            0xFF6A => self.cobpi.get(),
            0xFF6B => read_palette(&self.cobpd, &self.cobpi),
            _ => 0xFF,
        }
    }

    /// Writes video RAM, object memory or an LCD register. Turning the
    /// display off resets the line, the mode and the frame.
    pub fn set(&mut self, a: u16, v: u8)
        requires
            old(self).wf(),
        ensures
            final(self).set_post(old(self), a, v),
    {
        if 0x8000 <= a && a <= 0x9FFF {
            self.ram.set(self.ram_bank * 0x2000 + a as usize - 0x8000, v);
            return ;
        }
        if 0xFE00 <= a && a <= 0xFE9F {
            self.oam.set(a as usize - 0xFE00, v);
            return ;
        }
        match a {
            0xFF40 => {
                self.lcdc.data = v;
                if v < 0x80 {
                    self.dots = 0;
                    self.ly = 0;
                    self.stat.mode = 0;
                    self.data = filled(SCREEN_W * SCREEN_H * 3, 0xFF);
                    self.v_blank = true;
                }
            },
            0xFF41 => {
                self.stat.ly_interrupt = v & 0x40 != 0x00;
                self.stat.m2_interrupt = v & 0x20 != 0x00;
                self.stat.m1_interrupt = v & 0x10 != 0x00;
                self.stat.m0_interrupt = v & 0x08 != 0x00;
            },
            0xFF42 => self.sy = v,
            0xFF43 => self.sx = v,
            0xFF45 => self.lc = v,
            0xFF47 => self.bgp = v,
            0xFF48 => self.op0 = v,
            0xFF49 => self.op1 = v,
            0xFF4A => self.wy = v,
            0xFF4B => self.wx = v,
            0xFF4F => self.ram_bank = (v % 2) as usize,
            0xFF68 => self.cbgpi.set(v),
            0xFF69 => write_palette(&mut self.cbgpd, &mut self.cbgpi, v),
            0xFF6A => self.cobpi.set(v),
            0xFF6B => write_palette(&mut self.cobpd, &mut self.cobpi, v),
            _ => {},
        }
    }

    /// Advances the scanline timing by `cycles`: the line counter, the
    /// mode, the V-Blank and LCD-status interrupts, and the rendering of a
    /// line on entering H-Blank.
    pub fn next(&mut self, cycles: u32, intf: &mut Intf)
        requires
            old(self).wf(),
        ensures
            final(self).wf(),
            final(self).ram@ == old(self).ram@,
            final(self).oam@ == old(self).oam@,
            final(self).ram_bank == old(self).ram_bank,
            final(self).lcdc == old(self).lcdc,
            !old(self).lcdc.bit(7) ==> *final(self) == *old(self) && final(intf).data == old(intf).data,
            final(intf).data & 0xFC == old(intf).data & 0xFC,
    {
        if !self.lcdc.bit7() {
            return ;
        }
        self.h_blank = false;
        if cycles == 0 {
            return ;
        }
        let c = (cycles - 1) / 80 + 1;
        let mut i: u32 = 0;
        while i < c
            invariant
                self.wf(),
                self.ram@ == old(self).ram@,
                self.oam@ == old(self).oam@,
                self.ram_bank == old(self).ram_bank,
                self.lcdc == old(self).lcdc,
                c <= 0x0400_0000,
                intf.data & 0xFC == old(intf).data & 0xFC,
            decreases c - i,
        {
            let last = i == c - 1;
            i = i + 1;
            if last {
                self.dots = self.dots + cycles % 80;
            } else {
                self.dots = self.dots + 80;
            }
            let d = self.dots;
            self.dots = self.dots % 456;
            if d != self.dots {
                self.ly = (self.ly + 1) % 154;
                if self.stat.ly_interrupt && self.ly == self.lc {
                    intf.hi(Flags::LCDStat);
                }
            }
            if self.ly >= 144 {
                if self.stat.mode == 1 {
                    continue;
                }
                self.stat.mode = 1;
                self.v_blank = true;
                intf.hi(Flags::Vblank);
                if self.stat.m1_interrupt {
                    intf.hi(Flags::LCDStat);
                }
            } else if self.dots <= 80 {
                if self.stat.mode == 2 {
                    continue;
                }
                self.stat.mode = 2;
                if self.stat.m2_interrupt {
                    intf.hi(Flags::LCDStat);
                }
            } else if self.dots <= (80 + 172) {
                self.stat.mode = 3;
            } else {
                if self.stat.mode == 0 {
                    continue;
                }
                self.stat.mode = 0;
                self.h_blank = true;
                if self.stat.m0_interrupt {
                    intf.hi(Flags::LCDStat);
                }
                if self.term == Term::GBC || self.lcdc.bit0() {
                    self.draw_bg();
                }
                if self.lcdc.bit1() {
                    self.draw_sprites();
                }
            }
        }
    }
}


impl Gpu {
    /// Renders the background and window pixels of the current line and
    /// records each pixel's priority and color for the objects.
    pub fn draw_bg(&mut self)
        requires
            old(self).wf(),
            old(self).ly < SCREEN_H,
        ensures
            final(self).wf(),
            *final(self) == (Gpu { data: final(self).data, prio: final(self).prio, ..*old(self) }),
    {
        let show_window = self.lcdc.bit5() && self.wy <= self.ly;
        let tile_base: u16 = if self.lcdc.bit4() { 0x8000 } else { 0x8800 };
        let wx = self.wx.wrapping_sub(7);
        let py = if show_window { self.ly.wrapping_sub(self.wy) } else { self.sy.wrapping_add(self.ly) };
        let ty = (py / 8) as u16;
        let mut x: usize = 0;
        while x < SCREEN_W
            invariant
                self.wf(),
                self.ly < SCREEN_H,
                *self == (Gpu { data: self.data, prio: self.prio, ..*old(self) }),
                tile_base == 0x8000 || tile_base == 0x8800,
                ty < 32,
            decreases SCREEN_W - x,
        {
            let in_window = show_window && x as u8 >= wx;
            let px = if in_window { x as u8 - wx } else { self.sx.wrapping_add(x as u8) };
            let tx = (px / 8) as u16;
            let bg_base: u16 = if in_window {
                if self.lcdc.bit6() { 0x9C00 } else { 0x9800 }
            } else if self.lcdc.bit3() {
                0x9C00
            } else {
                0x9800
            };
            let tile_addr = bg_base + ty * 32 + tx;
            let tile_number = self.get_ram0(tile_addr);
            let tile_offset: u16 = if self.lcdc.bit4() {
                tile_number as u16 * 16
            } else {
                ((tile_number as u16 + 128) % 256) * 16
            };
            let tile_location = tile_base + tile_offset;
            let tile_attr = Attr::from(self.get_ram1(tile_addr));
            let tile_y = if tile_attr.yflip { 7 - py % 8 } else { py % 8 };
            let row = tile_location + (tile_y as u16) * 2;
            let (d0, d1) = if self.term == Term::GBC && tile_attr.bank {
                (self.get_ram1(row), self.get_ram1(row + 1))
            } else {
                (self.get_ram0(row), self.get_ram0(row + 1))
            };
            let tile_x = if tile_attr.xflip { 7 - px % 8 } else { px % 8 };
            let color_l: u8 = if (d0 >> (7 - tile_x)) % 2 == 1 { 1 } else { 0 };
            let color_h: u8 = if (d1 >> (7 - tile_x)) % 2 == 1 { 2 } else { 0 };
            let color = color_h + color_l;
            self.prio.set(x, (tile_attr.priority, color));
            if self.term == Term::GBC {
                let base = (tile_attr.palette_num_1 * 4 + color as usize) * 3;
                let r = self.cbgpd[base];
                let g = self.cbgpd[base + 1];
                let b = self.cbgpd[base + 2];
                self.set_rgb(x, r, g, b);
            } else {
                let shade = Self::get_gray_shaders(self.bgp, color).level();
                self.set_gre(x, shade);
            }
            x = x + 1;
        }
    }

    /// Renders the objects that cross the current line over the
    /// background, honoring the priorities that `draw_bg` recorded.
    pub fn draw_sprites(&mut self)
        requires
            old(self).wf(),
            old(self).ly < SCREEN_H,
        ensures
            final(self).wf(),
            *final(self) == (Gpu { data: final(self).data, ..*old(self) }),
    {
        let sprite_size: u8 = if self.lcdc.bit2() { 16 } else { 8 };
        let ly = self.ly;
        let mut i: usize = 0;
        while i < 40
            invariant
                self.wf(),
                self.ly == ly,
                ly < SCREEN_H,
                *self == (Gpu { data: self.data, ..*old(self) }),
                sprite_size == 8 || sprite_size == 16,
            decreases 40 - i,
        {
            let sprite_addr = i * 4;
            i = i + 1;
            let py = self.oam[sprite_addr].wrapping_sub(16);
            let px = self.oam[sprite_addr + 1].wrapping_sub(8);
            let tile_number = self.oam[sprite_addr + 2] & if sprite_size == 16 { 0xFE } else { 0xFF };
            let tile_attr = Attr::from(self.oam[sprite_addr + 3]);
            if py <= 0xFF - sprite_size + 1 {
                if ly < py || ly > py + (sprite_size - 1) {
                    continue;
                }
            } else {
                if ly > py.wrapping_add(sprite_size) - 1 {
                    continue;
                }
            }
            if px >= (SCREEN_W as u8) && px <= (0xFF - 7) {
                continue;
            }
            let dy = ly.wrapping_sub(py);
            assert(dy < sprite_size);
            let tile_y = if tile_attr.yflip { sprite_size - 1 - dy } else { dy };
            let tile_y_addr = 0x8000u16 + (tile_number as u16) * 16 + (tile_y as u16) * 2;
            let (d0, d1) = if self.term == Term::GBC && tile_attr.bank {
                (self.get_ram1(tile_y_addr), self.get_ram1(tile_y_addr + 1))
            } else {
                (self.get_ram0(tile_y_addr), self.get_ram0(tile_y_addr + 1))
            };
            let mut x: u8 = 0;
            while x < 8
                invariant
                    self.wf(),
                    self.ly == ly,
                    ly < SCREEN_H,
                    *self == (Gpu { data: self.data, ..*old(self) }),
                    tile_attr.palette_num_1 < 8,
                decreases 8 - x,
            {
                let sx = px.wrapping_add(x);
                let tile_x = if tile_attr.xflip { 7 - x } else { x };
                x = x + 1;
                if sx >= (SCREEN_W as u8) {
                    continue;
                }
                let color_l: u8 = if (d0 >> (7 - tile_x)) % 2 == 1 { 1 } else { 0 };
                let color_h: u8 = if (d1 >> (7 - tile_x)) % 2 == 1 { 2 } else { 0 };
                let color = color_h + color_l;
                if color == 0 {
                    continue;
                }
                let prio = self.prio[sx as usize];
                let skip = if self.term == Term::GBC && !self.lcdc.bit0() {
                    prio.1 == 0
                } else if prio.0 {
                    prio.1 != 0
                } else {
                    tile_attr.priority && prio.1 != 0
                };
                if skip {
                    continue;
                }
                if self.term == Term::GBC {
                    let base = (tile_attr.palette_num_1 * 4 + color as usize) * 3;
                    let r = self.cobpd[base];
                    let g = self.cobpd[base + 1];
                    let b = self.cobpd[base + 2];
                    self.set_rgb(sx as usize, r, g, b);
                } else {
                    let pal = if tile_attr.palette_num_0 == 1 { self.op1 } else { self.op0 };
                    let shade = Self::get_gray_shaders(pal, color).level();
                    self.set_gre(sx as usize, shade);
                }
            }
        }
    }
}

} // verus!
