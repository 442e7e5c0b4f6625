use oxidboy::apu::{period, Channel, FrameSequencer, FrequencySweep, LengthCounter, Lfsr, Register, VolumeEnvelope};
use oxidboy::clock::Clock;
use oxidboy::gpu::{Gpu, GrayShades, Hdma, HdmaMode};
use oxidboy::intf::{Flags, Intf};
use oxidboy::joypad::{Joypad, Key};
use oxidboy::linkcable::Serial;
use oxidboy::registers::Term;
use oxidboy::timer::Timer;

#[test]
fn clock_counts_ticks_and_remainder() {
    let mut c = Clock::power_up(256);
    assert_eq!(c.next(100), 0);
    assert_eq!(c.next(500), 2);
    assert_eq!(c.n, 88);
    let mut one = Clock::power_up(1);
    assert_eq!(one.next(u32::MAX), u32::MAX);
}

#[test]
fn interrupt_lines_set_their_bits() {
    let mut i = Intf::power_up();
    i.hi(Flags::Timer);
    i.hi(Flags::Vblank);
    assert_eq!(i.data, 0x05);
    i.hi(Flags::Joypad);
    assert_eq!(i.data, 0x15);
}

#[test]
fn joypad_matrix_and_select() {
    let mut intf = Intf::power_up();
    let mut j = Joypad::power_up();
    j.keydown(Key::A, &mut intf);
    assert_eq!(intf.data, 0x10);
    j.set(0xFF00, 0x10);
    assert_eq!(j.get(0xFF00), 0x10 | 0x0E);
    j.set(0xFF00, 0x20);
    assert_eq!(j.get(0xFF00), 0x20 | 0x0F);
    j.keyup(Key::A);
    assert_eq!(j.matrix, 0xFF);
}

#[test]
fn serial_registers() {
    let mut s = Serial::power_up();
    s.set(0xFF01, 0x41);
    s.set(0xFF02, 0x81);
    assert_eq!(s.get(0xFF01), 0x41);
    assert_eq!(s.get(0xFF02), 0x81);
}

#[test]
fn timer_rate_change_restarts_from_tma() {
    let mut t = Timer::power_up();
    let mut intf = Intf::power_up();
    t.set(0xFF06, 0x20);
    t.set(0xFF05, 0x99);
    t.set(0xFF07, 0x05);
    assert_eq!(t.get(0xFF05), 0x20);
    t.next(64, &mut intf);
    assert_eq!(t.get(0xFF05), 0x24);
    t.set(0xFF04, 0x55);
    assert_eq!(t.get(0xFF04), 0x00);
    assert_eq!(intf.data, 0);
}

#[test]
fn video_registers_and_palettes() {
    let mut g = Gpu::power_up(Term::GBC);
    g.set(0x8000, 0x12);
    assert_eq!(g.get(0x8000), 0x12);
    g.set(0xFF4F, 0x01);
    assert_eq!(g.get(0xFF4F), 0xFF);
    assert_eq!(g.get(0x8000), 0x00);
    g.set(0xFE10, 0x33);
    assert_eq!(g.get(0xFE10), 0x33);
    g.set(0xFF68, 0x80);
    g.set(0xFF69, 0xFF);
    g.set(0xFF69, 0x7F);
    assert_eq!(g.get(0xFF68), 0x82);
    g.set(0xFF68, 0x00);
    assert_eq!(g.get(0xFF69), 0xFF);
    g.set(0xFF68, 0x01);
    assert_eq!(g.get(0xFF69), 0x7F);
    g.set(0xFF41, 0x40);
    assert_eq!(g.get(0xFF41), 0x40 | 0x04);
}

#[test]
fn video_timing_raises_vblank() {
    let mut g = Gpu::power_up(Term::GB);
    let mut intf = Intf::power_up();
    g.set(0xFF40, 0x91);
    for _ in 0..144 {
        g.next(456, &mut intf);
    }
    assert_eq!(g.get(0xFF44), 144);
    assert!(g.v_blank);
    assert_eq!(intf.data & 0x01, 0x01);
}

#[test]
fn gray_shades_from_palette() {
    assert_eq!(Gpu::get_gray_shaders(0b1110_0100, 0), GrayShades::White);
    assert_eq!(Gpu::get_gray_shaders(0b1110_0100, 1), GrayShades::Light);
    assert_eq!(Gpu::get_gray_shaders(0b1110_0100, 2), GrayShades::Dark);
    assert_eq!(Gpu::get_gray_shaders(0b1110_0100, 3), GrayShades::Black);
    assert_eq!(GrayShades::Light.level(), 0xC0);
}

#[test]
fn vram_transfer_registers() {
    let mut h = Hdma::power_up();
    h.set(0xFF51, 0x12);
    h.set(0xFF52, 0x3F);
    h.set(0xFF53, 0xFF);
    h.set(0xFF54, 0xFF);
    assert_eq!(h.src, 0x1230);
    assert_eq!(h.dst, 0x9FF0);
    h.set(0xFF55, 0x83);
    assert!(h.active);
    assert_eq!(h.mode, HdmaMode::Hdma);
    assert_eq!(h.get(0xFF55), 0x03);
    h.set(0xFF55, 0x00);
    assert!(!h.active);
    assert_eq!(h.get(0xFF55), 0x83);
}

#[test]
fn sound_register_fields() {
    let mut r = Register::power_up(Channel::Square1);
    assert_eq!(r.nrx1, 0x40);
    r.nrx0 = 0b0101_1011;
    assert_eq!(r.get_sweep_period(), 5);
    assert!(r.get_negate());
    assert_eq!(r.get_shift(), 3);
    r.set_frequency(0x0723);
    assert_eq!(r.get_frequency(), 0x0723);
    assert_eq!(period(&r), (2048 - 0x0723) * 4);
    r.set_trigger(true);
    assert!(r.get_trigger());
    assert_eq!(r.get_frequency(), 0x0723);
    r.nrx1 = 0x3F;
    assert_eq!(r.get_length_load(), 1);
    let mut n = Register::power_up(Channel::Noise);
    n.nrx3 = 0x21;
    assert_eq!(period(&n), 16 * 4);
    n.nrx3 = 0x00;
    assert_eq!(period(&n), 8);
}

#[test]
fn length_counter_silences_channel() {
    let mut r = Register::power_up(Channel::Square2);
    let mut lc = LengthCounter::power_up();
    lc.reload(&r);
    assert_eq!(lc.n, 64);
    r.nrx4 = 0xC0;
    lc.n = 1;
    lc.next(&mut r);
    assert_eq!(lc.n, 0);
    assert!(!r.get_trigger());
}

#[test]
fn envelope_steps_volume() {
    let mut r = Register::power_up(Channel::Noise);
    r.nrx2 = 0xA9;
    let mut ve = VolumeEnvelope::power_up();
    ve.reload(&r);
    assert_eq!(ve.volume, 0x0A);
    ve.next(&r);
    assert_eq!(ve.volume, 0x0B);
}

#[test]
fn sweep_computes_next_frequency() {
    let mut r = Register::power_up(Channel::Square1);
    r.nrx0 = 0x11;
    r.set_frequency(0x0400);
    let mut fs = FrequencySweep::power_up();
    fs.reload(&mut r);
    assert!(fs.enable);
    assert_eq!(fs.newfeq, 0x0600);
    r.nrx0 = 0x19;
    fs.frequency_calc(&r);
    assert_eq!(fs.newfeq, 0x0200);
}

#[test]
fn frame_sequencer_and_noise_register() {
    let mut f = FrameSequencer::power_up();
    for k in 1..=8u8 {
        assert_eq!(f.next(), k % 8);
    }
    let r = Register::power_up(Channel::Noise);
    let mut l = Lfsr::power_up();
    assert!(!l.next(&r));
    assert_eq!(l.n, 0x0002);
    l.n = 0x4000;
    assert!(l.next(&r));
    assert_eq!(l.n, 0x8001);
}

#[test]
fn clock_without_saved_base_starts_now() {
    let mut rom = vec![0u8; 0x8000];
    let logo: [u8; 48] = [
        0xCE, 0xED, 0x66, 0x66, 0xCC, 0x0D, 0x00, 0x0B, 0x03, 0x73, 0x00, 0x83, 0x00, 0x0C, 0x00, 0x0D, 0x00, 0x08,
        0x11, 0x1F, 0x88, 0x89, 0x00, 0x0E, 0xDC, 0xCC, 0x6E, 0xE6, 0xDD, 0xDD, 0xD9, 0x99, 0xBB, 0xBB, 0x67, 0x63,
        0x6E, 0x0E, 0xEC, 0xCC, 0xDD, 0xDC, 0x99, 0x9F, 0xBB, 0xB9, 0x33, 0x3E,
    ];
    rom[0x0104..0x0134].copy_from_slice(&logo);
    rom[0x0147] = 0x0F;
    let mut v: u8 = 0;
    for i in 0x0134..0x014D {
        v = v.wrapping_sub(rom[i]).wrapping_sub(1);
    }
    rom[0x014D] = v;
    let c = oxidboy::cartridge::power_up(rom.clone(), None, None, 1_000_000).unwrap();
    assert_eq!(c.rtc_sav(), Some(1_000_000));
    let c = oxidboy::cartridge::power_up(rom, None, Some(5), 1_000_000).unwrap();
    assert_eq!(c.rtc_sav(), Some(5));
}
