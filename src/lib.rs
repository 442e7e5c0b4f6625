//! An emulator core for an 8-bit handheld console: the register file, the
//! instruction interpreter, the address bus and the cartridge mappers.
//!
//! The bus (`mmunit::Mmunit`) owns every peripheral and is handed to the
//! CPU by reference for each step; the CPU reads and writes only through
//! it. A step returns the clock cycles it took, and the board
//! (`motherboard::MotherBoard`) then advances the peripherals by them.
//! Files, the wall clock, the window and the audio device belong to the
//! driver: it passes the ROM image, the saved RAM and the clock's base
//! instant in, and writes back what `Cartridge::sav` and
//! `Cartridge::rtc_sav` return.

pub mod bits;
pub mod alu;
pub mod apu;
pub mod cartridge;
pub mod clock;
pub mod cpu;
pub mod gpu;
pub mod intf;
pub mod joypad;
pub mod linkcable;
pub mod mmunit;
pub mod motherboard;
pub mod registers;
pub mod timer;
