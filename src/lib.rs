//! A cycle-stepped emulator core for an 8-bit handheld console: the CPU
//! instruction interpreter with its interrupt controller, the memory-mapped
//! address space, the divider/timer unit and the scanline video controller,
//! plus the audio frame sequencer and the cartridge-header metadata.
pub mod registers;
pub mod memory;
pub mod timer;
pub mod interrupts;
pub mod joypad;
pub mod ppu;
pub mod alu;
pub mod cpu;
pub mod cartridge;
pub mod apu;
