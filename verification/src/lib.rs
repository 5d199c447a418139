//! Core of a Nintendo Entertainment System emulator: a MOS 6502 CPU
//! interpreter, the picture processing unit (PPU) timing and memory model,
//! the audio processing unit (APU) channel state machines, and the
//! memory-mapped bus that joins them.
//!
//! Every state transition is specified against a mathematical view of the
//! machine and proved to match it. Invalid accesses that real hardware or a
//! debugging emulator would treat as fatal (reads of write-only registers,
//! writes into cartridge ROM, and so on) latch a [`Fault`](fault::Fault) on
//! the bus instead of panicking; the run loop stops as soon as one is set.

pub mod apu;
pub mod bus;
pub mod cartridge;
pub mod cpu;
pub mod fault;
pub mod joypad;
pub mod ppu;
