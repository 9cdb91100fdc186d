//! Core of an NES emulator: the 6502 CPU interpreter, the system bus with its
//! memory map, the iNES cartridge container, the controller's serial port and
//! the PPU's timing counters.
pub mod controller;
pub mod cpu;
pub mod execute;
pub mod laws;
pub mod memory;
pub mod opcodes;
pub mod ppu;
pub mod rom;
pub mod semantics;
