//! Core of a DMG-model Game Boy system emulator: the CPU interpreter,
//! the memory bus it drives, the timer unit coupled to the bus's system
//! clock, and the PPU register-file surface.

pub mod gb;
