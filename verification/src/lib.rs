//! Core of an emulator for the CPU of an 8-bit handheld game console: a
//! register file with paired 16-bit views, a flag-aware arithmetic-logic
//! unit, a single-step instruction dispatcher, and a byte-granular memory
//! bus capability with reference implementations.

pub mod cpu;
pub mod gamelad;
