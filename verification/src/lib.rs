//! Core of a cycle-driven emulator for the classic Sharp LR35902 handheld
//! console: CPU, memory bus, pixel processor, audio processor, timer and
//! joypad, advanced in lock-step by the cycle count of each executed
//! instruction.

pub mod apu;
pub mod bus;
pub mod cpu;
pub mod gameboy;
pub mod joypad;
pub mod manual_tests;
pub mod ppu;
pub mod memory;
pub mod timer;
