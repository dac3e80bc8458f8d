//! Register file and ADD-family arithmetic core of a Game Boy style 8-bit CPU.

pub mod alu;
pub mod cpu;
pub mod error;
pub mod flags;
pub mod names;
pub mod register_file;
