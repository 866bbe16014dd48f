//! An emulator of a 65C02-like microprocessor: opcode table, decoder, bus and CPU core, with
//! an assembler that produces programs for it and a reader for the toolchain's debug symbols.
//!
//! The CPU's contracts are stated over `semantics`, which gives each instruction's effect on
//! the registers and on memory as functions; `theorems` proves laws of those functions.
pub mod isa;
pub mod dec;
pub mod uart;
pub mod bus;
pub mod semantics;
pub mod cpu;
pub mod theorems;
pub mod assembler;
pub mod text;
pub mod dbginfo;
