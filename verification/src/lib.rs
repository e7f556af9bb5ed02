//! The core of a Game Boy: register file, memory bus, instruction decoder,
//! execution engine and timer, and with them the picture unit and the
//! joypad, each with its behaviour stated as a contract.
//!
//! Cycle counts that cross the boundary of the processor are T-cycles
//! (clock ticks); one machine cycle is four of them. Inside the processor
//! the cost of an instruction is counted in machine cycles.

pub mod alu;
pub mod cpu;
pub mod emulator;
pub mod execute;
pub mod input;
pub mod instructions;
pub mod memory;
pub mod ppu;
pub mod registers;
pub mod rom;
pub mod semantics;
pub mod timer;
