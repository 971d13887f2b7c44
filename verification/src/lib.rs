//! Core of a Super Nintendo emulator: a 65C816 interpreter, the address-bus
//! decoder of the console, and a disassembler that follows the flow of the
//! upcoming instructions.
//!
//! Every executable function carries a contract over the mathematical model
//! of the machine, [`console::Machine`]. What an instruction means is
//! written down once, in [`semantics`]; the executor in [`execute`] is
//! proved to do exactly that, and [`laws`] proves what holds of several
//! operations together. No function of the library panics.
//!
//! - [`cartridge`]: the cartridge, and the loader of its header
//! - [`memory`]: the map decoder and the reads and writes on the bus
//! - [`opcode`]: the instruction set and the two decode tables
//! - [`address`]: the address resolver and the decoder
//! - [`cycles`]: cycle accounting, and the step that runs one instruction
//! - [`disassembler`] and [`debugger`]: the walk over the upcoming
//!   instructions, and the branch arrows beside them
//! - [`text`] and [`command`]: what a debugger prints and reads

pub mod address;
pub mod cartridge;
pub mod command;
pub mod console;
pub mod cpu;
pub mod cycles;
pub mod debugger;
pub mod disassembler;
pub mod error;
pub mod execute;
pub mod laws;
pub mod memory;
pub mod opcode;
pub mod registers;
pub mod semantics;
pub mod text;
