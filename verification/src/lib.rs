//! A virtual machine for a fixed 8-bit instruction set: 4095 bytes of memory,
//! sixteen registers, a sixteen-entry call stack, a 64x32 monochrome display,
//! a sixteen-key pad and two countdown timers.
//!
//! The executable machine is [`cpu::CPU`]. Its mathematical model is
//! [`machine::Machine`]; every instruction is a function on that model in
//! [`semantics`], and each executable instruction in [`opcodes`] is proved to
//! compute exactly that function. [`decode`] takes an instruction word apart,
//! and [`laws`] holds what is proved of the instruction set as a whole.
pub mod machine;
pub mod decode;
pub mod semantics;
pub mod cpu;
pub mod opcodes;
pub mod laws;
