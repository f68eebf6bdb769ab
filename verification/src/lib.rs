//! An interpreter for the CHIP-8 virtual machine.
//!
//! The machine is put together from its parts, one module each:
//!
//! - [`mmu`]: the memory bus, 4096 bytes in which every address wraps;
//! - [`alu`]: the arithmetic of the registers and its flags;
//! - [`opcode`]: instruction words and their decoding;
//! - [`display`]: the pixel grid, sprite drawing and the fade of pixels;
//! - [`timer`]: the delay and sound timers and their 60 Hz cadence;
//! - [`machine`]: the mathematical model of the whole state and of every
//!   operation on it, over which the contracts are stated;
//! - [`cpu`]: the interpreter that runs one instruction at a time;
//! - [`frame`]: the interpreter as a host drives it, one frame at a time;
//! - [`sources`]: the clock and the random generator.
//!
//! A word that is no instruction does not stop the program: the step ends in
//! a [`machine::Fault`], which the caller receives.

pub mod alu;
pub mod cpu;
pub mod display;
pub mod frame;
pub mod machine;
pub mod mmu;
pub mod opcode;
pub mod sources;
pub mod timer;

pub use crate::cpu::CPU;
pub use crate::frame::Core;
pub use crate::machine::{Fault, Machine};
pub use crate::opcode::{Instruction, Opcode};
