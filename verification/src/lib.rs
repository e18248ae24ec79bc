//! A virtual machine for a 35-instruction, 8-bit architecture with a
//! monochrome bitmap display and a 16-key pad.
//!
//! A host makes a [`CPU`], loads a program image into it and calls
//! [`CPU::step`] once per frame with the state of the keys; the outcome of
//! the step says whether to go on, to play a tone and to redraw. The
//! machine never panics: what a program does wrong comes back as a
//! [`Chip8Error`].
//!
//! `machine` holds the machine as mathematics, against which `cpu` is
//! verified; `laws` and `sprite` hold what follows from it.

pub mod bitset;
pub mod cpu;
pub mod debug;
pub mod decoder;
pub mod disasm;
pub mod error;
pub mod framebuffer;
pub mod laws;
pub mod machine;
mod rng;
pub mod sprite;
pub mod text;
pub mod uncheckedarray;

pub use cpu::CPU;
pub use debug::{DebugController, RunState};
pub use decoder::{decode, Instruction};
pub use disasm::disassemble;
pub use error::Chip8Error;
pub use framebuffer::Framebuffer;
pub use machine::{StepOutcome, StepStatus};
pub use uncheckedarray::{UncheckedArray, UncheckedVec};
