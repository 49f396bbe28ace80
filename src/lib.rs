//! Register file and fetch-decode-execute dispatcher of an 8-bit Game Boy style processor.

pub mod registers;
pub mod memory;
pub mod instruction;
pub mod cpu;

pub use registers::{Clock, RegisterPair, Registers, SmallWidthRegister, WideRegister};
pub use memory::Memory;
pub use instruction::{Behavior, Instruction, InstructionData};
pub use cpu::{StepError, CPU};
