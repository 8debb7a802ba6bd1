//! Fetch and decode stage of a CHIP-8 interpreter.
//!
//! A CHIP-8 instruction is one big-endian 16-bit word. Decoding splits such
//! a word into its four nibbles and maps it to the instruction it encodes,
//! or to a failure carrying the nibbles when no instruction has that
//! encoding.
//!
//! - [`operand`]: register indices, constants and addresses.
//! - [`instruction`]: the instruction set and the word each instruction is
//!   written as.
//! - [`decode`]: the dispatch table and the decoder.
//! - [`laws`]: decoding and encoding are inverse to each other.
//! - [`machine`]: memory and machine state, from which instructions are
//!   fetched.
pub mod decode;
pub mod instruction;
pub mod laws;
pub mod machine;
pub mod operand;

pub use decode::{decode, decode_nibbles, split_nibbles};
pub use instruction::{DecodeFailure, Instruction};
pub use machine::{Memory, SystemState};
pub use operand::{Address, Const4, Const8, ConstructionRangeError, Var};
