//! Instruction interpreter core of a real-mode 16-bit CPU emulator.
//!
//! The crate is split in three layers, leaves first:
//! - [`registers`]: the architectural register file (instruction pointer,
//!   general-purpose registers with 8-bit sub-register aliasing, segment
//!   registers, and the flags word with its reserved bits);
//! - [`operand`]: the ModRM operand decoder, a total function from one
//!   encoding byte to a tagged `{reg, rm}` operand pair;
//! - [`cpu`]: the fetch-decode-execute engine, driven one instruction per
//!   call through an injected memory/IO bus capability.

pub mod cpu;
pub mod operand;
pub mod registers;
