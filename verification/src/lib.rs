//! Core of a user-space emulator for a subset of the x86-64 instruction set.
//!
//! The crate models the architectural registers and their width classes, the
//! decoded operand shapes of one instruction, and a machine state made of a
//! register file and a byte-addressable memory.  On top of that it provides
//! the execution engine primitives every instruction handler needs: operand
//! width resolution, operand value extraction with x86-64 extension rules,
//! register reads and writes (a 32-bit destination write clears the upper
//! dword of its 64-bit backing register), stack pushes, and the little-endian
//! value/byte-sequence conversions used for register-to-memory stores.
//! A loader module parses ELF64 images and builds the initial machine state.

pub mod bytes;
pub mod execution;
pub mod loader;
pub mod machine;
pub mod registers;
