//! Loading of an executable image into a fresh machine state.

pub mod elf;
