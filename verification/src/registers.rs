//! The architectural register model: register names, their structural width
//! classes, and the aliasing of 32-bit view registers onto 64-bit storage.

use vstd::prelude::*;

verus! {

/// The bit-width at which a register or immediate operand is interpreted.
#[derive(Clone, Copy, Debug, PartialEq, Eq, Structural)]
pub enum ArgumentSize {
    Bit64,
    Bit32,
    Bit16,
    Bit8,
}

/// The modeled architectural registers.
///
/// The 64-bit general-purpose registers (and RIP) have storage of their own.
/// The 32-bit registers are views: each aliases the low 32 bits of its 64-bit
/// backing register and is not independent storage.  The segment registers
/// are independent 16-bit storage.
#[derive(Clone, Copy, Debug, PartialEq, Eq, Structural)]
pub enum Register {
    RAX,
    RBX,
    RCX,
    RDX,
    RSP,
    RBP,
    RSI,
    RDI,
    RIP,
    EAX,
    EBX,
    ECX,
    EDX,
    ESP,
    EBP,
    ESI,
    EDI,
    ES,
    CS,
    SS,
    DS,
    FS,
    GS,
}

/// The width class of a register: total over `Register`, so no register is
/// ambiguous in width.
pub open spec fn spec_register_size(r: Register) -> ArgumentSize {
    match r {
        Register::RAX | Register::RBX | Register::RCX | Register::RDX | Register::RSP
        | Register::RBP | Register::RSI | Register::RDI | Register::RIP => ArgumentSize::Bit64,
        Register::EAX | Register::EBX | Register::ECX | Register::EDX | Register::ESP
        | Register::EBP | Register::ESI | Register::EDI => ArgumentSize::Bit32,
        Register::ES | Register::CS | Register::SS | Register::DS | Register::FS
        | Register::GS => ArgumentSize::Bit16,
    }
}

/// The 64-bit register whose storage `r` names or aliases.
///
/// A 32-bit view register maps to its backing register; a 64-bit register
/// maps to itself.  Segment registers have 16-bit storage of their own and
/// map to themselves.
pub open spec fn spec_backing_register(r: Register) -> Register {
    match r {
        Register::EAX => Register::RAX,
        Register::EBX => Register::RBX,
        Register::ECX => Register::RCX,
        Register::EDX => Register::RDX,
        Register::ESP => Register::RSP,
        Register::EBP => Register::RBP,
        Register::ESI => Register::RSI,
        Register::EDI => Register::RDI,
        _ => r,
    }
}

/// Resolves the 64-bit register whose storage `reg` names or aliases.
pub fn get_backing_register(reg: &Register) -> (b: Register)
    ensures
        b == spec_backing_register(*reg),
{
    match *reg {
        Register::EAX => Register::RAX,
        Register::EBX => Register::RBX,
        Register::ECX => Register::RCX,
        Register::EDX => Register::RDX,
        Register::ESP => Register::RSP,
        Register::EBP => Register::RBP,
        Register::ESI => Register::RSI,
        Register::EDI => Register::RDI,
        other => other,
    }
}

/// Resolves the structural width class of a register.
pub fn get_register_size(reg: &Register) -> (s: ArgumentSize)
    ensures
        s == spec_register_size(*reg),
{
    match *reg {
        Register::RAX | Register::RBX | Register::RCX | Register::RDX | Register::RSP
        | Register::RBP | Register::RSI | Register::RDI | Register::RIP => ArgumentSize::Bit64,
        Register::EAX | Register::EBX | Register::ECX | Register::EDX | Register::ESP
        | Register::EBP | Register::ESI | Register::EDI => ArgumentSize::Bit32,
        Register::ES | Register::CS | Register::SS | Register::DS | Register::FS
        | Register::GS => ArgumentSize::Bit16,
    }
}

} // verus!
