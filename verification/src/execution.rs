//! The CPU execution engine: operand width resolution, operand value
//! extraction, register reads and writes with x86-64 extension semantics,
//! and the stack push primitive.
//!
//! Extension rules, stated once and proved everywhere:
//! - a raw register read never sign-extends: a 32-bit view register reads as
//!   the low 32 bits of its backing register, zero-extended when a wider
//!   value is requested;
//! - a register read as a signed operand is sign-extended from the
//!   register's width to the requested width, per standard two's-complement
//!   widening;
//! - a 32-bit register write zero-extends into the full 64-bit backing
//!   storage, clearing the upper dword;
//! - immediates are sign-extended to the requested operand width;
//! - requesting a narrower value than an operand's natural width decomposes
//!   to its low bits, matching x86 partial-register reads;
//! - the 16-bit segment registers zero-extend on every read, raw or as an
//!   operand: the chosen policy for the widths the operand shapes never
//!   produce.

use vstd::prelude::*;
use crate::registers::ArgumentSize;
use crate::registers::Register;
use crate::registers::get_backing_register;
use crate::registers::get_register_size;
use crate::registers::spec_backing_register;
use crate::registers::spec_register_size;
use crate::machine::MachineState;
use crate::machine::spec_mem_image;

verus! {

/// The decoded operand shape of one instruction: a closed set of variants,
/// consumed with exhaustive matching at every site.
///
/// `reverse_direction` on the two-register form mirrors the direction bit of
/// real instruction encodings: it swaps which register is logically first
/// (destination) and second (source) without altering which field holds
/// which register.
#[derive(Clone, Copy, Debug, PartialEq, Eq, Structural)]
pub enum InstructionArgument {
    OneRegister { register: Register },
    TwoRegister { register1: Register, register2: Register, reverse_direction: bool },
    Immediate8 { immediate: i8 },
    Immediate32 { immediate: i32 },
    Immediate8BitRegister { register: Register, immediate: i8 },
    Immediate32BitRegister { register: Register, immediate: i32 },
}

/// A decode-time invariant violation: the decode layer asked the engine for
/// something the argument shape cannot answer.
#[derive(Clone, Copy, Debug, PartialEq, Eq, Structural)]
pub enum EmulationError {
    /// A second operand was requested from a single-operand shape.
    OnlyOneArgument,
}

impl EmulationError {
    /// A diagnostic text identifying the violated contract.
    pub fn message(&self) -> (r: &'static str)
        ensures
            *self == EmulationError::OnlyOneArgument ==> r@ == "Only one argument available"@,
    {
        match *self {
            EmulationError::OnlyOneArgument => "Only one argument available",
        }
    }
}

/// Whether the argument shape carries a second logical operand.
pub open spec fn spec_has_second_argument(arg: InstructionArgument) -> bool {
    match arg {
        InstructionArgument::OneRegister { .. } => false,
        InstructionArgument::Immediate8 { .. } => false,
        InstructionArgument::Immediate32 { .. } => false,
        _ => true,
    }
}

/// The width of the first logical operand.
pub open spec fn spec_first_argument_size(arg: InstructionArgument) -> ArgumentSize {
    match arg {
        InstructionArgument::OneRegister { register } => spec_register_size(register),
        InstructionArgument::TwoRegister { register1, register2, reverse_direction } => {
            if reverse_direction {
                spec_register_size(register2)
            } else {
                spec_register_size(register1)
            }
        },
        InstructionArgument::Immediate8 { .. } => ArgumentSize::Bit8,
        InstructionArgument::Immediate32 { .. } => ArgumentSize::Bit32,
        InstructionArgument::Immediate8BitRegister { .. } => ArgumentSize::Bit8,
        InstructionArgument::Immediate32BitRegister { .. } => ArgumentSize::Bit32,
    }
}

/// The width of the second logical operand; meaningful only for shapes that
/// have one.
pub open spec fn spec_second_argument_size(arg: InstructionArgument) -> ArgumentSize {
    match arg {
        InstructionArgument::TwoRegister { register1, register2, reverse_direction } => {
            if reverse_direction {
                spec_register_size(register1)
            } else {
                spec_register_size(register2)
            }
        },
        InstructionArgument::Immediate8BitRegister { register, .. } => spec_register_size(
            register,
        ),
        InstructionArgument::Immediate32BitRegister { register, .. } => spec_register_size(
            register,
        ),
        _ => ArgumentSize::Bit8,
    }
}

/// The 64-bit value a raw read of register `r` yields: the full storage of a
/// 64-bit register, the low 32 bits of the backing register for a 32-bit
/// view (zero-extended), the 16-bit storage of a segment register
/// (zero-extended).  No register is 8 bits wide.
pub open spec fn spec_register_value(s: MachineState, r: Register) -> u64 {
    match spec_register_size(r) {
        ArgumentSize::Bit64 => s.spec_reg64(r),
        ArgumentSize::Bit32 => s.spec_reg64(spec_backing_register(r)) & 0xffff_ffff,
        ArgumentSize::Bit16 => s.spec_seg16(r) as u64,
        ArgumentSize::Bit8 => 0,
    }
}

/// The 64-bit two's-complement image of register `r` read as a signed
/// operand: the register's value at its own width, sign-extended to 64
/// bits.  A 32-bit view register therefore sign-extends its low dword,
/// unlike the raw read above.  A segment register zero-extends: the chosen
/// policy for 16-bit operands.
pub open spec fn spec_register_operand_value(s: MachineState, r: Register) -> u64 {
    match spec_register_size(r) {
        ArgumentSize::Bit64 => s.spec_reg64(r),
        ArgumentSize::Bit32 => ((((s.spec_reg64(spec_backing_register(r)) as u32) as i32) as i64)
            as u64),
        ArgumentSize::Bit16 => s.spec_seg16(r) as u64,
        ArgumentSize::Bit8 => 0,
    }
}

/// The state after a write of the width-`r` value `v` to register `r`:
/// a 64-bit register stores all 64 bits unchanged; a 32-bit view register
/// zero-extends the low 32 bits into the full backing storage, clearing the
/// upper dword; a segment register stores the low 16 bits.
pub open spec fn spec_write_register(s: MachineState, r: Register, v: u64) -> MachineState {
    match spec_register_size(r) {
        ArgumentSize::Bit64 => s.spec_with_reg64(r, v),
        ArgumentSize::Bit32 => s.spec_with_reg64(spec_backing_register(r), v & 0xffff_ffff),
        ArgumentSize::Bit16 => s.spec_with_seg16(r, v as u16),
        ArgumentSize::Bit8 => s,
    }
}

/// The 64-bit two's-complement image of the first logical operand's value:
/// a register operand reads the named register (`register1` for the
/// two-register shape) at its width, sign-extended as a signed operand; an
/// immediate operand is sign-extended.
pub open spec fn spec_first_argument_value(s: MachineState, arg: InstructionArgument) -> u64 {
    match arg {
        InstructionArgument::OneRegister { register } => spec_register_operand_value(s, register),
        InstructionArgument::TwoRegister { register1, .. } => spec_register_operand_value(
            s,
            register1,
        ),
        InstructionArgument::Immediate8 { immediate } => (immediate as i64) as u64,
        InstructionArgument::Immediate32 { immediate } => (immediate as i64) as u64,
        InstructionArgument::Immediate8BitRegister { immediate, .. } => (immediate as i64) as u64,
        InstructionArgument::Immediate32BitRegister { immediate, .. } => (immediate as i64) as u64,
    }
}

/// The 64-bit two's-complement image of the second logical operand's value,
/// read as a signed operand like the first; meaningful only for shapes that
/// have one.  The register is always logically second in the mixed
/// immediate-and-register shapes.
pub open spec fn spec_second_argument_value(s: MachineState, arg: InstructionArgument) -> u64 {
    match arg {
        InstructionArgument::TwoRegister { register2, .. } => spec_register_operand_value(
            s,
            register2,
        ),
        InstructionArgument::Immediate8BitRegister { register, .. } => spec_register_operand_value(
            s,
            register,
        ),
        InstructionArgument::Immediate32BitRegister {
            register,
            ..
        } => spec_register_operand_value(s, register),
        _ => 0,
    }
}

/// The execution engine.  It holds no state of its own: every operation
/// borrows a `MachineState` and is a self-contained read or mutation.
pub struct CPU {}

impl CPU {
    /// Resolves the bit-width of the first logical operand.
    pub fn first_argument_size(&self, arg: &InstructionArgument) -> (s: ArgumentSize)
        ensures
            s == spec_first_argument_size(*arg),
    {
        match *arg {
            InstructionArgument::OneRegister { ref register, .. } => get_register_size(register),
            InstructionArgument::TwoRegister {
                ref register1,
                ref register2,
                reverse_direction,
                ..
            } => {
                if reverse_direction {
                    get_register_size(register2)
                } else {
                    get_register_size(register1)
                }
            },
            InstructionArgument::Immediate8 { .. } => ArgumentSize::Bit8,
            InstructionArgument::Immediate32 { .. } => ArgumentSize::Bit32,
            InstructionArgument::Immediate8BitRegister { .. } => ArgumentSize::Bit8,
            InstructionArgument::Immediate32BitRegister { .. } => ArgumentSize::Bit32,
        }
    }

    /// Resolves the bit-width of the second logical operand.  Fails with
    /// `OnlyOneArgument` exactly on the single-operand shapes.
    pub fn second_argument_size(&self, arg: &InstructionArgument) -> (r: Result<
        ArgumentSize,
        EmulationError,
    >)
        ensures
            spec_has_second_argument(*arg) ==> r == Ok::<ArgumentSize, EmulationError>(
                spec_second_argument_size(*arg),
            ),
            !spec_has_second_argument(*arg) ==> r == Err::<ArgumentSize, EmulationError>(
                EmulationError::OnlyOneArgument,
            ),
    {
        match *arg {
            InstructionArgument::OneRegister { .. } => Err(EmulationError::OnlyOneArgument),
            InstructionArgument::TwoRegister {
                ref register1,
                ref register2,
                reverse_direction,
                ..
            } => {
                if reverse_direction {
                    Ok(get_register_size(register1))
                } else {
                    Ok(get_register_size(register2))
                }
            },
            InstructionArgument::Immediate8 { .. } => Err(EmulationError::OnlyOneArgument),
            InstructionArgument::Immediate32 { .. } => Err(EmulationError::OnlyOneArgument),
            InstructionArgument::Immediate8BitRegister { ref register, .. } => {
                Ok(get_register_size(register))
            },
            InstructionArgument::Immediate32BitRegister { ref register, .. } => {
                Ok(get_register_size(register))
            },
        }
    }

    /// Reads register `r` as a 32-bit value: the low 32 bits of what the
    /// register holds (a partial-register read for 64-bit registers), the
    /// zero-extended storage of a segment register.
    pub fn get_register_value_i32(&self, state: &MachineState, register: Register) -> (r: i32)
        ensures
            (r as u32) as u64 == spec_register_value(*state, register) & 0xffff_ffff,
    {
        match get_register_size(&register) {
            ArgumentSize::Bit64 => {
                let v = state.reg64(register);
                proof {
                    lemma_u64_low32(v);
                    lemma_low32_idempotent(v);
                }
                (v as u32) as i32
            },
            ArgumentSize::Bit32 => {
                let v = state.reg64(get_backing_register(&register));
                proof {
                    lemma_u64_low32(v);
                    lemma_low32_idempotent(v);
                }
                (v as u32) as i32
            },
            ArgumentSize::Bit16 => {
                let v = state.seg16(register);
                proof {
                    lemma_low32_small(v as u64);
                }
                v as i32
            },
            ArgumentSize::Bit8 => 0,
        }
    }

    /// Reads register `r` as a 64-bit value: the full storage of a 64-bit
    /// register; for a 32-bit view register the low 32 bits of the backing
    /// register, zero-extended (a raw register read never sign-extends); a
    /// segment register's storage, zero-extended.
    pub fn get_register_value_i64(&self, state: &MachineState, register: Register) -> (r: i64)
        ensures
            r as u64 == spec_register_value(*state, register),
    {
        match get_register_size(&register) {
            ArgumentSize::Bit64 => {
                let v = state.reg64(register);
                proof {
                    lemma_u64_i64_round_trip(v);
                }
                v as i64
            },
            ArgumentSize::Bit32 => {
                let v = state.reg64(get_backing_register(&register));
                proof {
                    lemma_u64_low32(v);
                }
                ((v as u32) as u64) as i64
            },
            ArgumentSize::Bit16 => state.seg16(register) as i64,
            ArgumentSize::Bit8 => 0,
        }
    }

    /// Writes a 32-bit value to register `r`.  A 32-bit view register
    /// zero-extends into the full backing storage (the upper dword is
    /// cleared); a 64-bit register receives the sign-extended full write; a
    /// segment register stores the low 16 bits.
    pub fn set_register_value_i32(&self, state: &mut MachineState, register: Register, value: i32)
        ensures
            *final(state) == spec_write_register(*old(state), register, (value as i64) as u64),
    {
        match get_register_size(&register) {
            ArgumentSize::Bit64 => {
                state.set_reg64(register, (value as i64) as u64);
            },
            ArgumentSize::Bit32 => {
                proof {
                    lemma_i32_image_low32(value);
                }
                state.set_reg64(get_backing_register(&register), (value as u32) as u64);
            },
            ArgumentSize::Bit16 => {
                proof {
                    lemma_i32_image_low16(value);
                }
                state.set_seg16(register, value as u16);
            },
            ArgumentSize::Bit8 => (),
        }
    }

    /// Writes a 64-bit value to register `r`.  A 64-bit register stores all
    /// 64 bits unchanged; a 32-bit view register stores the low 32 bits
    /// zero-extended into the backing storage; a segment register stores the
    /// low 16 bits.
    pub fn set_register_value_i64(&self, state: &mut MachineState, register: Register, value: i64)
        ensures
            *final(state) == spec_write_register(*old(state), register, value as u64),
    {
        match get_register_size(&register) {
            ArgumentSize::Bit64 => {
                state.set_reg64(register, value as u64);
            },
            ArgumentSize::Bit32 => {
                proof {
                    lemma_i64_image_low32(value);
                }
                state.set_reg64(get_backing_register(&register), (value as u32) as u64);
            },
            ArgumentSize::Bit16 => {
                proof {
                    lemma_i64_image_low16(value);
                }
                state.set_seg16(register, value as u16);
            },
            ArgumentSize::Bit8 => (),
        }
    }

    /// Reads register `r` as a signed 64-bit operand: the register's value
    /// at its own width, sign-extended.  A 32-bit view register sign-extends
    /// its low dword, where the raw read would zero-extend.
    fn register_operand_i64(&self, state: &MachineState, register: Register) -> (r: i64)
        ensures
            r as u64 == spec_register_operand_value(*state, register),
    {
        match get_register_size(&register) {
            ArgumentSize::Bit32 => {
                let v = self.get_register_value_i32(state, register);
                proof {
                    let b = state.spec_reg64(spec_backing_register(register));
                    lemma_low32_idempotent(b);
                    assert((v as u32) as u64 == b & 0xffff_ffff ==> (v as i64) as u64 == (((b
                        as u32) as i32) as i64) as u64) by (bit_vector);
                }
                v as i64
            },
            _ => self.get_register_value_i64(state, register),
        }
    }

    /// Resolves the first logical operand's value, sign-extended to 64 bits
    /// from the operand's own width.
    pub fn first_argument_i64(&self, state: &MachineState, arg: InstructionArgument) -> (r: i64)
        ensures
            r as u64 == spec_first_argument_value(*state, arg),
    {
        match arg {
            InstructionArgument::OneRegister { register, .. } => {
                self.register_operand_i64(state, register)
            },
            InstructionArgument::TwoRegister { register1, .. } => {
                self.register_operand_i64(state, register1)
            },
            InstructionArgument::Immediate8 { immediate, .. } => immediate as i64,
            InstructionArgument::Immediate32 { immediate, .. } => immediate as i64,
            InstructionArgument::Immediate8BitRegister { immediate, .. } => immediate as i64,
            InstructionArgument::Immediate32BitRegister { immediate, .. } => immediate as i64,
        }
    }

    /// Resolves the first logical operand's value at 32 bits: registers
    /// decompose to their low 32 bits, immediates are sign-extended.
    pub fn first_argument_i32(&self, state: &MachineState, arg: InstructionArgument) -> (r: i32)
        ensures
            (r as u32) as u64 == spec_first_argument_value(*state, arg) & 0xffff_ffff,
    {
        match arg {
            InstructionArgument::OneRegister { register, .. } => {
                proof {
                    lemma_operand_low32_agrees(state.spec_reg64(spec_backing_register(register)));
                }
                self.get_register_value_i32(state, register)
            },
            InstructionArgument::TwoRegister { register1, .. } => {
                proof {
                    lemma_operand_low32_agrees(state.spec_reg64(spec_backing_register(register1)));
                }
                self.get_register_value_i32(state, register1)
            },
            InstructionArgument::Immediate8 { immediate, .. } => {
                proof {
                    lemma_sext_i8_low32(immediate);
                }
                immediate as i32
            },
            InstructionArgument::Immediate32 { immediate, .. } => {
                proof {
                    lemma_i32_image_low32(immediate);
                }
                immediate as i32
            },
            InstructionArgument::Immediate8BitRegister { immediate, .. } => {
                proof {
                    lemma_sext_i8_low32(immediate);
                }
                immediate as i32
            },
            InstructionArgument::Immediate32BitRegister { immediate, .. } => {
                proof {
                    lemma_i32_image_low32(immediate);
                }
                immediate as i32
            },
        }
    }

    /// Resolves the first logical operand's value at 16 bits: the low 16
    /// bits of the operand, matching x86 partial-register reads.
    pub fn first_argument_i16(&self, state: &MachineState, arg: InstructionArgument) -> (r: i16)
        ensures
            (r as u16) as u64 == spec_first_argument_value(*state, arg) & 0xffff,
    {
        let v = self.first_argument_i64(state, arg);
        proof {
            lemma_i64_truncate_low16(v);
        }
        value_low16(v)
    }

    /// Resolves the first logical operand's value at 8 bits: the low byte
    /// of the operand, matching x86 partial-register reads.
    pub fn first_argument_i8(&self, state: &MachineState, arg: InstructionArgument) -> (r: i8)
        ensures
            (r as u8) as u64 == spec_first_argument_value(*state, arg) & 0xff,
    {
        let v = self.first_argument_i64(state, arg);
        proof {
            lemma_i64_truncate_low8(v);
        }
        value_low8(v)
    }

    /// Resolves the second logical operand's value, sign-extended to 64
    /// bits from the operand's own width.  Fails with `OnlyOneArgument`
    /// exactly on the single-operand shapes.
    pub fn second_argument_i64(&self, state: &MachineState, arg: InstructionArgument) -> (r: Result<
        i64,
        EmulationError,
    >)
        ensures
            spec_has_second_argument(arg) ==> (r matches Ok(v) && v as u64
                == spec_second_argument_value(*state, arg)),
            !spec_has_second_argument(arg) ==> r == Err::<i64, EmulationError>(
                EmulationError::OnlyOneArgument,
            ),
    {
        match arg {
            InstructionArgument::TwoRegister { register2, .. } => {
                Ok(self.register_operand_i64(state, register2))
            },
            InstructionArgument::Immediate8BitRegister { register, .. } => {
                Ok(self.register_operand_i64(state, register))
            },
            InstructionArgument::Immediate32BitRegister { register, .. } => {
                Ok(self.register_operand_i64(state, register))
            },
            _ => Err(EmulationError::OnlyOneArgument),
        }
    }

    /// Resolves the second logical operand's value at 32 bits: the low 32
    /// bits of the named register.  Fails with `OnlyOneArgument` exactly on
    /// the single-operand shapes.
    pub fn second_argument_i32(&self, state: &MachineState, arg: InstructionArgument) -> (r: Result<
        i32,
        EmulationError,
    >)
        ensures
            spec_has_second_argument(arg) ==> (r matches Ok(v) && (v as u32) as u64
                == spec_second_argument_value(*state, arg) & 0xffff_ffff),
            !spec_has_second_argument(arg) ==> r == Err::<i32, EmulationError>(
                EmulationError::OnlyOneArgument,
            ),
    {
        match arg {
            InstructionArgument::TwoRegister { register2, .. } => {
                proof {
                    lemma_operand_low32_agrees(state.spec_reg64(spec_backing_register(register2)));
                }
                Ok(self.get_register_value_i32(state, register2))
            },
            InstructionArgument::Immediate8BitRegister { register, .. } => {
                proof {
                    lemma_operand_low32_agrees(state.spec_reg64(spec_backing_register(register)));
                }
                Ok(self.get_register_value_i32(state, register))
            },
            InstructionArgument::Immediate32BitRegister { register, .. } => {
                proof {
                    lemma_operand_low32_agrees(state.spec_reg64(spec_backing_register(register)));
                }
                Ok(self.get_register_value_i32(state, register))
            },
            _ => Err(EmulationError::OnlyOneArgument),
        }
    }

    /// Resolves the second logical operand's value at 16 bits: the low 16
    /// bits of the named register.  Fails with `OnlyOneArgument` exactly on
    /// the single-operand shapes.
    pub fn second_argument_i16(&self, state: &MachineState, arg: InstructionArgument) -> (r: Result<
        i16,
        EmulationError,
    >)
        ensures
            spec_has_second_argument(arg) ==> (r matches Ok(v) && (v as u16) as u64
                == spec_second_argument_value(*state, arg) & 0xffff),
            !spec_has_second_argument(arg) ==> r == Err::<i16, EmulationError>(
                EmulationError::OnlyOneArgument,
            ),
    {
        match self.second_argument_i64(state, arg) {
            Ok(v) => {
                proof {
                    lemma_i64_truncate_low16(v);
                }
                Ok(value_low16(v))
            },
            Err(e) => Err(e),
        }
    }

    /// Resolves the second logical operand's value at 8 bits: the low byte
    /// of the named register.  Fails with `OnlyOneArgument` exactly on the
    /// single-operand shapes.
    pub fn second_argument_i8(&self, state: &MachineState, arg: InstructionArgument) -> (r: Result<
        i8,
        EmulationError,
    >)
        ensures
            spec_has_second_argument(arg) ==> (r matches Ok(v) && (v as u8) as u64
                == spec_second_argument_value(*state, arg) & 0xff),
            !spec_has_second_argument(arg) ==> r == Err::<i8, EmulationError>(
                EmulationError::OnlyOneArgument,
            ),
    {
        match self.second_argument_i64(state, arg) {
            Ok(v) => {
                proof {
                    lemma_i64_truncate_low8(v);
                }
                Ok(value_low8(v))
            },
            Err(e) => Err(e),
        }
    }

    /// Pushes `data` onto the stack: RSP drops by the byte count, then the
    /// bytes land in memory at the new RSP.  Nothing else changes.
    pub fn stack_push(&self, state: &mut MachineState, data: Vec<u8>)
        requires
            data@.len() <= old(state).rsp,
        ensures
            final(state).rsp == old(state).rsp - data@.len(),
            *final(state) == (MachineState {
                rsp: final(state).rsp,
                memory: final(state).memory,
                ..*old(state)
            }),
            final(state).memory@ == old(state).memory@.union_prefer_right(
                spec_mem_image(final(state).rsp, data@),
            ),
    {
        let new_rsp = state.rsp - (data.len() as u64);
        state.rsp = new_rsp;
        state.mem_write(new_rsp, data.as_slice());
    }
}

/// The low 16 bits of a 64-bit value, as a 16-bit value.
fn value_low16(v: i64) -> (r: i16)
    ensures
        r == v as i16,
{
    #[verifier::truncate] (v as i16)
}

/// The low byte of a 64-bit value, as an 8-bit value.
fn value_low8(v: i64) -> (r: i8)
    ensures
        r == v as i8,
{
    #[verifier::truncate] (v as i8)
}

proof fn lemma_u64_i64_round_trip(v: u64)
    by (bit_vector)
    ensures
        (v as i64) as u64 == v,
{
}

proof fn lemma_u64_low32(v: u64)
    by (bit_vector)
    ensures
        (v as u32) as u64 == v & 0xffff_ffff,
        ((v as u32) as i32) as u32 == v as u32,
{
}

proof fn lemma_low32_idempotent(v: u64)
    by (bit_vector)
    ensures
        (v & 0xffff_ffff) & 0xffff_ffff == v & 0xffff_ffff,
{
}

proof fn lemma_low32_small(v: u64)
    by (bit_vector)
    ensures
        v < 0x1_0000 ==> v & 0xffff_ffff == v,
{
}

proof fn lemma_i32_image_low32(v: i32)
    by (bit_vector)
    ensures
        (v as u32) as u64 == ((v as i64) as u64) & 0xffff_ffff,
        ((v as u32) as i32) == v,
{
}

proof fn lemma_i32_image_low16(v: i32)
    by (bit_vector)
    ensures
        (v as u16) == ((v as i64) as u64) as u16,
{
}

proof fn lemma_i64_image_low32(v: i64)
    by (bit_vector)
    ensures
        (v as u32) as u64 == (v as u64) & 0xffff_ffff,
{
}

proof fn lemma_i64_image_low16(v: i64)
    by (bit_vector)
    ensures
        (v as u16) == (v as u64) as u16,
{
}

proof fn lemma_operand_low32_agrees(b: u64)
    by (bit_vector)
    ensures
        ((((b as u32) as i32) as i64) as u64) & 0xffff_ffff == (b & 0xffff_ffff) & 0xffff_ffff,
{
}

proof fn lemma_sext_i8_low32(v: i8)
    by (bit_vector)
    ensures
        ((v as i32) as u32) as u64 == ((v as i64) as u64) & 0xffff_ffff,
{
}

proof fn lemma_i64_truncate_low16(v: i64)
    by (bit_vector)
    ensures
        ((v as i16) as u16) as u64 == (v as u64) & 0xffff,
{
}

proof fn lemma_i64_truncate_low8(v: i64)
    by (bit_vector)
    ensures
        ((v as i8) as u8) as u64 == (v as u64) & 0xff,
{
}

/// Law: reading a register after writing it returns the written value
/// projected to the register's width, for every value within that width's
/// range.
pub proof fn lemma_register_round_trip(s: MachineState, r: Register, v: u64)
    requires
        spec_register_size(r) == ArgumentSize::Bit32 ==> v < 0x1_0000_0000,
        spec_register_size(r) == ArgumentSize::Bit16 ==> v < 0x1_0000,
    ensures
        spec_register_value(spec_write_register(s, r, v), r) == v,
{
    match spec_register_size(r) {
        ArgumentSize::Bit64 => {
        },
        ArgumentSize::Bit32 => {
            assert(v < 0x1_0000_0000 ==> (v & 0xffff_ffff) & 0xffff_ffff == v) by (bit_vector);
        },
        ArgumentSize::Bit16 => {
            assert(v < 0x1_0000 ==> (v as u16) as u64 == v) by (bit_vector);
        },
        ArgumentSize::Bit8 => {
        },
    }
}

/// Law: a raw register read never sign-extends.  A 32-bit view register
/// reads as a value below `2^32`, a segment register as a value below
/// `2^16`: the upper bits of a wider requested value are always zero.
pub proof fn lemma_narrow_register_reads_zero_extend(s: MachineState, r: Register)
    ensures
        spec_register_size(r) == ArgumentSize::Bit32 ==> spec_register_value(s, r)
            < 0x1_0000_0000,
        spec_register_size(r) == ArgumentSize::Bit16 ==> spec_register_value(s, r) < 0x1_0000,
{
    if spec_register_size(r) == ArgumentSize::Bit32 {
        let v = s.spec_reg64(spec_backing_register(r));
        assert(v & 0xffff_ffff < 0x1_0000_0000) by (bit_vector);
    }
}

/// Law: a write to a 32-bit view register zero-extends.  Afterwards the
/// full 64-bit backing register holds exactly the written 32 bits, with its
/// upper 32 bits zero.
pub proof fn lemma_write32_zero_extends(s: MachineState, r: Register, v: u64)
    requires
        spec_register_size(r) == ArgumentSize::Bit32,
    ensures
        spec_write_register(s, r, v).spec_reg64(spec_backing_register(r)) == v & 0xffff_ffff,
        spec_write_register(s, r, v).spec_reg64(spec_backing_register(r)) < 0x1_0000_0000,
{
    assert(v & 0xffff_ffff < 0x1_0000_0000) by (bit_vector);
}

/// Law: operand sizes follow the direction bit.  With `reverse_direction`
/// set, the first logical operand's width is that of `register2` and the
/// second's is that of `register1`; without it, the natural order applies.
pub proof fn lemma_two_register_direction(
    register1: Register,
    register2: Register,
    reverse_direction: bool,
)
    ensures
        ({
            let arg = InstructionArgument::TwoRegister { register1, register2, reverse_direction };
            &&& spec_first_argument_size(arg) == spec_register_size(
                if reverse_direction {
                    register2
                } else {
                    register1
                },
            )
            &&& spec_second_argument_size(arg) == spec_register_size(
                if reverse_direction {
                    register1
                } else {
                    register2
                },
            )
        }),
{
}

/// Law: after a push, every pushed byte is readable at the new stack
/// pointer: byte `k` of `data` sits at address `RSP + k`.
pub proof fn lemma_stack_push_readable(s0: MachineState, s1: MachineState, data: Seq<u8>, k: int)
    requires
        data.len() <= s0.rsp,
        s1.rsp == s0.rsp - data.len(),
        s1.memory@ == s0.memory@.union_prefer_right(spec_mem_image(s1.rsp, data)),
        0 <= k < data.len(),
    ensures
        s1.memory@.contains_key((s1.rsp + k) as u64),
        s1.memory@[(s1.rsp + k) as u64] == data[k],
{
    assert(spec_mem_image(s1.rsp, data).contains_key((s1.rsp + k) as u64));
    assert(spec_mem_image(s1.rsp, data)[(s1.rsp + k) as u64] == data[k]);
}

} // verus!
