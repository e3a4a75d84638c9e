//! The machine state: the register file, a byte-addressable memory, and the
//! tracing flags.
//!
//! The 64-bit general-purpose registers (and RIP) are the only register
//! storage; a 32-bit view register lives inside its backing register's low
//! dword.  The segment registers are independent 16-bit storage.  Memory is
//! a sparse map from a 64-bit address to one byte.

use vstd::prelude::*;
use vstd::map::*;
use std::collections::HashMap;
use crate::registers::Register;

verus! {

broadcast use vstd::std_specs::hash::group_hash_axioms;

/// The whole mutable state of one emulated run.  The execution engine
/// borrows it for the duration of each operation; every operation is a
/// self-contained mutation.
pub struct MachineState {
    pub rax: u64,
    pub rbx: u64,
    pub rcx: u64,
    pub rdx: u64,
    pub rsp: u64,
    pub rbp: u64,
    pub rsi: u64,
    pub rdi: u64,
    pub rip: u64,
    pub es: u16,
    pub cs: u16,
    pub ss: u16,
    pub ds: u16,
    pub fs: u16,
    pub gs: u16,
    pub memory: HashMap<u64, u8>,
    pub print_instructions: bool,
    pub print_registers: bool,
}

/// The memory written when `data` is stored byte by byte starting at
/// `address`: a map holding exactly those addresses.
pub open spec fn spec_mem_image(address: u64, data: Seq<u8>) -> Map<u64, u8> {
    Map::new(
        |a: u64| address <= a < address + data.len(),
        |a: u64| data[a - address],
    )
}

impl MachineState {
    /// The 64-bit storage that the 64-bit register `r` names.  Meaningful
    /// only for the 64-bit width class; other registers yield zero.
    pub open spec fn spec_reg64(self, r: Register) -> u64 {
        match r {
            Register::RAX => self.rax,
            Register::RBX => self.rbx,
            Register::RCX => self.rcx,
            Register::RDX => self.rdx,
            Register::RSP => self.rsp,
            Register::RBP => self.rbp,
            Register::RSI => self.rsi,
            Register::RDI => self.rdi,
            Register::RIP => self.rip,
            _ => 0,
        }
    }

    /// The 16-bit storage of the segment register `r`.  Meaningful only for
    /// the 16-bit width class; other registers yield zero.
    pub open spec fn spec_seg16(self, r: Register) -> u16 {
        match r {
            Register::ES => self.es,
            Register::CS => self.cs,
            Register::SS => self.ss,
            Register::DS => self.ds,
            Register::FS => self.fs,
            Register::GS => self.gs,
            _ => 0,
        }
    }

    /// The state after storing `v` into the 64-bit register `r`, all other
    /// state unchanged.
    pub open spec fn spec_with_reg64(self, r: Register, v: u64) -> MachineState {
        match r {
            Register::RAX => (MachineState { rax: v, ..self }),
            Register::RBX => (MachineState { rbx: v, ..self }),
            Register::RCX => (MachineState { rcx: v, ..self }),
            Register::RDX => (MachineState { rdx: v, ..self }),
            Register::RSP => (MachineState { rsp: v, ..self }),
            Register::RBP => (MachineState { rbp: v, ..self }),
            Register::RSI => (MachineState { rsi: v, ..self }),
            Register::RDI => (MachineState { rdi: v, ..self }),
            Register::RIP => (MachineState { rip: v, ..self }),
            _ => self,
        }
    }

    /// The state after storing `v` into the segment register `r`, all other
    /// state unchanged.
    pub open spec fn spec_with_seg16(self, r: Register, v: u16) -> MachineState {
        match r {
            Register::ES => (MachineState { es: v, ..self }),
            Register::CS => (MachineState { cs: v, ..self }),
            Register::SS => (MachineState { ss: v, ..self }),
            Register::DS => (MachineState { ds: v, ..self }),
            Register::FS => (MachineState { fs: v, ..self }),
            Register::GS => (MachineState { gs: v, ..self }),
            _ => self,
        }
    }

    /// Creates a fresh state: every register zero, memory empty, tracing
    /// off.
    pub fn new() -> (s: MachineState)
        ensures
            s == (MachineState {
                rax: 0u64,
                rbx: 0u64,
                rcx: 0u64,
                rdx: 0u64,
                rsp: 0u64,
                rbp: 0u64,
                rsi: 0u64,
                rdi: 0u64,
                rip: 0u64,
                es: 0u16,
                cs: 0u16,
                ss: 0u16,
                ds: 0u16,
                fs: 0u16,
                gs: 0u16,
                memory: s.memory,
                print_instructions: false,
                print_registers: false,
            }),
            s.memory@ == Map::<u64, u8>::empty(),
    {
        MachineState {
            rax: 0,
            rbx: 0,
            rcx: 0,
            rdx: 0,
            rsp: 0,
            rbp: 0,
            rsi: 0,
            rdi: 0,
            rip: 0,
            es: 0,
            cs: 0,
            ss: 0,
            ds: 0,
            fs: 0,
            gs: 0,
            memory: HashMap::new(),
            print_instructions: false,
            print_registers: false,
        }
    }

    /// Reads the 64-bit storage that the 64-bit register `r` names.
    pub fn reg64(&self, r: Register) -> (v: u64)
        ensures
            v == self.spec_reg64(r),
    {
        match r {
            Register::RAX => self.rax,
            Register::RBX => self.rbx,
            Register::RCX => self.rcx,
            Register::RDX => self.rdx,
            Register::RSP => self.rsp,
            Register::RBP => self.rbp,
            Register::RSI => self.rsi,
            Register::RDI => self.rdi,
            Register::RIP => self.rip,
            _ => 0,
        }
    }

    /// Reads the 16-bit storage of the segment register `r`.
    pub fn seg16(&self, r: Register) -> (v: u16)
        ensures
            v == self.spec_seg16(r),
    {
        match r {
            Register::ES => self.es,
            Register::CS => self.cs,
            Register::SS => self.ss,
            Register::DS => self.ds,
            Register::FS => self.fs,
            Register::GS => self.gs,
            _ => 0,
        }
    }

    /// Stores `v` into the 64-bit register `r`; everything else is kept.
    pub fn set_reg64(&mut self, r: Register, v: u64)
        ensures
            *final(self) == old(self).spec_with_reg64(r, v),
    {
        match r {
            Register::RAX => self.rax = v,
            Register::RBX => self.rbx = v,
            Register::RCX => self.rcx = v,
            Register::RDX => self.rdx = v,
            Register::RSP => self.rsp = v,
            Register::RBP => self.rbp = v,
            Register::RSI => self.rsi = v,
            Register::RDI => self.rdi = v,
            Register::RIP => self.rip = v,
            _ => (),
        }
    }

    /// Stores `v` into the segment register `r`; everything else is kept.
    pub fn set_seg16(&mut self, r: Register, v: u16)
        ensures
            *final(self) == old(self).spec_with_seg16(r, v),
    {
        match r {
            Register::ES => self.es = v,
            Register::CS => self.cs = v,
            Register::SS => self.ss = v,
            Register::DS => self.ds = v,
            Register::FS => self.fs = v,
            Register::GS => self.gs = v,
            _ => (),
        }
    }

    /// Writes `data` into memory byte by byte, starting at `address`.
    /// Every other address keeps its byte, and no register changes.
    pub fn mem_write(&mut self, address: u64, data: &[u8])
        requires
            address + data@.len() <= u64::MAX + 1,
        ensures
            *final(self) == (MachineState { memory: final(self).memory, ..*old(self) }),
            final(self).memory@ == old(self).memory@.union_prefer_right(
                spec_mem_image(address, data@),
            ),
    {
        let ghost old_mem = self.memory@;
        let mut i: usize = 0;
        while i < data.len()
            invariant
                i <= data@.len(),
                address + data@.len() <= u64::MAX + 1,
                *self == (MachineState { memory: self.memory, ..*old(self) }),
                self.memory@ == old_mem.union_prefer_right(
                    spec_mem_image(address, data@.take(i as int)),
                ),
                old_mem == old(self).memory@,
            decreases data@.len() - i,
        {
            let b = data[i];
            self.memory.insert(address + (i as u64), b);
            proof {
                assert_maps_equal!(
                    old_mem.union_prefer_right(spec_mem_image(address, data@.take(i as int)))
                        .insert((address + i as u64) as u64, b),
                    old_mem.union_prefer_right(
                        spec_mem_image(address, data@.take(i as int + 1)))
                );
            }
            i = i + 1;
        }
        proof {
            assert(data@.take(data@.len() as int) == data@);
        }
    }

    /// Reads one byte of memory.  Returns the byte stored at `address`, and
    /// `None` exactly when no byte has ever been stored there.
    pub fn mem_read_byte(&self, address: u64) -> (r: Option<u8>)
        ensures
            match r {
                Some(b) => self.memory@.contains_key(address) && self.memory@[address] == b,
                None => !self.memory@.contains_key(address),
            },
    {
        match self.memory.get(&address) {
            Some(b) => Some(*b),
            None => None,
        }
    }

    /// Reads `length` consecutive bytes of memory starting at `address`.
    /// Returns them in order, and `None` exactly when the range would pass
    /// the end of the address space or some byte of it was never stored.
    pub fn mem_read(&self, address: u64, length: usize) -> (r: Option<Vec<u8>>)
        ensures
            match r {
                Some(v) => {
                    &&& address + length <= u64::MAX + 1
                    &&& v@.len() == length
                    &&& forall|k: int|
                        0 <= k < length ==> {
                            &&& self.memory@.contains_key((address + k) as u64)
                            &&& v@[k] == self.memory@[(address + k) as u64]
                        }
                },
                None => {
                    address + length > u64::MAX + 1 || exists|k: int|
                        0 <= k < length && !self.memory@.contains_key(
                            #[trigger] ((address + k) as u64),
                        )
                },
            },
    {
        if length > 0 && address > u64::MAX - ((length - 1) as u64) {
            return None;
        }
        let mut v: Vec<u8> = Vec::new();
        let mut i: usize = 0;
        while i < length
            invariant
                i <= length,
                length > 0 ==> address + length <= u64::MAX + 1,
                v@.len() == i,
                forall|k: int|
                    0 <= k < i ==> self.memory@.contains_key(#[trigger] ((address + k) as u64)),
                forall|k: int|
                    0 <= k < i ==> #[trigger] v@[k] == self.memory@[(address + k) as u64],
            decreases length - i,
        {
            let key: u64 = address + (i as u64);
            match self.memory.get(&key) {
                Some(b) => {
                    let ghost prev = v@;
                    v.push(*b);
                    proof {
                        assert forall|k: int| 0 <= k < i + 1 implies self.memory@.contains_key(
                            #[trigger] ((address + k) as u64),
                        ) by {
                            if k == i {
                                assert(self.memory@.contains_key(key));
                            }
                        }
                        assert forall|k: int| 0 <= k < i + 1 implies #[trigger] v@[k]
                            == self.memory@[(address + k) as u64] by {
                            if k == i {
                                assert(v@[k] == self.memory@[key]);
                            } else {
                                assert(v@[k] == prev[k]);
                            }
                        }
                    }
                },
                None => {
                    assert(!self.memory@.contains_key(key));
                    return None;
                },
            }
            i = i + 1;
        }
        Some(v)
    }
}

} // verus!
