//! The ELF64 image loader.
//!
//! An ELF64 image is a byte sequence: a 64-byte header, a program header
//! table of 56-byte entries, and a section header table of 64-byte entries.
//! The loader finds the first executable `LOAD` program header, the `.text`
//! section's bytes, and the virtual address of a named symbol through the
//! `.symtab` and `.strtab` sections, and builds the initial machine state:
//! the text bytes in memory at the load address plus the section's file
//! offset, RIP at the symbol's address, RSP at the fixed initial stack top.
//!
//! Every structure is read at its documented offset: `e_phoff` at byte 32,
//! `e_shoff` at 40, `e_phnum` at 56, `e_shnum` at 60, `e_shstrndx` at 62;
//! in a program header, `p_type` at 0, `p_flags` at 4, `p_vaddr` at 16; in
//! a section header, `sh_name` at 0, `sh_offset` at 24, `sh_size` at 32; in
//! a symbol entry, `st_name` at 0 and `st_value` at 8.

use vstd::prelude::*;
use vstd::map::*;
use crate::bytes::spec_le_value;
use crate::machine::MachineState;
use crate::machine::spec_mem_image;

verus! {

/// The fixed initial stack top.
pub const INITIAL_RSP: u64 = 0x1000;

/// A fatal loading error: each aborts the run before any instruction
/// executes.
#[derive(Clone, Copy, Debug, PartialEq, Eq, Structural)]
pub enum LoaderError {
    /// No program header is an executable `LOAD` segment (or the image is
    /// too malformed to look for one).
    NoLoadSegment,
    /// No section is named `.text`.
    TextSectionNotFound,
    /// No section is named `.strtab`.
    StrtabNotFound,
    /// No section is named `.symtab`.
    SymtabNotFound,
    /// The named symbol is absent from the symbol table.
    SymbolNotFound,
    /// A structure points past the end of the image or of the address
    /// space.
    MalformedImage,
}

impl LoaderError {
    /// A diagnostic text identifying the failure.
    pub fn message(&self) -> (r: &'static str)
        ensures
            *self == LoaderError::NoLoadSegment ==> r@ == "can not get load address"@,
            *self == LoaderError::TextSectionNotFound ==> r@ == "text section not found."@,
            *self == LoaderError::StrtabNotFound ==> r@
                == "strtab (String table) section not found, is this a stripped binary?"@,
            *self == LoaderError::SymtabNotFound ==> r@
                == "symtab (Symbol table) section not found"@,
            *self == LoaderError::SymbolNotFound ==> r@ == "symbol not found"@,
            *self == LoaderError::MalformedImage ==> r@
                == "malformed image: a structure points past the end"@,
    {
        match *self {
            LoaderError::NoLoadSegment => "can not get load address",
            LoaderError::TextSectionNotFound => "text section not found.",
            LoaderError::StrtabNotFound => {
                "strtab (String table) section not found, is this a stripped binary?"
            },
            LoaderError::SymtabNotFound => "symtab (Symbol table) section not found",
            LoaderError::SymbolNotFound => "symbol not found",
            LoaderError::MalformedImage => "malformed image: a structure points past the end",
        }
    }
}

/// Reads a 16-bit little-endian value.
pub fn read_u16_le(data: &[u8], off: usize) -> (r: u16)
    requires
        off + 2 <= data@.len(),
    ensures
        r == spec_le_value(data@, off as int, 2),
{
    proof {
        reveal_with_fuel(spec_le_value, 3);
    }
    (data[off] as u16) + 256 * (data[off + 1] as u16)
}

/// Reads a 32-bit little-endian value.
pub fn read_u32_le(data: &[u8], off: usize) -> (r: u32)
    requires
        off + 4 <= data@.len(),
    ensures
        r == spec_le_value(data@, off as int, 4),
{
    proof {
        reveal_with_fuel(spec_le_value, 5);
    }
    (data[off] as u32) + 256 * ((data[off + 1] as u32) + 256 * ((data[off + 2] as u32) + 256 * (
    data[off + 3] as u32)))
}

/// Reads a 64-bit little-endian value.
pub fn read_u64_le(data: &[u8], off: usize) -> (r: u64)
    requires
        off + 8 <= data@.len(),
    ensures
        r == spec_le_value(data@, off as int, 8),
{
    proof {
        reveal_with_fuel(spec_le_value, 9);
    }
    (data[off] as u64) + 256 * ((data[off + 1] as u64) + 256 * ((data[off + 2] as u64) + 256 * ((
    data[off + 3] as u64) + 256 * ((data[off + 4] as u64) + 256 * ((data[off + 5] as u64) + 256
        * ((data[off + 6] as u64) + 256 * (data[off + 7] as u64)))))))
}

/// The image has the ELF64 little-endian magic and a complete header.
pub open spec fn spec_header_ok(data: Seq<u8>) -> bool {
    &&& data.len() >= 64
    &&& data[0] == 0x7f
    &&& data[1] == 0x45
    &&& data[2] == 0x4c
    &&& data[3] == 0x46
    &&& data[4] == 2
    &&& data[5] == 1
}

/// The program header table's file offset.
pub open spec fn spec_ph_off(data: Seq<u8>) -> nat {
    spec_le_value(data, 32, 8)
}

/// The number of program headers.
pub open spec fn spec_ph_num(data: Seq<u8>) -> nat {
    spec_le_value(data, 56, 2)
}

/// The section header table's file offset.
pub open spec fn spec_sh_off(data: Seq<u8>) -> nat {
    spec_le_value(data, 40, 8)
}

/// The number of section headers.
pub open spec fn spec_sh_num(data: Seq<u8>) -> nat {
    spec_le_value(data, 60, 2)
}

/// The index of the section holding the section names.
pub open spec fn spec_shstrndx(data: Seq<u8>) -> nat {
    spec_le_value(data, 62, 2)
}

/// The whole program header table lies inside the image.
pub open spec fn spec_ph_table_ok(data: Seq<u8>) -> bool {
    spec_ph_off(data) + 56 * spec_ph_num(data) <= data.len()
}

/// The file offset of program header `i`.
pub open spec fn spec_ph_base(data: Seq<u8>, i: int) -> int {
    spec_ph_off(data) + 56 * i
}

/// Program header `i` is an executable `LOAD` segment: its type is `LOAD`
/// and the executable flag (the low bit of `p_flags`) is set.
pub open spec fn spec_is_exec_load(data: Seq<u8>, i: int) -> bool {
    &&& spec_le_value(data, spec_ph_base(data, i), 4) == 1
    &&& spec_le_value(data, spec_ph_base(data, i) + 4, 4) % 2 == 1
}

/// The virtual address of program header `i`.
pub open spec fn spec_ph_vaddr(data: Seq<u8>, i: int) -> nat {
    spec_le_value(data, spec_ph_base(data, i) + 16, 8)
}

/// The least executable `LOAD` program header at index `i` or beyond.
pub open spec fn spec_find_exec_load_from(data: Seq<u8>, i: int) -> Option<int>
    decreases spec_ph_num(data) - i,
{
    if i < 0 || i >= spec_ph_num(data) {
        None
    } else if spec_is_exec_load(data, i) {
        Some(i)
    } else {
        spec_find_exec_load_from(data, i + 1)
    }
}

/// The virtual address at which the image's code is to be loaded: that of
/// the first executable `LOAD` segment of a well-formed image.
pub open spec fn spec_load_address(data: Seq<u8>) -> Option<int> {
    if spec_header_ok(data) && spec_ph_table_ok(data) {
        match spec_find_exec_load_from(data, 0) {
            Some(i) => Some(spec_ph_vaddr(data, i) as int),
            None => None,
        }
    } else {
        None
    }
}

/// The whole section header table lies inside the image and the section
/// name table's index is a section index.
pub open spec fn spec_sh_table_ok(data: Seq<u8>) -> bool {
    &&& spec_sh_off(data) + 64 * spec_sh_num(data) <= data.len()
    &&& spec_shstrndx(data) < spec_sh_num(data)
}

/// The file offset of section header `i`.
pub open spec fn spec_sh_base(data: Seq<u8>, i: int) -> int {
    spec_sh_off(data) + 64 * i
}

/// The offset of section `i`'s name in the section name table.
pub open spec fn spec_sh_name(data: Seq<u8>, i: int) -> nat {
    spec_le_value(data, spec_sh_base(data, i), 4)
}

/// The file offset of section `i`'s contents.
pub open spec fn spec_sh_offset(data: Seq<u8>, i: int) -> nat {
    spec_le_value(data, spec_sh_base(data, i) + 24, 8)
}

/// The size in bytes of section `i`'s contents.
pub open spec fn spec_sh_size(data: Seq<u8>, i: int) -> nat {
    spec_le_value(data, spec_sh_base(data, i) + 32, 8)
}

/// The bytes at `off` hold exactly `name` followed by a terminating zero
/// byte, all inside the image.
pub open spec fn spec_c_str_matches(data: Seq<u8>, off: int, name: Seq<u8>) -> bool {
    &&& 0 <= off
    &&& off + name.len() < data.len()
    &&& forall|k: int| 0 <= k < name.len() ==> data[off + k] == name[k]
    &&& data[off + name.len()] == 0
}

/// Section `i`'s name, read from the section name table, is `name`.
pub open spec fn spec_section_name_matches(data: Seq<u8>, i: int, name: Seq<u8>) -> bool {
    spec_c_str_matches(
        data,
        spec_sh_offset(data, spec_shstrndx(data) as int) + spec_sh_name(data, i) as int,
        name,
    )
}

/// The least section at index `i` or beyond whose name is `name`.
pub open spec fn spec_find_section_from(data: Seq<u8>, name: Seq<u8>, i: int) -> Option<int>
    decreases spec_sh_num(data) - i,
{
    if i < 0 || i >= spec_sh_num(data) {
        None
    } else if spec_section_name_matches(data, i, name) {
        Some(i)
    } else {
        spec_find_section_from(data, name, i + 1)
    }
}

/// The first section named `name` of a well-formed image.
pub open spec fn spec_section_lookup(data: Seq<u8>, name: Seq<u8>) -> Option<int> {
    if spec_header_ok(data) && spec_sh_table_ok(data) {
        spec_find_section_from(data, name, 0)
    } else {
        None
    }
}

/// The file offset of symbol entry `j` of a symbol table at `symtab_off`.
pub open spec fn spec_sym_base(symtab_off: int, j: int) -> int {
    symtab_off + 24 * j
}

/// Symbol entry `j` names `symbol`: its `st_name` offset into the string
/// table at `strtab_off` holds that zero-terminated text.
pub open spec fn spec_symbol_matches(
    data: Seq<u8>,
    strtab_off: int,
    symtab_off: int,
    j: int,
    symbol: Seq<u8>,
) -> bool {
    spec_c_str_matches(
        data,
        strtab_off + spec_le_value(data, spec_sym_base(symtab_off, j), 4),
        symbol,
    )
}

/// The least symbol entry at index `j` or beyond, of `n` entries, that
/// names `symbol`.
pub open spec fn spec_find_symbol_from(
    data: Seq<u8>,
    strtab_off: int,
    symtab_off: int,
    n: int,
    symbol: Seq<u8>,
    j: int,
) -> Option<int>
    decreases n - j,
{
    if j < 0 || j >= n {
        None
    } else if spec_symbol_matches(data, strtab_off, symtab_off, j, symbol) {
        Some(j)
    } else {
        spec_find_symbol_from(data, strtab_off, symtab_off, n, symbol, j + 1)
    }
}

/// The name `.text`.
pub open spec fn spec_text_name() -> Seq<u8> {
    seq![0x2eu8, 0x74u8, 0x65u8, 0x78u8, 0x74u8]
}

/// The name `.strtab`.
pub open spec fn spec_strtab_name() -> Seq<u8> {
    seq![0x2eu8, 0x73u8, 0x74u8, 0x72u8, 0x74u8, 0x61u8, 0x62u8]
}

/// The name `.symtab`.
pub open spec fn spec_symtab_name() -> Seq<u8> {
    seq![0x2eu8, 0x73u8, 0x79u8, 0x6du8, 0x74u8, 0x61u8, 0x62u8]
}

/// The virtual address of the symbol named `symbol`, resolved through the
/// `.symtab` and `.strtab` sections, with the error each missing piece
/// yields.
pub open spec fn spec_symbol_outcome(data: Seq<u8>, symbol: Seq<u8>) -> Result<nat, LoaderError> {
    match spec_section_lookup(data, spec_strtab_name()) {
        None => Err(LoaderError::StrtabNotFound),
        Some(strtab) => match spec_section_lookup(data, spec_symtab_name()) {
            None => Err(LoaderError::SymtabNotFound),
            Some(symtab) => {
                let strtab_off = spec_sh_offset(data, strtab) as int;
                let symtab_off = spec_sh_offset(data, symtab) as int;
                let symtab_size = spec_sh_size(data, symtab) as int;
                if symtab_off + symtab_size > data.len() {
                    Err(LoaderError::MalformedImage)
                } else {
                    match spec_find_symbol_from(
                        data,
                        strtab_off,
                        symtab_off,
                        symtab_size / 24,
                        symbol,
                        0,
                    ) {
                        None => Err(LoaderError::SymbolNotFound),
                        Some(j) => Ok(
                            spec_le_value(data, spec_sym_base(symtab_off, j) + 8, 8),
                        ),
                    }
                }
            },
        },
    }
}

/// Where a loaded image's text bytes land and where execution starts.
pub struct LoadPlan {
    /// The first executable `LOAD` segment's virtual address.
    pub load_address: nat,
    /// The `.text` section's file offset.
    pub text_offset: nat,
    /// The `.text` section's size in bytes.
    pub text_size: nat,
    /// The resolved symbol's virtual address: the initial RIP.
    pub entry: nat,
}

/// The outcome of loading `data` with entry symbol `symbol`: the plan of a
/// successful load, or the error of the first stage that fails.  The stages
/// run in order: load segment, `.text` lookup and bounds, `.strtab`,
/// `.symtab`, symbol, and last the address-space bound on where the text
/// bytes would land.
pub open spec fn spec_load_outcome(data: Seq<u8>, symbol: Seq<u8>) -> Result<
    LoadPlan,
    LoaderError,
> {
    match spec_load_address(data) {
        None => Err(LoaderError::NoLoadSegment),
        Some(load_address) => match spec_section_lookup(data, spec_text_name()) {
            None => Err(LoaderError::TextSectionNotFound),
            Some(text) => {
                let text_offset = spec_sh_offset(data, text) as int;
                let text_size = spec_sh_size(data, text) as int;
                if text_offset + text_size > data.len() {
                    Err(LoaderError::MalformedImage)
                } else {
                    match spec_symbol_outcome(data, symbol) {
                        Err(e) => Err(e),
                        Ok(entry) => {
                            if load_address + text_offset + text_size > 0x1_0000_0000_0000_0000
                                || load_address + text_offset > 0xffff_ffff_ffff_ffff {
                                Err(LoaderError::MalformedImage)
                            } else {
                                Ok(
                                    LoadPlan {
                                        load_address: load_address as nat,
                                        text_offset: text_offset as nat,
                                        text_size: text_size as nat,
                                        entry,
                                    },
                                )
                            }
                        },
                    }
                }
            },
        },
    }
}

/// Tests the ELF64 little-endian magic and that a complete header is
/// present.
fn header_ok(data: &[u8]) -> (b: bool)
    ensures
        b == spec_header_ok(data@),
{
    if data.len() < 64 {
        return false;
    }
    data[0] == 0x7f && data[1] == 0x45 && data[2] == 0x4c && data[3] == 0x46 && data[4] == 2
        && data[5] == 1
}

/// Tests whether the bytes at `off` hold exactly `name` followed by a
/// terminating zero byte.
fn c_str_matches(data: &[u8], off: u64, name: &[u8]) -> (b: bool)
    ensures
        b == spec_c_str_matches(data@, off as int, name@),
{
    let len: u64 = data.len() as u64;
    let n: usize = name.len();
    if off >= len || (n as u64) >= len - off {
        return false;
    }
    let off_us: usize = off as usize;
    let mut k: usize = 0;
    while k < n
        invariant
            k <= n,
            data@.len() <= usize::MAX,
            off + n < data@.len(),
            off_us == off,
            n == name@.len(),
            forall|j: int| 0 <= j < k ==> data@[off + j] == name@[j],
        decreases n - k,
    {
        if data[off_us + k] != name[k] {
            return false;
        }
        k = k + 1;
    }
    data[off_us + n] == 0
}

/// One step of the search for the first executable `LOAD` header.
proof fn lemma_find_exec_load_skip(data: Seq<u8>, i: int)
    requires
        0 <= i < spec_ph_num(data),
        !spec_is_exec_load(data, i),
    ensures
        spec_find_exec_load_from(data, i) == spec_find_exec_load_from(data, i + 1),
{
}

/// Finds the virtual address of the first executable `LOAD` segment: the
/// address where the image's code is to be loaded.  Returns `None` when no
/// program header is an executable `LOAD` segment, or when the image has no
/// complete header or program header table.
pub fn get_load_address(data: &[u8]) -> (r: Option<u64>)
    ensures
        match spec_load_address(data@) {
            Some(a) => r matches Some(v) && v == a,
            None => r is None,
        },
{
    if !header_ok(data) {
        return None;
    }
    let len: u64 = data.len() as u64;
    let ph_off = read_u64_le(data, 32);
    let ph_num = read_u16_le(data, 56) as u64;
    if ph_off > len || 56 * ph_num > len - ph_off {
        return None;
    }
    let mut i: u64 = 0;
    while i < ph_num
        invariant
            data@.len() <= usize::MAX,
            spec_header_ok(data@),
            spec_ph_table_ok(data@),
            ph_off == spec_ph_off(data@),
            ph_num == spec_ph_num(data@),
            len == data@.len(),
            i <= ph_num,
            spec_find_exec_load_from(data@, 0) == spec_find_exec_load_from(data@, i as int),
        decreases ph_num - i,
    {
        let base = ph_off + 56 * i;
        assert(base + 56 <= len);
        let base_us: usize = base as usize;
        let p_type = read_u32_le(data, base_us);
        let p_flags = read_u32_le(data, base_us + 4);
        if p_type == 1 && p_flags & 1 == 1 {
            let vaddr = read_u64_le(data, base_us + 16);
            proof {
                assert(p_flags & 1 == p_flags % 2) by (bit_vector);
                assert(spec_is_exec_load(data@, i as int));
            }
            return Some(vaddr);
        }
        proof {
            assert(p_flags & 1 == p_flags % 2) by (bit_vector);
            assert(!spec_is_exec_load(data@, i as int));
            lemma_find_exec_load_skip(data@, i as int);
        }
        i = i + 1;
    }
    None
}

/// One step of the search for a section by name.
proof fn lemma_find_section_skip(data: Seq<u8>, name: Seq<u8>, i: int)
    requires
        0 <= i < spec_sh_num(data),
        !spec_section_name_matches(data, i, name),
    ensures
        spec_find_section_from(data, name, i) == spec_find_section_from(data, name, i + 1),
{
}

/// Finds the first section named `name`, returning its index in the section
/// header table.  Returns `None` when no section has that name, or when the
/// image has no complete header or section header table.
pub fn find_section_by_name(data: &[u8], name: &[u8]) -> (r: Option<u64>)
    ensures
        match spec_section_lookup(data@, name@) {
            Some(i) => r matches Some(v) && v == i,
            None => r is None,
        },
{
    if !header_ok(data) {
        return None;
    }
    let len: u64 = data.len() as u64;
    let sh_off = read_u64_le(data, 40);
    let sh_num = read_u16_le(data, 60) as u64;
    let shstrndx = read_u16_le(data, 62) as u64;
    if sh_off > len || 64 * sh_num > len - sh_off || shstrndx >= sh_num {
        return None;
    }
    let shstrtab_base = sh_off + 64 * shstrndx;
    assert(shstrtab_base + 64 <= len);
    let shstrtab_off = read_u64_le(data, (shstrtab_base as usize) + 24);
    let mut i: u64 = 0;
    while i < sh_num
        invariant
            data@.len() <= usize::MAX,
            spec_header_ok(data@),
            spec_sh_table_ok(data@),
            sh_off == spec_sh_off(data@),
            sh_num == spec_sh_num(data@),
            shstrndx == spec_shstrndx(data@),
            shstrtab_off == spec_sh_offset(data@, spec_shstrndx(data@) as int),
            len == data@.len(),
            i <= sh_num,
            spec_find_section_from(data@, name@, 0) == spec_find_section_from(
                data@,
                name@,
                i as int,
            ),
        decreases sh_num - i,
    {
        let base = sh_off + 64 * i;
        assert(base + 64 <= len);
        let name_off = read_u32_le(data, base as usize) as u64;
        let matched: bool = if shstrtab_off > u64::MAX - name_off {
            proof {
                assert(!spec_section_name_matches(data@, i as int, name@));
            }
            false
        } else {
            c_str_matches(data, shstrtab_off + name_off, name)
        };
        if matched {
            return Some(i);
        }
        proof {
            lemma_find_section_skip(data@, name@, i as int);
        }
        i = i + 1;
    }
    None
}

/// The name `.text`, as bytes.
fn text_name() -> (v: Vec<u8>)
    ensures
        v@ == spec_text_name(),
{
    let mut v: Vec<u8> = Vec::new();
    v.push(0x2e);
    v.push(0x74);
    v.push(0x65);
    v.push(0x78);
    v.push(0x74);
    proof {
        assert(v@ =~= spec_text_name());
    }
    v
}

/// The name `.strtab`, as bytes.
fn strtab_name() -> (v: Vec<u8>)
    ensures
        v@ == spec_strtab_name(),
{
    let mut v: Vec<u8> = Vec::new();
    v.push(0x2e);
    v.push(0x73);
    v.push(0x74);
    v.push(0x72);
    v.push(0x74);
    v.push(0x61);
    v.push(0x62);
    proof {
        assert(v@ =~= spec_strtab_name());
    }
    v
}

/// The name `.symtab`, as bytes.
fn symtab_name() -> (v: Vec<u8>)
    ensures
        v@ == spec_symtab_name(),
{
    let mut v: Vec<u8> = Vec::new();
    v.push(0x2e);
    v.push(0x73);
    v.push(0x79);
    v.push(0x6d);
    v.push(0x74);
    v.push(0x61);
    v.push(0x62);
    proof {
        assert(v@ =~= spec_symtab_name());
    }
    v
}

/// One step of the search for a symbol by name.
proof fn lemma_find_symbol_skip(
    data: Seq<u8>,
    strtab_off: int,
    symtab_off: int,
    n: int,
    symbol: Seq<u8>,
    j: int,
)
    requires
        0 <= j < n,
        !spec_symbol_matches(data, strtab_off, symtab_off, j, symbol),
    ensures
        spec_find_symbol_from(data, strtab_off, symtab_off, n, symbol, j)
            == spec_find_symbol_from(data, strtab_off, symtab_off, n, symbol, j + 1),
{
}

/// A found section index lies in the table and bears the name.
proof fn lemma_find_section_found(data: Seq<u8>, name: Seq<u8>, i: int, j: int)
    requires
        spec_find_section_from(data, name, i) == Some(j),
    ensures
        i <= j < spec_sh_num(data),
        spec_section_name_matches(data, j, name),
    decreases spec_sh_num(data) - i,
{
    if i < 0 || i >= spec_sh_num(data) {
    } else if spec_section_name_matches(data, i, name) {
    } else {
        lemma_find_section_found(data, name, i + 1, j);
    }
}

/// Resolves the virtual address of the symbol named `symbol_name` through
/// the `.symtab` and `.strtab` sections.  Fails with the string table's,
/// the symbol table's, or the symbol's absence, each with its own error.
pub fn get_main_symbol_address(data: &[u8], symbol_name: &[u8]) -> (r: Result<u64, LoaderError>)
    ensures
        match spec_symbol_outcome(data@, symbol_name@) {
            Ok(a) => r matches Ok(v) && v == a,
            Err(e) => r == Err::<u64, LoaderError>(e),
        },
{
    let sname = strtab_name();
    let strtab_idx = match find_section_by_name(data, sname.as_slice()) {
        Some(i) => i,
        None => {
            return Err(LoaderError::StrtabNotFound);
        },
    };
    let yname = symtab_name();
    let symtab_idx = match find_section_by_name(data, yname.as_slice()) {
        Some(i) => i,
        None => {
            return Err(LoaderError::SymtabNotFound);
        },
    };
    proof {
        lemma_find_section_found(data@, spec_strtab_name(), 0, strtab_idx as int);
        lemma_find_section_found(data@, spec_symtab_name(), 0, symtab_idx as int);
    }
    let len: u64 = data.len() as u64;
    let sh_off = read_u64_le(data, 40);
    assert(sh_off + 64 * strtab_idx + 64 <= len);
    assert(sh_off + 64 * symtab_idx + 64 <= len);
    let strtab_off = read_u64_le(data, ((sh_off + 64 * strtab_idx) as usize) + 24);
    let symtab_base: usize = (sh_off + 64 * symtab_idx) as usize;
    let symtab_off = read_u64_le(data, symtab_base + 24);
    let symtab_size = read_u64_le(data, symtab_base + 32);
    if symtab_off > len || symtab_size > len - symtab_off {
        return Err(LoaderError::MalformedImage);
    }
    let n = symtab_size / 24;
    assert(24 * n <= symtab_size);
    let mut j: u64 = 0;
    while j < n
        invariant
            data@.len() <= usize::MAX,
            spec_header_ok(data@),
            spec_sh_table_ok(data@),
            len == data@.len(),
            spec_section_lookup(data@, spec_strtab_name()) == Some(strtab_idx as int),
            spec_section_lookup(data@, spec_symtab_name()) == Some(symtab_idx as int),
            strtab_off == spec_sh_offset(data@, strtab_idx as int),
            symtab_off == spec_sh_offset(data@, symtab_idx as int),
            symtab_size == spec_sh_size(data@, symtab_idx as int),
            symtab_off + symtab_size <= len,
            n == symtab_size / 24,
            24 * n <= symtab_size,
            j <= n,
            spec_find_symbol_from(
                data@,
                strtab_off as int,
                symtab_off as int,
                n as int,
                symbol_name@,
                0,
            ) == spec_find_symbol_from(
                data@,
                strtab_off as int,
                symtab_off as int,
                n as int,
                symbol_name@,
                j as int,
            ),
        decreases n - j,
    {
        let sym_base = symtab_off + 24 * j;
        assert(sym_base + 24 <= len);
        let name_off = read_u32_le(data, sym_base as usize) as u64;
        let matched: bool = if strtab_off > u64::MAX - name_off {
            proof {
                assert(!spec_symbol_matches(
                    data@,
                    strtab_off as int,
                    symtab_off as int,
                    j as int,
                    symbol_name@,
                ));
            }
            false
        } else {
            c_str_matches(data, strtab_off + name_off, symbol_name)
        };
        if matched {
            let value = read_u64_le(data, (sym_base as usize) + 8);
            proof {
                assert(spec_symbol_matches(
                    data@,
                    strtab_off as int,
                    symtab_off as int,
                    j as int,
                    symbol_name@,
                ));
            }
            return Ok(value);
        }
        proof {
            lemma_find_symbol_skip(
                data@,
                strtab_off as int,
                symtab_off as int,
                n as int,
                symbol_name@,
                j as int,
            );
        }
        j = j + 1;
    }
    Err(LoaderError::SymbolNotFound)
}

/// Loads an ELF64 image and builds the initial machine state: the `.text`
/// section's bytes in memory at the first executable `LOAD` segment's
/// virtual address plus the section's file offset, RIP at the virtual
/// address of the symbol named `symbol`, RSP at the fixed initial stack
/// top, every other register zero, and the tracing flags as given.  Fails
/// with the error of the first missing or malformed piece, before any
/// instruction executes.
pub fn elf(buffer: &[u8], symbol: &[u8], print_instructions: bool, print_registers: bool) -> (r:
    Result<MachineState, LoaderError>)
    ensures
        match r {
            Ok(s) => (spec_load_outcome(buffer@, symbol@) matches Ok(plan) && {
                &&& s.rip == plan.entry
                &&& s.rsp == INITIAL_RSP
                &&& s.rax == 0 && s.rbx == 0 && s.rcx == 0 && s.rdx == 0
                &&& s.rbp == 0 && s.rsi == 0 && s.rdi == 0
                &&& s.es == 0 && s.cs == 0 && s.ss == 0 && s.ds == 0 && s.fs == 0 && s.gs == 0
                &&& s.print_instructions == print_instructions
                &&& s.print_registers == print_registers
                &&& s.memory@ == spec_mem_image(
                    (plan.load_address + plan.text_offset) as u64,
                    buffer@.subrange(
                        plan.text_offset as int,
                        plan.text_offset + plan.text_size as int,
                    ),
                )
            }),
            Err(e) => spec_load_outcome(buffer@, symbol@) == Err::<LoadPlan, LoaderError>(e),
        },
{
    let load_address = match get_load_address(buffer) {
        Some(a) => a,
        None => {
            return Err(LoaderError::NoLoadSegment);
        },
    };
    let tname = text_name();
    let text_idx = match find_section_by_name(buffer, tname.as_slice()) {
        Some(i) => i,
        None => {
            return Err(LoaderError::TextSectionNotFound);
        },
    };
    proof {
        lemma_find_section_found(buffer@, spec_text_name(), 0, text_idx as int);
    }
    let len: u64 = buffer.len() as u64;
    let sh_off = read_u64_le(buffer, 40);
    assert(sh_off + 64 * text_idx + 64 <= len);
    let text_base: usize = (sh_off + 64 * text_idx) as usize;
    let code_offset = read_u64_le(buffer, text_base + 24);
    let code_size = read_u64_le(buffer, text_base + 32);
    if code_offset > len || code_size > len - code_offset {
        return Err(LoaderError::MalformedImage);
    }
    let entry = match get_main_symbol_address(buffer, symbol) {
        Ok(v) => v,
        Err(e) => {
            return Err(e);
        },
    };
    if load_address > u64::MAX - code_offset {
        return Err(LoaderError::MalformedImage);
    }
    let dest = load_address + code_offset;
    if code_size > 0 && dest > u64::MAX - (code_size - 1) {
        return Err(LoaderError::MalformedImage);
    }
    let code = vstd::slice::slice_subrange(
        buffer,
        code_offset as usize,
        (code_offset + code_size) as usize,
    );
    let mut machine_state = MachineState::new();
    let ghost empty_mem = machine_state.memory@;
    machine_state.mem_write(dest, code);
    machine_state.rip = entry;
    machine_state.rsp = INITIAL_RSP;
    machine_state.print_instructions = print_instructions;
    machine_state.print_registers = print_registers;
    proof {
        assert_maps_equal!(
            empty_mem.union_prefer_right(spec_mem_image(dest, code@)),
            spec_mem_image(dest, code@)
        );
    }
    Ok(machine_state)
}

/// Law: an image whose load segment, `.text` section and `.strtab` section
/// are in place, but that has no `.symtab` section, fails with the
/// symbol-table error, whatever symbol is asked for.
pub proof fn lemma_missing_symtab_fails(data: Seq<u8>, symbol: Seq<u8>)
    requires
        spec_load_address(data) is Some,
        (spec_section_lookup(data, spec_text_name()) matches Some(t) && spec_sh_offset(data, t)
            + spec_sh_size(data, t) <= data.len()),
        spec_section_lookup(data, spec_strtab_name()) is Some,
        spec_section_lookup(data, spec_symtab_name()) is None,
    ensures
        spec_load_outcome(data, symbol) == Err::<LoadPlan, LoaderError>(
            LoaderError::SymtabNotFound,
        ),
{
}

} // verus!
