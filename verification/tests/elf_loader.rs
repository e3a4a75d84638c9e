use x86emu::loader::elf::{
    elf, find_section_by_name, get_load_address, get_main_symbol_address, LoaderError,
};

fn put16(image: &mut Vec<u8>, off: usize, x: u16) {
    image[off] = x as u8;
    image[off + 1] = (x >> 8) as u8;
}

fn put32(image: &mut Vec<u8>, off: usize, x: u32) {
    for k in 0..4 {
        image[off + k] = (x >> (8 * k)) as u8;
    }
}

fn put64(image: &mut Vec<u8>, off: usize, x: u64) {
    for k in 0..8 {
        image[off + k] = (x >> (8 * k)) as u8;
    }
}

const TEXT_BYTES: [u8; 3] = [0x90, 0x90, 0xc3];

/// A minimal synthetic ELF64 image: one executable LOAD segment at virtual
/// address 0x400000, a .text section of known bytes at file offset 0x100,
/// and a symbol "main" at virtual address 0x400100.
fn minimal_image() -> Vec<u8> {
    let mut image = vec![0u8; 0x300];
    // header
    image[0] = 0x7f;
    image[1] = 0x45;
    image[2] = 0x4c;
    image[3] = 0x46;
    image[4] = 2; // 64-bit
    image[5] = 1; // little-endian
    put64(&mut image, 32, 64); // e_phoff
    put64(&mut image, 40, 120); // e_shoff
    put16(&mut image, 56, 1); // e_phnum
    put16(&mut image, 60, 5); // e_shnum
    put16(&mut image, 62, 4); // e_shstrndx
    // program header: executable LOAD at 0x400000
    put32(&mut image, 64, 1); // p_type = LOAD
    put32(&mut image, 68, 1); // p_flags = X
    put64(&mut image, 80, 0x400000); // p_vaddr
    // section headers (the one at index 0 stays all zero)
    // index 1: .text
    put32(&mut image, 184, 1);
    put64(&mut image, 208, 0x100);
    put64(&mut image, 216, TEXT_BYTES.len() as u64);
    // index 2: .symtab
    put32(&mut image, 248, 7);
    put64(&mut image, 272, 0x200);
    put64(&mut image, 280, 48);
    // index 3: .strtab
    put32(&mut image, 312, 15);
    put64(&mut image, 336, 0x280);
    put64(&mut image, 344, 6);
    // index 4: .shstrtab
    put32(&mut image, 376, 23);
    put64(&mut image, 400, 0x2c0);
    put64(&mut image, 408, 33);
    // .text contents
    for k in 0..TEXT_BYTES.len() {
        image[0x100 + k] = TEXT_BYTES[k];
    }
    // .symtab: a null entry, then "main" at 0x400100
    put32(&mut image, 0x218, 1); // st_name
    put64(&mut image, 0x220, 0x400100); // st_value
    // .strtab
    for (k, b) in b"\0main\0".iter().enumerate() {
        image[0x280 + k] = *b;
    }
    // .shstrtab
    for (k, b) in b"\0.text\0.symtab\0.strtab\0.shstrtab\0".iter().enumerate() {
        image[0x2c0 + k] = *b;
    }
    image
}

#[test]
fn load_minimal_image() {
    let image = minimal_image();
    let state = elf(&image, b"main", false, false).expect("load");
    assert_eq!(state.rip, 0x400100);
    assert_eq!(state.rsp, 0x1000);
    assert_eq!(state.mem_read(0x400100, 3), Some(vec![0x90, 0x90, 0xc3]));
    assert_eq!(state.mem_read_byte(0x400103), None);
    assert_eq!(state.rax, 0);
    assert_eq!(state.rdi, 0);
    assert!(!state.print_instructions);
    assert!(!state.print_registers);
}

#[test]
fn tracing_flags_carry_over() {
    let image = minimal_image();
    let state = elf(&image, b"main", true, true).expect("load");
    assert!(state.print_instructions);
    assert!(state.print_registers);
}

#[test]
fn load_address_of_minimal_image() {
    let image = minimal_image();
    assert_eq!(get_load_address(&image), Some(0x400000));
    assert_eq!(get_load_address(&[0u8; 16]), None);
}

#[test]
fn section_lookup_of_minimal_image() {
    let image = minimal_image();
    assert_eq!(find_section_by_name(&image, b".text"), Some(1));
    assert_eq!(find_section_by_name(&image, b".symtab"), Some(2));
    assert_eq!(find_section_by_name(&image, b".strtab"), Some(3));
    assert_eq!(find_section_by_name(&image, b".missing"), None);
}

#[test]
fn symbol_lookup_of_minimal_image() {
    let image = minimal_image();
    assert_eq!(get_main_symbol_address(&image, b"main"), Ok(0x400100));
    assert_eq!(
        get_main_symbol_address(&image, b"absent"),
        Err(LoaderError::SymbolNotFound)
    );
}

#[test]
fn missing_symtab_fails_with_symbol_table_error() {
    let mut image = minimal_image();
    // rename .symtab in the section name table so no section bears the name
    image[0x2c0 + 8] = b'z';
    assert!(matches!(elf(&image, b"main", false, false), Err(LoaderError::SymtabNotFound)));
}

#[test]
fn missing_strtab_fails_with_string_table_error() {
    let mut image = minimal_image();
    image[0x2c0 + 16] = b'q';
    assert!(matches!(elf(&image, b"main", false, false), Err(LoaderError::StrtabNotFound)));
}

#[test]
fn missing_text_section_fails() {
    let mut image = minimal_image();
    image[0x2c0 + 2] = b'q';
    assert!(matches!(elf(&image, b"main", false, false), Err(LoaderError::TextSectionNotFound)));
}

#[test]
fn no_executable_load_segment_fails() {
    let mut image = minimal_image();
    put32(&mut image, 68, 0); // clear the executable flag
    assert!(matches!(elf(&image, b"main", false, false), Err(LoaderError::NoLoadSegment)));
    let mut image = minimal_image();
    put32(&mut image, 64, 2); // not a LOAD segment
    assert!(matches!(elf(&image, b"main", false, false), Err(LoaderError::NoLoadSegment)));
}

#[test]
fn absent_symbol_fails() {
    let image = minimal_image();
    assert!(matches!(elf(&image, b"other", false, false), Err(LoaderError::SymbolNotFound)));
}

#[test]
fn text_section_past_the_end_fails() {
    let mut image = minimal_image();
    put64(&mut image, 216, 0x10000); // .text size beyond the file
    assert!(matches!(elf(&image, b"main", false, false), Err(LoaderError::MalformedImage)));
}

#[test]
fn empty_input_fails() {
    assert!(matches!(elf(&[], b"main", false, false), Err(LoaderError::NoLoadSegment)));
}

#[test]
fn error_messages() {
    assert_eq!(LoaderError::NoLoadSegment.message(), "can not get load address");
    assert_eq!(LoaderError::TextSectionNotFound.message(), "text section not found.");
    assert_eq!(
        LoaderError::StrtabNotFound.message(),
        "strtab (String table) section not found, is this a stripped binary?"
    );
    assert_eq!(
        LoaderError::SymtabNotFound.message(),
        "symtab (Symbol table) section not found"
    );
    assert_eq!(LoaderError::SymbolNotFound.message(), "symbol not found");
}

#[test]
fn bad_section_name_table_index_fails() {
    let mut image = minimal_image();
    put16(&mut image, 62, 9); // e_shstrndx past the table
    assert!(matches!(elf(&image, b"main", false, false), Err(LoaderError::TextSectionNotFound)));
}

#[test]
fn symbol_name_prefix_does_not_match() {
    let image = minimal_image();
    // "mai" and "main2" are not the zero-terminated name "main"
    assert!(matches!(get_main_symbol_address(&image, b"mai"), Err(LoaderError::SymbolNotFound)));
    assert!(matches!(get_main_symbol_address(&image, b"main2"), Err(LoaderError::SymbolNotFound)));
}
