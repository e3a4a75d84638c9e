use x86emu::execution::{InstructionArgument, EmulationError, CPU};
use x86emu::machine::MachineState;
use x86emu::registers::{ArgumentSize, Register};

#[test]
fn register_round_trip_64() {
    let cpu = CPU {};
    let mut state = MachineState::new();
    cpu.set_register_value_i64(&mut state, Register::RAX, 0x1234_5678_9abc_def0u64 as i64);
    assert_eq!(
        cpu.get_register_value_i64(&state, Register::RAX),
        0x1234_5678_9abc_def0u64 as i64
    );
    cpu.set_register_value_i64(&mut state, Register::RBX, -2);
    assert_eq!(cpu.get_register_value_i64(&state, Register::RBX), -2);
}

#[test]
fn register_round_trip_32() {
    let cpu = CPU {};
    let mut state = MachineState::new();
    cpu.set_register_value_i32(&mut state, Register::EAX, 0x7eadbeef);
    assert_eq!(cpu.get_register_value_i32(&state, Register::EAX), 0x7eadbeef);
    cpu.set_register_value_i32(&mut state, Register::ECX, -1);
    assert_eq!(cpu.get_register_value_i32(&state, Register::ECX), -1);
}

#[test]
fn register_round_trip_segment() {
    let cpu = CPU {};
    let mut state = MachineState::new();
    cpu.set_register_value_i32(&mut state, Register::FS, 0x1234);
    assert_eq!(cpu.get_register_value_i32(&state, Register::FS), 0x1234);
    assert_eq!(cpu.get_register_value_i64(&state, Register::FS), 0x1234);
}

#[test]
fn write_32_bit_view_zero_extends() {
    let cpu = CPU {};
    let mut state = MachineState::new();
    cpu.set_register_value_i64(&mut state, Register::RAX, -1);
    cpu.set_register_value_i32(&mut state, Register::EAX, -1);
    // the 32-bit destination write cleared the upper dword
    assert_eq!(cpu.get_register_value_i64(&state, Register::RAX), 0xffff_ffffi64);
    cpu.set_register_value_i32(&mut state, Register::EBX, 7);
    assert_eq!(cpu.get_register_value_i64(&state, Register::RBX), 7);
}

#[test]
fn read_32_bit_view_is_low_dword() {
    let cpu = CPU {};
    let mut state = MachineState::new();
    cpu.set_register_value_i64(&mut state, Register::RDX, 0x1111_2222_3333_4444);
    assert_eq!(cpu.get_register_value_i32(&state, Register::EDX), 0x3333_4444);
    assert_eq!(cpu.get_register_value_i64(&state, Register::EDX), 0x3333_4444);
}

#[test]
fn write_64_truncates_into_32_bit_view() {
    let cpu = CPU {};
    let mut state = MachineState::new();
    cpu.set_register_value_i64(&mut state, Register::ESI, -1);
    assert_eq!(cpu.get_register_value_i64(&state, Register::RSI), 0xffff_ffffi64);
}

#[test]
fn first_argument_size_follows_direction_bit() {
    let cpu = CPU {};
    let arg = InstructionArgument::TwoRegister {
        register1: Register::RAX,
        register2: Register::EBX,
        reverse_direction: true,
    };
    assert_eq!(cpu.first_argument_size(&arg), ArgumentSize::Bit32);
    assert_eq!(cpu.second_argument_size(&arg), Ok(ArgumentSize::Bit64));
    let arg = InstructionArgument::TwoRegister {
        register1: Register::RAX,
        register2: Register::EBX,
        reverse_direction: false,
    };
    assert_eq!(cpu.first_argument_size(&arg), ArgumentSize::Bit64);
    assert_eq!(cpu.second_argument_size(&arg), Ok(ArgumentSize::Bit32));
}

#[test]
fn first_argument_size_of_each_shape() {
    let cpu = CPU {};
    assert_eq!(
        cpu.first_argument_size(&InstructionArgument::OneRegister { register: Register::CS }),
        ArgumentSize::Bit16
    );
    assert_eq!(
        cpu.first_argument_size(&InstructionArgument::Immediate8 { immediate: -3 }),
        ArgumentSize::Bit8
    );
    assert_eq!(
        cpu.first_argument_size(&InstructionArgument::Immediate32 { immediate: 9 }),
        ArgumentSize::Bit32
    );
    assert_eq!(
        cpu.first_argument_size(&InstructionArgument::Immediate8BitRegister {
            register: Register::RCX,
            immediate: 1,
        }),
        ArgumentSize::Bit8
    );
    assert_eq!(
        cpu.first_argument_size(&InstructionArgument::Immediate32BitRegister {
            register: Register::EDI,
            immediate: 1,
        }),
        ArgumentSize::Bit32
    );
}

#[test]
fn second_argument_size_of_mixed_shapes_is_the_register() {
    let cpu = CPU {};
    assert_eq!(
        cpu.second_argument_size(&InstructionArgument::Immediate8BitRegister {
            register: Register::RCX,
            immediate: 1,
        }),
        Ok(ArgumentSize::Bit64)
    );
    assert_eq!(
        cpu.second_argument_size(&InstructionArgument::Immediate32BitRegister {
            register: Register::EDI,
            immediate: 1,
        }),
        Ok(ArgumentSize::Bit32)
    );
}

#[test]
fn second_argument_queries_fail_on_single_operand_shapes() {
    let cpu = CPU {};
    let state = MachineState::new();
    let shapes = [
        InstructionArgument::OneRegister { register: Register::RAX },
        InstructionArgument::Immediate8 { immediate: 1 },
        InstructionArgument::Immediate32 { immediate: 1 },
    ];
    for arg in shapes.iter() {
        assert_eq!(cpu.second_argument_size(arg), Err(EmulationError::OnlyOneArgument));
        assert_eq!(cpu.second_argument_i8(&state, *arg), Err(EmulationError::OnlyOneArgument));
        assert_eq!(cpu.second_argument_i16(&state, *arg), Err(EmulationError::OnlyOneArgument));
        assert_eq!(cpu.second_argument_i32(&state, *arg), Err(EmulationError::OnlyOneArgument));
        assert_eq!(cpu.second_argument_i64(&state, *arg), Err(EmulationError::OnlyOneArgument));
    }
    assert_eq!(EmulationError::OnlyOneArgument.message(), "Only one argument available");
}

#[test]
fn first_argument_values() {
    let cpu = CPU {};
    let mut state = MachineState::new();
    cpu.set_register_value_i64(&mut state, Register::RAX, 0x0102_0304_0506_0708);
    let one = InstructionArgument::OneRegister { register: Register::RAX };
    assert_eq!(cpu.first_argument_i64(&state, one), 0x0102_0304_0506_0708);
    assert_eq!(cpu.first_argument_i32(&state, one), 0x0506_0708);
    assert_eq!(cpu.first_argument_i16(&state, one), 0x0708);
    assert_eq!(cpu.first_argument_i8(&state, one), 0x08);
    let two = InstructionArgument::TwoRegister {
        register1: Register::RAX,
        register2: Register::RBX,
        reverse_direction: true,
    };
    // the value of the first operand is register1's, whatever the direction bit
    assert_eq!(cpu.first_argument_i64(&state, two), 0x0102_0304_0506_0708);
    assert_eq!(cpu.first_argument_i64(&state, InstructionArgument::Immediate8 { immediate: -5 }), -5);
    assert_eq!(cpu.first_argument_i32(&state, InstructionArgument::Immediate8 { immediate: -5 }), -5);
    assert_eq!(
        cpu.first_argument_i64(&state, InstructionArgument::Immediate32 { immediate: -70000 }),
        -70000
    );
    assert_eq!(
        cpu.first_argument_i8(&state, InstructionArgument::Immediate32 { immediate: 0x1234 }),
        0x34
    );
    assert_eq!(
        cpu.first_argument_i32(
            &state,
            InstructionArgument::Immediate8BitRegister { register: Register::RBX, immediate: -2 },
        ),
        -2
    );
}

#[test]
fn second_argument_values() {
    let cpu = CPU {};
    let mut state = MachineState::new();
    cpu.set_register_value_i64(&mut state, Register::RBX, 0x1122_3344_5566_7788);
    let two = InstructionArgument::TwoRegister {
        register1: Register::RAX,
        register2: Register::RBX,
        reverse_direction: false,
    };
    assert_eq!(cpu.second_argument_i64(&state, two), Ok(0x1122_3344_5566_7788));
    assert_eq!(cpu.second_argument_i32(&state, two), Ok(0x5566_7788));
    assert_eq!(cpu.second_argument_i16(&state, two), Ok(0x7788));
    assert_eq!(cpu.second_argument_i8(&state, two), Ok(-0x78i8));
    let mixed = InstructionArgument::Immediate32BitRegister {
        register: Register::RBX,
        immediate: 3,
    };
    assert_eq!(cpu.second_argument_i64(&state, mixed), Ok(0x1122_3344_5566_7788));
}

#[test]
fn stack_push_moves_rsp_and_writes_bytes() {
    let cpu = CPU {};
    let mut state = MachineState::new();
    state.rsp = 0x1000;
    cpu.stack_push(&mut state, vec![1, 2, 3]);
    assert_eq!(state.rsp, 0xffd);
    assert_eq!(state.mem_read(0xffd, 3), Some(vec![1, 2, 3]));
    cpu.stack_push(&mut state, vec![0xaa]);
    assert_eq!(state.rsp, 0xffc);
    assert_eq!(state.mem_read_byte(0xffc), Some(0xaa));
    // the earlier bytes are still in place
    assert_eq!(state.mem_read(0xffd, 3), Some(vec![1, 2, 3]));
}

#[test]
fn memory_reads_fail_where_nothing_was_stored() {
    let mut state = MachineState::new();
    assert_eq!(state.mem_read_byte(0x500), None);
    state.mem_write(0x500, &[9, 8]);
    assert_eq!(state.mem_read_byte(0x500), Some(9));
    assert_eq!(state.mem_read_byte(0x501), Some(8));
    assert_eq!(state.mem_read(0x500, 3), None);
    assert_eq!(state.mem_read(0x500, 2), Some(vec![9, 8]));
}

#[test]
fn rip_is_a_plain_64_bit_register() {
    let cpu = CPU {};
    let mut state = MachineState::new();
    cpu.set_register_value_i64(&mut state, Register::RIP, 0x400100);
    assert_eq!(cpu.get_register_value_i64(&state, Register::RIP), 0x400100);
    assert_eq!(state.rip, 0x400100);
}

#[test]
fn esp_aliases_the_stack_pointer() {
    let cpu = CPU {};
    let mut state = MachineState::new();
    cpu.set_register_value_i64(&mut state, Register::RSP, -1);
    cpu.set_register_value_i32(&mut state, Register::ESP, 0x1000);
    // the 32-bit write went into the backing stack pointer, upper dword cleared
    assert_eq!(state.rsp, 0x1000);
    cpu.stack_push(&mut state, vec![0x42]);
    assert_eq!(cpu.get_register_value_i32(&state, Register::ESP), 0xfff);
}

#[test]
fn boundary_values_round_trip() {
    let cpu = CPU {};
    let mut state = MachineState::new();
    cpu.set_register_value_i64(&mut state, Register::RDI, i64::MIN);
    assert_eq!(cpu.get_register_value_i64(&state, Register::RDI), i64::MIN);
    cpu.set_register_value_i32(&mut state, Register::EDI, i32::MIN);
    assert_eq!(cpu.get_register_value_i32(&state, Register::EDI), i32::MIN);
    assert_eq!(
        cpu.get_register_value_i64(&state, Register::RDI),
        0x8000_0000i64
    );
}

#[test]
fn register_operands_sign_extend_where_raw_reads_do_not() {
    let cpu = CPU {};
    let mut state = MachineState::new();
    cpu.set_register_value_i32(&mut state, Register::EAX, -1);
    // the raw register read zero-extends the 32-bit view
    assert_eq!(cpu.get_register_value_i64(&state, Register::RAX), 0xffff_ffffi64);
    // read as a signed operand, the same register sign-extends
    let one = InstructionArgument::OneRegister { register: Register::EAX };
    assert_eq!(cpu.first_argument_i64(&state, one), -1);
    let two = InstructionArgument::TwoRegister {
        register1: Register::RBX,
        register2: Register::EAX,
        reverse_direction: false,
    };
    assert_eq!(cpu.second_argument_i64(&state, two), Ok(-1));
    let mixed = InstructionArgument::Immediate8BitRegister {
        register: Register::EAX,
        immediate: 0,
    };
    assert_eq!(cpu.second_argument_i64(&state, mixed), Ok(-1));
    // at the operand's own width nothing changes
    assert_eq!(cpu.first_argument_i32(&state, one), -1);
    assert_eq!(cpu.second_argument_i32(&state, two), Ok(-1));
}

#[test]
fn positive_register_operands_extend_alike() {
    let cpu = CPU {};
    let mut state = MachineState::new();
    cpu.set_register_value_i32(&mut state, Register::EDX, 0x0506_0708);
    let one = InstructionArgument::OneRegister { register: Register::EDX };
    assert_eq!(cpu.first_argument_i64(&state, one), 0x0506_0708);
    assert_eq!(cpu.get_register_value_i64(&state, Register::RDX), 0x0506_0708);
}
