use zm2_vm::header::create_dummy_header_bytes;
use zm2_vm::memory::SUPPORTED_VERSION;
use zm2_vm::opcodes;
use zm2_vm::{ExecutionError, StoryFileError, VirtualMachine};

fn create_test_story_file_bytes(
    version: u16,
    code_start: u64,
    code_len: u64,
    static_start: u64,
    static_len: u64,
    dynamic_start: u64,
    dynamic_len: u64,
    opcodes_to_embed: Option<&[u64]>,
) -> Vec<u8> {
    let mut story_bytes = create_dummy_header_bytes();

    story_bytes[0..2].copy_from_slice(&version.to_be_bytes());
    story_bytes[20..28].copy_from_slice(&code_start.to_be_bytes());
    story_bytes[28..36].copy_from_slice(&code_len.to_be_bytes());
    story_bytes[36..44].copy_from_slice(&static_start.to_be_bytes());
    story_bytes[44..52].copy_from_slice(&static_len.to_be_bytes());
    story_bytes[52..60].copy_from_slice(&dynamic_start.to_be_bytes());
    story_bytes[60..68].copy_from_slice(&dynamic_len.to_be_bytes());

    let required_len_after_header = std::cmp::max(
        code_start + code_len,
        std::cmp::max(static_start + static_len, dynamic_start + dynamic_len),
    );
    let total_required_story_size = std::cmp::max(1024, required_len_after_header) as usize;
    if story_bytes.len() < total_required_story_size {
        story_bytes.resize(total_required_story_size, 0xDA);
    }

    if let Some(ops) = opcodes_to_embed {
        if code_start >= 1024 && code_len > 0 {
            if code_start as usize >= story_bytes.len() {
                story_bytes.resize(code_start as usize + code_len as usize, 0xDA);
            } else if (code_start + code_len) as usize > story_bytes.len() {
                story_bytes.resize((code_start + code_len) as usize, 0xDA);
            }
            let mut position: u64 = 0;
            for &op_val in ops {
                if position < code_len {
                    let at = (code_start + position) as usize;
                    story_bytes[at..at + 8].copy_from_slice(&op_val.to_be_bytes());
                    position += 8;
                } else {
                    break;
                }
            }
        }
    } else {
        if code_len > 0 && code_start >= 1024 {
            for i in 0..code_len {
                let current_addr = (code_start + i) as usize;
                if current_addr < story_bytes.len() {
                    story_bytes[current_addr] = 0xC0;
                } else {
                    break;
                }
            }
        }
        if static_len > 0 && static_start >= 1024 {
            for i in 0..static_len {
                let current_addr = (static_start + i) as usize;
                if current_addr < story_bytes.len() {
                    story_bytes[current_addr] = 0x5A;
                } else {
                    break;
                }
            }
        }
    }
    story_bytes
}

#[test]
fn test_load_story_valid_minimal() {
    let code_start = 1024;
    let code_len = 0;
    let story_bytes = create_test_story_file_bytes(
        SUPPORTED_VERSION,
        code_start,
        code_len,
        code_start + code_len,
        0,
        code_start + code_len,
        256,
        None,
    );
    let result = VirtualMachine::load(story_bytes);
    assert!(result.is_ok(), "Failed to load minimal valid story: {:?}", result.err());
    if let Ok(vm) = result {
        assert_eq!(vm.cpu.pc, vm.memory.header().code_section_start);
    }
}

#[test]
fn test_load_story_file_too_small() {
    let story_data = vec![0u8; 512];
    let result = VirtualMachine::load(story_data);
    assert!(matches!(result, Err(StoryFileError::TooShort)));
}

#[test]
fn test_load_story_unsupported_version() {
    let story_bytes = create_test_story_file_bytes(0x0100, 1024, 0, 1024, 0, 1024, 0, None);
    let result = VirtualMachine::load(story_bytes);
    assert!(matches!(result, Err(StoryFileError::UnsupportedVersion(0x0100))));
}

#[test]
fn test_op_quit_immediate() {
    let code_start = 1024;
    let opcodes_to_run = [opcodes::OP_QUIT];
    let code_len = opcodes_to_run.len() as u64 * opcodes::OPCODE_SIZE;
    let story_bytes = create_test_story_file_bytes(
        SUPPORTED_VERSION,
        code_start,
        code_len,
        code_start + code_len,
        0,
        code_start + code_len,
        256,
        Some(&opcodes_to_run),
    );

    let mut vm = VirtualMachine::load(story_bytes).unwrap();

    let initial_pc = vm.cpu.pc;
    let run_result = vm.run();
    assert!(run_result.is_ok());
    assert!(!vm.running);
    assert_eq!(vm.cpu.pc, initial_pc + opcodes::OPCODE_SIZE);
}

#[test]
fn test_op_nop_quit() {
    let code_start = 1024;
    let opcodes_to_run = [opcodes::OP_NOP, opcodes::OP_QUIT];
    let code_len = opcodes_to_run.len() as u64 * opcodes::OPCODE_SIZE;
    let story_bytes = create_test_story_file_bytes(
        SUPPORTED_VERSION,
        code_start,
        code_len,
        code_start + code_len,
        0,
        code_start + code_len,
        256,
        Some(&opcodes_to_run),
    );

    let mut vm = VirtualMachine::load(story_bytes).unwrap();

    let initial_pc = vm.cpu.pc;
    let run_result = vm.run();
    assert!(run_result.is_ok());
    assert!(!vm.running);
    assert_eq!(vm.cpu.pc, initial_pc + 2 * opcodes::OPCODE_SIZE);
}

#[test]
fn test_unknown_opcode() {
    let code_start = 1024;
    let unknown_opcode_val = 0xFFFFFFFFFFFFFFFF;
    let opcodes_to_run = [unknown_opcode_val];
    let code_len = opcodes_to_run.len() as u64 * opcodes::OPCODE_SIZE;
    let story_bytes = create_test_story_file_bytes(
        SUPPORTED_VERSION,
        code_start,
        code_len,
        code_start + code_len,
        0,
        code_start + code_len,
        256,
        Some(&opcodes_to_run),
    );

    let mut vm = VirtualMachine::load(story_bytes).unwrap();

    let run_result = vm.run();
    assert!(run_result.is_err());
    assert!(matches!(run_result, Err(ExecutionError::UnknownOpcode(0xFFFFFFFFFFFFFFFF))));
    assert!(!vm.running);
}

#[test]
fn test_op_push_pull() {
    let code_start = 1024u64;
    let mut instruction_stream = Vec::new();

    // PUSH small-constant 5
    instruction_stream.extend_from_slice(&opcodes::OP_PUSH.to_be_bytes());
    instruction_stream.push(0x01);
    instruction_stream.push(5);

    // PUSH large-constant 0x100
    instruction_stream.extend_from_slice(&opcodes::OP_PUSH.to_be_bytes());
    instruction_stream.push(0x00);
    instruction_stream.extend_from_slice(&0x100u64.to_be_bytes());

    // PULL to the stack specifier: pop and discard
    instruction_stream.extend_from_slice(&opcodes::OP_PULL.to_be_bytes());
    instruction_stream.push(0x00);

    // PULL to the stack specifier: pop and discard
    instruction_stream.extend_from_slice(&opcodes::OP_PULL.to_be_bytes());
    instruction_stream.push(0x00);

    // QUIT
    instruction_stream.extend_from_slice(&opcodes::OP_QUIT.to_be_bytes());

    let actual_code_len = instruction_stream.len() as u64;
    let static_start = code_start + actual_code_len;
    let static_len = 0;
    let dynamic_start = static_start + static_len;
    let dynamic_len = 256;

    let mut story_bytes = create_test_story_file_bytes(
        SUPPORTED_VERSION,
        code_start,
        actual_code_len,
        static_start,
        static_len,
        dynamic_start,
        dynamic_len,
        None,
    );

    if code_start as usize + actual_code_len as usize <= story_bytes.len() {
        story_bytes[code_start as usize..(code_start + actual_code_len) as usize]
            .copy_from_slice(&instruction_stream);
    } else {
        panic!("Instruction stream too large for allocated story_bytes code section");
    }

    let mut vm = VirtualMachine::load(story_bytes).unwrap();

    let initial_sp = vm.cpu.sp;
    let run_result = vm.run();
    assert!(run_result.is_ok(), "VM run failed: {:?}", run_result.err());
    assert!(!vm.running);
    assert_eq!(vm.cpu.sp, initial_sp);
}

#[test]
fn test_op_jump() {
    let code_start = 1024;
    let op_size = opcodes::OPCODE_SIZE;

    // The JUMP block is the opcode plus a two-byte offset, padded to the
    // opcode size; the offset 6 lands on the NOP that follows the block.
    let jump_offset: i16 = 6;

    let mut instruction_stream = Vec::new();
    instruction_stream.extend_from_slice(&opcodes::OP_JUMP.to_be_bytes());
    instruction_stream.extend_from_slice(&jump_offset.to_be_bytes());
    while instruction_stream.len() % op_size as usize != 0 {
        instruction_stream.push(0);
    }

    instruction_stream.extend_from_slice(&opcodes::OP_NOP.to_be_bytes());

    let quit_pc_offset = instruction_stream.len() as u64;
    instruction_stream.extend_from_slice(&opcodes::OP_QUIT.to_be_bytes());

    let actual_code_len = instruction_stream.len() as u64;

    let story_bytes = create_test_story_file_bytes(
        SUPPORTED_VERSION,
        code_start,
        actual_code_len,
        code_start + actual_code_len,
        0,
        code_start + actual_code_len,
        256,
        None,
    );

    let mut mutable_story_bytes = story_bytes.clone();
    mutable_story_bytes[code_start as usize..(code_start + actual_code_len) as usize]
        .copy_from_slice(&instruction_stream);

    let mut vm = VirtualMachine::load(mutable_story_bytes).unwrap();
    let run_result = vm.run();

    assert!(run_result.is_ok(), "VM run failed: {:?}", run_result.err());
    assert!(!vm.running, "VM should have quit");
    assert_eq!(
        vm.cpu.pc,
        code_start + quit_pc_offset + op_size,
        "PC not after QUIT following JUMP and NOP"
    );
}

#[test]
fn test_op_call_ret_simple() {
    let op_size = opcodes::OPCODE_SIZE;
    let code_start = 1024u64;

    // The routine: a zero locals-count byte, then — at the address where
    // the engine resumes, one past the count byte — a RET of the
    // small-constant 42.
    let mut routine_bytes: Vec<u8> = Vec::new();
    routine_bytes.push(0);
    routine_bytes.extend_from_slice(&opcodes::OP_RET.to_be_bytes());
    routine_bytes.push(0x01);
    routine_bytes.push(42);

    let mut main_code_stream: Vec<u8> = Vec::new();
    main_code_stream.extend_from_slice(&opcodes::OP_CALL.to_be_bytes());
    main_code_stream.push(0x03);

    let p_addr_for_call = (16 + 8) as u32;

    main_code_stream.extend_from_slice(&p_addr_for_call.to_be_bytes());
    main_code_stream.push(0x00);
    while main_code_stream.len() % op_size as usize != 0 {
        main_code_stream.push(0);
    }
    // The padded CALL block is 16 bytes; QUIT follows at offset 16.
    main_code_stream.extend_from_slice(&opcodes::OP_QUIT.to_be_bytes());
    // The routine begins at offset 24, matching the packed address.

    let mut full_code_section_bytes = main_code_stream.clone();
    full_code_section_bytes.extend_from_slice(&routine_bytes);

    let total_code_len = full_code_section_bytes.len() as u64;

    let static_start = code_start + total_code_len;
    let static_len = 0;
    let dynamic_start = static_start + static_len;
    let dynamic_len = 256;

    let mut story_bytes = create_test_story_file_bytes(
        SUPPORTED_VERSION,
        code_start,
        total_code_len,
        static_start,
        static_len,
        dynamic_start,
        dynamic_len,
        None,
    );

    story_bytes[code_start as usize..(code_start + total_code_len) as usize]
        .copy_from_slice(&full_code_section_bytes);

    let mut vm = VirtualMachine::load(story_bytes).unwrap();

    let initial_sp = vm.cpu.sp;
    let run_result = vm.run();

    assert!(run_result.is_ok(), "VM run failed: {:?}", run_result.err());
    assert!(!vm.running, "VM should have quit");

    let call_instr_padded_len = op_size * 2;
    let quit_instr_len = op_size;

    assert_eq!(vm.cpu.pc, code_start + call_instr_padded_len + quit_instr_len, "PC is not after QUIT");

    assert_eq!(vm.cpu.sp, initial_sp - 8, "SP not pointing to return value on stack");
    let return_val_on_stack = vm.read_qword(vm.cpu.sp).unwrap();
    assert_eq!(return_val_on_stack, 42, "Return value from CALL was not 42");
}

#[test]
fn test_op_rtrue_rfalse() {
    let op_size = opcodes::OPCODE_SIZE;
    let code_start = 1024u64;

    // Each routine: a zero locals-count byte, then — one past it, where
    // the engine resumes — the return opcode.
    let mut rtrue_routine_bytes: Vec<u8> = Vec::new();
    rtrue_routine_bytes.push(0);
    rtrue_routine_bytes.extend_from_slice(&opcodes::OP_RTRUE.to_be_bytes());

    let mut rfalse_routine_bytes: Vec<u8> = Vec::new();
    rfalse_routine_bytes.push(0);
    rfalse_routine_bytes.extend_from_slice(&opcodes::OP_RFALSE.to_be_bytes());

    // Main: two padded CALL blocks of 16 bytes each, then QUIT.
    let rtrue_routine_start_offset = op_size * 2 + op_size * 2 + op_size;
    let rfalse_routine_start_offset = rtrue_routine_start_offset
        + rtrue_routine_bytes.len() as u64;

    let mut main_code_stream: Vec<u8> = Vec::new();
    main_code_stream.extend_from_slice(&opcodes::OP_CALL.to_be_bytes());
    main_code_stream.push(0x03);
    main_code_stream.extend_from_slice(&(rtrue_routine_start_offset as u32).to_be_bytes());
    main_code_stream.push(0x00);
    while main_code_stream.len() % op_size as usize != 0 {
        main_code_stream.push(0);
    }

    main_code_stream.extend_from_slice(&opcodes::OP_CALL.to_be_bytes());
    main_code_stream.push(0x03);
    main_code_stream.extend_from_slice(&(rfalse_routine_start_offset as u32).to_be_bytes());
    main_code_stream.push(0x00);
    while main_code_stream.len() % op_size as usize != 0 {
        main_code_stream.push(0);
    }

    let call_rtrue_block_len = op_size * 2;
    let call_rfalse_block_len = op_size * 2;

    main_code_stream.extend_from_slice(&opcodes::OP_QUIT.to_be_bytes());

    let mut full_code_section_bytes = main_code_stream;
    full_code_section_bytes.extend_from_slice(&rtrue_routine_bytes);
    full_code_section_bytes.extend_from_slice(&rfalse_routine_bytes);

    let total_code_len = full_code_section_bytes.len() as u64;

    let mut story_bytes = create_test_story_file_bytes(
        SUPPORTED_VERSION,
        code_start,
        total_code_len,
        code_start + total_code_len,
        0,
        code_start + total_code_len,
        256,
        None,
    );
    story_bytes[code_start as usize..(code_start + total_code_len) as usize]
        .copy_from_slice(&full_code_section_bytes);

    let mut vm = VirtualMachine::load(story_bytes).unwrap();

    let initial_sp = vm.cpu.sp;
    let run_result = vm.run();

    assert!(run_result.is_ok(), "VM run failed: {:?}", run_result.err());
    assert!(!vm.running, "VM should have quit");

    let expected_pc = code_start + call_rtrue_block_len + call_rfalse_block_len + op_size;
    assert_eq!(vm.cpu.pc, expected_pc, "PC not after QUIT");

    // RFALSE was called second, so its result sits on top of the stack and
    // RTRUE's result below it.
    assert_eq!(
        vm.cpu.sp,
        initial_sp - 16,
        "SP not reflecting two values pushed for two CALLs storing to stack"
    );
    let rfalse_ret_val = vm.read_qword(vm.cpu.sp).unwrap();
    assert_eq!(rfalse_ret_val, 0, "Return value from RFALSE was not 0");

    let rtrue_ret_val = vm.read_qword(vm.cpu.sp + 8).unwrap();
    assert_eq!(rtrue_ret_val, 1, "Return value from RTRUE was not 1");
}
