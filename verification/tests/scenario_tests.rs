use zm2_vm::header::create_dummy_header_bytes;
use zm2_vm::memory::SUPPORTED_VERSION;
use zm2_vm::opcodes;
use zm2_vm::{ExecutionError, MemoryError, VirtualMachine};

fn story_with_sections(
    code_start: u64,
    code_len: u64,
    static_start: u64,
    static_len: u64,
    dynamic_start: u64,
    dynamic_len: u64,
    code: &[u8],
) -> Vec<u8> {
    let mut story_bytes = create_dummy_header_bytes();
    story_bytes[0..2].copy_from_slice(&SUPPORTED_VERSION.to_be_bytes());
    story_bytes[20..28].copy_from_slice(&code_start.to_be_bytes());
    story_bytes[28..36].copy_from_slice(&code_len.to_be_bytes());
    story_bytes[36..44].copy_from_slice(&static_start.to_be_bytes());
    story_bytes[44..52].copy_from_slice(&static_len.to_be_bytes());
    story_bytes[52..60].copy_from_slice(&dynamic_start.to_be_bytes());
    story_bytes[60..68].copy_from_slice(&dynamic_len.to_be_bytes());

    let required = std::cmp::max(
        code_start + code_len,
        std::cmp::max(static_start + static_len, dynamic_start + dynamic_len),
    );
    let total = std::cmp::max(1024, required) as usize;
    if story_bytes.len() < total {
        story_bytes.resize(total, 0);
    }
    story_bytes[code_start as usize..code_start as usize + code.len()].copy_from_slice(code);
    story_bytes
}

#[test]
fn test_quit_scenario_exact_layout() {
    // code_start 1024, code_len 8, dynamic_start 1032, dynamic_len 256,
    // with a single QUIT opcode: the run halts cleanly with PC at 1032.
    let code = opcodes::OP_QUIT.to_be_bytes();
    let story_bytes = story_with_sections(1024, 8, 1032, 0, 1032, 256, &code);
    let mut vm = VirtualMachine::load(story_bytes).unwrap();
    let run_result = vm.run();
    assert!(run_result.is_ok());
    assert!(!vm.running);
    assert_eq!(vm.cpu.pc, 1032);
}

#[test]
fn test_push_unknown_operand_type() {
    let mut code = Vec::new();
    code.extend_from_slice(&opcodes::OP_PUSH.to_be_bytes());
    code.push(0x04);
    let len = code.len() as u64;
    let story_bytes = story_with_sections(1024, len, 1024 + len, 0, 1024 + len, 256, &code);
    let mut vm = VirtualMachine::load(story_bytes).unwrap();
    let run_result = vm.run();
    assert!(matches!(run_result, Err(ExecutionError::UnknownOperandType(0x04))));
    assert!(!vm.running);
}

#[test]
fn test_store_invalid_local_index() {
    // STORE to local L0 while the frame's locals count (the word at FP,
    // which here reads the zeroed region above the stack) is zero.
    let mut code = Vec::new();
    code.extend_from_slice(&opcodes::OP_STORE.to_be_bytes());
    code.push(0x01); // destination: local L0
    code.push(0x01); // operand type: small constant
    code.push(5);
    let len = code.len() as u64;
    // Leave eight readable zero bytes above the dynamic region so that the
    // locals-count read at FP succeeds.
    let story_bytes = story_with_sections(1024, len, 1100, 64, 1036, 64, &code);
    let mut vm = VirtualMachine::load(story_bytes).unwrap();
    let run_result = vm.run();
    assert!(matches!(run_result, Err(ExecutionError::InvalidLocalIndex(0))));
    assert!(!vm.running);
}

#[test]
fn test_call_wrong_operand_type() {
    let mut code = Vec::new();
    code.extend_from_slice(&opcodes::OP_CALL.to_be_bytes());
    code.push(0x00); // a large constant, where only a packed address is legal
    let len = code.len() as u64;
    let story_bytes = story_with_sections(1024, len, 1024 + len, 0, 1024 + len, 256, &code);
    let mut vm = VirtualMachine::load(story_bytes).unwrap();
    let run_result = vm.run();
    assert!(matches!(run_result, Err(ExecutionError::InvalidOperandTypeForCall(0x00))));
    assert!(!vm.running);
}

#[test]
fn test_jump_negative_target() {
    let offset: i16 = -2000;
    let mut code = Vec::new();
    code.extend_from_slice(&opcodes::OP_JUMP.to_be_bytes());
    code.extend_from_slice(&offset.to_be_bytes());
    let len = code.len() as u64;
    let story_bytes = story_with_sections(1024, len, 1024 + len, 0, 1024 + len, 256, &code);
    let mut vm = VirtualMachine::load(story_bytes).unwrap();
    let run_result = vm.run();
    assert!(matches!(run_result, Err(ExecutionError::NegativeJumpTarget)));
    assert!(!vm.running);
}

#[test]
fn test_fetch_beyond_memory_halts() {
    // An empty code region at the very top of memory: the first fetch runs
    // out of bounds and halts the machine with a memory error.
    let story_bytes = story_with_sections(2040, 8, 1024, 0, 1024, 256, &[0u8; 8]);
    let mut vm = VirtualMachine::load(story_bytes).unwrap();
    vm.cpu.pc = 2048;
    let run_result = vm.run();
    assert!(matches!(run_result, Err(ExecutionError::Memory(MemoryError::OutOfBounds))));
    assert!(!vm.running);
}

#[test]
fn test_add_sub_wrapping_values() {
    // ADD 5 7 -> stack, then SUB 5 7 -> stack, then QUIT: the stack holds
    // the wrapped difference on top of the sum.
    let mut code = Vec::new();
    code.extend_from_slice(&opcodes::OP_ADD.to_be_bytes());
    code.push(0x01);
    code.push(5);
    code.push(0x01);
    code.push(7);
    code.push(0x00);
    code.extend_from_slice(&opcodes::OP_SUB.to_be_bytes());
    code.push(0x01);
    code.push(5);
    code.push(0x01);
    code.push(7);
    code.push(0x00);
    code.extend_from_slice(&opcodes::OP_QUIT.to_be_bytes());
    let len = code.len() as u64;
    let story_bytes = story_with_sections(1024, len, 1024 + len, 0, 1024 + len, 256, &code);
    let mut vm = VirtualMachine::load(story_bytes).unwrap();
    let initial_sp = vm.cpu.sp;
    let run_result = vm.run();
    assert!(run_result.is_ok(), "VM run failed: {:?}", run_result.err());
    assert_eq!(vm.cpu.sp, initial_sp - 16);
    assert_eq!(vm.read_qword(vm.cpu.sp).unwrap(), 5u64.wrapping_sub(7));
    assert_eq!(vm.read_qword(vm.cpu.sp + 8).unwrap(), 12);
}

#[test]
fn test_store_load_global() {
    // STORE a large constant into global G0, LOAD it back onto the stack,
    // QUIT: the value lands in the globals table and comes back unchanged.
    let mut code = Vec::new();
    code.extend_from_slice(&opcodes::OP_STORE.to_be_bytes());
    code.push(0x10); // destination: global G0
    code.push(0x00); // operand type: large constant
    code.extend_from_slice(&0xDEADBEEFu64.to_be_bytes());
    code.extend_from_slice(&opcodes::OP_LOAD.to_be_bytes());
    code.push(0x10); // source: global G0
    code.push(0x00); // destination: the stack
    code.extend_from_slice(&opcodes::OP_QUIT.to_be_bytes());
    let len = code.len() as u64;
    // The dummy header puts the globals table at 1472; give the dynamic
    // region room above it.
    let story_bytes = story_with_sections(1024, len, 1024 + len, 0, 1488, 64, &code);
    let mut vm = VirtualMachine::load(story_bytes).unwrap();
    let initial_sp = vm.cpu.sp;
    let run_result = vm.run();
    assert!(run_result.is_ok(), "VM run failed: {:?}", run_result.err());
    let globals_start = vm.memory.header().globals_table_start;
    assert_eq!(vm.read_qword(globals_start).unwrap(), 0xDEADBEEF);
    assert_eq!(vm.cpu.sp, initial_sp - 8);
    assert_eq!(vm.read_qword(vm.cpu.sp).unwrap(), 0xDEADBEEF);
}

#[test]
fn test_pull_stores_to_global() {
    // PUSH a value, PULL it into global G2, QUIT: the stack is level again
    // and the global holds the value.
    let mut code = Vec::new();
    code.extend_from_slice(&opcodes::OP_PUSH.to_be_bytes());
    code.push(0x01);
    code.push(99);
    code.extend_from_slice(&opcodes::OP_PULL.to_be_bytes());
    code.push(0x12); // global G2
    code.extend_from_slice(&opcodes::OP_QUIT.to_be_bytes());
    let len = code.len() as u64;
    let story_bytes = story_with_sections(1024, len, 1024 + len, 0, 1488, 64, &code);
    let mut vm = VirtualMachine::load(story_bytes).unwrap();
    let initial_sp = vm.cpu.sp;
    let run_result = vm.run();
    assert!(run_result.is_ok(), "VM run failed: {:?}", run_result.err());
    assert_eq!(vm.cpu.sp, initial_sp);
    let globals_start = vm.memory.header().globals_table_start;
    assert_eq!(vm.read_qword(globals_start + 16).unwrap(), 99);
}

#[test]
fn test_pull_on_empty_stack_underflows() {
    let mut code = Vec::new();
    code.extend_from_slice(&opcodes::OP_PULL.to_be_bytes());
    code.push(0x00);
    let len = code.len() as u64;
    let story_bytes = story_with_sections(1024, len, 1024 + len, 0, 1024 + len, 256, &code);
    let mut vm = VirtualMachine::load(story_bytes).unwrap();
    let initial_sp = vm.cpu.sp;
    let run_result = vm.run();
    assert!(matches!(
        run_result,
        Err(ExecutionError::Stack(zm2_vm::cpu::StackError::Underflow))
    ));
    assert!(!vm.running);
    assert_eq!(vm.cpu.sp, initial_sp);
}

#[test]
fn test_routine_local_store_and_ret() {
    // A routine with one local: it stores 55 into L0, then RETs the value
    // of L0 read through a variable operand; the caller sees 55 on the
    // stack.
    let mut routine: Vec<u8> = Vec::new();
    routine.push(1); // one local
    routine.extend_from_slice(&opcodes::OP_STORE.to_be_bytes());
    routine.push(0x01); // destination: local L0
    routine.push(0x01); // operand type: small constant
    routine.push(55);
    routine.extend_from_slice(&opcodes::OP_RET.to_be_bytes());
    routine.push(0x02); // operand type: variable
    routine.push(0x01); // ... the variable being local L0

    let mut code = Vec::new();
    code.extend_from_slice(&opcodes::OP_CALL.to_be_bytes());
    code.push(0x03);
    code.extend_from_slice(&24u32.to_be_bytes());
    code.push(0x00);
    while code.len() % 8 != 0 {
        code.push(0);
    }
    code.extend_from_slice(&opcodes::OP_QUIT.to_be_bytes());
    code.extend_from_slice(&routine);
    let len = code.len() as u64;
    let story_bytes = story_with_sections(1024, len, 1024 + len, 0, 1024 + len, 256, &code);
    let mut vm = VirtualMachine::load(story_bytes).unwrap();
    let initial_sp = vm.cpu.sp;
    let run_result = vm.run();
    assert!(run_result.is_ok(), "VM run failed: {:?}", run_result.err());
    assert!(!vm.running);
    assert_eq!(vm.cpu.sp, initial_sp - 8);
    assert_eq!(vm.read_qword(vm.cpu.sp).unwrap(), 55);
}

#[test]
fn test_add_with_variable_operands() {
    // PUSH 5, PUSH 7, then ADD whose operands both pop the stack: the sum
    // replaces the two values.
    let mut code = Vec::new();
    code.extend_from_slice(&opcodes::OP_PUSH.to_be_bytes());
    code.push(0x01);
    code.push(5);
    code.extend_from_slice(&opcodes::OP_PUSH.to_be_bytes());
    code.push(0x01);
    code.push(7);
    code.extend_from_slice(&opcodes::OP_ADD.to_be_bytes());
    code.push(0x02);
    code.push(0x00);
    code.push(0x02);
    code.push(0x00);
    code.push(0x00);
    code.extend_from_slice(&opcodes::OP_QUIT.to_be_bytes());
    let len = code.len() as u64;
    let story_bytes = story_with_sections(1024, len, 1024 + len, 0, 1024 + len, 256, &code);
    let mut vm = VirtualMachine::load(story_bytes).unwrap();
    let initial_sp = vm.cpu.sp;
    let run_result = vm.run();
    assert!(run_result.is_ok(), "VM run failed: {:?}", run_result.err());
    assert_eq!(vm.cpu.sp, initial_sp - 8);
    assert_eq!(vm.read_qword(vm.cpu.sp).unwrap(), 12);
}

#[test]
fn test_call_ret_stores_to_global() {
    // A CALL whose destination specifier names global G1: the RET's
    // literal lands in the globals table and the stack comes all the way
    // back.
    let mut routine: Vec<u8> = Vec::new();
    routine.push(0);
    routine.extend_from_slice(&opcodes::OP_RET.to_be_bytes());
    routine.push(0x01);
    routine.push(33);

    let mut code = Vec::new();
    code.extend_from_slice(&opcodes::OP_CALL.to_be_bytes());
    code.push(0x03);
    code.extend_from_slice(&24u32.to_be_bytes());
    code.push(0x11); // destination: global G1
    while code.len() % 8 != 0 {
        code.push(0);
    }
    code.extend_from_slice(&opcodes::OP_QUIT.to_be_bytes());
    code.extend_from_slice(&routine);
    let len = code.len() as u64;
    // The dummy header puts the globals table at 1472; give the dynamic
    // region room above it.
    let story_bytes = story_with_sections(1024, len, 1024 + len, 0, 1488, 64, &code);
    let mut vm = VirtualMachine::load(story_bytes).unwrap();
    let initial_sp = vm.cpu.sp;
    let initial_fp = vm.cpu.fp;
    let run_result = vm.run();
    assert!(run_result.is_ok(), "VM run failed: {:?}", run_result.err());
    assert!(!vm.running);
    assert_eq!(vm.cpu.sp, initial_sp);
    assert_eq!(vm.cpu.fp, initial_fp);
    let globals_start = vm.memory.header().globals_table_start;
    assert_eq!(vm.read_qword(globals_start + 8).unwrap(), 33);
}

#[test]
fn test_nested_call_stores_to_callers_local() {
    // Main calls routine A (result to the stack); A, which declares one
    // local, calls routine B with A's local L0 as the destination; B RETs
    // 88 into that local, and A then RETs the local's value, so main sees
    // 88 on its stack.
    let code_start = 1024u64;

    let mut code = Vec::new();
    // main: CALL A -> stack, padded to 16 bytes, then QUIT
    code.extend_from_slice(&opcodes::OP_CALL.to_be_bytes());
    code.push(0x03);
    code.extend_from_slice(&24u32.to_be_bytes());
    code.push(0x00);
    while code.len() % 8 != 0 {
        code.push(0);
    }
    code.extend_from_slice(&opcodes::OP_QUIT.to_be_bytes());
    assert_eq!(code.len(), 24);

    // routine A at offset 24: one local, then CALL B -> L0 at offset 25,
    // whose opcode-aligned return address is offset 40
    code.push(1);
    code.extend_from_slice(&opcodes::OP_CALL.to_be_bytes());
    code.push(0x03);
    code.extend_from_slice(&50u32.to_be_bytes());
    code.push(0x01); // destination: local L0
    assert_eq!(code.len(), 39);
    code.push(0);
    // A resumes here, at offset 40: RET the value of L0
    code.extend_from_slice(&opcodes::OP_RET.to_be_bytes());
    code.push(0x02);
    code.push(0x01);

    // routine B at offset 50: no locals, RET the small constant 88
    assert_eq!(code.len(), 50);
    code.push(0);
    code.extend_from_slice(&opcodes::OP_RET.to_be_bytes());
    code.push(0x01);
    code.push(88);

    let len = code.len() as u64;
    let story_bytes = story_with_sections(
        code_start,
        len,
        code_start + len,
        0,
        code_start + len,
        256,
        &code,
    );
    let mut vm = VirtualMachine::load(story_bytes).unwrap();
    let initial_sp = vm.cpu.sp;
    let run_result = vm.run();
    assert!(run_result.is_ok(), "VM run failed: {:?}", run_result.err());
    assert!(!vm.running);
    assert_eq!(vm.cpu.sp, initial_sp - 8);
    assert_eq!(vm.read_qword(vm.cpu.sp).unwrap(), 88);
}

#[test]
fn test_call_ret_restores_frame_pointer() {
    // A CALL into a routine with two locals that RETs a literal: the
    // caller's frame pointer and the opcode-aligned return address come
    // back exactly, with the literal as the only new stack value.
    let mut routine: Vec<u8> = Vec::new();
    routine.push(2); // two locals
    routine.extend_from_slice(&opcodes::OP_RET.to_be_bytes());
    routine.push(0x01);
    routine.push(77);

    let mut code = Vec::new();
    code.extend_from_slice(&opcodes::OP_CALL.to_be_bytes());
    code.push(0x03);
    code.extend_from_slice(&24u32.to_be_bytes());
    code.push(0x00);
    while code.len() % 8 != 0 {
        code.push(0);
    }
    code.extend_from_slice(&opcodes::OP_QUIT.to_be_bytes());
    code.extend_from_slice(&routine);
    let len = code.len() as u64;
    let story_bytes = story_with_sections(1024, len, 1024 + len, 0, 1024 + len, 256, &code);
    let mut vm = VirtualMachine::load(story_bytes).unwrap();
    let initial_sp = vm.cpu.sp;
    let initial_fp = vm.cpu.fp;
    let run_result = vm.run();
    assert!(run_result.is_ok(), "VM run failed: {:?}", run_result.err());
    assert!(!vm.running);
    assert_eq!(vm.cpu.fp, initial_fp);
    assert_eq!(vm.cpu.pc, 1024 + 24);
    assert_eq!(vm.cpu.sp, initial_sp - 8);
    assert_eq!(vm.read_qword(vm.cpu.sp).unwrap(), 77);
}
