use crate::cpu::{Cpu, StackError};
use crate::endian::{be16, be32, be64, store_be64};
use crate::memory::Memory;
use crate::opcodes::{
    OP_ADD, OP_CALL, OP_JUMP, OP_LOAD, OP_NOP, OP_PULL, OP_PUSH, OP_QUIT, OP_RET, OP_RFALSE,
    OP_RTRUE, OP_STORE, OP_SUB,
};
use crate::{ExecutionError, MemoryError, VirtualMachine};
use vstd::prelude::*;

verus! {

/// The mathematical state of the machine: the registers, the halt flag, the
/// memory image as a byte sequence, and the three header fields the engine
/// consults while executing.  Every contract of the execution engine is a
/// statement about values of this type.
pub ghost struct MachineState {
    pub pc: u64,
    pub sp: u64,
    pub fp: u64,
    pub initial_sp: u64,
    pub running: bool,
    pub mem: Seq<u8>,
    pub code_start: u64,
    pub globals_start: u64,
    pub dynamic_start: u64,
}

/// The state a register file and an address space denote, with the given
/// halt flag.
pub open spec fn cpu_state(cpu: Cpu, mem: Memory, running: bool) -> MachineState {
    MachineState {
        pc: cpu.pc,
        sp: cpu.sp,
        fp: cpu.fp,
        initial_sp: cpu.initial_sp,
        running,
        mem: mem.data@,
        code_start: mem.header.code_section_start,
        globals_start: mem.header.globals_table_start,
        dynamic_start: mem.header.dynamic_data_section_start,
    }
}

/// The state a whole machine denotes.
pub open spec fn vm_state(vm: VirtualMachine) -> MachineState {
    cpu_state(vm.cpu, vm.memory, vm.running)
}

/// The error a unit result carries, if any.
pub open spec fn err_of<E>(r: Result<(), E>) -> Option<E> {
    match r {
        Ok(()) => None,
        Err(e) => Some(e),
    }
}

// ---------------------------------------------------------------------------
// Memory accesses.

pub open spec fn spec_read_byte(s: MachineState, a: u64) -> Result<u8, MemoryError> {
    if a < s.mem.len() {
        Ok(s.mem[a as int])
    } else {
        Err(MemoryError::OutOfBounds)
    }
}

pub open spec fn spec_read_u16(s: MachineState, a: u64) -> Result<u16, MemoryError> {
    if a + 2 <= s.mem.len() {
        Ok(be16(s.mem, a as int))
    } else {
        Err(MemoryError::OutOfBounds)
    }
}

pub open spec fn spec_read_u32(s: MachineState, a: u64) -> Result<u32, MemoryError> {
    if a + 4 <= s.mem.len() {
        Ok(be32(s.mem, a as int))
    } else {
        Err(MemoryError::OutOfBounds)
    }
}

pub open spec fn spec_read_qword(s: MachineState, a: u64) -> Result<u64, MemoryError> {
    if a + 8 <= s.mem.len() {
        Ok(be64(s.mem, a as int))
    } else {
        Err(MemoryError::OutOfBounds)
    }
}

pub open spec fn spec_write_qword(s: MachineState, a: u64, x: u64) -> Result<
    MachineState,
    MemoryError,
> {
    if a + 8 <= s.mem.len() {
        Ok(MachineState { mem: store_be64(s.mem, a as int, x), ..s })
    } else {
        Err(MemoryError::OutOfBounds)
    }
}

// ---------------------------------------------------------------------------
// Stack primitives.

/// One push: `sp` drops by 8 and the value is stored there.  Overflow (the
/// new `sp` would leave the dynamic-data region downward) changes nothing;
/// a stack slot outside the address space leaves `sp` decremented but the
/// memory image untouched.
pub open spec fn spec_push(s: MachineState, value: u64) -> (MachineState, Option<StackError>) {
    if s.sp < 8 || s.sp - 8 < s.dynamic_start {
        (s, Some(StackError::Overflow))
    } else if s.sp > s.mem.len() {
        (
            MachineState { sp: (s.sp - 8) as u64, ..s },
            Some(StackError::MemoryAccess(MemoryError::OutOfBounds)),
        )
    } else {
        (
            MachineState { sp: (s.sp - 8) as u64, mem: store_be64(s.mem, s.sp - 8, value), ..s },
            None,
        )
    }
}

/// One pop: the word at `sp` is read, then `sp` climbs by 8.  A pop at
/// `sp == initial_sp` underflows; either failure changes nothing.
pub open spec fn spec_pop(s: MachineState) -> (MachineState, Result<u64, StackError>) {
    if s.sp >= s.initial_sp {
        (s, Err(StackError::Underflow))
    } else if s.sp + 8 > s.mem.len() {
        (s, Err(StackError::MemoryAccess(MemoryError::OutOfBounds)))
    } else {
        (MachineState { sp: (s.sp + 8) as u64, ..s }, Ok(be64(s.mem, s.sp as int)))
    }
}

/// `n` pushes of zero, stopping at the first failure.
pub open spec fn spec_push_zeros(s: MachineState, n: nat) -> (MachineState, Option<StackError>)
    decreases n,
{
    if n == 0 {
        (s, None)
    } else {
        let (s1, e) = spec_push(s, 0);
        if e is Some {
            (s1, e)
        } else {
            spec_push_zeros(s1, (n - 1) as nat)
        }
    }
}

// ---------------------------------------------------------------------------
// Operand and variable resolution.

/// Reads one byte at `pc` and advances `pc` past it.
pub open spec fn spec_fetch_byte(s: MachineState) -> (MachineState, Result<u8, MemoryError>) {
    match spec_read_byte(s, s.pc) {
        Ok(b) => (MachineState { pc: (s.pc + 1) as u64, ..s }, Ok(b)),
        Err(e) => (s, Err(e)),
    }
}

/// Resolves a variable specifier for reading: `0x00` pops the evaluation
/// stack; `0x01..=0x0F` reads local `specifier - 1`, checked against the
/// locals count stored at `fp`; anything else reads global
/// `specifier - 0x10`, unchecked against any table extent.
pub open spec fn spec_get_variable(s: MachineState, var: u8) -> (
    MachineState,
    Result<u64, ExecutionError>,
) {
    if var == 0x00 {
        let (s1, r) = spec_pop(s);
        match r {
            Ok(v) => (s1, Ok(v)),
            Err(e) => (s1, Err(ExecutionError::Stack(e))),
        }
    } else if var <= 0x0F {
        let local_num = (var - 0x01) as u8;
        match spec_read_qword(s, s.fp) {
            Err(e) => (s, Err(ExecutionError::Memory(e))),
            Ok(n) => {
                if local_num >= n as u8 {
                    (s, Err(ExecutionError::InvalidLocalIndex(local_num)))
                } else if s.fp + 8 * (1 + local_num as int) > u64::MAX {
                    (s, Err(ExecutionError::Memory(MemoryError::OutOfBounds)))
                } else {
                    let addr = (s.fp + 8 * (1 + local_num as int)) as u64;
                    match spec_read_qword(s, addr) {
                        Ok(v) => (s, Ok(v)),
                        Err(e) => (s, Err(ExecutionError::Memory(e))),
                    }
                }
            },
        }
    } else {
        let global_num = (var - 0x10) as u8;
        if s.globals_start + 8 * (global_num as int) > u64::MAX {
            (s, Err(ExecutionError::Memory(MemoryError::OutOfBounds)))
        } else {
            let addr = (s.globals_start + 8 * (global_num as int)) as u64;
            match spec_read_qword(s, addr) {
                Ok(v) => (s, Ok(v)),
                Err(e) => (s, Err(ExecutionError::Memory(e))),
            }
        }
    }
}

/// Resolves a variable specifier for writing, mirroring
/// [`spec_get_variable`]: `0x00` pushes, locals are checked, globals are
/// not.
pub open spec fn spec_set_variable(s: MachineState, var: u8, value: u64) -> (
    MachineState,
    Option<ExecutionError>,
) {
    if var == 0x00 {
        let (s1, e) = spec_push(s, value);
        match e {
            None => (s1, None),
            Some(se) => (s1, Some(ExecutionError::Stack(se))),
        }
    } else if var <= 0x0F {
        let local_num = (var - 0x01) as u8;
        match spec_read_qword(s, s.fp) {
            Err(e) => (s, Some(ExecutionError::Memory(e))),
            Ok(n) => {
                if local_num >= n as u8 {
                    (s, Some(ExecutionError::InvalidLocalIndex(local_num)))
                } else if s.fp + 8 * (1 + local_num as int) > u64::MAX {
                    (s, Some(ExecutionError::Memory(MemoryError::OutOfBounds)))
                } else {
                    let addr = (s.fp + 8 * (1 + local_num as int)) as u64;
                    match spec_write_qword(s, addr, value) {
                        Ok(s1) => (s1, None),
                        Err(e) => (s, Some(ExecutionError::Memory(e))),
                    }
                }
            },
        }
    } else {
        let global_num = (var - 0x10) as u8;
        if s.globals_start + 8 * (global_num as int) > u64::MAX {
            (s, Some(ExecutionError::Memory(MemoryError::OutOfBounds)))
        } else {
            let addr = (s.globals_start + 8 * (global_num as int)) as u64;
            match spec_write_qword(s, addr, value) {
                Ok(s1) => (s1, None),
                Err(e) => (s, Some(ExecutionError::Memory(e))),
            }
        }
    }
}

/// Reads one operand of the given type byte: `0x00` a large constant
/// (8 bytes), `0x01` a small constant (1 byte, zero-extended), `0x02` a
/// variable specifier resolved by reading, `0x03` a packed address
/// (4 bytes, zero-extended).  Any other type byte is a decode error.
pub open spec fn spec_read_operand(s: MachineState, ty: u8) -> (
    MachineState,
    Result<u64, ExecutionError>,
) {
    if ty == 0x00 {
        match spec_read_qword(s, s.pc) {
            Ok(v) => (MachineState { pc: (s.pc + 8) as u64, ..s }, Ok(v)),
            Err(e) => (s, Err(ExecutionError::Memory(e))),
        }
    } else if ty == 0x01 {
        match spec_read_byte(s, s.pc) {
            Ok(b) => (MachineState { pc: (s.pc + 1) as u64, ..s }, Ok(b as u64)),
            Err(e) => (s, Err(ExecutionError::Memory(e))),
        }
    } else if ty == 0x02 {
        match spec_read_byte(s, s.pc) {
            Ok(b) => spec_get_variable(MachineState { pc: (s.pc + 1) as u64, ..s }, b),
            Err(e) => (s, Err(ExecutionError::Memory(e))),
        }
    } else if ty == 0x03 {
        match spec_read_u32(s, s.pc) {
            Ok(v) => (MachineState { pc: (s.pc + 4) as u64, ..s }, Ok(v as u64)),
            Err(e) => (s, Err(ExecutionError::Memory(e))),
        }
    } else {
        (s, Err(ExecutionError::UnknownOperandType(ty)))
    }
}

// ---------------------------------------------------------------------------
// Instruction semantics, one spec function per opcode.

pub open spec fn spec_op_push(s: MachineState) -> (MachineState, Option<ExecutionError>) {
    let (s1, tr) = spec_fetch_byte(s);
    match tr {
        Err(e) => (s1, Some(ExecutionError::Memory(e))),
        Ok(ty) => {
            let (s2, vr) = spec_read_operand(s1, ty);
            match vr {
                Err(e) => (s2, Some(e)),
                Ok(v) => {
                    let (s3, pe) = spec_push(s2, v);
                    match pe {
                        None => (s3, None),
                        Some(se) => (s3, Some(ExecutionError::Stack(se))),
                    }
                },
            }
        },
    }
}

pub open spec fn spec_op_pull(s: MachineState) -> (MachineState, Option<ExecutionError>) {
    let (s1, pr) = spec_pop(s);
    match pr {
        Err(e) => (s1, Some(ExecutionError::Stack(e))),
        Ok(v) => {
            let (s2, br) = spec_fetch_byte(s1);
            match br {
                Err(e) => (s2, Some(ExecutionError::Memory(e))),
                Ok(var) => {
                    if var == 0x00 {
                        (s2, None)
                    } else {
                        spec_set_variable(s2, var, v)
                    }
                },
            }
        },
    }
}

pub open spec fn spec_op_store(s: MachineState) -> (MachineState, Option<ExecutionError>) {
    let (s1, br) = spec_fetch_byte(s);
    match br {
        Err(e) => (s1, Some(ExecutionError::Memory(e))),
        Ok(var) => {
            let (s2, tr) = spec_fetch_byte(s1);
            match tr {
                Err(e) => (s2, Some(ExecutionError::Memory(e))),
                Ok(ty) => {
                    let (s3, vr) = spec_read_operand(s2, ty);
                    match vr {
                        Err(e) => (s3, Some(e)),
                        Ok(v) => spec_set_variable(s3, var, v),
                    }
                },
            }
        },
    }
}

pub open spec fn spec_op_load(s: MachineState) -> (MachineState, Option<ExecutionError>) {
    let (s1, br) = spec_fetch_byte(s);
    match br {
        Err(e) => (s1, Some(ExecutionError::Memory(e))),
        Ok(src) => {
            let (s2, vr) = spec_get_variable(s1, src);
            match vr {
                Err(e) => (s2, Some(e)),
                Ok(v) => {
                    let (s3, dr) = spec_fetch_byte(s2);
                    match dr {
                        Err(e) => (s3, Some(ExecutionError::Memory(e))),
                        Ok(dest) => spec_set_variable(s3, dest, v),
                    }
                },
            }
        },
    }
}

/// ADD and SUB: two operands, a 64-bit wrapping sum or difference, and a
/// destination specifier.
pub open spec fn spec_op_arith(s: MachineState, subtract: bool) -> (
    MachineState,
    Option<ExecutionError>,
) {
    let (s1, t1) = spec_fetch_byte(s);
    match t1 {
        Err(e) => (s1, Some(ExecutionError::Memory(e))),
        Ok(ty1) => {
            let (s2, v1) = spec_read_operand(s1, ty1);
            match v1 {
                Err(e) => (s2, Some(e)),
                Ok(a) => {
                    let (s3, t2) = spec_fetch_byte(s2);
                    match t2 {
                        Err(e) => (s3, Some(ExecutionError::Memory(e))),
                        Ok(ty2) => {
                            let (s4, v2) = spec_read_operand(s3, ty2);
                            match v2 {
                                Err(e) => (s4, Some(e)),
                                Ok(b) => {
                                    let result = if subtract {
                                        vstd::wrapping::u64_specs::wrapping_sub(a, b)
                                    } else {
                                        vstd::wrapping::u64_specs::wrapping_add(a, b)
                                    };
                                    let (s5, dr) = spec_fetch_byte(s4);
                                    match dr {
                                        Err(e) => (s5, Some(ExecutionError::Memory(e))),
                                        Ok(dest) => spec_set_variable(s5, dest, result),
                                    }
                                },
                            }
                        },
                    }
                },
            }
        },
    }
}

/// JUMP: a signed 16-bit offset relative to the program counter after the
/// offset itself; a negative target is a decode error, and a target beyond
/// the address range is out of bounds.
pub open spec fn spec_op_jump(s: MachineState) -> (MachineState, Option<ExecutionError>) {
    match spec_read_u16(s, s.pc) {
        Err(e) => (s, Some(ExecutionError::Memory(e))),
        Ok(raw) => {
            let s1 = MachineState { pc: (s.pc + 2) as u64, ..s };
            let off = raw as i16;
            if s1.pc + off < 0 {
                (s1, Some(ExecutionError::NegativeJumpTarget))
            } else if s1.pc + off > u64::MAX {
                (s1, Some(ExecutionError::Memory(MemoryError::OutOfBounds)))
            } else {
                (MachineState { pc: (s1.pc + off) as u64, ..s1 }, None)
            }
        },
    }
}

/// CALL: reads a packed routine address and a destination specifier, pushes
/// the five-slot frame (return pc rounded up to the next opcode boundary,
/// caller's fp, destination specifier, argument count 0, the routine's
/// locals count read from its first byte), points `fp` at the locals-count
/// slot, zero-initializes the locals, and enters the routine.
pub open spec fn spec_op_call(s: MachineState) -> (MachineState, Option<ExecutionError>) {
    let (s1, tr) = spec_fetch_byte(s);
    match tr {
        Err(e) => (s1, Some(ExecutionError::Memory(e))),
        Ok(ty) => {
            if ty != 0x03 {
                (s1, Some(ExecutionError::InvalidOperandTypeForCall(ty)))
            } else {
                let (s2, pr) = spec_read_operand(s1, ty);
                match pr {
                    Err(e) => (s2, Some(e)),
                    Ok(packed) => {
                        if s2.code_start + packed > u64::MAX {
                            (s2, Some(ExecutionError::Memory(MemoryError::OutOfBounds)))
                        } else {
                            let target = (s2.code_start + packed) as u64;
                            let (s3, br) = spec_fetch_byte(s2);
                            match br {
                                Err(e) => (s3, Some(ExecutionError::Memory(e))),
                                Ok(store_var) => spec_call_frame(s3, target, store_var),
                            }
                        }
                    },
                }
            }
        },
    }
}

/// The frame-building tail of CALL, from the state after all CALL operands.
pub open spec fn spec_call_frame(s: MachineState, target: u64, store_var: u8) -> (
    MachineState,
    Option<ExecutionError>,
) {
    if s.pc + 7 > u64::MAX {
        (s, Some(ExecutionError::Memory(MemoryError::OutOfBounds)))
    } else {
        let aligned_ret = ((s.pc + 7) as u64) & !7u64;
        let (s1, e1) = spec_push(s, aligned_ret);
        if e1 is Some {
            (s1, Some(ExecutionError::Stack(e1->0)))
        } else {
            let (s2, e2) = spec_push(s1, s1.fp);
            if e2 is Some {
                (s2, Some(ExecutionError::Stack(e2->0)))
            } else {
                let (s3, e3) = spec_push(s2, store_var as u64);
                if e3 is Some {
                    (s3, Some(ExecutionError::Stack(e3->0)))
                } else {
                    let (s4, e4) = spec_push(s3, 0);
                    if e4 is Some {
                        (s4, Some(ExecutionError::Stack(e4->0)))
                    } else {
                        match spec_read_byte(s4, target) {
                            Err(e) => (s4, Some(ExecutionError::Memory(e))),
                            Ok(num_locals) => {
                                let (s5, e5) = spec_push(s4, num_locals as u64);
                                if e5 is Some {
                                    (s5, Some(ExecutionError::Stack(e5->0)))
                                } else {
                                    let s6 = MachineState {
                                        fp: s5.sp,
                                        pc: (target + 1) as u64,
                                        ..s5
                                    };
                                    let (s7, e6) = spec_push_zeros(s6, num_locals as nat);
                                    match e6 {
                                        None => (s7, None),
                                        Some(se) => (s7, Some(ExecutionError::Stack(se))),
                                    }
                                }
                            },
                        }
                    }
                }
            }
        }
    }
}

/// The frame teardown shared by RET, RTRUE and RFALSE: `sp` returns to
/// `fp`; the locals count and argument count are popped and discarded; the
/// destination specifier, the caller's `fp` and the return `pc` are popped
/// and restored; finally `value` is stored at the destination specifier in
/// the caller's register state.
pub open spec fn spec_return(s: MachineState, value: u64) -> (
    MachineState,
    Option<ExecutionError>,
) {
    let s0 = MachineState { sp: s.fp, ..s };
    let (s1, r1) = spec_pop(s0);
    match r1 {
        Err(e) => (s1, Some(ExecutionError::Stack(e))),
        Ok(_num_locals) => {
            let (s2, r2) = spec_pop(s1);
            match r2 {
                Err(e) => (s2, Some(ExecutionError::Stack(e))),
                Ok(_num_args) => {
                    let (s3, r3) = spec_pop(s2);
                    match r3 {
                        Err(e) => (s3, Some(ExecutionError::Stack(e))),
                        Ok(store_raw) => {
                            let (s4, r4) = spec_pop(s3);
                            match r4 {
                                Err(e) => (s4, Some(ExecutionError::Stack(e))),
                                Ok(old_fp) => {
                                    let s4b = MachineState { fp: old_fp, ..s4 };
                                    let (s5, r5) = spec_pop(s4b);
                                    match r5 {
                                        Err(e) => (s5, Some(ExecutionError::Stack(e))),
                                        Ok(ret_pc) => {
                                            let s5b = MachineState { pc: ret_pc, ..s5 };
                                            spec_set_variable(s5b, store_raw as u8, value)
                                        },
                                    }
                                },
                            }
                        },
                    }
                },
            }
        },
    }
}

/// RET: reads the return value as a typed operand, then tears the frame
/// down around it.
pub open spec fn spec_op_ret(s: MachineState) -> (MachineState, Option<ExecutionError>) {
    let (s1, tr) = spec_fetch_byte(s);
    match tr {
        Err(e) => (s1, Some(ExecutionError::Memory(e))),
        Ok(ty) => {
            let (s2, vr) = spec_read_operand(s1, ty);
            match vr {
                Err(e) => (s2, Some(e)),
                Ok(v) => spec_return(s2, v),
            }
        },
    }
}

// ---------------------------------------------------------------------------
// Dispatch, fetch, and the run loop.

/// The effect of one decoded instruction on the machine state, given the
/// already-fetched opcode.  `None` in the second position means the
/// instruction completed; otherwise the error aborted it, leaving the state
/// as mutated up to that point.
pub open spec fn spec_exec_op(s: MachineState, opcode: u64) -> (
    MachineState,
    Option<ExecutionError>,
) {
    if opcode == OP_NOP {
        (s, None)
    } else if opcode == OP_QUIT {
        (MachineState { running: false, ..s }, None)
    } else if opcode == OP_PUSH {
        spec_op_push(s)
    } else if opcode == OP_PULL {
        spec_op_pull(s)
    } else if opcode == OP_STORE {
        spec_op_store(s)
    } else if opcode == OP_LOAD {
        spec_op_load(s)
    } else if opcode == OP_ADD {
        spec_op_arith(s, false)
    } else if opcode == OP_SUB {
        spec_op_arith(s, true)
    } else if opcode == OP_JUMP {
        spec_op_jump(s)
    } else if opcode == OP_CALL {
        spec_op_call(s)
    } else if opcode == OP_RET {
        spec_op_ret(s)
    } else if opcode == OP_RTRUE {
        spec_return(s, 1)
    } else if opcode == OP_RFALSE {
        spec_return(s, 0)
    } else {
        (MachineState { running: false, ..s }, Some(ExecutionError::UnknownOpcode(opcode)))
    }
}

/// Reads the 8-byte opcode at `pc` and advances `pc` past it.
pub open spec fn spec_fetch_opcode(s: MachineState) -> (MachineState, Result<u64, MemoryError>) {
    match spec_read_qword(s, s.pc) {
        Ok(op) => (MachineState { pc: (s.pc + 8) as u64, ..s }, Ok(op)),
        Err(e) => (s, Err(e)),
    }
}

/// One fetch-decode-execute step of the run loop.  Any failure halts the
/// machine.
pub open spec fn spec_step(s: MachineState) -> (MachineState, Option<ExecutionError>) {
    let (s1, fr) = spec_fetch_opcode(s);
    match fr {
        Err(e) => (
            MachineState { running: false, ..s1 },
            Some(ExecutionError::Memory(e)),
        ),
        Ok(op) => {
            let (s2, e) = spec_exec_op(s1, op);
            match e {
                None => (s2, None),
                Some(err) => (MachineState { running: false, ..s2 }, Some(err)),
            }
        },
    }
}

/// Up to `n` steps of the run loop, stopping early when the machine halts
/// or a step fails.
pub open spec fn spec_run_n(s: MachineState, n: nat) -> (MachineState, Option<ExecutionError>)
    decreases n,
{
    if !s.running || n == 0 {
        (s, None)
    } else {
        let (s1, e) = spec_step(s);
        match e {
            Some(err) => (s1, Some(err)),
            None => spec_run_n(s1, (n - 1) as nat),
        }
    }
}

/// Extending an error-free run by one step applies `spec_step` to its final
/// state.
pub proof fn lemma_run_n_snoc(s: MachineState, n: nat)
    requires
        spec_run_n(s, n).1 is None,
        spec_run_n(s, n).0.running,
    ensures
        spec_run_n(s, n + 1) == spec_step(spec_run_n(s, n).0),
    decreases n,
{
    reveal_with_fuel(spec_run_n, 2);
    if !s.running || n == 0 {
    } else {
        let (s1, e) = spec_step(s);
        lemma_run_n_snoc(s1, (n - 1) as nat);
    }
}

} // verus!
