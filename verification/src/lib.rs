//! A bytecode virtual machine for a fixed-format binary "story file".
//!
//! The machine builds an addressable memory image from header-declared
//! sections and executes 64-bit-opcode instructions against a program
//! counter, a stack pointer and a frame pointer, with a stack-based calling
//! convention.  Every component is specified against a mathematical model of
//! the machine state (see [`model`]) and verified; the general laws of the
//! stack discipline and of the call/return protocol are proved in [`laws`].

pub mod cpu;
pub mod endian;
pub mod header;
pub mod laws;
pub mod memory;
pub mod model;
pub mod opcodes;

use vstd::prelude::*;

verus! {

/// A load-time failure: no machine is produced.
#[derive(Debug, PartialEq, Eq, Structural, Clone, Copy)]
pub enum StoryFileError {
    /// The input holds fewer than the 1024 bytes of the header.
    TooShort,
    /// The header's version field is not the supported constant; the field's
    /// value is carried.
    UnsupportedVersion(u16),
}

/// A failed memory access: the address plus the access width runs past the
/// end of the address space.
#[derive(Debug, PartialEq, Eq, Structural, Clone, Copy)]
pub enum MemoryError {
    OutOfBounds,
}

/// A fetch, decode or execute failure.  The first one aborts the current
/// instruction and halts the machine.
#[derive(Debug, PartialEq, Eq, Structural, Clone, Copy)]
pub enum ExecutionError {
    /// A memory access of the instruction, an operand or a variable slot
    /// ran out of bounds.
    Memory(MemoryError),
    /// A stack primitive failed.
    Stack(cpu::StackError),
    /// An operand type byte outside `0x00..=0x03`; the byte is carried.
    UnknownOperandType(u8),
    /// An opcode word outside the instruction set; the word is carried.
    UnknownOpcode(u64),
    /// A local-variable index at or beyond the frame's locals count; the
    /// index is carried.
    InvalidLocalIndex(u8),
    /// CALL's routine operand was not of packed-address type; the type byte
    /// is carried.
    InvalidOperandTypeForCall(u8),
    /// A JUMP offset would move the program counter below zero.
    NegativeJumpTarget,
}

/// The whole machine: the address space, the registers, and the run flag
/// that QUIT or a failure clears.
#[derive(Debug)]
pub struct VirtualMachine {
    pub memory: memory::Memory,
    pub cpu: cpu::Cpu,
    pub running: bool,
}

impl VirtualMachine {
    /// Pushes one value on the evaluation stack.
    fn push_stack(&mut self, value: u64) -> (r: Result<(), cpu::StackError>)
        ensures
            ({
                let (s1, e) = model::spec_push(model::vm_state(*old(self)), value);
                model::vm_state(*final(self)) == s1 && model::err_of(r) == e
            }),
            final(self).memory.header == old(self).memory.header,
    {
        self.cpu.push_value(value, &mut self.memory)
    }

    /// Pops one value off the evaluation stack.
    fn pop_stack(&mut self) -> (r: Result<u64, cpu::StackError>)
        ensures
            (model::vm_state(*final(self)), r) == model::spec_pop(model::vm_state(*old(self))),
            final(self).memory.header == old(self).memory.header,
    {
        self.cpu.pop_value(&self.memory)
    }

    /// Reads the operand type byte at `pc` and steps past it.
    fn fetch_operand_type(&mut self) -> (r: Result<u8, MemoryError>)
        ensures
            (model::vm_state(*final(self)), r) == model::spec_fetch_byte(
                model::vm_state(*old(self)),
            ),
            final(self).memory.header == old(self).memory.header,
    {
        let _bound: usize = self.memory.len();
        let type_byte = match self.memory.read_byte(self.cpu.pc) {
            Ok(b) => b,
            Err(e) => {
                return Err(e);
            },
        };
        self.cpu.pc = self.cpu.pc + 1;
        Ok(type_byte)
    }

    /// Reads a variable specifier byte at `pc` and steps past it.
    fn read_variable_operand(&mut self) -> (r: Result<u8, MemoryError>)
        ensures
            (model::vm_state(*final(self)), r) == model::spec_fetch_byte(
                model::vm_state(*old(self)),
            ),
            final(self).memory.header == old(self).memory.header,
    {
        let _bound: usize = self.memory.len();
        let var_specifier = match self.memory.read_byte(self.cpu.pc) {
            Ok(b) => b,
            Err(e) => {
                return Err(e);
            },
        };
        self.cpu.pc = self.cpu.pc + 1;
        Ok(var_specifier)
    }

    /// Resolves a variable specifier to its current value: `0x00` pops the
    /// stack, `0x01..=0x0F` reads a bounds-checked local, anything else
    /// reads a global.
    fn get_variable(&mut self, var_spec: u8) -> (r: Result<u64, ExecutionError>)
        ensures
            (model::vm_state(*final(self)), r) == model::spec_get_variable(
                model::vm_state(*old(self)),
                var_spec,
            ),
            final(self).memory.header == old(self).memory.header,
    {
        if var_spec == 0x00 {
            match self.pop_stack() {
                Ok(v) => Ok(v),
                Err(e) => Err(ExecutionError::Stack(e)),
            }
        } else if var_spec <= 0x0F {
            let local_num = var_spec - 0x01;
            let num_locals = match self.read_qword(self.cpu.fp) {
                Ok(n) => n,
                Err(e) => {
                    return Err(ExecutionError::Memory(e));
                },
            };
            if local_num >= #[verifier::truncate] (num_locals as u8) {
                return Err(ExecutionError::InvalidLocalIndex(local_num));
            }
            let addr = match self.cpu.fp.checked_add(8 * (1 + local_num as u64)) {
                Some(a) => a,
                None => {
                    return Err(ExecutionError::Memory(MemoryError::OutOfBounds));
                },
            };
            match self.read_qword(addr) {
                Ok(v) => Ok(v),
                Err(e) => Err(ExecutionError::Memory(e)),
            }
        } else {
            let global_num = var_spec - 0x10;
            let addr = match self.memory.header.globals_table_start.checked_add(
                8 * (global_num as u64),
            ) {
                Some(a) => a,
                None => {
                    return Err(ExecutionError::Memory(MemoryError::OutOfBounds));
                },
            };
            match self.read_qword(addr) {
                Ok(v) => Ok(v),
                Err(e) => Err(ExecutionError::Memory(e)),
            }
        }
    }

    /// Stores `value` at a variable specifier: `0x00` pushes the stack,
    /// `0x01..=0x0F` writes a bounds-checked local, anything else writes a
    /// global.
    fn set_variable(&mut self, var_spec: u8, value: u64) -> (r: Result<(), ExecutionError>)
        ensures
            ({
                let (s1, e) = model::spec_set_variable(
                    model::vm_state(*old(self)),
                    var_spec,
                    value,
                );
                model::vm_state(*final(self)) == s1 && model::err_of(r) == e
            }),
            final(self).memory.header == old(self).memory.header,
    {
        if var_spec == 0x00 {
            match self.push_stack(value) {
                Ok(()) => Ok(()),
                Err(e) => Err(ExecutionError::Stack(e)),
            }
        } else if var_spec <= 0x0F {
            let local_num = var_spec - 0x01;
            let num_locals = match self.read_qword(self.cpu.fp) {
                Ok(n) => n,
                Err(e) => {
                    return Err(ExecutionError::Memory(e));
                },
            };
            if local_num >= #[verifier::truncate] (num_locals as u8) {
                return Err(ExecutionError::InvalidLocalIndex(local_num));
            }
            let addr = match self.cpu.fp.checked_add(8 * (1 + local_num as u64)) {
                Some(a) => a,
                None => {
                    return Err(ExecutionError::Memory(MemoryError::OutOfBounds));
                },
            };
            match self.write_qword(addr, value) {
                Ok(()) => Ok(()),
                Err(e) => Err(ExecutionError::Memory(e)),
            }
        } else {
            let global_num = var_spec - 0x10;
            let addr = match self.memory.header.globals_table_start.checked_add(
                8 * (global_num as u64),
            ) {
                Some(a) => a,
                None => {
                    return Err(ExecutionError::Memory(MemoryError::OutOfBounds));
                },
            };
            match self.write_qword(addr, value) {
                Ok(()) => Ok(()),
                Err(e) => Err(ExecutionError::Memory(e)),
            }
        }
    }

    /// Reads one operand of the given type byte, consuming its inline bytes
    /// and resolving a variable specifier where the type asks for one.
    fn read_operand_value(&mut self, operand_type: u8) -> (r: Result<u64, ExecutionError>)
        ensures
            (model::vm_state(*final(self)), r) == model::spec_read_operand(
                model::vm_state(*old(self)),
                operand_type,
            ),
            final(self).memory.header == old(self).memory.header,
    {
        let _bound: usize = self.memory.len();
        if operand_type == 0x00 {
            let value = match self.read_qword(self.cpu.pc) {
                Ok(v) => v,
                Err(e) => {
                    return Err(ExecutionError::Memory(e));
                },
            };
            self.cpu.pc = self.cpu.pc + 8;
            Ok(value)
        } else if operand_type == 0x01 {
            let value = match self.read_byte(self.cpu.pc) {
                Ok(b) => b,
                Err(e) => {
                    return Err(ExecutionError::Memory(e));
                },
            };
            self.cpu.pc = self.cpu.pc + 1;
            Ok(value as u64)
        } else if operand_type == 0x02 {
            let var_spec = match self.read_byte(self.cpu.pc) {
                Ok(b) => b,
                Err(e) => {
                    return Err(ExecutionError::Memory(e));
                },
            };
            self.cpu.pc = self.cpu.pc + 1;
            self.get_variable(var_spec)
        } else if operand_type == 0x03 {
            let value = match self.read_dword(self.cpu.pc) {
                Ok(v) => v,
                Err(e) => {
                    return Err(ExecutionError::Memory(e));
                },
            };
            self.cpu.pc = self.cpu.pc + 4;
            Ok(value as u64)
        } else {
            Err(ExecutionError::UnknownOperandType(operand_type))
        }
    }

    /// Reads the byte at `address`.
    pub fn read_byte(&self, address: u64) -> (r: Result<u8, MemoryError>)
        ensures
            r == model::spec_read_byte(model::vm_state(*self), address),
    {
        let r = self.memory.read_byte(address);
        proof {
            let s = model::vm_state(*self);
            match r {
                Ok(b) => {
                    assert(address < s.mem.len());
                    assert(b == s.mem[address as int]);
                    assert(model::spec_read_byte(s, address) == Ok::<u8, MemoryError>(b));
                },
                Err(e) => {
                    assert(address >= s.mem.len());
                    assert(e == MemoryError::OutOfBounds);
                    assert(model::spec_read_byte(s, address) == Err::<u8, MemoryError>(e));
                },
            }
        }
        r
    }

    /// Writes one byte at `address`.
    pub fn write_byte(&mut self, address: u64, value: u8) -> (r: Result<(), MemoryError>)
        ensures
            final(self).cpu == old(self).cpu,
            final(self).running == old(self).running,
            final(self).memory.header == old(self).memory.header,
            match r {
                Ok(()) => {
                    &&& address < old(self).memory.data@.len()
                    &&& final(self).memory.data@ == old(self).memory.data@.update(
                        address as int,
                        value,
                    )
                },
                Err(MemoryError::OutOfBounds) => {
                    &&& address >= old(self).memory.data@.len()
                    &&& *final(self) == *old(self)
                },
            },
    {
        self.memory.write_byte(address, value)
    }

    /// Reads the big-endian 16-bit integer at `address`.
    pub fn read_word(&self, address: u64) -> (r: Result<u16, MemoryError>)
        ensures
            r == model::spec_read_u16(model::vm_state(*self), address),
    {
        let r = self.memory.read_u16(address);
        proof {
            let s = model::vm_state(*self);
            match r {
                Ok(x) => {
                    assert(model::spec_read_u16(s, address) == Ok::<u16, MemoryError>(x));
                },
                Err(e) => {
                    assert(e == MemoryError::OutOfBounds);
                    assert(model::spec_read_u16(s, address) == Err::<u16, MemoryError>(e));
                },
            }
        }
        r
    }

    /// Writes `value` big-endian as a 16-bit integer at `address`.
    pub fn write_word(&mut self, address: u64, value: u16) -> (r: Result<(), MemoryError>)
        ensures
            final(self).cpu == old(self).cpu,
            final(self).running == old(self).running,
            final(self).memory.header == old(self).memory.header,
            match r {
                Ok(()) => {
                    &&& address + 2 <= old(self).memory.data@.len()
                    &&& final(self).memory.data@ == endian::store_be16(
                        old(self).memory.data@,
                        address as int,
                        value,
                    )
                },
                Err(MemoryError::OutOfBounds) => {
                    &&& address + 2 > old(self).memory.data@.len()
                    &&& *final(self) == *old(self)
                },
            },
    {
        self.memory.write_u16(address, value)
    }

    /// Reads the big-endian 32-bit integer at `address`.
    pub fn read_dword(&self, address: u64) -> (r: Result<u32, MemoryError>)
        ensures
            r == model::spec_read_u32(model::vm_state(*self), address),
    {
        let r = self.memory.read_u32(address);
        proof {
            let s = model::vm_state(*self);
            match r {
                Ok(x) => {
                    assert(model::spec_read_u32(s, address) == Ok::<u32, MemoryError>(x));
                },
                Err(e) => {
                    assert(e == MemoryError::OutOfBounds);
                    assert(model::spec_read_u32(s, address) == Err::<u32, MemoryError>(e));
                },
            }
        }
        r
    }

    /// Writes `value` big-endian as a 32-bit integer at `address`.
    pub fn write_dword(&mut self, address: u64, value: u32) -> (r: Result<(), MemoryError>)
        ensures
            final(self).cpu == old(self).cpu,
            final(self).running == old(self).running,
            final(self).memory.header == old(self).memory.header,
            match r {
                Ok(()) => {
                    &&& address + 4 <= old(self).memory.data@.len()
                    &&& final(self).memory.data@ == endian::store_be32(
                        old(self).memory.data@,
                        address as int,
                        value,
                    )
                },
                Err(MemoryError::OutOfBounds) => {
                    &&& address + 4 > old(self).memory.data@.len()
                    &&& *final(self) == *old(self)
                },
            },
    {
        self.memory.write_u32(address, value)
    }

    /// Reads the big-endian 64-bit word at `address`.
    pub fn read_qword(&self, address: u64) -> (r: Result<u64, MemoryError>)
        ensures
            r == model::spec_read_qword(model::vm_state(*self), address),
    {
        let r = self.memory.read_word(address);
        proof {
            let s = model::vm_state(*self);
            match r {
                Ok(x) => {
                    assert(model::spec_read_qword(s, address) == Ok::<u64, MemoryError>(x));
                },
                Err(e) => {
                    assert(e == MemoryError::OutOfBounds);
                    assert(model::spec_read_qword(s, address) == Err::<u64, MemoryError>(e));
                },
            }
        }
        r
    }

    /// Writes `value` big-endian as a 64-bit word at `address`.
    pub fn write_qword(&mut self, address: u64, value: u64) -> (r: Result<(), MemoryError>)
        ensures
            final(self).cpu == old(self).cpu,
            final(self).running == old(self).running,
            final(self).memory.header == old(self).memory.header,
            match r {
                Ok(()) => model::spec_write_qword(model::vm_state(*old(self)), address, value)
                    == Ok::<model::MachineState, MemoryError>(model::vm_state(*final(self))),
                Err(e) => model::spec_write_qword(model::vm_state(*old(self)), address, value)
                    == Err::<model::MachineState, MemoryError>(e) && *final(self) == *old(self),
            },
    {
        self.memory.write_word(address, value)
    }

    /// Builds a machine from a whole story-file image: the address space
    /// validates the header, and the registers start at the
    /// header-declared positions with the machine running.
    ///
    /// Succeeds exactly on an image of at least 1024 bytes whose header
    /// carries the supported version.  The precondition excludes a header
    /// whose dynamic-data section end does not fit in 64 bits, since the
    /// initial stack pointer is their sum.
    pub fn load(story_file_data: Vec<u8>) -> (r: Result<VirtualMachine, StoryFileError>)
        requires
            ({
                let h = header::spec_header(story_file_data@);
                (story_file_data@.len() >= 1024 && h.version == memory::SUPPORTED_VERSION)
                    ==> h.dynamic_data_section_start + h.dynamic_data_section_length <= u64::MAX
            }),
        ensures
            match r {
                Ok(vm) => {
                    let h = header::spec_header(story_file_data@);
                    &&& story_file_data@.len() >= 1024
                    &&& h.version == memory::SUPPORTED_VERSION
                    &&& vm.memory.data@ == story_file_data@
                    &&& vm.memory.header@ == h
                    &&& vm.memory.wf()
                    &&& vm.cpu.pc == h.code_section_start
                    &&& vm.cpu.sp == h.dynamic_data_section_start
                        + h.dynamic_data_section_length
                    &&& vm.cpu.fp == vm.cpu.sp
                    &&& vm.cpu.initial_sp == vm.cpu.sp
                    &&& vm.running == true
                },
                Err(StoryFileError::TooShort) => story_file_data@.len() < 1024,
                Err(StoryFileError::UnsupportedVersion(v)) => {
                    &&& story_file_data@.len() >= 1024
                    &&& v == header::spec_header(story_file_data@).version
                    &&& v != memory::SUPPORTED_VERSION
                },
            },
    {
        let new_memory = match memory::Memory::new(story_file_data) {
            Ok(m) => m,
            Err(e) => {
                return Err(e);
            },
        };
        let new_cpu = cpu::Cpu::new(&new_memory);
        Ok(VirtualMachine { memory: new_memory, cpu: new_cpu, running: true })
    }

    /// Reads the 8-byte opcode at `pc` and advances `pc` past it.
    pub fn fetch_opcode(&mut self) -> (r: Result<u64, MemoryError>)
        ensures
            (model::vm_state(*final(self)), r) == model::spec_fetch_opcode(
                model::vm_state(*old(self)),
            ),
            final(self).memory.header == old(self).memory.header,
    {
        let _bound: usize = self.memory.len();
        let opcode_val = match self.read_qword(self.cpu.pc) {
            Ok(v) => v,
            Err(e) => {
                return Err(e);
            },
        };
        self.cpu.pc = self.cpu.pc + opcodes::OPCODE_SIZE;
        Ok(opcode_val)
    }

    /// The frame teardown shared by RET, RTRUE and RFALSE: discards the
    /// frame, restores the caller's `fp` and `pc`, and stores `value` at
    /// the frame's destination specifier.
    fn unwind_frame(&mut self, value: u64) -> (r: Result<(), ExecutionError>)
        ensures
            ({
                let (s1, e) = model::spec_return(model::vm_state(*old(self)), value);
                model::vm_state(*final(self)) == s1 && model::err_of(r) == e
            }),
            final(self).memory.header == old(self).memory.header,
    {
        self.cpu.sp = self.cpu.fp;
        let _num_locals_on_stack = match self.pop_stack() {
            Ok(v) => v,
            Err(e) => {
                return Err(ExecutionError::Stack(e));
            },
        };
        let _num_args_supplied_on_stack = match self.pop_stack() {
            Ok(v) => v,
            Err(e) => {
                return Err(ExecutionError::Stack(e));
            },
        };
        let store_var_ref = match self.pop_stack() {
            Ok(v) => v,
            Err(e) => {
                return Err(ExecutionError::Stack(e));
            },
        };
        let old_fp = match self.pop_stack() {
            Ok(v) => v,
            Err(e) => {
                return Err(ExecutionError::Stack(e));
            },
        };
        self.cpu.fp = old_fp;
        let ret_pc = match self.pop_stack() {
            Ok(v) => v,
            Err(e) => {
                return Err(ExecutionError::Stack(e));
            },
        };
        self.cpu.pc = ret_pc;
        self.set_variable(#[verifier::truncate] (store_var_ref as u8), value)
    }

    /// PUSH: reads a typed operand and pushes its value.
    fn op_push(&mut self) -> (r: Result<(), ExecutionError>)
        ensures
            ({
                let (s1, e) = model::spec_op_push(model::vm_state(*old(self)));
                model::vm_state(*final(self)) == s1 && model::err_of(r) == e
            }),
            final(self).memory.header == old(self).memory.header,
    {
        let operand_type = match self.fetch_operand_type() {
            Ok(t) => t,
            Err(e) => {
                return Err(ExecutionError::Memory(e));
            },
        };
        let value = match self.read_operand_value(operand_type) {
            Ok(v) => v,
            Err(e) => {
                return Err(e);
            },
        };
        match self.push_stack(value) {
            Ok(()) => Ok(()),
            Err(e) => Err(ExecutionError::Stack(e)),
        }
    }

    /// PULL: pops a value and stores it at the following variable
    /// specifier; specifier `0x00` discards it.
    fn op_pull(&mut self) -> (r: Result<(), ExecutionError>)
        ensures
            ({
                let (s1, e) = model::spec_op_pull(model::vm_state(*old(self)));
                model::vm_state(*final(self)) == s1 && model::err_of(r) == e
            }),
            final(self).memory.header == old(self).memory.header,
    {
        let value = match self.pop_stack() {
            Ok(v) => v,
            Err(e) => {
                return Err(ExecutionError::Stack(e));
            },
        };
        let var_spec = match self.read_variable_operand() {
            Ok(v) => v,
            Err(e) => {
                return Err(ExecutionError::Memory(e));
            },
        };
        if var_spec != 0x00 {
            self.set_variable(var_spec, value)
        } else {
            Ok(())
        }
    }

    /// STORE: reads a destination specifier and a typed operand, and stores
    /// the value there.
    fn op_store(&mut self) -> (r: Result<(), ExecutionError>)
        ensures
            ({
                let (s1, e) = model::spec_op_store(model::vm_state(*old(self)));
                model::vm_state(*final(self)) == s1 && model::err_of(r) == e
            }),
            final(self).memory.header == old(self).memory.header,
    {
        let var_spec = match self.read_variable_operand() {
            Ok(v) => v,
            Err(e) => {
                return Err(ExecutionError::Memory(e));
            },
        };
        let operand_type = match self.fetch_operand_type() {
            Ok(t) => t,
            Err(e) => {
                return Err(ExecutionError::Memory(e));
            },
        };
        let value = match self.read_operand_value(operand_type) {
            Ok(v) => v,
            Err(e) => {
                return Err(e);
            },
        };
        self.set_variable(var_spec, value)
    }

    /// LOAD: resolves a source specifier and stores its value at a
    /// destination specifier.
    fn op_load(&mut self) -> (r: Result<(), ExecutionError>)
        ensures
            ({
                let (s1, e) = model::spec_op_load(model::vm_state(*old(self)));
                model::vm_state(*final(self)) == s1 && model::err_of(r) == e
            }),
            final(self).memory.header == old(self).memory.header,
    {
        let source_var_spec = match self.read_variable_operand() {
            Ok(v) => v,
            Err(e) => {
                return Err(ExecutionError::Memory(e));
            },
        };
        let value = match self.get_variable(source_var_spec) {
            Ok(v) => v,
            Err(e) => {
                return Err(e);
            },
        };
        let dest_var_spec = match self.read_variable_operand() {
            Ok(v) => v,
            Err(e) => {
                return Err(ExecutionError::Memory(e));
            },
        };
        self.set_variable(dest_var_spec, value)
    }

    /// ADD and SUB: two typed operands, a 64-bit wrapping sum or
    /// difference, and a destination specifier.
    fn op_arith(&mut self, subtract: bool) -> (r: Result<(), ExecutionError>)
        ensures
            ({
                let (s1, e) = model::spec_op_arith(model::vm_state(*old(self)), subtract);
                model::vm_state(*final(self)) == s1 && model::err_of(r) == e
            }),
            final(self).memory.header == old(self).memory.header,
    {
        let type1 = match self.fetch_operand_type() {
            Ok(t) => t,
            Err(e) => {
                return Err(ExecutionError::Memory(e));
            },
        };
        let val1 = match self.read_operand_value(type1) {
            Ok(v) => v,
            Err(e) => {
                return Err(e);
            },
        };
        let type2 = match self.fetch_operand_type() {
            Ok(t) => t,
            Err(e) => {
                return Err(ExecutionError::Memory(e));
            },
        };
        let val2 = match self.read_operand_value(type2) {
            Ok(v) => v,
            Err(e) => {
                return Err(e);
            },
        };
        let result = if subtract {
            val1.wrapping_sub(val2)
        } else {
            val1.wrapping_add(val2)
        };
        let store_var_spec = match self.read_variable_operand() {
            Ok(v) => v,
            Err(e) => {
                return Err(ExecutionError::Memory(e));
            },
        };
        self.set_variable(store_var_spec, result)
    }

    /// JUMP: a signed 16-bit offset relative to the program counter after
    /// the offset bytes; a negative target is a decode error.
    fn op_jump(&mut self) -> (r: Result<(), ExecutionError>)
        ensures
            ({
                let (s1, e) = model::spec_op_jump(model::vm_state(*old(self)));
                model::vm_state(*final(self)) == s1 && model::err_of(r) == e
            }),
            final(self).memory.header == old(self).memory.header,
    {
        let offset_raw = match self.read_word(self.cpu.pc) {
            Ok(v) => v,
            Err(e) => {
                return Err(ExecutionError::Memory(e));
            },
        };
        let _bound: usize = self.memory.len();
        self.cpu.pc = self.cpu.pc + 2;
        let offset = offset_raw as i16;
        if offset >= 0 {
            match self.cpu.pc.checked_add(offset as u64) {
                Some(p) => {
                    self.cpu.pc = p;
                    Ok(())
                },
                None => Err(ExecutionError::Memory(MemoryError::OutOfBounds)),
            }
        } else {
            let magnitude = (-(offset as i64)) as u64;
            if self.cpu.pc < magnitude {
                Err(ExecutionError::NegativeJumpTarget)
            } else {
                self.cpu.pc = self.cpu.pc - magnitude;
                Ok(())
            }
        }
    }

    /// The frame-building tail of CALL, from the state after its operands:
    /// pushes the five frame slots, anchors `fp`, zero-initializes the
    /// routine's locals and enters it.
    #[verifier::loop_isolation(false)]
    fn call_enter(&mut self, target_addr: u64, store_var: u8) -> (r: Result<(), ExecutionError>)
        ensures
            ({
                let (s1, e) = model::spec_call_frame(
                    model::vm_state(*old(self)),
                    target_addr,
                    store_var,
                );
                model::vm_state(*final(self)) == s1 && model::err_of(r) == e
            }),
            final(self).memory.header == old(self).memory.header,
    {
        let pc_after_call_operands = self.cpu.pc;
        let pc_rounded = match pc_after_call_operands.checked_add(opcodes::OPCODE_SIZE - 1) {
            Some(p) => p,
            None => {
                return Err(ExecutionError::Memory(MemoryError::OutOfBounds));
            },
        };
        let aligned_return_pc = pc_rounded & !(opcodes::OPCODE_SIZE - 1);
        match self.push_stack(aligned_return_pc) {
            Ok(()) => (),
            Err(e) => {
                return Err(ExecutionError::Stack(e));
            },
        }
        let caller_fp = self.cpu.fp;
        match self.push_stack(caller_fp) {
            Ok(()) => (),
            Err(e) => {
                return Err(ExecutionError::Stack(e));
            },
        }
        match self.push_stack(store_var as u64) {
            Ok(()) => (),
            Err(e) => {
                return Err(ExecutionError::Stack(e));
            },
        }
        let num_args_supplied: u8 = 0;
        match self.push_stack(num_args_supplied as u64) {
            Ok(()) => (),
            Err(e) => {
                return Err(ExecutionError::Stack(e));
            },
        }
        let _bound: usize = self.memory.len();
        let num_locals_from_routine = match self.read_byte(target_addr) {
            Ok(b) => b,
            Err(e) => {
                return Err(ExecutionError::Memory(e));
            },
        };
        match self.push_stack(num_locals_from_routine as u64) {
            Ok(()) => (),
            Err(e) => {
                return Err(ExecutionError::Stack(e));
            },
        }
        self.cpu.fp = self.cpu.sp;
        self.cpu.pc = target_addr + 1;
        let ghost locals_base = model::vm_state(*self);
        let mut i: u8 = 0;
        while i < num_locals_from_routine
            invariant
                i <= num_locals_from_routine,
                model::spec_push_zeros(locals_base, num_locals_from_routine as nat)
                    == model::spec_push_zeros(
                    model::vm_state(*self),
                    (num_locals_from_routine - i) as nat,
                ),
                self.memory.header == old(self).memory.header,
            decreases num_locals_from_routine - i,
        {
            match self.push_stack(0) {
                Ok(()) => (),
                Err(e) => {
                    return Err(ExecutionError::Stack(e));
                },
            }
            i = i + 1;
        }
        Ok(())
    }

    /// CALL: reads a packed routine address (the only operand type it
    /// accepts) and a destination specifier, then builds the frame and
    /// enters the routine.
    fn op_call(&mut self) -> (r: Result<(), ExecutionError>)
        ensures
            ({
                let (s1, e) = model::spec_op_call(model::vm_state(*old(self)));
                model::vm_state(*final(self)) == s1 && model::err_of(r) == e
            }),
            final(self).memory.header == old(self).memory.header,
    {
        let p_type = match self.fetch_operand_type() {
            Ok(t) => t,
            Err(e) => {
                return Err(ExecutionError::Memory(e));
            },
        };
        if p_type != 0x03 {
            return Err(ExecutionError::InvalidOperandTypeForCall(p_type));
        }
        let p_packed = match self.read_operand_value(p_type) {
            Ok(v) => v,
            Err(e) => {
                return Err(e);
            },
        };
        let target_addr = match self.memory.header.code_section_start.checked_add(p_packed) {
            Some(t) => t,
            None => {
                return Err(ExecutionError::Memory(MemoryError::OutOfBounds));
            },
        };
        let store_var = match self.read_variable_operand() {
            Ok(v) => v,
            Err(e) => {
                return Err(ExecutionError::Memory(e));
            },
        };
        self.call_enter(target_addr, store_var)
    }

    /// RET: reads the return value as a typed operand, then tears the
    /// frame down around it.
    fn op_ret(&mut self) -> (r: Result<(), ExecutionError>)
        ensures
            ({
                let (s1, e) = model::spec_op_ret(model::vm_state(*old(self)));
                model::vm_state(*final(self)) == s1 && model::err_of(r) == e
            }),
            final(self).memory.header == old(self).memory.header,
    {
        let val_type = match self.fetch_operand_type() {
            Ok(t) => t,
            Err(e) => {
                return Err(ExecutionError::Memory(e));
            },
        };
        let value = match self.read_operand_value(val_type) {
            Ok(v) => v,
            Err(e) => {
                return Err(e);
            },
        };
        self.unwind_frame(value)
    }

    /// Decodes and executes one instruction, given its already-fetched
    /// opcode word.  On failure the instruction is aborted where it stood;
    /// an unknown opcode also halts the machine here.
    pub fn decode_and_execute_opcode(&mut self, opcode: u64) -> (r: Result<(), ExecutionError>)
        ensures
            ({
                let (s1, e) = model::spec_exec_op(model::vm_state(*old(self)), opcode);
                model::vm_state(*final(self)) == s1 && model::err_of(r) == e
            }),
            final(self).memory.header == old(self).memory.header,
    {
        if opcode == opcodes::OP_NOP {
            Ok(())
        } else if opcode == opcodes::OP_QUIT {
            self.running = false;
            Ok(())
        } else if opcode == opcodes::OP_PUSH {
            self.op_push()
        } else if opcode == opcodes::OP_PULL {
            self.op_pull()
        } else if opcode == opcodes::OP_STORE {
            self.op_store()
        } else if opcode == opcodes::OP_LOAD {
            self.op_load()
        } else if opcode == opcodes::OP_ADD {
            self.op_arith(false)
        } else if opcode == opcodes::OP_SUB {
            self.op_arith(true)
        } else if opcode == opcodes::OP_JUMP {
            self.op_jump()
        } else if opcode == opcodes::OP_CALL {
            self.op_call()
        } else if opcode == opcodes::OP_RET {
            self.op_ret()
        } else if opcode == opcodes::OP_RTRUE {
            self.unwind_frame(1)
        } else if opcode == opcodes::OP_RFALSE {
            self.unwind_frame(0)
        } else {
            self.running = false;
            Err(ExecutionError::UnknownOpcode(opcode))
        }
    }

    /// Runs fetch-decode-execute until QUIT, an error, or the engine's
    /// astronomically large step bound of `u64::MAX` instructions.
    ///
    /// The result and the final state are those of stepping the model from
    /// the entry state (with the run flag raised): `Ok` means the machine
    /// halted by QUIT, an error names the first failure, and in either case
    /// the machine ends halted — unless the step bound ran out, which the
    /// contract records as `n == u64::MAX` with the machine still running.
    #[verifier::loop_isolation(false)]
    #[verifier::rlimit(60)]
    pub fn run(&mut self) -> (r: Result<(), ExecutionError>)
        ensures
            ({
                let s0 = model::MachineState {
                    running: true,
                    ..model::vm_state(*old(self))
                };
                exists|n: nat|
                    {
                        &&& #[trigger] model::spec_run_n(s0, n) == (
                            model::vm_state(*final(self)),
                            model::err_of(r),
                        )
                        &&& n <= u64::MAX
                        &&& (!model::vm_state(*final(self)).running || n == u64::MAX)
                    }
            }),
            final(self).memory.header == old(self).memory.header,
    {
        self.running = true;
        let ghost s0 = model::vm_state(*self);
        let ghost mut steps: nat = 0nat;
        let mut budget: u64 = u64::MAX;
        while self.running && budget > 0
            invariant
                model::spec_run_n(s0, steps) == (
                    model::vm_state(*self),
                    None::<ExecutionError>,
                ),
                steps + budget == u64::MAX,
                self.memory.header == old(self).memory.header,
            decreases budget,
        {
            match self.fetch_opcode() {
                Ok(opcode) => {
                    match self.decode_and_execute_opcode(opcode) {
                        Ok(()) => {
                            proof {
                                model::lemma_run_n_snoc(s0, steps);
                                steps = steps + 1;
                            }
                        },
                        Err(e) => {
                            self.running = false;
                            proof {
                                model::lemma_run_n_snoc(s0, steps);
                                steps = steps + 1;
                            }
                            return Err(e);
                        },
                    }
                },
                Err(e) => {
                    self.running = false;
                    proof {
                        model::lemma_run_n_snoc(s0, steps);
                        steps = steps + 1;
                    }
                    return Err(ExecutionError::Memory(e));
                },
            }
            budget = budget - 1;
        }
        Ok(())
    }
}

} // verus!
