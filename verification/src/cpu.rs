use crate::endian::{be64, store_be64};
use crate::memory::Memory;
use crate::MemoryError;
use vstd::prelude::*;

verus! {

/// The machine's registers.
///
/// `pc` is the byte address of the next instruction, `sp` the byte address
/// of the stack top (the stack grows toward lower addresses), and `fp` the
/// byte address of the active frame's locals-count slot.  `initial_sp`
/// records the stack's upper bound, set once at construction; popping at
/// `sp == initial_sp` underflows.
#[derive(Debug)]
pub struct Cpu {
    pub pc: u64,
    pub sp: u64,
    pub fp: u64,
    pub initial_sp: u64,
}

/// A failed stack primitive.
#[derive(Debug, PartialEq, Eq, Structural, Clone, Copy)]
pub enum StackError {
    /// A push would move `sp` below the dynamic-data section start.
    Overflow,
    /// A pop at `sp == initial_sp`: the stack is empty.
    Underflow,
    /// The stack region runs past the address space.
    MemoryAccess(MemoryError),
}

impl Cpu {
    /// Registers at load time: `pc` at the start of the code section, and
    /// `sp`, `fp` and `initial_sp` at the top of the dynamic-data section.
    pub fn new(memory: &Memory) -> (c: Cpu)
        requires
            memory.header.dynamic_data_section_start + memory.header.dynamic_data_section_length
                <= u64::MAX,
        ensures
            c.pc == memory.header.code_section_start,
            c.sp == memory.header.dynamic_data_section_start
                + memory.header.dynamic_data_section_length,
            c.fp == c.sp,
            c.initial_sp == c.sp,
    {
        let header = memory.header();
        let initial_sp_val = header.dynamic_data_section_start
            + header.dynamic_data_section_length;
        Cpu {
            pc: header.code_section_start,
            sp: initial_sp_val,
            fp: initial_sp_val,
            initial_sp: initial_sp_val,
        }
    }

    /// Pushes one 64-bit value: decrements `sp` by 8 and stores the value
    /// big-endian at the new `sp`.
    ///
    /// Fails with `Overflow`, leaving everything unchanged, exactly when the
    /// decremented `sp` would drop below the dynamic-data section start (or
    /// below zero).  If the slot lies outside the address space the write
    /// fails instead with `MemoryAccess`; `sp` is then left decremented, as
    /// the memory image is untouched.
    pub fn push_value(&mut self, value: u64, memory: &mut Memory) -> (r: Result<(), StackError>)
        ensures
            final(self).pc == old(self).pc,
            final(self).fp == old(self).fp,
            final(self).initial_sp == old(self).initial_sp,
            final(memory).header == old(memory).header,
            match r {
                Ok(()) => {
                    &&& old(self).sp >= 8
                    &&& old(self).sp - 8 >= old(memory).header.dynamic_data_section_start
                    &&& old(self).sp <= old(memory).data@.len()
                    &&& final(self).sp == old(self).sp - 8
                    &&& final(memory).data@ == store_be64(
                        old(memory).data@,
                        old(self).sp - 8,
                        value,
                    )
                },
                Err(StackError::Overflow) => {
                    &&& (old(self).sp < 8 || old(self).sp - 8
                        < old(memory).header.dynamic_data_section_start)
                    &&& final(self).sp == old(self).sp
                    &&& *final(memory) == *old(memory)
                },
                Err(StackError::MemoryAccess(MemoryError::OutOfBounds)) => {
                    &&& old(self).sp >= 8
                    &&& old(self).sp - 8 >= old(memory).header.dynamic_data_section_start
                    &&& old(self).sp > old(memory).data@.len()
                    &&& final(self).sp == old(self).sp - 8
                    &&& *final(memory) == *old(memory)
                },
                Err(StackError::Underflow) => false,
            },
    {
        if self.sp < 8 {
            return Err(StackError::Overflow);
        }
        self.sp = self.sp - 8;

        let header = memory.header();
        if self.sp < header.dynamic_data_section_start {
            self.sp = self.sp + 8;
            return Err(StackError::Overflow);
        }
        match memory.write_word(self.sp, value) {
            Ok(()) => Ok(()),
            Err(e) => Err(StackError::MemoryAccess(e)),
        }
    }

    /// Pops one 64-bit value: reads the word at `sp`, then increments `sp`
    /// by 8.
    ///
    /// Fails with `Underflow`, leaving everything unchanged, exactly when
    /// `sp` has climbed back to `initial_sp`; fails with `MemoryAccess`,
    /// also changing nothing, when the word at `sp` runs past the address
    /// space.
    pub fn pop_value(&mut self, memory: &Memory) -> (r: Result<u64, StackError>)
        ensures
            final(self).pc == old(self).pc,
            final(self).fp == old(self).fp,
            final(self).initial_sp == old(self).initial_sp,
            match r {
                Ok(v) => {
                    &&& old(self).sp < old(self).initial_sp
                    &&& old(self).sp + 8 <= memory.data@.len()
                    &&& v == be64(memory.data@, old(self).sp as int)
                    &&& final(self).sp == old(self).sp + 8
                },
                Err(StackError::Underflow) => {
                    &&& old(self).sp >= old(self).initial_sp
                    &&& final(self).sp == old(self).sp
                },
                Err(StackError::MemoryAccess(MemoryError::OutOfBounds)) => {
                    &&& old(self).sp < old(self).initial_sp
                    &&& old(self).sp + 8 > memory.data@.len()
                    &&& final(self).sp == old(self).sp
                },
                Err(StackError::Overflow) => false,
            },
    {
        if self.sp >= self.initial_sp {
            return Err(StackError::Underflow);
        }
        let _bound: usize = memory.len();
        let value = match memory.read_word(self.sp) {
            Ok(v) => v,
            Err(e) => {
                return Err(StackError::MemoryAccess(e));
            },
        };
        self.sp = self.sp + 8;
        Ok(value)
    }
}

} // verus!
