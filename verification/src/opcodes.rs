use vstd::prelude::*;

verus! {

// Opcode values of the instruction set, as 8-byte big-endian words in the
// code section.  The set is sparse: any other value halts the machine with
// an unknown-opcode error.

pub const OP_RTRUE: u64 = 0x0000;

pub const OP_RFALSE: u64 = 0x0001;

pub const OP_QUIT: u64 = 0x0006;

pub const OP_NOP: u64 = 0x0007;

pub const OP_RET: u64 = 0x010A;

pub const OP_JUMP: u64 = 0x010B;

pub const OP_LOAD: u64 = 0x010D;

pub const OP_ADD: u64 = 0x0203;

pub const OP_SUB: u64 = 0x0204;

pub const OP_CALL: u64 = 0x0300;

pub const OP_STORE: u64 = 0x0301;

pub const OP_PUSH: u64 = 0x0308;

pub const OP_PULL: u64 = 0x0309;

/// Width in bytes of every opcode word.
pub const OPCODE_SIZE: u64 = 8;

} // verus!
