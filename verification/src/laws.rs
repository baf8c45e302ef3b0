use crate::cpu::StackError;
use crate::endian::{be64, lemma_be64_congruence, lemma_store_be64, store_be64};
use crate::model::{
    spec_call_frame, spec_exec_op, spec_fetch_byte, spec_fetch_opcode, spec_op_call, spec_pop,
    spec_push, spec_push_zeros, spec_read_byte, spec_read_operand, spec_return, spec_set_variable,
    spec_step, MachineState,
};
use crate::{ExecutionError, MemoryError};
use crate::opcodes::{OP_CALL, OP_RET, OP_RFALSE, OP_RTRUE};
use vstd::prelude::*;

verus! {

// ---------------------------------------------------------------------------
// The stack discipline: pushing a sequence and popping it back.

/// The values of `vs` pushed in order, stopping at the first failure.
pub open spec fn spec_push_seq(s: MachineState, vs: Seq<u64>) -> (MachineState, Option<StackError>)
    decreases vs.len(),
{
    if vs.len() == 0 {
        (s, None)
    } else {
        let (s1, e) = spec_push(s, vs[0]);
        if e is Some {
            (s1, e)
        } else {
            spec_push_seq(s1, vs.subrange(1, vs.len() as int))
        }
    }
}

/// `n` pops, collecting the values in the order they come off, stopping at
/// the first failure.
pub open spec fn spec_pop_seq(s: MachineState, n: nat) -> (MachineState, Seq<u64>, Option<
    StackError,
>)
    decreases n,
{
    if n == 0 {
        (s, Seq::<u64>::empty(), None)
    } else {
        let (s1, r) = spec_pop(s);
        match r {
            Err(e) => (s1, Seq::<u64>::empty(), Some(e)),
            Ok(v) => {
                let (s2, rest, e2) = spec_pop_seq(s1, (n - 1) as nat);
                (s2, seq![v] + rest, e2)
            },
        }
    }
}

/// Pushing `vs` and then one more value first pushes `vs`, then the value.
proof fn lemma_push_seq_snoc(s: MachineState, vs: Seq<u64>, v: u64)
    ensures
        spec_push_seq(s, vs.push(v)) == ({
            let (t, e) = spec_push_seq(s, vs);
            if e is Some {
                (t, e)
            } else {
                spec_push(t, v)
            }
        }),
    decreases vs.len(),
{
    reveal_with_fuel(spec_push_seq, 2);
    if vs.len() == 0 {
        assert(vs.push(v)[0] == v);
        assert(vs.push(v).subrange(1, 1) =~= Seq::<u64>::empty());
    } else {
        assert(vs.push(v)[0] == vs[0]);
        let (s1, e) = spec_push(s, vs[0]);
        if e is Some {
        } else {
            assert(vs.push(v).subrange(1, vs.len() as int + 1) =~= vs.subrange(1, vs.len() as int).push(
                v,
            ));
            lemma_push_seq_snoc(s1, vs.subrange(1, vs.len() as int), v);
        }
    }
}

/// A successful sequence of pushes lowers `sp` by 8 per value, writes only
/// the slots between the new and the old `sp`, and touches no register but
/// `sp`.
proof fn lemma_push_seq_ok(s: MachineState, vs: Seq<u64>)
    requires
        spec_push_seq(s, vs).1 is None,
    ensures
        ({
            let t = spec_push_seq(s, vs).0;
            &&& t.pc == s.pc
            &&& t.fp == s.fp
            &&& t.initial_sp == s.initial_sp
            &&& t.running == s.running
            &&& t.code_start == s.code_start
            &&& t.globals_start == s.globals_start
            &&& t.dynamic_start == s.dynamic_start
            &&& t.mem.len() == s.mem.len()
            &&& t.sp == s.sp - 8 * vs.len()
            &&& (vs.len() > 0 ==> s.sp <= s.mem.len() && s.sp - 8 * vs.len() >= s.dynamic_start)
            &&& forall|j: int|
                0 <= j < s.mem.len() && !(s.sp - 8 * vs.len() <= j < s.sp) ==> t.mem[j] == s.mem[j]
        }),
    decreases vs.len(),
{
    if vs.len() == 0 {
    } else {
        let (s1, e) = spec_push(s, vs[0]);
        lemma_store_be64(s.mem, s.sp - 8, vs[0]);
        lemma_push_seq_ok(s1, vs.subrange(1, vs.len() as int));
    }
}

/// States that agree on `sp`, on `initial_sp`, on the memory size and on
/// every byte at or above `sp` pop the same values with the same outcome,
/// and end with the same `sp`.
proof fn lemma_pop_seq_agree(a: MachineState, b: MachineState, n: nat)
    requires
        a.sp == b.sp,
        a.initial_sp == b.initial_sp,
        a.mem.len() == b.mem.len(),
        a.mem.len() <= u64::MAX,
        forall|j: int| a.sp <= j < a.mem.len() ==> a.mem[j] == b.mem[j],
    ensures
        ({
            let (a2, va, ea) = spec_pop_seq(a, n);
            let (b2, vb, eb) = spec_pop_seq(b, n);
            va == vb && ea == eb && a2.sp == b2.sp
        }),
    decreases n,
{
    if n == 0 {
    } else {
        let (a1, ra) = spec_pop(a);
        let (b1, rb) = spec_pop(b);
        if a.sp < a.initial_sp && a.sp + 8 <= a.mem.len() {
            lemma_be64_congruence(a.mem, b.mem, a.sp as int);
            assert forall|j: int| a1.sp <= j < a1.mem.len() implies a1.mem[j] == b1.mem[j] by {
                assert(a.mem[j] == b.mem[j]);
            }
            lemma_pop_seq_agree(a1, b1, (n - 1) as nat);
        }
    }
}

/// Push/pop round trip: after a sequence of values is pushed, popping as
/// many values succeeds, returns them in last-in-first-out order, and
/// restores the stack pointer exactly.
pub proof fn lemma_push_pop_lifo(s: MachineState, vs: Seq<u64>)
    requires
        spec_push_seq(s, vs).1 is None,
        s.sp <= s.initial_sp,
        s.mem.len() <= u64::MAX,
    ensures
        ({
            let t = spec_push_seq(s, vs).0;
            let (u, popped, e) = spec_pop_seq(t, vs.len());
            &&& e is None
            &&& popped == vs.reverse()
            &&& u.sp == s.sp
        }),
    decreases vs.len(),
{
    if vs.len() == 0 {
        assert(vs.reverse() =~= Seq::<u64>::empty());
    } else {
        let vs0 = vs.drop_last();
        let v = vs.last();
        assert(vs =~= vs0.push(v));
        lemma_push_seq_snoc(s, vs0, v);
        let (t0, e0) = spec_push_seq(s, vs0);
        lemma_push_seq_ok(s, vs0);
        let (t1, e1) = spec_push(t0, v);
        lemma_store_be64(t0.mem, t0.sp - 8, v);
        lemma_push_pop_lifo(s, vs0);
        // the first pop returns the value just pushed
        let (p1, r1) = spec_pop(t1);
        assert(r1 == Ok::<u64, StackError>(v));
        // popping on from there reads only at or above `t0.sp`, where the
        // last push changed nothing
        lemma_pop_seq_agree(p1, t0, vs0.len());
        let (u0, popped0, e0p) = spec_pop_seq(t0, vs0.len());
        let (u1, popped1, e1p) = spec_pop_seq(p1, vs0.len());
        assert(spec_pop_seq(t1, vs.len()).1 =~= seq![v] + popped1);
        assert(seq![v] + popped1 =~= vs.reverse());
    }
}

// ---------------------------------------------------------------------------
// Return opcodes.

/// RTRUE and RFALSE perform exactly the frame teardown of RET, with the
/// implicit return values 1 and 0.
pub proof fn lemma_rtrue_rfalse_teardown(s: MachineState)
    ensures
        spec_exec_op(s, OP_RTRUE) == spec_return(s, 1),
        spec_exec_op(s, OP_RFALSE) == spec_return(s, 0),
{
}

// ---------------------------------------------------------------------------
// The CALL/RET round trip.

/// With enough stack room, zero-initializing `n` locals succeeds, lowers
/// `sp` by `8 * n`, and writes nothing outside those slots.
proof fn lemma_push_zeros_ok(s: MachineState, n: nat)
    requires
        s.sp - 8 * n >= s.dynamic_start,
        s.sp <= s.mem.len(),
    ensures
        ({
            let (t, e) = spec_push_zeros(s, n);
            &&& e is None
            &&& t.sp == s.sp - 8 * n
            &&& t.pc == s.pc
            &&& t.fp == s.fp
            &&& t.initial_sp == s.initial_sp
            &&& t.running == s.running
            &&& t.code_start == s.code_start
            &&& t.globals_start == s.globals_start
            &&& t.dynamic_start == s.dynamic_start
            &&& t.mem.len() == s.mem.len()
            &&& forall|j: int|
                0 <= j < s.mem.len() && !(s.sp - 8 * n <= j < s.sp) ==> t.mem[j] == s.mem[j]
        }),
    decreases n,
{
    if n == 0 {
    } else {
        let (s1, e) = spec_push(s, 0);
        lemma_store_be64(s.mem, s.sp - 8, 0);
        lemma_push_zeros_ok(s1, (n - 1) as nat);
    }
}

/// The effect of a successful CALL: the machine enters the routine at
/// `target = code_start + packed` with a fresh frame of five slots above
/// `nloc` zeroed locals, and nothing below the dynamic-data region moves.
#[verifier::spinoff_prover]
#[verifier::rlimit(100)]
proof fn lemma_call_builds_frame(s: MachineState, packed: u32, nloc: u8, store_var: u8)
    requires
        s.mem.len() <= u64::MAX,
        s.pc + 13 <= u64::MAX,
        s.pc + 6 <= s.mem.len(),
        s.mem[s.pc as int] == 0x03u8,
        crate::endian::be32(s.mem, s.pc as int + 1) == packed,
        s.mem[s.pc as int + 5] == store_var,
        s.code_start + packed <= u64::MAX,
        (s.code_start + packed) as int + 1 <= s.dynamic_start,
        s.mem[(s.code_start + packed) as int] == nloc,
        s.sp - 8 * (5 + nloc as int) >= s.dynamic_start,
        s.sp <= s.initial_sp,
        s.initial_sp <= s.mem.len(),
    ensures
        ({
            let target = (s.code_start + packed) as u64;
            let aligned = ((s.pc + 13) as u64) & !7u64;
            let (s1, e1) = spec_exec_op(s, OP_CALL);
            &&& e1 is None
            &&& s1.pc == target + 1
            &&& s1.fp == s.sp - 40
            &&& s1.sp == s.sp - 40 - 8 * (nloc as int)
            &&& s1.initial_sp == s.initial_sp
            &&& s1.running == s.running
            &&& s1.code_start == s.code_start
            &&& s1.globals_start == s.globals_start
            &&& s1.dynamic_start == s.dynamic_start
            &&& s1.mem.len() == s.mem.len()
            &&& (forall|j: int| 0 <= j < s.dynamic_start ==> s1.mem[j] == s.mem[j])
            &&& (forall|j: int| s.sp <= j < s.mem.len() ==> s1.mem[j] == s.mem[j])
            &&& be64(s1.mem, s.sp - 40) == nloc as u64
            &&& be64(s1.mem, s.sp - 32) == 0
            &&& be64(s1.mem, s.sp - 24) == store_var as u64
            &&& be64(s1.mem, s.sp - 16) == s.fp
            &&& be64(s1.mem, s.sp - 8) == aligned
        }),
{
    let target = (s.code_start + packed) as u64;
    let sp0 = s.sp as int;

    // decoding the CALL operands
    let sa = MachineState { pc: (s.pc + 1) as u64, ..s };
    assert(spec_fetch_byte(s) == (sa, Ok::<u8, MemoryError>(0x03u8)));
    let sb = MachineState { pc: (s.pc + 5) as u64, ..sa };
    assert(spec_read_operand(sa, 0x03u8) == (sb, Ok::<u64, ExecutionError>(packed as u64)));
    let sc = MachineState { pc: (s.pc + 6) as u64, ..sb };
    assert(spec_fetch_byte(sb) == (sc, Ok::<u8, MemoryError>(store_var)));

    // the five frame pushes
    let aligned = ((s.pc + 13) as u64) & !7u64;
    let m0 = s.mem;
    let m1 = store_be64(m0, sp0 - 8, aligned);
    let d1 = MachineState { sp: (sp0 - 8) as u64, mem: m1, ..sc };
    lemma_store_be64(m0, sp0 - 8, aligned);
    assert(spec_push(sc, aligned) == (d1, None::<StackError>));
    let m2 = store_be64(m1, sp0 - 16, s.fp);
    let d2 = MachineState { sp: (sp0 - 16) as u64, mem: m2, ..d1 };
    lemma_store_be64(m1, sp0 - 16, s.fp);
    assert(spec_push(d1, d1.fp) == (d2, None::<StackError>));
    let m3 = store_be64(m2, sp0 - 24, store_var as u64);
    let d3 = MachineState { sp: (sp0 - 24) as u64, mem: m3, ..d2 };
    lemma_store_be64(m2, sp0 - 24, store_var as u64);
    assert(spec_push(d2, store_var as u64) == (d3, None::<StackError>));
    let m4 = store_be64(m3, sp0 - 32, 0);
    let d4 = MachineState { sp: (sp0 - 32) as u64, mem: m4, ..d3 };
    lemma_store_be64(m3, sp0 - 32, 0);
    assert(spec_push(d3, 0) == (d4, None::<StackError>));

    // the routine's locals count, read from code that no push touched
    assert(m4[target as int] == nloc) by {
        assert(m1[target as int] == m0[target as int]);
        assert(m2[target as int] == m1[target as int]);
        assert(m3[target as int] == m2[target as int]);
        assert(m4[target as int] == m3[target as int]);
    }
    assert(spec_read_byte(d4, target) == Ok::<u8, MemoryError>(nloc));
    let m5 = store_be64(m4, sp0 - 40, nloc as u64);
    let d5 = MachineState { sp: (sp0 - 40) as u64, mem: m5, ..d4 };
    lemma_store_be64(m4, sp0 - 40, nloc as u64);
    assert(spec_push(d4, nloc as u64) == (d5, None::<StackError>));

    // entering the routine
    let d6 = MachineState { fp: d5.sp, pc: (target + 1) as u64, ..d5 };
    lemma_push_zeros_ok(d6, nloc as nat);
    let d7 = spec_push_zeros(d6, nloc as nat).0;
    assert(spec_call_frame(sc, target, store_var) == (d7, None::<ExecutionError>));
    assert(spec_op_call(s) == (d7, None::<ExecutionError>));
    assert(spec_exec_op(s, OP_CALL) == (d7, None::<ExecutionError>));

    // nothing below the dynamic-data region changed
    assert forall|j: int| 0 <= j < s.dynamic_start implies d7.mem[j] == s.mem[j] by {
        assert(m1[j] == m0[j]);
        assert(m2[j] == m1[j]);
        assert(m3[j] == m2[j]);
        assert(m4[j] == m3[j]);
        assert(m5[j] == m4[j]);
        assert(d7.mem[j] == m5[j]);
    }

    // nothing at or above the caller's stack pointer changed either
    assert forall|j: int| sp0 <= j < s.mem.len() implies d7.mem[j] == s.mem[j] by {
        assert(m1[j] == m0[j]);
        assert(m2[j] == m1[j]);
        assert(m3[j] == m2[j]);
        assert(m4[j] == m3[j]);
        assert(m5[j] == m4[j]);
        assert(d7.mem[j] == m5[j]);
    }

    // the frame slots survive the locals pushes
    assert forall|j: int| sp0 - 40 <= j < sp0 implies d7.mem[j] == m5[j] by {}
    lemma_be64_congruence(d7.mem, m5, sp0 - 40);
    lemma_be64_congruence(d7.mem, m5, sp0 - 32);
    lemma_be64_congruence(m5, m4, sp0 - 32);
    lemma_be64_congruence(d7.mem, m5, sp0 - 24);
    lemma_be64_congruence(m5, m4, sp0 - 24);
    lemma_be64_congruence(m4, m3, sp0 - 24);
    lemma_be64_congruence(d7.mem, m5, sp0 - 16);
    lemma_be64_congruence(m5, m4, sp0 - 16);
    lemma_be64_congruence(m4, m3, sp0 - 16);
    lemma_be64_congruence(m3, m2, sp0 - 16);
    lemma_be64_congruence(d7.mem, m5, sp0 - 8);
    lemma_be64_congruence(m5, m4, sp0 - 8);
    lemma_be64_congruence(m4, m3, sp0 - 8);
    lemma_be64_congruence(m3, m2, sp0 - 8);
    lemma_be64_congruence(m2, m1, sp0 - 8);
}

/// The effect of one step that fetches and executes a RET of a
/// small-constant literal, in a state whose frame names the evaluation
/// stack as its destination: the frame is torn down, the caller's `fp` and
/// `pc` come back from the frame, and the literal lands on the caller's
/// stack.
#[verifier::spinoff_prover]
#[verifier::rlimit(100)]
proof fn lemma_ret_executes(t: MachineState, lit: u8, oldfp: u64, retpc: u64)
    requires
        t.mem.len() <= u64::MAX,
        t.pc + 10 < t.mem.len(),
        be64(t.mem, t.pc as int) == OP_RET,
        t.mem[t.pc as int + 8] == 0x01u8,
        t.mem[t.pc as int + 9] == lit,
        t.fp + 40 <= t.initial_sp,
        t.initial_sp <= t.mem.len(),
        t.fp + 32 >= t.dynamic_start + 8,
        be64(t.mem, t.fp as int + 16) == 0,
        be64(t.mem, t.fp as int + 24) == oldfp,
        be64(t.mem, t.fp as int + 32) == retpc,
    ensures
        ({
            let (s2, e2) = spec_step(t);
            &&& e2 is None
            &&& s2.fp == oldfp
            &&& s2.pc == retpc
            &&& s2.sp == t.fp + 32
            &&& s2.initial_sp == t.initial_sp
            &&& s2.running == t.running
            &&& s2.mem == store_be64(t.mem, t.fp as int + 32, lit as u64)
            &&& be64(s2.mem, s2.sp as int) == lit as u64
        }),
{
    let fp0 = t.fp as int;
    // fetching the RET and its operand
    let se = MachineState { pc: (t.pc + 8) as u64, ..t };
    assert(spec_fetch_opcode(t) == (se, Ok::<u64, MemoryError>(OP_RET)));
    let sf = MachineState { pc: (t.pc + 9) as u64, ..se };
    assert(spec_fetch_byte(se) == (sf, Ok::<u8, MemoryError>(0x01u8)));
    let sg = MachineState { pc: (t.pc + 10) as u64, ..sf };
    assert(spec_read_operand(sf, 0x01u8) == (sg, Ok::<u64, ExecutionError>(lit as u64)));

    // the five pops of the teardown
    let t0 = MachineState { sp: sg.fp, ..sg };
    let u1 = MachineState { sp: (fp0 + 8) as u64, ..t0 };
    assert(spec_pop(t0) == (u1, Ok::<u64, StackError>(be64(t.mem, fp0))));
    let u2 = MachineState { sp: (fp0 + 16) as u64, ..u1 };
    assert(spec_pop(u1) == (u2, Ok::<u64, StackError>(be64(t.mem, fp0 + 8))));
    let u3 = MachineState { sp: (fp0 + 24) as u64, ..u2 };
    assert(spec_pop(u2) == (u3, Ok::<u64, StackError>(0u64)));
    let u4 = MachineState { sp: (fp0 + 32) as u64, ..u3 };
    assert(spec_pop(u3) == (u4, Ok::<u64, StackError>(oldfp)));
    let u4b = MachineState { fp: oldfp, ..u4 };
    let u5 = MachineState { sp: (fp0 + 40) as u64, ..u4b };
    assert(spec_pop(u4b) == (u5, Ok::<u64, StackError>(retpc)));
    let u5b = MachineState { pc: retpc, ..u5 };

    // storing the literal on the caller's stack
    let m6 = store_be64(t.mem, fp0 + 32, lit as u64);
    lemma_store_be64(t.mem, fp0 + 32, lit as u64);
    let s2 = MachineState { sp: (fp0 + 32) as u64, mem: m6, ..u5b };
    assert((0u64 as u8) == 0u8);
    assert(spec_set_variable(u5b, 0u8, lit as u64) == (s2, None::<ExecutionError>));
    assert(spec_return(sg, lit as u64) == (s2, None::<ExecutionError>));
    assert(spec_exec_op(se, OP_RET) == (s2, None::<ExecutionError>));
    assert(spec_step(t) == (s2, None::<ExecutionError>));
}

/// The effect of one step that fetches and executes a RET of a
/// small-constant literal, in a state whose frame names a global as its
/// destination: the frame is torn down, the caller's `fp` and `pc` come
/// back from the frame, the stack pointer climbs past the whole frame, and
/// the literal lands in the global's slot.
#[verifier::spinoff_prover]
#[verifier::rlimit(100)]
proof fn lemma_ret_executes_global(t: MachineState, lit: u8, oldfp: u64, retpc: u64, gvar: u8)
    requires
        t.mem.len() <= u64::MAX,
        t.pc + 10 < t.mem.len(),
        be64(t.mem, t.pc as int) == OP_RET,
        t.mem[t.pc as int + 8] == 0x01u8,
        t.mem[t.pc as int + 9] == lit,
        t.fp + 40 <= t.initial_sp,
        t.initial_sp <= t.mem.len(),
        be64(t.mem, t.fp as int + 16) == gvar as u64,
        be64(t.mem, t.fp as int + 24) == oldfp,
        be64(t.mem, t.fp as int + 32) == retpc,
        gvar >= 0x10,
        t.globals_start + 8 * (gvar - 0x10) + 8 <= t.mem.len(),
    ensures
        ({
            let gaddr = t.globals_start + 8 * (gvar - 0x10);
            let (s2, e2) = spec_step(t);
            &&& e2 is None
            &&& s2.fp == oldfp
            &&& s2.pc == retpc
            &&& s2.sp == t.fp + 40
            &&& s2.initial_sp == t.initial_sp
            &&& s2.running == t.running
            &&& s2.mem == store_be64(t.mem, gaddr, lit as u64)
            &&& be64(s2.mem, gaddr) == lit as u64
        }),
{
    let fp0 = t.fp as int;
    let gaddr = t.globals_start + 8 * (gvar - 0x10);
    // fetching the RET and its operand
    let se = MachineState { pc: (t.pc + 8) as u64, ..t };
    assert(spec_fetch_opcode(t) == (se, Ok::<u64, MemoryError>(OP_RET)));
    let sf = MachineState { pc: (t.pc + 9) as u64, ..se };
    assert(spec_fetch_byte(se) == (sf, Ok::<u8, MemoryError>(0x01u8)));
    let sg = MachineState { pc: (t.pc + 10) as u64, ..sf };
    assert(spec_read_operand(sf, 0x01u8) == (sg, Ok::<u64, ExecutionError>(lit as u64)));

    // the five pops of the teardown
    let t0 = MachineState { sp: sg.fp, ..sg };
    let u1 = MachineState { sp: (fp0 + 8) as u64, ..t0 };
    assert(spec_pop(t0) == (u1, Ok::<u64, StackError>(be64(t.mem, fp0))));
    let u2 = MachineState { sp: (fp0 + 16) as u64, ..u1 };
    assert(spec_pop(u1) == (u2, Ok::<u64, StackError>(be64(t.mem, fp0 + 8))));
    let u3 = MachineState { sp: (fp0 + 24) as u64, ..u2 };
    assert(spec_pop(u2) == (u3, Ok::<u64, StackError>(gvar as u64)));
    let u4 = MachineState { sp: (fp0 + 32) as u64, ..u3 };
    assert(spec_pop(u3) == (u4, Ok::<u64, StackError>(oldfp)));
    let u4b = MachineState { fp: oldfp, ..u4 };
    let u5 = MachineState { sp: (fp0 + 40) as u64, ..u4b };
    assert(spec_pop(u4b) == (u5, Ok::<u64, StackError>(retpc)));
    let u5b = MachineState { pc: retpc, ..u5 };

    // storing the literal in the global's slot
    assert(((gvar as u64) as u8) == gvar);
    let m6 = store_be64(t.mem, gaddr as int, lit as u64);
    lemma_store_be64(t.mem, gaddr as int, lit as u64);
    let s2 = MachineState { mem: m6, ..u5b };
    assert(spec_set_variable(u5b, gvar, lit as u64) == (s2, None::<ExecutionError>));
    assert(spec_return(sg, lit as u64) == (s2, None::<ExecutionError>));
    assert(spec_exec_op(se, OP_RET) == (s2, None::<ExecutionError>));
    assert(spec_step(t) == (s2, None::<ExecutionError>));
}

/// The effect of one step that fetches and executes a RET of a
/// small-constant literal, in a state whose frame names one of the
/// caller's own locals as its destination: the frame is torn down, the
/// caller's `fp` and `pc` come back, the stack pointer climbs past the
/// whole frame, and the literal lands in the caller's local slot at
/// `oldfp + 8 * lvar` — provided the caller's frame really declares that
/// many locals.
#[verifier::spinoff_prover]
#[verifier::rlimit(100)]
proof fn lemma_ret_executes_local(t: MachineState, lit: u8, oldfp: u64, retpc: u64, lvar: u8)
    requires
        t.mem.len() <= u64::MAX,
        t.pc + 10 < t.mem.len(),
        be64(t.mem, t.pc as int) == OP_RET,
        t.mem[t.pc as int + 8] == 0x01u8,
        t.mem[t.pc as int + 9] == lit,
        t.fp + 40 <= t.initial_sp,
        t.initial_sp <= t.mem.len(),
        be64(t.mem, t.fp as int + 16) == lvar as u64,
        be64(t.mem, t.fp as int + 24) == oldfp,
        be64(t.mem, t.fp as int + 32) == retpc,
        0x01 <= lvar <= 0x0F,
        oldfp + 8 <= t.mem.len(),
        lvar - 1 < be64(t.mem, oldfp as int) as u8,
        oldfp + 8 * (lvar as int) + 8 <= t.mem.len(),
    ensures
        ({
            let slot = oldfp + 8 * (lvar as int);
            let (s2, e2) = spec_step(t);
            &&& e2 is None
            &&& s2.fp == oldfp
            &&& s2.pc == retpc
            &&& s2.sp == t.fp + 40
            &&& s2.initial_sp == t.initial_sp
            &&& s2.running == t.running
            &&& s2.mem == store_be64(t.mem, slot, lit as u64)
            &&& be64(s2.mem, slot) == lit as u64
        }),
{
    let fp0 = t.fp as int;
    let slot = oldfp + 8 * (lvar as int);
    // fetching the RET and its operand
    let se = MachineState { pc: (t.pc + 8) as u64, ..t };
    assert(spec_fetch_opcode(t) == (se, Ok::<u64, MemoryError>(OP_RET)));
    let sf = MachineState { pc: (t.pc + 9) as u64, ..se };
    assert(spec_fetch_byte(se) == (sf, Ok::<u8, MemoryError>(0x01u8)));
    let sg = MachineState { pc: (t.pc + 10) as u64, ..sf };
    assert(spec_read_operand(sf, 0x01u8) == (sg, Ok::<u64, ExecutionError>(lit as u64)));

    // the five pops of the teardown
    let t0 = MachineState { sp: sg.fp, ..sg };
    let u1 = MachineState { sp: (fp0 + 8) as u64, ..t0 };
    assert(spec_pop(t0) == (u1, Ok::<u64, StackError>(be64(t.mem, fp0))));
    let u2 = MachineState { sp: (fp0 + 16) as u64, ..u1 };
    assert(spec_pop(u1) == (u2, Ok::<u64, StackError>(be64(t.mem, fp0 + 8))));
    let u3 = MachineState { sp: (fp0 + 24) as u64, ..u2 };
    assert(spec_pop(u2) == (u3, Ok::<u64, StackError>(lvar as u64)));
    let u4 = MachineState { sp: (fp0 + 32) as u64, ..u3 };
    assert(spec_pop(u3) == (u4, Ok::<u64, StackError>(oldfp)));
    let u4b = MachineState { fp: oldfp, ..u4 };
    let u5 = MachineState { sp: (fp0 + 40) as u64, ..u4b };
    assert(spec_pop(u4b) == (u5, Ok::<u64, StackError>(retpc)));
    let u5b = MachineState { pc: retpc, ..u5 };

    // storing the literal in the caller's local slot
    assert(((lvar as u64) as u8) == lvar);
    let m6 = store_be64(t.mem, slot, lit as u64);
    lemma_store_be64(t.mem, slot, lit as u64);
    let s2 = MachineState { mem: m6, ..u5b };
    assert(spec_set_variable(u5b, lvar, lit as u64) == (s2, None::<ExecutionError>));
    assert(spec_return(sg, lit as u64) == (s2, None::<ExecutionError>));
    assert(spec_exec_op(se, OP_RET) == (s2, None::<ExecutionError>));
    assert(spec_step(t) == (s2, None::<ExecutionError>));
}

/// CALL/RET round trip, for a call that stores its result on the stack.
///
/// From a state about to execute a CALL whose operands name a routine
/// beginning at `target = code_start + packed` with `nloc` locals, whose
/// body is a RET of the small-constant literal `lit`, and whose
/// destination specifier is the evaluation stack: the CALL succeeds and
/// enters the routine, the RET succeeds, the caller's frame pointer is
/// restored, the program counter lands on the opcode boundary after the
/// CALL's operands, and the literal sits on the caller's stack as the
/// single new value.
///
/// The preconditions are the instruction encoding, room on the stack for
/// the five-slot frame and the locals, and a code section that lies below
/// the dynamic-data region, so that building the frame cannot overwrite
/// the routine itself.
#[verifier::spinoff_prover]
#[verifier::rlimit(100)]
pub proof fn lemma_call_ret_roundtrip(s: MachineState, packed: u32, nloc: u8, lit: u8)
    requires
        s.mem.len() <= u64::MAX,
        s.pc + 13 <= u64::MAX,
        s.pc + 6 <= s.mem.len(),
        s.mem[s.pc as int] == 0x03u8,
        crate::endian::be32(s.mem, s.pc as int + 1) == packed,
        s.mem[s.pc as int + 5] == 0x00u8,
        s.code_start + packed <= u64::MAX,
        ({
            let target = (s.code_start + packed) as int;
            &&& s.mem[target] == nloc
            &&& be64(s.mem, target + 1) == OP_RET
            &&& s.mem[target + 9] == 0x01u8
            &&& s.mem[target + 10] == lit
            &&& target + 11 <= s.dynamic_start
        }),
        s.sp - 8 * (5 + nloc as int) >= s.dynamic_start,
        s.sp <= s.initial_sp,
        s.initial_sp <= s.mem.len(),
    ensures
        ({
            let target = (s.code_start + packed) as u64;
            let (s1, e1) = spec_exec_op(s, OP_CALL);
            let (s2, e2) = spec_step(s1);
            &&& e1 is None
            &&& s1.pc == target + 1
            &&& s1.fp == s.sp - 40
            &&& s1.sp == s.sp - 40 - 8 * (nloc as int)
            &&& e2 is None
            &&& s2.fp == s.fp
            &&& s2.pc == (((s.pc + 13) as u64) & !7u64)
            &&& s2.sp == s.sp - 8
            &&& be64(s2.mem, s2.sp as int) == lit as u64
            &&& s2.running == s.running
        }),
{
    let target = (s.code_start + packed) as u64;
    lemma_call_builds_frame(s, packed, nloc, 0x00u8);
    let (s1, e1) = spec_exec_op(s, OP_CALL);
    // the routine's own bytes lie below the dynamic-data region, so the
    // frame did not touch them
    assert(s1.mem[target as int + 9] == s.mem[target as int + 9]);
    assert(s1.mem[target as int + 10] == s.mem[target as int + 10]);
    lemma_be64_congruence(s1.mem, s.mem, target as int + 1);
    lemma_ret_executes(s1, lit, s.fp, ((s.pc + 13) as u64) & !7u64);
}

/// CALL/RET round trip, for a call that stores its result in a global.
///
/// As [`lemma_call_ret_roundtrip`], but the CALL's destination specifier
/// names global `store_var - 0x10`: the stack pointer then comes all the
/// way back to its pre-CALL position, and the literal lands in the
/// global's slot instead.
#[verifier::spinoff_prover]
#[verifier::rlimit(100)]
pub proof fn lemma_call_ret_roundtrip_global(
    s: MachineState,
    packed: u32,
    nloc: u8,
    lit: u8,
    store_var: u8,
)
    requires
        s.mem.len() <= u64::MAX,
        s.pc + 13 <= u64::MAX,
        s.pc + 6 <= s.mem.len(),
        s.mem[s.pc as int] == 0x03u8,
        crate::endian::be32(s.mem, s.pc as int + 1) == packed,
        s.mem[s.pc as int + 5] == store_var,
        store_var >= 0x10,
        s.globals_start + 8 * (store_var - 0x10) + 8 <= s.mem.len(),
        s.code_start + packed <= u64::MAX,
        ({
            let target = (s.code_start + packed) as int;
            &&& s.mem[target] == nloc
            &&& be64(s.mem, target + 1) == OP_RET
            &&& s.mem[target + 9] == 0x01u8
            &&& s.mem[target + 10] == lit
            &&& target + 11 <= s.dynamic_start
        }),
        s.sp - 8 * (5 + nloc as int) >= s.dynamic_start,
        s.sp <= s.initial_sp,
        s.initial_sp <= s.mem.len(),
    ensures
        ({
            let target = (s.code_start + packed) as u64;
            let gaddr = s.globals_start + 8 * (store_var - 0x10);
            let (s1, e1) = spec_exec_op(s, OP_CALL);
            let (s2, e2) = spec_step(s1);
            &&& e1 is None
            &&& s1.pc == target + 1
            &&& s1.fp == s.sp - 40
            &&& s1.sp == s.sp - 40 - 8 * (nloc as int)
            &&& e2 is None
            &&& s2.fp == s.fp
            &&& s2.pc == (((s.pc + 13) as u64) & !7u64)
            &&& s2.sp == s.sp
            &&& be64(s2.mem, gaddr) == lit as u64
            &&& s2.running == s.running
        }),
{
    let target = (s.code_start + packed) as u64;
    lemma_call_builds_frame(s, packed, nloc, store_var);
    let (s1, e1) = spec_exec_op(s, OP_CALL);
    // the routine's own bytes lie below the dynamic-data region, so the
    // frame did not touch them
    assert(s1.mem[target as int + 9] == s.mem[target as int + 9]);
    assert(s1.mem[target as int + 10] == s.mem[target as int + 10]);
    lemma_be64_congruence(s1.mem, s.mem, target as int + 1);
    lemma_ret_executes_global(s1, lit, s.fp, ((s.pc + 13) as u64) & !7u64, store_var);
}

/// CALL/RET round trip, for a call that stores its result in one of the
/// caller's locals.
///
/// As [`lemma_call_ret_roundtrip`], but the CALL's destination specifier
/// names local `store_var - 1` of the caller's own frame, which must
/// declare at least that many locals: the stack pointer comes all the way
/// back, and the literal lands in that local's slot at
/// `fp + 8 * store_var`.  A specifier at or beyond the caller's locals
/// count is excluded: on such an input the RET's store fails instead.
#[verifier::spinoff_prover]
#[verifier::rlimit(100)]
pub proof fn lemma_call_ret_roundtrip_local(
    s: MachineState,
    packed: u32,
    nloc: u8,
    lit: u8,
    store_var: u8,
)
    requires
        s.mem.len() <= u64::MAX,
        s.pc + 13 <= u64::MAX,
        s.pc + 6 <= s.mem.len(),
        s.mem[s.pc as int] == 0x03u8,
        crate::endian::be32(s.mem, s.pc as int + 1) == packed,
        s.mem[s.pc as int + 5] == store_var,
        0x01 <= store_var <= 0x0F,
        s.fp >= s.sp,
        s.fp + 8 <= s.mem.len(),
        store_var - 1 < be64(s.mem, s.fp as int) as u8,
        s.fp + 8 * (store_var as int) + 8 <= s.mem.len(),
        s.code_start + packed <= u64::MAX,
        ({
            let target = (s.code_start + packed) as int;
            &&& s.mem[target] == nloc
            &&& be64(s.mem, target + 1) == OP_RET
            &&& s.mem[target + 9] == 0x01u8
            &&& s.mem[target + 10] == lit
            &&& target + 11 <= s.dynamic_start
        }),
        s.sp - 8 * (5 + nloc as int) >= s.dynamic_start,
        s.sp <= s.initial_sp,
        s.initial_sp <= s.mem.len(),
    ensures
        ({
            let target = (s.code_start + packed) as u64;
            let slot = s.fp + 8 * (store_var as int);
            let (s1, e1) = spec_exec_op(s, OP_CALL);
            let (s2, e2) = spec_step(s1);
            &&& e1 is None
            &&& s1.pc == target + 1
            &&& s1.fp == s.sp - 40
            &&& s1.sp == s.sp - 40 - 8 * (nloc as int)
            &&& e2 is None
            &&& s2.fp == s.fp
            &&& s2.pc == (((s.pc + 13) as u64) & !7u64)
            &&& s2.sp == s.sp
            &&& be64(s2.mem, slot) == lit as u64
            &&& s2.running == s.running
        }),
{
    let target = (s.code_start + packed) as u64;
    lemma_call_builds_frame(s, packed, nloc, store_var);
    let (s1, e1) = spec_exec_op(s, OP_CALL);
    // the routine's own bytes lie below the dynamic-data region, so the
    // frame did not touch them
    assert(s1.mem[target as int + 9] == s.mem[target as int + 9]);
    assert(s1.mem[target as int + 10] == s.mem[target as int + 10]);
    lemma_be64_congruence(s1.mem, s.mem, target as int + 1);
    // the caller's frame lies at or above the caller's stack pointer, so
    // its locals count is also untouched
    lemma_be64_congruence(s1.mem, s.mem, s.fp as int);
    lemma_ret_executes_local(s1, lit, s.fp, ((s.pc + 13) as u64) & !7u64, store_var);
}

} // verus!
