//! Laws of the instruction set, proved from the semantics.
//!
//! Each law speaks of a program in which certain instructions stand at the
//! instruction pointer: `decode` yields them there, as it does wherever the
//! encoder has put them (`lemma_decode_encoding`).

use vstd::prelude::*;
use crate::vm::bytes::Word;
use crate::vm::fault::{Fault, FaultKind};
use crate::vm::opcode::{decode, lemma_decode_encoding, Instr};
use crate::vm::semantics::{
    emitted, faulted, initial_state, popped, return_word, run, step, MachineState, RunOutcome,
    Status, StepEvent,
};

verus! {

/// A run of three steps through instructions that neither print nor stop
/// ends where the third step ends, with nothing printed.
proof fn lemma_three_quiet_steps(program: Seq<u8>, s: MachineState)
    requires
        s.status == Status::Running,
        step(program, s) == (step(program, s).0, StepEvent::Advanced),
        step(program, s).0.status == Status::Running,
        step(program, step(program, s).0) == (
            step(program, step(program, s).0).0,
            StepEvent::Advanced,
        ),
        step(program, step(program, s).0).0.status == Status::Running,
    ensures
        run(program, s, 2).0 == step(program, step(program, s).0).0,
        run(program, s, 3).0 == step(program, step(program, step(program, s).0).0).0,
        run(program, s, 3).1 == emitted(step(program, step(program, step(program, s).0).0).1),
{
    let s1 = step(program, s).0;
    let s2 = step(program, s1).0;
    let s3 = step(program, s2).0;
    assert(run(program, s2, 0).0 == s2);
    assert(run(program, s3, 0).0 == s3);
    assert(run(program, s2, 1).0 == s3 && run(program, s2, 1).1 =~= emitted(step(program, s2).1))
        by {
        reveal_with_fuel(run, 2);
    }
    assert(run(program, s1, 1).0 == s2 && run(program, s1, 1).1 =~= Seq::<Word>::empty()) by {
        reveal_with_fuel(run, 2);
    }
    assert(run(program, s1, 2).0 == s3 && run(program, s1, 2).1 =~= emitted(step(program, s2).1))
        by {
        reveal_with_fuel(run, 2);
    }
    assert(run(program, s, 2).0 == s2) by {
        reveal_with_fuel(run, 2);
    }
    assert(run(program, s, 3).0 == s3 && run(program, s, 3).1 =~= emitted(step(program, s2).1))
        by {
        reveal_with_fuel(run, 2);
    }
}

/// Adding zero is the identity: `PUSH a; PUSH 0; ADD` leaves the machine with
/// `a` pushed on the stack it started with, as `PUSH a` alone does, and
/// memory untouched.
pub proof fn law_add_zero_identity(program: Seq<u8>, s: MachineState, a: Word)
    requires
        program.len() <= usize::MAX,
        s.status == Status::Running,
        decode(program, s.ip as int) == Ok::<Instr, FaultKind>(Instr::Push(a)),
        decode(program, s.ip + 5) == Ok::<Instr, FaultKind>(Instr::Push(0)),
        decode(program, s.ip + 10) == Ok::<Instr, FaultKind>(Instr::Add),
    ensures
        run(program, s, 3).0.stack == step(program, s).0.stack,
        run(program, s, 3).0 == (MachineState {
            ip: (s.ip + 11) as usize,
            stack: s.stack.push(a),
            ..s
        }),
        run(program, s, 3).1 == Seq::<Word>::empty(),
{
    let s1 = step(program, s).0;
    assert(s1 == MachineState { ip: (s.ip + 5) as usize, stack: s.stack.push(a), ..s });
    let s2 = step(program, s1).0;
    assert(s2 == MachineState { ip: (s.ip + 10) as usize, stack: s.stack.push(a).push(0), ..s });
    let s3 = step(program, s2).0;
    assert(popped(s2.stack, 2) =~= s.stack);
    assert(s3 == MachineState { ip: (s.ip + 11) as usize, stack: s.stack.push(a), ..s });
    lemma_three_quiet_steps(program, s);
}

/// `PUSH v; DUP` leaves the stack as it was with `v` on it twice, and a `POP`
/// after them leaves it with `v` on it once.
pub proof fn law_dup_then_pop(program: Seq<u8>, s: MachineState, v: Word)
    requires
        program.len() <= usize::MAX,
        s.status == Status::Running,
        decode(program, s.ip as int) == Ok::<Instr, FaultKind>(Instr::Push(v)),
        decode(program, s.ip + 5) == Ok::<Instr, FaultKind>(Instr::Dup),
        decode(program, s.ip + 6) == Ok::<Instr, FaultKind>(Instr::Pop),
    ensures
        run(program, s, 2).0.stack == s.stack.push(v).push(v),
        run(program, s, 3).0.stack == s.stack.push(v),
        run(program, s, 3).0.memory == s.memory,
        run(program, s, 3).0.status == Status::Running,
{
    let s1 = step(program, s).0;
    assert(s1 == MachineState { ip: (s.ip + 5) as usize, stack: s.stack.push(v), ..s });
    let s2 = step(program, s1).0;
    assert(s2 == MachineState { ip: (s.ip + 6) as usize, stack: s.stack.push(v).push(v), ..s });
    let s3 = step(program, s2).0;
    assert(popped(s2.stack, 1) =~= s.stack.push(v));
    assert(s3 == MachineState { ip: (s.ip + 7) as usize, stack: s.stack.push(v), ..s });
    lemma_three_quiet_steps(program, s);
}

/// `PUSH a; PUSH b; SWAP` leaves the stack as it was with `b` and then `a`
/// on it: `a` on top.
pub proof fn law_swap_order(program: Seq<u8>, s: MachineState, a: Word, b: Word)
    requires
        program.len() <= usize::MAX,
        s.status == Status::Running,
        decode(program, s.ip as int) == Ok::<Instr, FaultKind>(Instr::Push(a)),
        decode(program, s.ip + 5) == Ok::<Instr, FaultKind>(Instr::Push(b)),
        decode(program, s.ip + 10) == Ok::<Instr, FaultKind>(Instr::Swap),
    ensures
        run(program, s, 3).0.stack == s.stack.push(b).push(a),
        run(program, s, 3).0.memory == s.memory,
        run(program, s, 3).0.status == Status::Running,
{
    let s1 = step(program, s).0;
    assert(s1 == MachineState { ip: (s.ip + 5) as usize, stack: s.stack.push(a), ..s });
    let s2 = step(program, s1).0;
    assert(s2 == MachineState { ip: (s.ip + 10) as usize, stack: s.stack.push(a).push(b), ..s });
    let s3 = step(program, s2).0;
    assert(popped(s2.stack, 2) =~= s.stack);
    assert(s3 == MachineState { ip: (s.ip + 11) as usize, stack: s.stack.push(b).push(a), ..s });
    lemma_three_quiet_steps(program, s);
}

/// An encoded `LOAD addr` whose address is not below the memory size faults
/// with `MemoryOutOfBounds` at its own offset and reads nothing: the state
/// is otherwise unchanged.
pub proof fn law_load_out_of_bounds(
    before: Seq<u8>,
    after: Seq<u8>,
    s: MachineState,
    addr: u16,
)
    requires
        s.status == Status::Running,
        s.ip == before.len(),
        addr >= s.memory.len(),
    ensures
        step(before + Instr::Load(addr).encoding() + after, s) == (
            faulted(s, FaultKind::MemoryOutOfBounds),
            StepEvent::Faulted(Fault { kind: FaultKind::MemoryOutOfBounds, ip: s.ip }),
        ),
        faulted(s, FaultKind::MemoryOutOfBounds).stack == s.stack,
{
    lemma_decode_encoding(before, Instr::Load(addr), after);
}

/// `DIV` with a zero on top of at least two words faults with
/// `DivideByZero` at its own offset, whatever the dividend below it.
pub proof fn law_div_by_zero(program: Seq<u8>, s: MachineState)
    requires
        s.status == Status::Running,
        decode(program, s.ip as int) == Ok::<Instr, FaultKind>(Instr::Div),
        s.stack.len() >= 2,
        s.stack.last() == 0,
    ensures
        step(program, s) == (
            faulted(s, FaultKind::DivideByZero),
            StepEvent::Faulted(Fault { kind: FaultKind::DivideByZero, ip: s.ip }),
        ),
{
}

/// `CALL` pushes the offset of the instruction after it, and a `RET` that
/// finds that word on top of the stack continues exactly there, with the
/// word taken off.
///
/// The law is stated for a `CALL` that is followed by at least one more byte
/// of program, at an offset that fits in a word.
pub proof fn law_call_ret(
    program: Seq<u8>,
    s: MachineState,
    target: u16,
    r: MachineState,
)
    requires
        program.len() <= usize::MAX,
        s.status == Status::Running,
        decode(program, s.ip as int) == Ok::<Instr, FaultKind>(Instr::Call(target)),
        s.ip + 3 < program.len(),
        s.ip + 3 <= i32::MAX,
        r.status == Status::Running,
        decode(program, r.ip as int) == Ok::<Instr, FaultKind>(Instr::Ret),
        r.stack.len() > 0,
        r.stack.last() == step(program, s).0.stack.last(),
    ensures
        step(program, s).0.ip == target,
        step(program, s).0.stack == s.stack.push(return_word((s.ip + 3) as usize)),
        return_word((s.ip + 3) as usize) == s.ip + 3,
        step(program, r).0.ip == s.ip + 3,
        step(program, r).0.stack == r.stack.drop_last(),
        step(program, r).0.status == Status::Running,
{
}

/// Memory is never resized: a step leaves the number of cells as it was.
pub proof fn law_memory_size_fixed(program: Seq<u8>, s: MachineState)
    ensures
        step(program, s).0.memory.len() == s.memory.len(),
{
}

/// Halting is final: a machine that is halted or faulted is left unchanged
/// by every step and by every run, which report the same ending again and
/// print nothing.
pub proof fn law_stopped_is_final(program: Seq<u8>, s: MachineState, budget: nat)
    requires
        s.status != Status::Running,
    ensures
        step(program, s).0 == s,
        step(program, s).1 == (match s.status {
            Status::Faulted(fault) => StepEvent::Faulted(fault),
            _ => StepEvent::Halted,
        }),
        run(program, s, budget).0 == s,
        run(program, s, budget).1 == Seq::<Word>::empty(),
        run(program, s, budget).2 == (match s.status {
            Status::Faulted(fault) => RunOutcome::Faulted(fault),
            _ => RunOutcome::Halted,
        }),
{
}

/// A fault changes nothing but the status: the step that raises it leaves
/// stack, memory and instruction pointer as they were, records the offset of
/// the faulting instruction, and prints nothing.
pub proof fn law_fault_keeps_state(program: Seq<u8>, s: MachineState, fault: Fault)
    requires
        s.status == Status::Running,
        step(program, s).1 == StepEvent::Faulted(fault),
    ensures
        fault.ip == s.ip,
        step(program, s).0 == (MachineState { status: Status::Faulted(fault), ..s }),
        emitted(step(program, s).1) == Seq::<Word>::empty(),
{
}

/// A run ends in `StepLimit` exactly where it leaves the machine running,
/// in `Halted` exactly where it leaves it halted, and in `Faulted` exactly
/// where it leaves it faulted, with the fault that the machine records.
pub proof fn law_outcome_tells_status(program: Seq<u8>, s: MachineState, budget: nat)
    ensures
        run(program, s, budget).2 == (match run(program, s, budget).0.status {
            Status::Running => RunOutcome::StepLimit,
            Status::Halted => RunOutcome::Halted,
            Status::Faulted(fault) => RunOutcome::Faulted(fault),
        }),
    decreases budget,
{
    if s.status == Status::Running && budget > 0 {
        law_outcome_tells_status(program, step(program, s).0, (budget - 1) as nat);
    }
}

/// A run can be taken in two parts: `first + second` steps do what `first`
/// steps and then `second` more from where they ended do, and print what
/// the two print one after the other.
pub proof fn law_run_in_parts(program: Seq<u8>, s: MachineState, first: nat, second: nat)
    ensures
        run(program, s, first + second).0 == run(
            program,
            run(program, s, first).0,
            second,
        ).0,
        run(program, s, first + second).1 == run(program, s, first).1 + run(
            program,
            run(program, s, first).0,
            second,
        ).1,
        run(program, s, first + second).2 == run(
            program,
            run(program, s, first).0,
            second,
        ).2,
    decreases first,
{
    if s.status == Status::Running && first > 0 {
        law_run_in_parts(program, step(program, s).0, (first - 1) as nat, second);
    }
}

/// Only control flow assigns the instruction pointer: every other
/// instruction that does not fault moves it by its own width, to the
/// instruction that follows.
pub proof fn law_ip_advances_by_width(program: Seq<u8>, s: MachineState, instr: Instr)
    requires
        program.len() <= usize::MAX,
        s.status == Status::Running,
        decode(program, s.ip as int) == Ok::<Instr, FaultKind>(instr),
        !(step(program, s).1 is Faulted),
        !(instr is Jmp || instr is Jz || instr is Jnz || instr is Call || instr is Ret),
    ensures
        step(program, s).0.ip == s.ip + instr.width(),
{
}

/// Only `PRINT` has output: a step emits a word exactly where it executes
/// `PRINT` on a stack that is not empty, and the word is the one it pops.
pub proof fn law_only_print_emits(program: Seq<u8>, s: MachineState)
    ensures
        emitted(step(program, s).1).len() <= 1,
        emitted(step(program, s).1).len() == 1 <==> {
            &&& s.status == Status::Running
            &&& decode(program, s.ip as int) == Ok::<Instr, FaultKind>(Instr::Print)
            &&& s.stack.len() > 0
        },
        emitted(step(program, s).1).len() == 1 ==> {
            &&& emitted(step(program, s).1)[0] == s.stack.last()
            &&& step(program, s).0.stack == s.stack.drop_last()
        },
{
}

/// A program that is nothing but `JMP 0` never stops by itself: whatever the
/// step budget, a run from the initial state uses it up, ends in `StepLimit`
/// with the machine still running at offset 0, and prints nothing.
pub proof fn law_jump_to_self_never_stops(memsize: nat, budget: nat)
    ensures
        run(Instr::Jmp(0).encoding(), initial_state(memsize), budget) == (
            initial_state(memsize),
            Seq::<Word>::empty(),
            RunOutcome::StepLimit,
        ),
    decreases budget,
{
    if budget > 0 {
        lemma_decode_encoding(Seq::empty(), Instr::Jmp(0), Seq::empty());
        law_jump_to_self_never_stops(memsize, (budget - 1) as nat);
    }
}

} // verus!
