//! What a program means: the effect of one instruction on the machine's
//! state, and of a bounded run.
//!
//! Everything here is mathematics over `MachineState`; the engine in
//! `machine` is proved to compute exactly these functions.

use vstd::prelude::*;
use crate::vm::bytes::Word;
use crate::vm::fault::{Fault, FaultKind};
use crate::vm::opcode::{decode, Instr};

verus! {

/// Whether the engine is still willing to execute.
#[derive(Clone, Copy, Debug, PartialEq, Eq, Structural)]
pub enum Status {
    /// The next step fetches at the instruction pointer.
    Running,
    /// `HALT` was executed.
    Halted,
    /// A fault ended the run.
    Faulted(Fault),
}

/// What one step of the engine did.
#[derive(Clone, Copy, Debug, PartialEq, Eq, Structural)]
pub enum StepEvent {
    /// An instruction other than `PRINT` and `HALT` was executed.
    Advanced,
    /// `PRINT` was executed and emitted this word.
    Printed(Word),
    /// The machine is halted: `HALT` was executed, now or earlier.
    Halted,
    /// The machine is faulted: by this step, or earlier.
    Faulted(Fault),
}

/// How a bounded run ended.
#[derive(Clone, Copy, Debug, PartialEq, Eq, Structural)]
pub enum RunOutcome {
    /// The program executed `HALT`.
    Halted,
    /// The program faulted.
    Faulted(Fault),
    /// The step budget ran out with the machine still running.
    StepLimit,
}

/// The engine's state as a mathematical value.
pub struct MachineState {
    /// Offset of the next fetch.
    pub ip: usize,
    /// The operand stack, bottom first.
    pub stack: Seq<Word>,
    /// The memory cells, by address.
    pub memory: Seq<Word>,
    /// Running, halted or faulted.
    pub status: Status,
}

/// The state in which every run starts: instruction pointer 0, empty stack,
/// `memsize` cells of zero.
pub open spec fn initial_state(memsize: nat) -> MachineState {
    MachineState {
        ip: 0,
        stack: Seq::empty(),
        memory: Seq::new(memsize, |i: int| 0i32),
        status: Status::Running,
    }
}

/// The word that is congruent to `x` modulo 2^32: what two's-complement
/// arithmetic keeps of a result.
pub open spec fn wrap(x: int) -> Word {
    let m = x % 0x1_0000_0000;
    if m >= 0x8000_0000 {
        (m - 0x1_0000_0000) as Word
    } else {
        m as Word
    }
}

/// The quotient of `b` by a nonzero `a`, rounded toward zero.
pub open spec fn quotient(b: int, a: int) -> int {
    let q = (if b < 0 {
        -b
    } else {
        b
    }) / (if a < 0 {
        -a
    } else {
        a
    });
    if (b < 0) != (a < 0) {
        -q
    } else {
        q
    }
}

/// The word that `CALL` pushes for the return offset `next`: the offset
/// itself where it fits in a word, its low 32 bits otherwise.
pub open spec fn return_word(next: usize) -> Word {
    wrap(next as int)
}

/// The stack `s` with its topmost `n` words taken off.
pub open spec fn popped(s: Seq<Word>, n: int) -> Seq<Word> {
    s.take(s.len() - n)
}

/// How many words `instr` needs on the stack.
pub open spec fn operands(instr: Instr) -> int {
    match instr {
        Instr::Nop | Instr::Push(_) | Instr::Load(_) | Instr::Jmp(_) | Instr::Call(_)
        | Instr::Halt => 0,
        Instr::Pop | Instr::Dup | Instr::Store(_) | Instr::LoadInd | Instr::Jz(_) | Instr::Jnz(_)
        | Instr::Ret | Instr::Print => 1,
        Instr::Swap | Instr::Add | Instr::Sub | Instr::Mul | Instr::Div | Instr::StoreInd => 2,
    }
}

/// Whether `addr` names a cell of `memory`.
pub open spec fn in_memory(memory: Seq<Word>, addr: int) -> bool {
    0 <= addr < memory.len()
}

/// The outcome of an instruction that goes on at offset `ip` with the stack
/// `stack`, in the state that is otherwise `s`.
pub open spec fn goes_on(s: MachineState, ip: usize, stack: Seq<Word>) -> Result<
    (MachineState, StepEvent),
    FaultKind,
> {
    Ok((MachineState { ip, stack, ..s }, StepEvent::Advanced))
}

/// The effect of `instr` on a running machine in state `s`, where `next` is
/// the offset just past the instruction and `len` the program's length: the
/// state after it and what the step reports, or the fault it raises.
///
/// Operands are checked before anything changes, in this order: the stack's
/// depth, then the address, divisor or return target. In the arithmetic
/// instructions the topmost word is the right operand and the one below it
/// the left.
pub open spec fn execute(instr: Instr, next: usize, len: nat, s: MachineState) -> Result<
    (MachineState, StepEvent),
    FaultKind,
> {
    let n = s.stack.len() as int;
    let top = s.stack[n - 1];
    let below = s.stack[n - 2];
    let rest1 = popped(s.stack, 1);
    let rest2 = popped(s.stack, 2);
    if n < operands(instr) {
        Err(FaultKind::StackUnderflow)
    } else {
        match instr {
            Instr::Nop => goes_on(s, next, s.stack),
            Instr::Push(v) => goes_on(s, next, s.stack.push(v)),
            Instr::Pop => goes_on(s, next, rest1),
            Instr::Dup => goes_on(s, next, s.stack.push(top)),
            Instr::Swap => goes_on(s, next, rest2.push(top).push(below)),
            Instr::Add => goes_on(s, next, rest2.push(wrap(below + top))),
            Instr::Sub => goes_on(s, next, rest2.push(wrap(below - top))),
            Instr::Mul => goes_on(s, next, rest2.push(wrap(below * top))),
            Instr::Div => if top == 0 {
                Err(FaultKind::DivideByZero)
            } else {
                goes_on(s, next, rest2.push(wrap(quotient(below as int, top as int))))
            },
            Instr::Load(addr) => if !in_memory(s.memory, addr as int) {
                Err(FaultKind::MemoryOutOfBounds)
            } else {
                goes_on(s, next, s.stack.push(s.memory[addr as int]))
            },
            Instr::Store(addr) => if !in_memory(s.memory, addr as int) {
                Err(FaultKind::MemoryOutOfBounds)
            } else {
                goes_on(
                    MachineState { memory: s.memory.update(addr as int, top), ..s },
                    next,
                    rest1,
                )
            },
            Instr::LoadInd => if !in_memory(s.memory, top as int) {
                Err(FaultKind::MemoryOutOfBounds)
            } else {
                goes_on(s, next, rest1.push(s.memory[top as int]))
            },
            Instr::StoreInd => if !in_memory(s.memory, top as int) {
                Err(FaultKind::MemoryOutOfBounds)
            } else {
                goes_on(
                    MachineState { memory: s.memory.update(top as int, below), ..s },
                    next,
                    rest2,
                )
            },
            Instr::Jmp(target) => goes_on(s, target as usize, s.stack),
            Instr::Jz(target) => goes_on(
                s,
                if top == 0 {
                    target as usize
                } else {
                    next
                },
                rest1,
            ),
            Instr::Jnz(target) => goes_on(
                s,
                if top != 0 {
                    target as usize
                } else {
                    next
                },
                rest1,
            ),
            Instr::Call(target) => goes_on(s, target as usize, s.stack.push(return_word(next))),
            Instr::Ret => if top < 0 || top >= len {
                Err(FaultKind::InvalidReturn)
            } else {
                goes_on(s, top as usize, rest1)
            },
            Instr::Print => Ok(
                (MachineState { ip: next, stack: rest1, ..s }, StepEvent::Printed(top)),
            ),
            Instr::Halt => Ok(
                (MachineState { ip: next, status: Status::Halted, ..s }, StepEvent::Halted),
            ),
        }
    }
}

/// The state `s` after the instruction at its instruction pointer raised
/// `kind`: stack, memory and instruction pointer as they were, and the fault
/// recorded with that offset.
pub open spec fn faulted(s: MachineState, kind: FaultKind) -> MachineState {
    MachineState { status: Status::Faulted(Fault { kind, ip: s.ip }), ..s }
}

/// One step of the engine on `program` from state `s`.
///
/// A machine that is halted or faulted stays as it is and reports so again.
/// A running machine fetches at `s.ip`; a fault in the fetch or in the
/// instruction ends the run in `faulted(s, kind)`.
pub open spec fn step(program: Seq<u8>, s: MachineState) -> (MachineState, StepEvent) {
    match s.status {
        Status::Halted => (s, StepEvent::Halted),
        Status::Faulted(f) => (s, StepEvent::Faulted(f)),
        Status::Running => match decode(program, s.ip as int) {
            Err(kind) => (faulted(s, kind), StepEvent::Faulted(Fault { kind, ip: s.ip })),
            Ok(instr) => match execute(
                instr,
                (s.ip + instr.width()) as usize,
                program.len(),
                s,
            ) {
                Err(kind) => (faulted(s, kind), StepEvent::Faulted(Fault { kind, ip: s.ip })),
                Ok(done) => done,
            },
        },
    }
}

/// The words that a step with this event sends to the output.
pub open spec fn emitted(event: StepEvent) -> Seq<Word> {
    match event {
        StepEvent::Printed(v) => seq![v],
        _ => Seq::empty(),
    }
}

/// A run of at most `budget` steps on `program` from state `s`: the state it
/// ends in, the words it printed in order, and how it ended.
///
/// The run stops as soon as the machine is halted or faulted; it ends in
/// `StepLimit` only where the budget is used up with the machine still
/// running.
pub open spec fn run(program: Seq<u8>, s: MachineState, budget: nat) -> (
    MachineState,
    Seq<Word>,
    RunOutcome,
)
    decreases budget,
{
    match s.status {
        Status::Halted => (s, Seq::empty(), RunOutcome::Halted),
        Status::Faulted(f) => (s, Seq::empty(), RunOutcome::Faulted(f)),
        Status::Running => if budget == 0 {
            (s, Seq::empty(), RunOutcome::StepLimit)
        } else {
            let (s1, event) = step(program, s);
            let (end, out, outcome) = run(program, s1, (budget - 1) as nat);
            (end, emitted(event) + out, outcome)
        },
    }
}

} // verus!
