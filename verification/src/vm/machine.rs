//! The execution engine: a fetch-decode-execute loop over an operand stack
//! and a flat memory.

use vstd::prelude::*;
pub use crate::vm::bytes::Word;
use crate::vm::bytes::{decode_u16, decode_word, u16_at, word_at};
use crate::vm::fault::{Fault, FaultKind};
use crate::vm::opcode::{
    decode, Instr, OP_ADD, OP_CALL, OP_DIV, OP_DUP, OP_HALT, OP_JMP, OP_JNZ, OP_JZ, OP_LOAD,
    OP_LOAD_IND, OP_MUL, OP_NOP, OP_POP, OP_PRINT, OP_PUSH, OP_RET, OP_STORE, OP_STORE_IND,
    OP_SUB, OP_SWAP,
};
use crate::vm::semantics;
use crate::vm::semantics::{
    initial_state, popped, quotient, return_word, wrap, MachineState, RunOutcome, Status, StepEvent,
};

verus! {

/// A machine loaded with one program.
///
/// The program is fixed for the machine's life and so is the size of its
/// memory. Everything else is the state that `step` advances.
pub struct Machine {
    ip: usize,
    stack: Vec<Word>,
    memory: Vec<Word>,
    program: Vec<u8>,
    status: Status,
}

impl View for Machine {
    type V = MachineState;

    closed spec fn view(&self) -> MachineState {
        MachineState {
            ip: self.ip,
            stack: self.stack@,
            memory: self.memory@,
            status: self.status,
        }
    }
}

impl Machine {
    /// The bytes of the program the machine was loaded with.
    pub closed spec fn spec_program(&self) -> Seq<u8> {
        self.program@
    }

    /// Whether this machine is `from` with the instruction pointer moved
    /// forward by `by` bytes and nothing else changed.
    spec fn advanced(&self, from: &Machine, by: int) -> bool {
        &&& self.ip == from.ip + by
        &&& self.stack == from.stack
        &&& self.memory == from.memory
        &&& self.program == from.program
        &&& self.status == from.status
    }

    /// Loads `program` into a fresh machine with `memsize` cells of memory,
    /// all zero.
    pub fn new(program: Vec<u8>, memsize: usize) -> (m: Machine)
        ensures
            m@ == initial_state(memsize as nat),
            m.spec_program() == program@,
    {
        let memory: Vec<Word> = vec![0i32; memsize];
        let m = Machine {
            ip: 0,
            stack: Vec::with_capacity(256),
            memory,
            program,
            status: Status::Running,
        };
        assert(m@.memory =~= initial_state(memsize as nat).memory);
        m
    }

    /// The offset of the next fetch.
    pub fn ip(&self) -> (ip: usize)
        ensures
            ip == self@.ip,
    {
        self.ip
    }

    /// The operand stack, bottom first.
    pub fn stack(&self) -> (stack: &Vec<Word>)
        ensures
            stack@ == self@.stack,
    {
        &self.stack
    }

    /// The memory cells, by address.
    pub fn memory(&self) -> (memory: &Vec<Word>)
        ensures
            memory@ == self@.memory,
    {
        &self.memory
    }

    /// The program the machine was loaded with.
    pub fn program(&self) -> (program: &Vec<u8>)
        ensures
            program@ == self.spec_program(),
    {
        &self.program
    }

    /// Whether the machine is running, halted or faulted.
    pub fn status(&self) -> (status: Status)
        ensures
            status == self@.status,
    {
        self.status
    }

    /// Whether the machine has stopped for good, by `HALT` or by a fault.
    pub fn is_halted(&self) -> (halted: bool)
        ensures
            halted == (self@.status != Status::Running),
    {
        match self.status {
            Status::Running => false,
            _ => true,
        }
    }

    /// Reads the byte at the instruction pointer and moves past it.
    fn fetch_u8(&mut self) -> (r: Result<u8, FaultKind>)
        ensures
            match r {
                Ok(b) => {
                    &&& old(self).ip < old(self).program@.len()
                    &&& b == old(self).program@[old(self).ip as int]
                    &&& final(self).advanced(old(self), 1)
                },
                Err(kind) => {
                    &&& kind == FaultKind::TruncatedProgram
                    &&& old(self).ip >= old(self).program@.len()
                    &&& *final(self) == *old(self)
                },
            },
    {
        if self.ip >= self.program.len() {
            return Err(FaultKind::TruncatedProgram);
        }
        let b: u8 = self.program[self.ip];
        self.ip += 1;
        Ok(b)
    }

    /// Reads the 16-bit operand at the instruction pointer and moves past it.
    fn fetch_u16(&mut self) -> (r: Result<u16, FaultKind>)
        ensures
            match r {
                Ok(v) => {
                    &&& old(self).ip + 2 <= old(self).program@.len()
                    &&& v == u16_at(old(self).program@, old(self).ip as int)
                    &&& final(self).advanced(old(self), 2)
                },
                Err(kind) => {
                    &&& kind == FaultKind::TruncatedProgram
                    &&& old(self).ip + 2 > old(self).program@.len()
                    &&& *final(self) == *old(self)
                },
            },
    {
        let len: usize = self.program.len();
        if len < 2 || self.ip > len - 2 {
            return Err(FaultKind::TruncatedProgram);
        }
        let lo: u8 = self.program[self.ip];
        let hi: u8 = self.program[self.ip + 1];
        self.ip += 2;
        Ok(decode_u16(lo, hi))
    }

    /// Reads the word immediate at the instruction pointer and moves past it.
    fn fetch_i32(&mut self) -> (r: Result<Word, FaultKind>)
        ensures
            match r {
                Ok(v) => {
                    &&& old(self).ip + 4 <= old(self).program@.len()
                    &&& v == word_at(old(self).program@, old(self).ip as int)
                    &&& final(self).advanced(old(self), 4)
                },
                Err(kind) => {
                    &&& kind == FaultKind::TruncatedProgram
                    &&& old(self).ip + 4 > old(self).program@.len()
                    &&& *final(self) == *old(self)
                },
            },
    {
        let len: usize = self.program.len();
        if len < 4 || self.ip > len - 4 {
            return Err(FaultKind::TruncatedProgram);
        }
        let b0: u8 = self.program[self.ip];
        let b1: u8 = self.program[self.ip + 1];
        let b2: u8 = self.program[self.ip + 2];
        let b3: u8 = self.program[self.ip + 3];
        self.ip += 4;
        Ok(decode_word(b0, b1, b2, b3))
    }

    /// Puts `v` on top of the stack.
    fn push(&mut self, v: Word)
        ensures
            final(self).stack@ == old(self).stack@.push(v),
            final(self).ip == old(self).ip,
            final(self).memory == old(self).memory,
            final(self).program == old(self).program,
            final(self).status == old(self).status,
    {
        self.stack.push(v);
    }

    /// Takes the topmost word off the stack.
    fn pop(&mut self) -> (r: Result<Word, FaultKind>)
        ensures
            match r {
                Ok(v) => {
                    &&& old(self).stack@.len() > 0
                    &&& v == old(self).stack@.last()
                    &&& final(self).stack@ == old(self).stack@.drop_last()
                },
                Err(kind) => {
                    &&& kind == FaultKind::StackUnderflow
                    &&& old(self).stack@.len() == 0
                    &&& final(self).stack@ == old(self).stack@
                },
            },
            final(self).ip == old(self).ip,
            final(self).memory == old(self).memory,
            final(self).program == old(self).program,
            final(self).status == old(self).status,
    {
        match self.stack.pop() {
            Some(v) => Ok(v),
            None => Err(FaultKind::StackUnderflow),
        }
    }

    /// Reads the topmost word of the stack.
    fn peek(&self) -> (r: Result<Word, FaultKind>)
        ensures
            match r {
                Ok(v) => self.stack@.len() > 0 && v == self.stack@.last(),
                Err(kind) => kind == FaultKind::StackUnderflow && self.stack@.len() == 0,
            },
    {
        let n: usize = self.stack.len();
        if n == 0 {
            Err(FaultKind::StackUnderflow)
        } else {
            Ok(self.stack[n - 1])
        }
    }
    /// Decodes the instruction at the instruction pointer and moves past it.
    /// A fetch that fails leaves the instruction pointer where it was.
    fn fetch_instr(&mut self) -> (r: Result<Instr, FaultKind>)
        ensures
            r == decode(old(self).program@, old(self).ip as int),
            match r {
                Ok(instr) => old(self).ip + instr.width() <= old(self).program@.len()
                    && final(self).advanced(old(self), instr.width() as int),
                Err(_) => *final(self) == *old(self),
            },
    {
        let start: usize = self.ip;
        let op: u8 = match self.fetch_u8() {
            Ok(b) => b,
            Err(kind) => {
                return Err(kind);
            },
        };
        let r: Result<Instr, FaultKind> = if op == OP_NOP {
            Ok(Instr::Nop)
        } else if op == OP_PUSH {
            match self.fetch_i32() {
                Ok(v) => Ok(Instr::Push(v)),
                Err(kind) => Err(kind),
            }
        } else if op == OP_POP {
            Ok(Instr::Pop)
        } else if op == OP_DUP {
            Ok(Instr::Dup)
        } else if op == OP_SWAP {
            Ok(Instr::Swap)
        } else if op == OP_ADD {
            Ok(Instr::Add)
        } else if op == OP_SUB {
            Ok(Instr::Sub)
        } else if op == OP_MUL {
            Ok(Instr::Mul)
        } else if op == OP_DIV {
            Ok(Instr::Div)
        } else if op == OP_LOAD {
            match self.fetch_u16() {
                Ok(addr) => Ok(Instr::Load(addr)),
                Err(kind) => Err(kind),
            }
        } else if op == OP_STORE {
            match self.fetch_u16() {
                Ok(addr) => Ok(Instr::Store(addr)),
                Err(kind) => Err(kind),
            }
        } else if op == OP_LOAD_IND {
            Ok(Instr::LoadInd)
        } else if op == OP_STORE_IND {
            Ok(Instr::StoreInd)
        } else if op == OP_JMP {
            match self.fetch_u16() {
                Ok(target) => Ok(Instr::Jmp(target)),
                Err(kind) => Err(kind),
            }
        } else if op == OP_JZ {
            match self.fetch_u16() {
                Ok(target) => Ok(Instr::Jz(target)),
                Err(kind) => Err(kind),
            }
        } else if op == OP_JNZ {
            match self.fetch_u16() {
                Ok(target) => Ok(Instr::Jnz(target)),
                Err(kind) => Err(kind),
            }
        } else if op == OP_CALL {
            match self.fetch_u16() {
                Ok(target) => Ok(Instr::Call(target)),
                Err(kind) => Err(kind),
            }
        } else if op == OP_RET {
            Ok(Instr::Ret)
        } else if op == OP_PRINT {
            Ok(Instr::Print)
        } else if op == OP_HALT {
            Ok(Instr::Halt)
        } else {
            Err(FaultKind::UnknownOpcode)
        };
        match r {
            Ok(instr) => Ok(instr),
            Err(kind) => {
                self.ip = start;
                Err(kind)
            },
        }
    }
    /// Takes the two topmost words off the stack: the top one first in the
    /// pair, the one below it second. A stack of fewer than two words is
    /// left as it is.
    fn pop2(&mut self) -> (r: Result<(Word, Word), FaultKind>)
        ensures
            match r {
                Ok((a, b)) => {
                    &&& old(self).stack@.len() >= 2
                    &&& a == old(self).stack@[old(self).stack@.len() - 1]
                    &&& b == old(self).stack@[old(self).stack@.len() - 2]
                    &&& final(self).stack@ == popped(old(self).stack@, 2)
                },
                Err(kind) => {
                    &&& kind == FaultKind::StackUnderflow
                    &&& old(self).stack@.len() < 2
                    &&& final(self).stack@ == old(self).stack@
                },
            },
            final(self).ip == old(self).ip,
            final(self).memory == old(self).memory,
            final(self).program == old(self).program,
            final(self).status == old(self).status,
    {
        let n: usize = self.stack.len();
        if n < 2 {
            return Err(FaultKind::StackUnderflow);
        }
        let a: Word = self.stack[n - 1];
        let b: Word = self.stack[n - 2];
        self.stack.truncate(n - 2);
        Ok((a, b))
    }

    /// Whether this machine and the result `r` are what carrying out
    /// `instr` makes of the machine `before`, whose instruction pointer stood
    /// just past the instruction.
    spec fn carried_out(
        &self,
        before: &Machine,
        instr: Instr,
        r: Result<StepEvent, FaultKind>,
    ) -> bool {
        &&& self.program == before.program
        &&& match semantics::execute(instr, before.ip, before.program@.len(), before@) {
            Ok((state, event)) => r == Ok::<StepEvent, FaultKind>(event) && self@ == state,
            Err(kind) => r == Err::<StepEvent, FaultKind>(kind) && self@ == before@,
        }
    }

    /// Carries out `POP`, `DUP` or `SWAP`.
    fn execute_stack(&mut self, instr: Instr) -> (r: Result<StepEvent, FaultKind>)
        requires
            instr is Pop || instr is Dup || instr is Swap,
        ensures
            final(self).carried_out(old(self), instr, r),
    {
        match instr {
            Instr::Pop => match self.pop() {
                Ok(_) => Ok(StepEvent::Advanced),
                Err(kind) => Err(kind),
            },
            Instr::Dup => match self.peek() {
                Ok(v) => {
                    self.push(v);
                    Ok(StepEvent::Advanced)
                },
                Err(kind) => Err(kind),
            },
            _ => match self.pop2() {
                Ok((a, b)) => {
                    self.push(a);
                    self.push(b);
                    Ok(StepEvent::Advanced)
                },
                Err(kind) => Err(kind),
            },
        }
    }

    /// Carries out `ADD`, `SUB`, `MUL` or `DIV`: the topmost word is the
    /// right operand, the one below it the left.
    fn execute_arith(&mut self, instr: Instr) -> (r: Result<StepEvent, FaultKind>)
        requires
            instr is Add || instr is Sub || instr is Mul || instr is Div,
        ensures
            final(self).carried_out(old(self), instr, r),
    {
        let n: usize = self.stack.len();
        if n < 2 {
            return Err(FaultKind::StackUnderflow);
        }
        if matches!(instr, Instr::Div) && self.stack[n - 1] == 0 {
            return Err(FaultKind::DivideByZero);
        }
        match self.pop2() {
            Ok((a, b)) => {
                let v: Word = match instr {
                    Instr::Add => wrapping_sum(b, a),
                    Instr::Sub => wrapping_difference(b, a),
                    Instr::Mul => wrapping_product(b, a),
                    _ => wrapping_quotient(b, a),
                };
                self.push(v);
                Ok(StepEvent::Advanced)
            },
            Err(kind) => Err(kind),
        }
    }

    /// Carries out `LOAD addr`.
    fn execute_load(&mut self, addr: u16) -> (r: Result<StepEvent, FaultKind>)
        ensures
            final(self).carried_out(old(self), Instr::Load(addr), r),
    {
        if addr as usize >= self.memory.len() {
            return Err(FaultKind::MemoryOutOfBounds);
        }
        let v: Word = self.memory[addr as usize];
        self.push(v);
        Ok(StepEvent::Advanced)
    }

    /// Carries out `STORE addr`.
    fn execute_store(&mut self, addr: u16) -> (r: Result<StepEvent, FaultKind>)
        ensures
            final(self).carried_out(old(self), Instr::Store(addr), r),
    {
        if self.stack.len() < 1 {
            return Err(FaultKind::StackUnderflow);
        }
        if addr as usize >= self.memory.len() {
            return Err(FaultKind::MemoryOutOfBounds);
        }
        match self.pop() {
            Ok(v) => {
                self.memory[addr as usize] = v;
                Ok(StepEvent::Advanced)
            },
            Err(kind) => Err(kind),
        }
    }

    /// Carries out `LOAD_IND` or `STORE_IND`: the address is the topmost
    /// word, the value to store the one below it.
    fn execute_indirect(&mut self, instr: Instr) -> (r: Result<StepEvent, FaultKind>)
        requires
            instr is LoadInd || instr is StoreInd,
        ensures
            final(self).carried_out(old(self), instr, r),
    {
        let n: usize = self.stack.len();
        let needs: usize = if matches!(instr, Instr::LoadInd) {
            1
        } else {
            2
        };
        if n < needs {
            return Err(FaultKind::StackUnderflow);
        }
        let addr: Word = self.stack[n - 1];
        if addr < 0 || addr as usize >= self.memory.len() {
            return Err(FaultKind::MemoryOutOfBounds);
        }
        if matches!(instr, Instr::LoadInd) {
            match self.pop() {
                Ok(_) => {
                    let v: Word = self.memory[addr as usize];
                    self.push(v);
                    Ok(StepEvent::Advanced)
                },
                Err(kind) => Err(kind),
            }
        } else {
            match self.pop2() {
                Ok((_, v)) => {
                    self.memory[addr as usize] = v;
                    Ok(StepEvent::Advanced)
                },
                Err(kind) => Err(kind),
            }
        }
    }

    /// Carries out `JZ target` where `on_zero` holds, `JNZ target` where it
    /// does not.
    fn execute_branch(&mut self, target: u16, on_zero: bool) -> (r: Result<StepEvent, FaultKind>)
        ensures
            final(self).carried_out(
                old(self),
                if on_zero {
                    Instr::Jz(target)
                } else {
                    Instr::Jnz(target)
                },
                r,
            ),
    {
        match self.pop() {
            Ok(cond) => {
                if (cond == 0) == on_zero {
                    self.ip = target as usize;
                }
                Ok(StepEvent::Advanced)
            },
            Err(kind) => Err(kind),
        }
    }

    /// Carries out `CALL target`: pushes the offset of the instruction that
    /// follows and jumps.
    fn execute_call(&mut self, target: u16) -> (r: Result<StepEvent, FaultKind>)
        ensures
            final(self).carried_out(old(self), Instr::Call(target), r),
    {
        let ret: Word = return_offset(self.ip);
        self.push(ret);
        self.ip = target as usize;
        Ok(StepEvent::Advanced)
    }

    /// Carries out `RET`: jumps to the popped offset, if it lies within the
    /// program.
    fn execute_ret(&mut self) -> (r: Result<StepEvent, FaultKind>)
        ensures
            final(self).carried_out(old(self), Instr::Ret, r),
    {
        let n: usize = self.stack.len();
        if n < 1 {
            return Err(FaultKind::StackUnderflow);
        }
        let target: Word = self.stack[n - 1];
        if target < 0 || target as usize >= self.program.len() {
            return Err(FaultKind::InvalidReturn);
        }
        match self.pop() {
            Ok(_) => {
                self.ip = target as usize;
                Ok(StepEvent::Advanced)
            },
            Err(kind) => Err(kind),
        }
    }

    /// Carries out `instr`, which was fetched from just before the
    /// instruction pointer. An instruction that faults changes nothing.
    fn execute(&mut self, instr: Instr) -> (r: Result<StepEvent, FaultKind>)
        ensures
            final(self).carried_out(old(self), instr, r),
    {
        match instr {
            Instr::Nop => Ok(StepEvent::Advanced),
            Instr::Push(v) => {
                self.push(v);
                Ok(StepEvent::Advanced)
            },
            Instr::Pop | Instr::Dup | Instr::Swap => self.execute_stack(instr),
            Instr::Add | Instr::Sub | Instr::Mul | Instr::Div => self.execute_arith(instr),
            Instr::Load(addr) => self.execute_load(addr),
            Instr::Store(addr) => self.execute_store(addr),
            Instr::LoadInd | Instr::StoreInd => self.execute_indirect(instr),
            Instr::Jmp(target) => {
                self.ip = target as usize;
                Ok(StepEvent::Advanced)
            },
            Instr::Jz(target) => self.execute_branch(target, true),
            Instr::Jnz(target) => self.execute_branch(target, false),
            Instr::Call(target) => self.execute_call(target),
            Instr::Ret => self.execute_ret(),
            Instr::Print => match self.pop() {
                Ok(v) => Ok(StepEvent::Printed(v)),
                Err(kind) => Err(kind),
            },
            Instr::Halt => {
                self.status = Status::Halted;
                Ok(StepEvent::Halted)
            },
        }
    }

    /// Executes one instruction: `semantics::step` on this machine.
    ///
    /// A fault leaves stack, memory and instruction pointer as they were
    /// before the faulting instruction and stays recorded: every later step
    /// reports it again and changes nothing. The same holds after `HALT`.
    pub fn step(&mut self) -> (event: StepEvent)
        ensures
            final(self).spec_program() == old(self).spec_program(),
            (final(self)@, event) == semantics::step(old(self).spec_program(), old(self)@),
    {
        match self.status {
            Status::Halted => {
                return StepEvent::Halted;
            },
            Status::Faulted(fault) => {
                return StepEvent::Faulted(fault);
            },
            Status::Running => {},
        }
        let start: usize = self.ip;
        let done: Result<StepEvent, FaultKind> = match self.fetch_instr() {
            Ok(instr) => self.execute(instr),
            Err(kind) => Err(kind),
        };
        match done {
            Ok(event) => event,
            Err(kind) => {
                let fault = Fault { kind, ip: start };
                self.ip = start;
                self.status = Status::Faulted(fault);
                StepEvent::Faulted(fault)
            },
        }
    }

    /// Runs the program for at most `max_steps` steps, appending every
    /// printed word to `out`: `semantics::run` on this machine.
    ///
    /// Returns `Halted` or `Faulted` as soon as the machine stops, and
    /// `StepLimit` where `max_steps` instructions were executed and the
    /// machine is still running. A later call goes on from there.
    pub fn run_loop(&mut self, max_steps: u64, out: &mut Vec<Word>) -> (outcome: RunOutcome)
        ensures
            final(self).spec_program() == old(self).spec_program(),
            final(self)@ == semantics::run(
                old(self).spec_program(),
                old(self)@,
                max_steps as nat,
            ).0,
            final(out)@ == old(out)@ + semantics::run(
                old(self).spec_program(),
                old(self)@,
                max_steps as nat,
            ).1,
            outcome == semantics::run(old(self).spec_program(), old(self)@, max_steps as nat).2,
    {
        let ghost program = self.program@;
        let ghost whole = semantics::run(program, self@, max_steps as nat);
        let ghost printed: Seq<Word> = Seq::empty();
        let mut remaining: u64 = max_steps;
        loop
            invariant
                program == old(self).program@,
                whole == semantics::run(program, old(self)@, max_steps as nat),
                self.program@ == program,
                out@ == old(out)@ + printed,
                whole.0 == semantics::run(program, self@, remaining as nat).0,
                whole.1 == printed + semantics::run(program, self@, remaining as nat).1,
                whole.2 == semantics::run(program, self@, remaining as nat).2,
            decreases remaining,
        {
            match self.status {
                Status::Halted => {
                    return RunOutcome::Halted;
                },
                Status::Faulted(fault) => {
                    return RunOutcome::Faulted(fault);
                },
                Status::Running => {},
            }
            if remaining == 0 {
                return RunOutcome::StepLimit;
            }
            let event: StepEvent = self.step();
            match event {
                StepEvent::Printed(v) => {
                    out.push(v);
                },
                _ => {},
            }
            remaining = remaining - 1;
            proof {
                printed = printed + semantics::emitted(event);
            }
        }
    }
}

/// The word that stands for the offset `next` on the stack.
fn return_offset(next: usize) -> (r: Word)
    ensures
        r == return_word(next),
{
    let low: u64 = next as u64 % 0x1_0000_0000;
    if low >= 0x8000_0000 {
        (low as i64 - 0x1_0000_0000) as i32
    } else {
        low as i32
    }
}

/// `b + a`, wrapped to a word.
fn wrapping_sum(b: Word, a: Word) -> (r: Word)
    ensures
        r == wrap(b + a),
{
    b.wrapping_add(a)
}

/// `b - a`, wrapped to a word.
fn wrapping_difference(b: Word, a: Word) -> (r: Word)
    ensures
        r == wrap(b - a),
{
    b.wrapping_sub(a)
}

/// `b * a`, wrapped to a word.
fn wrapping_product(b: Word, a: Word) -> (r: Word)
    ensures
        r == wrap(b * a),
{
    b.wrapping_mul(a)
}

/// `b` divided by a nonzero `a`, rounded toward zero and wrapped to a word.
fn wrapping_quotient(b: Word, a: Word) -> (r: Word)
    requires
        a != 0,
    ensures
        r == wrap(quotient(b as int, a as int)),
{
    match b.checked_div(a) {
        Some(q) => q,
        None => i32::MIN,
    }
}

} // verus!
