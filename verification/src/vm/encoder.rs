//! The encoder: an append-only builder of programs.
//!
//! Each method appends one instruction in its binary form. Nothing is
//! checked: a jump may name any offset, a load any address. What is wrong
//! with a program shows when it runs.

use vstd::prelude::*;
use crate::vm::bytes::{encode_u16, encode_word, u16_le, word_le, Word};
use crate::vm::opcode::{
    Instr, OP_ADD, OP_CALL, OP_DIV, OP_DUP, OP_HALT, OP_JMP, OP_JNZ, OP_JZ, OP_LOAD, OP_MUL,
    OP_POP, OP_PRINT, OP_PUSH, OP_RET, OP_STORE, OP_SUB, OP_SWAP,
};

verus! {

/// A program under construction.
pub struct Asm {
    code: Vec<u8>,
}

impl View for Asm {
    type V = Seq<u8>;

    /// The bytes emitted so far.
    closed spec fn view(&self) -> Seq<u8> {
        self.code@
    }
}

impl Asm {
    /// An encoder that has emitted nothing.
    pub fn new() -> (encoder: Asm)
        ensures
            encoder@ == Seq::<u8>::empty(),
    {
        Asm { code: Vec::new() }
    }

    /// Appends raw bytes.
    pub fn bytes(&mut self, b: &[u8])
        ensures
            final(self)@ == old(self)@ + b@,
    {
        let mut i: usize = 0;
        while i < b.len()
            invariant
                i <= b.len(),
                self.code@ == old(self).code@ + b@.take(i as int),
            decreases b.len() - i,
        {
            self.code.push(b[i]);
            i += 1;
        }
    }

    /// Appends one raw byte.
    pub fn u8(&mut self, v: u8)
        ensures
            final(self)@ == old(self)@.push(v),
    {
        self.code.push(v);
    }

    /// Appends a 16-bit operand, low byte first.
    pub fn u16(&mut self, v: u16)
        ensures
            final(self)@ == old(self)@ + u16_le(v),
    {
        let b = encode_u16(v);
        self.code.push(b[0]);
        self.code.push(b[1]);
    }

    /// Appends a word immediate, low byte first.
    pub fn i32(&mut self, v: Word)
        ensures
            final(self)@ == old(self)@ + word_le(v),
    {
        let b = encode_word(v);
        self.code.push(b[0]);
        self.code.push(b[1]);
        self.code.push(b[2]);
        self.code.push(b[3]);
    }

    /// Appends `PUSH v`.
    pub fn push_i32(&mut self, v: Word)
        ensures
            final(self)@ == old(self)@ + Instr::Push(v).encoding(),
    {
        self.u8(OP_PUSH);
        self.i32(v);
    }

    /// Appends `POP`.
    pub fn pop(&mut self)
        ensures
            final(self)@ == old(self)@ + Instr::Pop.encoding(),
    {
        self.u8(OP_POP);
    }

    /// Appends `DUP`.
    pub fn dup(&mut self)
        ensures
            final(self)@ == old(self)@ + Instr::Dup.encoding(),
    {
        self.u8(OP_DUP);
    }

    /// Appends `SWAP`.
    pub fn swap(&mut self)
        ensures
            final(self)@ == old(self)@ + Instr::Swap.encoding(),
    {
        self.u8(OP_SWAP);
    }

    /// Appends `ADD`.
    pub fn add(&mut self)
        ensures
            final(self)@ == old(self)@ + Instr::Add.encoding(),
    {
        self.u8(OP_ADD);
    }

    /// Appends `SUB`.
    pub fn sub(&mut self)
        ensures
            final(self)@ == old(self)@ + Instr::Sub.encoding(),
    {
        self.u8(OP_SUB);
    }

    /// Appends `MUL`.
    pub fn mul(&mut self)
        ensures
            final(self)@ == old(self)@ + Instr::Mul.encoding(),
    {
        self.u8(OP_MUL);
    }

    /// Appends `DIV`.
    pub fn div(&mut self)
        ensures
            final(self)@ == old(self)@ + Instr::Div.encoding(),
    {
        self.u8(OP_DIV);
    }

    /// Appends `LOAD addr`.
    pub fn load(&mut self, addr: u16)
        ensures
            final(self)@ == old(self)@ + Instr::Load(addr).encoding(),
    {
        self.u8(OP_LOAD);
        self.u16(addr);
    }

    /// Appends `STORE addr`.
    pub fn store(&mut self, addr: u16)
        ensures
            final(self)@ == old(self)@ + Instr::Store(addr).encoding(),
    {
        self.u8(OP_STORE);
        self.u16(addr);
    }

    /// Appends `JMP target`.
    pub fn jmp(&mut self, target: u16)
        ensures
            final(self)@ == old(self)@ + Instr::Jmp(target).encoding(),
    {
        self.u8(OP_JMP);
        self.u16(target);
    }

    /// Appends `JZ target`.
    pub fn jz(&mut self, target: u16)
        ensures
            final(self)@ == old(self)@ + Instr::Jz(target).encoding(),
    {
        self.u8(OP_JZ);
        self.u16(target);
    }

    /// Appends `JNZ target`.
    pub fn jnz(&mut self, target: u16)
        ensures
            final(self)@ == old(self)@ + Instr::Jnz(target).encoding(),
    {
        self.u8(OP_JNZ);
        self.u16(target);
    }

    /// Appends `CALL target`.
    pub fn call(&mut self, target: u16)
        ensures
            final(self)@ == old(self)@ + Instr::Call(target).encoding(),
    {
        self.u8(OP_CALL);
        self.u16(target);
    }

    /// Appends `RET`.
    pub fn ret(&mut self)
        ensures
            final(self)@ == old(self)@ + Instr::Ret.encoding(),
    {
        self.u8(OP_RET);
    }

    /// Appends `PRINT`.
    pub fn print(&mut self)
        ensures
            final(self)@ == old(self)@ + Instr::Print.encoding(),
    {
        self.u8(OP_PRINT);
    }

    /// Appends `HALT`.
    pub fn halt(&mut self)
        ensures
            final(self)@ == old(self)@ + Instr::Halt.encoding(),
    {
        self.u8(OP_HALT);
    }

    /// Ends construction and hands out the program.
    pub fn finish(self) -> (program: Vec<u8>)
        ensures
            program@ == self@,
    {
        self.code
    }
}

} // verus!
