//! The instruction set and its binary encoding.
//!
//! An instruction is one opcode byte followed by its operand, if it has one:
//! a 4-byte word for `PUSH`, a 2-byte address or target for the loads, stores,
//! jumps and `CALL`. Operands are little-endian.

use vstd::prelude::*;
use crate::vm::bytes::{
    lemma_u16_roundtrip, lemma_word_roundtrip, u16_at, u16_le, word_at, word_le, Word,
};
use crate::vm::fault::FaultKind;

verus! {

pub const OP_NOP: u8 = 0x00;

pub const OP_PUSH: u8 = 0x01;

pub const OP_POP: u8 = 0x02;

pub const OP_DUP: u8 = 0x03;

pub const OP_SWAP: u8 = 0x04;

pub const OP_ADD: u8 = 0x10;

pub const OP_SUB: u8 = 0x11;

pub const OP_MUL: u8 = 0x12;

pub const OP_DIV: u8 = 0x13;

pub const OP_LOAD: u8 = 0x20;

pub const OP_STORE: u8 = 0x21;

pub const OP_LOAD_IND: u8 = 0x22;

pub const OP_STORE_IND: u8 = 0x23;

pub const OP_JMP: u8 = 0x30;

pub const OP_JZ: u8 = 0x31;

pub const OP_JNZ: u8 = 0x32;

pub const OP_CALL: u8 = 0x40;

pub const OP_RET: u8 = 0x41;

pub const OP_PRINT: u8 = 0x50;

pub const OP_HALT: u8 = 0xFF;

/// One decoded instruction.
#[derive(Clone, Copy, Debug, PartialEq, Eq, Structural)]
pub enum Instr {
    Nop,
    Push(Word),
    Pop,
    Dup,
    Swap,
    Add,
    Sub,
    Mul,
    Div,
    Load(u16),
    Store(u16),
    LoadInd,
    StoreInd,
    Jmp(u16),
    Jz(u16),
    Jnz(u16),
    Call(u16),
    Ret,
    Print,
    Halt,
}

impl Instr {
    /// The byte that identifies the instruction.
    pub open spec fn opcode(self) -> u8 {
        match self {
            Instr::Nop => OP_NOP,
            Instr::Push(_) => OP_PUSH,
            Instr::Pop => OP_POP,
            Instr::Dup => OP_DUP,
            Instr::Swap => OP_SWAP,
            Instr::Add => OP_ADD,
            Instr::Sub => OP_SUB,
            Instr::Mul => OP_MUL,
            Instr::Div => OP_DIV,
            Instr::Load(_) => OP_LOAD,
            Instr::Store(_) => OP_STORE,
            Instr::LoadInd => OP_LOAD_IND,
            Instr::StoreInd => OP_STORE_IND,
            Instr::Jmp(_) => OP_JMP,
            Instr::Jz(_) => OP_JZ,
            Instr::Jnz(_) => OP_JNZ,
            Instr::Call(_) => OP_CALL,
            Instr::Ret => OP_RET,
            Instr::Print => OP_PRINT,
            Instr::Halt => OP_HALT,
        }
    }

    /// The bytes that follow the opcode.
    pub open spec fn operand(self) -> Seq<u8> {
        match self {
            Instr::Push(v) => word_le(v),
            Instr::Load(a) | Instr::Store(a) => u16_le(a),
            Instr::Jmp(t) | Instr::Jz(t) | Instr::Jnz(t) | Instr::Call(t) => u16_le(t),
            _ => Seq::empty(),
        }
    }

    /// The instruction as it stands in a program.
    pub open spec fn encoding(self) -> Seq<u8> {
        seq![self.opcode()] + self.operand()
    }

    /// The number of bytes the instruction takes in a program.
    pub open spec fn width(self) -> nat {
        match self {
            Instr::Push(_) => 5,
            Instr::Load(_) | Instr::Store(_) => 3,
            Instr::Jmp(_) | Instr::Jz(_) | Instr::Jnz(_) | Instr::Call(_) => 3,
            _ => 1,
        }
    }
}

/// The number of operand bytes that follow opcode `op`; `None` where `op` is
/// no opcode.
pub open spec fn operand_width(op: u8) -> Option<nat> {
    if op == OP_PUSH {
        Some(4)
    } else if op == OP_LOAD || op == OP_STORE || op == OP_JMP || op == OP_JZ || op == OP_JNZ || op
        == OP_CALL {
        Some(2)
    } else if op == OP_NOP || op == OP_POP || op == OP_DUP || op == OP_SWAP || op == OP_ADD || op
        == OP_SUB || op == OP_MUL || op == OP_DIV || op == OP_LOAD_IND || op == OP_STORE_IND || op
        == OP_RET || op == OP_PRINT || op == OP_HALT {
        Some(0)
    } else {
        None
    }
}

/// The instruction that opcode `op` makes with the operand found in `program`
/// at offset `at`. Meant for an `op` that is an opcode whose operand lies
/// within the program.
pub open spec fn assemble(op: u8, program: Seq<u8>, at: int) -> Instr {
    if op == OP_NOP {
        Instr::Nop
    } else if op == OP_PUSH {
        Instr::Push(word_at(program, at))
    } else if op == OP_POP {
        Instr::Pop
    } else if op == OP_DUP {
        Instr::Dup
    } else if op == OP_SWAP {
        Instr::Swap
    } else if op == OP_ADD {
        Instr::Add
    } else if op == OP_SUB {
        Instr::Sub
    } else if op == OP_MUL {
        Instr::Mul
    } else if op == OP_DIV {
        Instr::Div
    } else if op == OP_LOAD {
        Instr::Load(u16_at(program, at))
    } else if op == OP_STORE {
        Instr::Store(u16_at(program, at))
    } else if op == OP_LOAD_IND {
        Instr::LoadInd
    } else if op == OP_STORE_IND {
        Instr::StoreInd
    } else if op == OP_JMP {
        Instr::Jmp(u16_at(program, at))
    } else if op == OP_JZ {
        Instr::Jz(u16_at(program, at))
    } else if op == OP_JNZ {
        Instr::Jnz(u16_at(program, at))
    } else if op == OP_CALL {
        Instr::Call(u16_at(program, at))
    } else if op == OP_RET {
        Instr::Ret
    } else if op == OP_PRINT {
        Instr::Print
    } else {
        Instr::Halt
    }
}

/// What a fetch at offset `at` of `program` yields: the instruction that
/// starts there, `TruncatedProgram` where the opcode or part of its operand
/// lies past the end, `UnknownOpcode` where the byte there is no opcode.
pub open spec fn decode(program: Seq<u8>, at: int) -> Result<Instr, FaultKind> {
    if at < 0 || at >= program.len() {
        Err(FaultKind::TruncatedProgram)
    } else {
        match operand_width(program[at]) {
            None => Err(FaultKind::UnknownOpcode),
            Some(n) => if at + 1 + n <= program.len() {
                Ok(assemble(program[at], program, at + 1))
            } else {
                Err(FaultKind::TruncatedProgram)
            },
        }
    }
}

/// An instruction's width is the length of its encoding.
pub proof fn lemma_width_is_encoding_len(instr: Instr)
    ensures
        instr.encoding().len() == instr.width(),
        operand_width(instr.opcode()) == Some(instr.operand().len()),
{
}

/// Wherever an instruction's encoding stands in a program, a fetch at its
/// first byte yields that instruction.
pub proof fn lemma_decode_encoding(before: Seq<u8>, instr: Instr, after: Seq<u8>)
    ensures
        decode(before + instr.encoding() + after, before.len() as int) == Ok::<Instr, FaultKind>(
            instr,
        ),
{
    lemma_width_is_encoding_len(instr);
    match instr {
        Instr::Push(v) => {
            lemma_word_roundtrip(v);
        },
        Instr::Load(a) | Instr::Store(a) | Instr::Jmp(a) | Instr::Jz(a) | Instr::Jnz(a)
        | Instr::Call(a) => {
            lemma_u16_roundtrip(a);
        },
        _ => {},
    }
}

/// A fetch that finds an instruction finds the same one after more bytes
/// are appended to the program.
pub proof fn lemma_decode_extends(program: Seq<u8>, more: Seq<u8>, at: int)
    requires
        decode(program, at) is Ok,
    ensures
        decode(program + more, at) == decode(program, at),
{
    let longer = program + more;
    assert(forall|k: int| 0 <= k < program.len() ==> longer[k] == program[k]);
}

/// The program made of the encodings of `instrs`, one after the other.
pub open spec fn listing(instrs: Seq<Instr>) -> Seq<u8>
    decreases instrs.len(),
{
    if instrs.len() == 0 {
        Seq::empty()
    } else {
        listing(instrs.drop_last()) + instrs.last().encoding()
    }
}

/// In the listing of `instrs`, the instruction of index `i` stands at the
/// offset that the listing of the ones before it fills, and a fetch there
/// yields it.
pub proof fn lemma_decode_listing(instrs: Seq<Instr>, i: int)
    requires
        0 <= i < instrs.len(),
    ensures
        listing(instrs.take(i)).len() + instrs[i].width() <= listing(instrs).len(),
        decode(listing(instrs), listing(instrs.take(i)).len() as int) == Ok::<Instr, FaultKind>(
            instrs[i],
        ),
    decreases instrs.len(),
{
    let front = instrs.drop_last();
    lemma_width_is_encoding_len(instrs.last());
    if i == instrs.len() - 1 {
        assert(instrs.take(i) =~= front);
        lemma_decode_encoding(listing(front), instrs[i], Seq::empty());
        assert(listing(instrs) =~= listing(front) + instrs[i].encoding() + Seq::<u8>::empty());
    } else {
        lemma_decode_listing(front, i);
        assert(front.take(i) =~= instrs.take(i));
        lemma_decode_extends(
            listing(front),
            instrs.last().encoding(),
            listing(front.take(i)).len() as int,
        );
    }
}

} // verus!
