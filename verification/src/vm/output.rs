//! The text form of what a run reports: the line that `PRINT` writes for a
//! word, and the message of a fault.

use vstd::prelude::*;
use crate::vm::bytes::Word;
use crate::vm::fault::{Fault, FaultKind};

verus! {

/// The character that writes the digit `d`, for `d` from 0 to 9.
pub open spec fn digit_char(d: int) -> char {
    ('0' as int + d) as char
}

/// The digits of `n` in base ten, most significant first, without leading
/// zeros; `0` for zero.
pub open spec fn decimal_digits(n: nat) -> Seq<char>
    decreases n,
{
    if n < 10 {
        seq![digit_char(n as int)]
    } else {
        decimal_digits(n / 10).push(digit_char((n % 10) as int))
    }
}

/// The integer `v` in base ten, with a minus sign before a negative one.
pub open spec fn decimal(v: int) -> Seq<char> {
    if v < 0 {
        seq!['-'] + decimal_digits((-v) as nat)
    } else {
        decimal_digits(v as nat)
    }
}

/// The line that `PRINT` writes for the word `v`: its decimal form and a
/// line break.
pub open spec fn output_line(v: Word) -> Seq<char> {
    decimal(v as int).push('\n')
}

/// What a fault of this kind is called in a message.
pub open spec fn kind_text(kind: FaultKind) -> Seq<char> {
    match kind {
        FaultKind::StackUnderflow => "stack underflow"@,
        FaultKind::MemoryOutOfBounds => "memory access out of bounds"@,
        FaultKind::DivideByZero => "divide by zero"@,
        FaultKind::TruncatedProgram => "truncated program"@,
        FaultKind::UnknownOpcode => "unknown opcode"@,
        FaultKind::InvalidReturn => "invalid return"@,
    }
}

/// The message of a fault: what happened, and at which offset.
pub open spec fn fault_message(fault: Fault) -> Seq<char> {
    kind_text(fault.kind) + " at offset "@ + decimal_digits(fault.ip as nat)
}

/// Appends the decimal digits of `n` to `text`.
pub fn push_decimal(text: &mut String, n: u64)
    ensures
        final(text)@ == old(text)@ + decimal_digits(n as nat),
    decreases n,
{
    if n >= 10 {
        push_decimal(text, n / 10);
    }
    let d: u8 = (n % 10) as u8;
    let c: char = (0x30u8 + d) as char;
    text.push(c);
}

/// The line that `PRINT` writes for `v`.
pub fn format_word(v: Word) -> (line: String)
    ensures
        line@ == output_line(v),
{
    let mut line = String::new();
    let magnitude: u64 = if v < 0 {
        line.push('-');
        (-(v as i64)) as u64
    } else {
        v as u64
    };
    push_decimal(&mut line, magnitude);
    line.push('\n');
    line
}

impl Fault {
    /// A message for a person to read: what happened, and at which offset
    /// of the program.
    pub fn message(&self) -> (text: String)
        ensures
            text@ == fault_message(*self),
    {
        let what: &str = match self.kind {
            FaultKind::StackUnderflow => "stack underflow",
            FaultKind::MemoryOutOfBounds => "memory access out of bounds",
            FaultKind::DivideByZero => "divide by zero",
            FaultKind::TruncatedProgram => "truncated program",
            FaultKind::UnknownOpcode => "unknown opcode",
            FaultKind::InvalidReturn => "invalid return",
        };
        let mut text = String::from_str(what);
        text.append(" at offset ");
        push_decimal(&mut text, self.ip as u64);
        text
    }
}

} // verus!
