use ember_vm::vm::encoder::Asm;
use ember_vm::vm::fault::{Fault, FaultKind};
use ember_vm::vm::machine::{Machine, Word};
use ember_vm::vm::output::{format_word, push_decimal};
use ember_vm::vm::semantics::{RunOutcome, Status, StepEvent};

fn run(program: Vec<u8>, memsize: usize, max_steps: u64) -> (Machine, Vec<Word>, RunOutcome) {
    let mut machine = Machine::new(program, memsize);
    let mut out = Vec::new();
    let outcome = machine.run_loop(max_steps, &mut out);
    (machine, out, outcome)
}

#[test]
fn new_machine_starts_at_zero_with_zeroed_memory() {
    let m = Machine::new(vec![0xFF], 4);
    assert_eq!(m.ip(), 0);
    assert!(m.stack().is_empty());
    assert_eq!(m.memory(), &vec![0, 0, 0, 0]);
    assert_eq!(m.status(), Status::Running);
    assert!(!m.is_halted());
    assert_eq!(m.program(), &vec![0xFF]);
}

#[test]
fn push_add_print_halt_prints_seven() {
    let mut a = Asm::new();
    a.push_i32(3);
    a.push_i32(4);
    a.add();
    a.print();
    a.halt();
    let (m, out, outcome) = run(a.finish(), 0, 100);
    assert_eq!(out, vec![7]);
    assert_eq!(outcome, RunOutcome::Halted);
    assert_eq!(m.status(), Status::Halted);
    assert!(m.is_halted());
    assert!(m.stack().is_empty());
}

#[test]
fn divide_by_zero_faults_at_the_div_offset() {
    let mut a = Asm::new();
    a.push_i32(10);
    a.push_i32(0);
    a.div();
    a.halt();
    let (m, out, outcome) = run(a.finish(), 0, 100);
    let fault = Fault { kind: FaultKind::DivideByZero, ip: 10 };
    assert_eq!(outcome, RunOutcome::Faulted(fault));
    assert_eq!(m.status(), Status::Faulted(fault));
    assert_eq!(m.ip(), 10);
    assert_eq!(m.stack(), &vec![10, 0]);
    assert!(out.is_empty());
    assert!(m.is_halted());
}

#[test]
fn divide_by_zero_faults_for_any_dividend_sign() {
    for dividend in [-7, 0, 7, i32::MIN, i32::MAX] {
        let mut a = Asm::new();
        a.push_i32(dividend);
        a.push_i32(0);
        a.div();
        let (_, _, outcome) = run(a.finish(), 0, 100);
        assert_eq!(
            outcome,
            RunOutcome::Faulted(Fault { kind: FaultKind::DivideByZero, ip: 10 })
        );
    }
}

#[test]
fn jump_to_self_runs_into_the_step_limit() {
    let mut a = Asm::new();
    a.jmp(0);
    let (m, out, outcome) = run(a.finish(), 0, 1000);
    assert_eq!(outcome, RunOutcome::StepLimit);
    assert_eq!(m.status(), Status::Running);
    assert!(!m.is_halted());
    assert_eq!(m.ip(), 0);
    assert!(out.is_empty());
}

#[test]
fn run_with_no_budget_executes_nothing() {
    let mut a = Asm::new();
    a.push_i32(1);
    a.halt();
    let (m, _, outcome) = run(a.finish(), 0, 0);
    assert_eq!(outcome, RunOutcome::StepLimit);
    assert_eq!(m.ip(), 0);
    assert!(m.stack().is_empty());
}

#[test]
fn run_goes_on_after_a_step_limit() {
    let mut a = Asm::new();
    a.push_i32(5);
    a.print();
    a.halt();
    let mut m = Machine::new(a.finish(), 0);
    let mut out = vec![99];
    assert_eq!(m.run_loop(1, &mut out), RunOutcome::StepLimit);
    assert_eq!(m.stack(), &vec![5]);
    assert_eq!(m.run_loop(10, &mut out), RunOutcome::Halted);
    assert_eq!(out, vec![99, 5]);
    assert_eq!(m.run_loop(10, &mut out), RunOutcome::Halted);
    assert_eq!(out, vec![99, 5]);
}

#[test]
fn add_zero_is_identity() {
    for v in [0, 1, -1, 42, i32::MIN, i32::MAX] {
        let mut a = Asm::new();
        a.push_i32(v);
        a.push_i32(0);
        a.add();
        a.halt();
        let (m, _, outcome) = run(a.finish(), 0, 100);
        assert_eq!(outcome, RunOutcome::Halted);
        assert_eq!(m.stack(), &vec![v]);
    }
}

#[test]
fn add_then_sub_wraps_around() {
    let mut a = Asm::new();
    a.push_i32(i32::MAX);
    a.push_i32(1);
    a.add();
    a.dup();
    a.print();
    a.push_i32(1);
    a.sub();
    a.print();
    a.halt();
    let (_, out, outcome) = run(a.finish(), 0, 100);
    assert_eq!(outcome, RunOutcome::Halted);
    assert_eq!(out, vec![i32::MIN, i32::MAX]);
}

#[test]
fn arithmetic_takes_the_lower_word_as_left_operand() {
    let mut a = Asm::new();
    a.push_i32(10);
    a.push_i32(3);
    a.sub();
    a.print();
    a.push_i32(6);
    a.push_i32(7);
    a.mul();
    a.print();
    a.push_i32(-7);
    a.push_i32(2);
    a.div();
    a.print();
    a.push_i32(7);
    a.push_i32(-2);
    a.div();
    a.print();
    a.push_i32(-7);
    a.push_i32(-2);
    a.div();
    a.print();
    a.halt();
    let (_, out, outcome) = run(a.finish(), 0, 100);
    assert_eq!(outcome, RunOutcome::Halted);
    assert_eq!(out, vec![7, 42, -3, -3, 3]);
}

#[test]
fn multiplication_and_division_wrap() {
    let mut a = Asm::new();
    a.push_i32(0x10000);
    a.push_i32(0x10000);
    a.mul();
    a.print();
    a.push_i32(i32::MAX);
    a.push_i32(2);
    a.mul();
    a.print();
    a.push_i32(i32::MIN);
    a.push_i32(-1);
    a.div();
    a.print();
    a.halt();
    let (_, out, outcome) = run(a.finish(), 0, 100);
    assert_eq!(outcome, RunOutcome::Halted);
    assert_eq!(out, vec![0, -2, i32::MIN]);
}

#[test]
fn push_dup_then_pop() {
    let mut a = Asm::new();
    a.push_i32(1);
    a.push_i32(9);
    a.dup();
    let mut m = Machine::new(a.finish(), 0);
    let mut out = Vec::new();
    assert_eq!(m.run_loop(3, &mut out), RunOutcome::StepLimit);
    assert_eq!(m.stack(), &vec![1, 9, 9]);

    let mut a = Asm::new();
    a.push_i32(1);
    a.push_i32(9);
    a.dup();
    a.pop();
    a.halt();
    let (m, _, outcome) = run(a.finish(), 0, 100);
    assert_eq!(outcome, RunOutcome::Halted);
    assert_eq!(m.stack(), &vec![1, 9]);
}

#[test]
fn push_push_swap_reverses_the_top_two() {
    let mut a = Asm::new();
    a.push_i32(0);
    a.push_i32(1);
    a.push_i32(2);
    a.swap();
    a.halt();
    let (m, _, outcome) = run(a.finish(), 0, 100);
    assert_eq!(outcome, RunOutcome::Halted);
    assert_eq!(m.stack(), &vec![0, 2, 1]);
}

#[test]
fn swap_needs_two_words() {
    let mut a = Asm::new();
    a.push_i32(1);
    a.swap();
    let (m, _, outcome) = run(a.finish(), 0, 100);
    assert_eq!(
        outcome,
        RunOutcome::Faulted(Fault { kind: FaultKind::StackUnderflow, ip: 5 })
    );
    assert_eq!(m.stack(), &vec![1]);
}

#[test]
fn pop_dup_and_print_fault_on_an_empty_stack() {
    for op in [0x02u8, 0x03, 0x50, 0x10, 0x11, 0x12, 0x13, 0x22, 0x23, 0x41] {
        let (m, out, outcome) = run(vec![0x00, op], 4, 100);
        assert_eq!(
            outcome,
            RunOutcome::Faulted(Fault { kind: FaultKind::StackUnderflow, ip: 1 })
        );
        assert_eq!(m.ip(), 1);
        assert!(out.is_empty());
    }
}

#[test]
fn underflow_comes_before_divide_by_zero() {
    let mut a = Asm::new();
    a.push_i32(0);
    a.div();
    let (m, _, outcome) = run(a.finish(), 0, 100);
    assert_eq!(
        outcome,
        RunOutcome::Faulted(Fault { kind: FaultKind::StackUnderflow, ip: 5 })
    );
    assert_eq!(m.stack(), &vec![0]);
}

#[test]
fn load_past_memory_faults() {
    let mut a = Asm::new();
    a.load(4);
    a.halt();
    let (m, _, outcome) = run(a.finish(), 4, 100);
    assert_eq!(
        outcome,
        RunOutcome::Faulted(Fault { kind: FaultKind::MemoryOutOfBounds, ip: 0 })
    );
    assert!(m.stack().is_empty());

    let mut a = Asm::new();
    a.load(65535);
    let (_, _, outcome) = run(a.finish(), 65535, 100);
    assert_eq!(
        outcome,
        RunOutcome::Faulted(Fault { kind: FaultKind::MemoryOutOfBounds, ip: 0 })
    );

    let mut a = Asm::new();
    a.load(0);
    let (_, _, outcome) = run(a.finish(), 0, 100);
    assert_eq!(
        outcome,
        RunOutcome::Faulted(Fault { kind: FaultKind::MemoryOutOfBounds, ip: 0 })
    );
}

#[test]
fn store_then_load_uses_two_byte_addresses() {
    let mut a = Asm::new();
    a.push_i32(-5);
    a.store(300);
    a.load(300);
    a.load(299);
    a.halt();
    let (m, _, outcome) = run(a.finish(), 301, 100);
    assert_eq!(outcome, RunOutcome::Halted);
    assert_eq!(m.stack(), &vec![-5, 0]);
    assert_eq!(m.memory()[300], -5);
    assert_eq!(m.memory().len(), 301);
}

#[test]
fn store_past_memory_faults_and_keeps_the_stack() {
    let mut a = Asm::new();
    a.push_i32(1);
    a.store(2);
    let (m, _, outcome) = run(a.finish(), 2, 100);
    assert_eq!(
        outcome,
        RunOutcome::Faulted(Fault { kind: FaultKind::MemoryOutOfBounds, ip: 5 })
    );
    assert_eq!(m.stack(), &vec![1]);
    assert_eq!(m.memory(), &vec![0, 0]);
}

#[test]
fn store_on_an_empty_stack_underflows_first() {
    let mut a = Asm::new();
    a.store(9);
    let (_, _, outcome) = run(a.finish(), 2, 100);
    assert_eq!(
        outcome,
        RunOutcome::Faulted(Fault { kind: FaultKind::StackUnderflow, ip: 0 })
    );
}

#[test]
fn indirect_store_and_load() {
    let mut a = Asm::new();
    a.push_i32(77);
    a.push_i32(3);
    a.u8(0x23);
    a.push_i32(3);
    a.u8(0x22);
    a.halt();
    let (m, _, outcome) = run(a.finish(), 4, 100);
    assert_eq!(outcome, RunOutcome::Halted);
    assert_eq!(m.memory(), &vec![0, 0, 0, 77]);
    assert_eq!(m.stack(), &vec![77]);
}

#[test]
fn indirect_access_faults_on_bad_addresses() {
    for addr in [-1, 4, i32::MIN, i32::MAX] {
        let mut a = Asm::new();
        a.push_i32(addr);
        a.u8(0x22);
        let (m, _, outcome) = run(a.finish(), 4, 100);
        assert_eq!(
            outcome,
            RunOutcome::Faulted(Fault { kind: FaultKind::MemoryOutOfBounds, ip: 5 })
        );
        assert_eq!(m.stack(), &vec![addr]);

        let mut a = Asm::new();
        a.push_i32(1);
        a.push_i32(addr);
        a.u8(0x23);
        let (m, _, outcome) = run(a.finish(), 4, 100);
        assert_eq!(
            outcome,
            RunOutcome::Faulted(Fault { kind: FaultKind::MemoryOutOfBounds, ip: 10 })
        );
        assert_eq!(m.stack(), &vec![1, addr]);
        assert_eq!(m.memory(), &vec![0, 0, 0, 0]);
    }
}

#[test]
fn indirect_store_with_one_word_underflows() {
    let mut a = Asm::new();
    a.push_i32(0);
    a.u8(0x23);
    let (_, _, outcome) = run(a.finish(), 4, 100);
    assert_eq!(
        outcome,
        RunOutcome::Faulted(Fault { kind: FaultKind::StackUnderflow, ip: 5 })
    );
}

#[test]
fn conditional_jumps_pop_their_condition() {
    // 0: PUSH 0   5: JZ 9   8: HALT   9: PUSH 1   14: JNZ 18   17: HALT
    // 18: PUSH 0  23: JNZ 0  26: PUSH 5  31: JZ 0  34: HALT
    let mut a = Asm::new();
    a.push_i32(0);
    a.jz(9);
    a.halt();
    a.push_i32(1);
    a.jnz(18);
    a.halt();
    a.push_i32(0);
    a.jnz(0);
    a.push_i32(5);
    a.jz(0);
    a.halt();
    let (m, _, outcome) = run(a.finish(), 0, 100);
    assert_eq!(outcome, RunOutcome::Halted);
    assert_eq!(m.ip(), 35);
    assert!(m.stack().is_empty());
}

#[test]
fn call_then_ret_comes_back_after_the_call() {
    // 0: CALL 5   3: PRINT   4: HALT   5: PUSH 8   10: SWAP   11: RET
    let mut a = Asm::new();
    a.call(5);
    a.print();
    a.halt();
    a.push_i32(8);
    a.swap();
    a.ret();
    let mut m = Machine::new(a.finish(), 0);
    assert_eq!(m.step(), StepEvent::Advanced);
    assert_eq!(m.ip(), 5);
    assert_eq!(m.stack(), &vec![3]);
    assert_eq!(m.step(), StepEvent::Advanced);
    assert_eq!(m.step(), StepEvent::Advanced);
    assert_eq!(m.ip(), 11);
    assert_eq!(m.stack(), &vec![8, 3]);
    assert_eq!(m.step(), StepEvent::Advanced);
    assert_eq!(m.ip(), 3);
    assert_eq!(m.stack(), &vec![8]);
    assert_eq!(m.step(), StepEvent::Printed(8));
    assert_eq!(m.step(), StepEvent::Halted);
    assert_eq!(m.ip(), 5);
}

#[test]
fn ret_outside_the_program_is_an_invalid_return() {
    for target in [-1, 6, 7, i32::MAX, i32::MIN] {
        let mut a = Asm::new();
        a.push_i32(target);
        a.ret();
        let (m, _, outcome) = run(a.finish(), 0, 100);
        assert_eq!(
            outcome,
            RunOutcome::Faulted(Fault { kind: FaultKind::InvalidReturn, ip: 5 })
        );
        assert_eq!(m.stack(), &vec![target]);
        assert_eq!(m.ip(), 5);
    }
    let mut a = Asm::new();
    a.push_i32(6);
    a.ret();
    a.halt();
    let (m, _, outcome) = run(a.finish(), 0, 100);
    assert_eq!(outcome, RunOutcome::Halted);
    assert!(m.stack().is_empty());
}

#[test]
fn running_off_the_end_is_a_truncated_program() {
    let (_, _, outcome) = run(vec![], 0, 100);
    assert_eq!(
        outcome,
        RunOutcome::Faulted(Fault { kind: FaultKind::TruncatedProgram, ip: 0 })
    );
    let (_, _, outcome) = run(vec![0x00, 0x00], 0, 100);
    assert_eq!(
        outcome,
        RunOutcome::Faulted(Fault { kind: FaultKind::TruncatedProgram, ip: 2 })
    );
}

#[test]
fn cut_off_operands_are_a_truncated_program() {
    for program in [
        vec![0x00, 0x01, 1, 2, 3],
        vec![0x00, 0x20, 1],
        vec![0x00, 0x21],
        vec![0x00, 0x30, 0],
        vec![0x00, 0x31, 0],
        vec![0x00, 0x32],
        vec![0x00, 0x40, 9],
    ] {
        let (m, _, outcome) = run(program, 4, 100);
        assert_eq!(
            outcome,
            RunOutcome::Faulted(Fault { kind: FaultKind::TruncatedProgram, ip: 1 })
        );
        assert_eq!(m.ip(), 1);
    }
}

#[test]
fn jump_past_the_end_faults_at_the_target() {
    let mut a = Asm::new();
    a.jmp(500);
    let (m, _, outcome) = run(a.finish(), 0, 100);
    assert_eq!(
        outcome,
        RunOutcome::Faulted(Fault { kind: FaultKind::TruncatedProgram, ip: 500 })
    );
    assert_eq!(m.ip(), 500);
}

#[test]
fn unknown_opcodes_fault() {
    for op in [0x05u8, 0x0F, 0x14, 0x24, 0x33, 0x42, 0x51, 0x80, 0xFE] {
        let (m, _, outcome) = run(vec![0x00, op, 0, 0, 0, 0], 4, 100);
        assert_eq!(
            outcome,
            RunOutcome::Faulted(Fault { kind: FaultKind::UnknownOpcode, ip: 1 })
        );
        assert_eq!(m.ip(), 1);
    }
}

#[test]
fn a_fault_is_terminal() {
    let mut m = Machine::new(vec![0x02, 0xFF], 0);
    let fault = Fault { kind: FaultKind::StackUnderflow, ip: 0 };
    assert_eq!(m.step(), StepEvent::Faulted(fault));
    assert_eq!(m.step(), StepEvent::Faulted(fault));
    let mut out = Vec::new();
    assert_eq!(m.run_loop(10, &mut out), RunOutcome::Faulted(fault));
    assert_eq!(m.ip(), 0);
    assert!(m.is_halted());
}

#[test]
fn nop_only_advances() {
    let mut m = Machine::new(vec![0x00, 0xFF], 1);
    assert_eq!(m.step(), StepEvent::Advanced);
    assert_eq!(m.ip(), 1);
    assert!(m.stack().is_empty());
    assert_eq!(m.memory(), &vec![0]);
    assert_eq!(m.step(), StepEvent::Halted);
    assert_eq!(m.ip(), 2);
    assert_eq!(m.step(), StepEvent::Halted);
    assert_eq!(m.ip(), 2);
}

#[test]
fn print_emits_in_order() {
    let mut a = Asm::new();
    a.push_i32(1);
    a.push_i32(-2);
    a.push_i32(3);
    a.print();
    a.print();
    a.print();
    a.halt();
    let (_, out, _) = run(a.finish(), 0, 100);
    assert_eq!(out, vec![3, -2, 1]);
}

#[test]
fn countdown_loop() {
    // 0: PUSH 3   5: DUP   6: PRINT   7: PUSH 1   12: SUB   13: DUP   14: JNZ 5   17: HALT
    let mut a = Asm::new();
    a.push_i32(3);
    a.dup();
    a.print();
    a.push_i32(1);
    a.sub();
    a.dup();
    a.jnz(5);
    a.halt();
    let (m, out, outcome) = run(a.finish(), 0, 1000);
    assert_eq!(outcome, RunOutcome::Halted);
    assert_eq!(out, vec![3, 2, 1]);
    assert_eq!(m.stack(), &vec![0]);
}

#[test]
fn print_lines_are_decimal_with_a_line_break() {
    assert_eq!(format_word(7), "7\n");
    assert_eq!(format_word(0), "0\n");
    assert_eq!(format_word(-1), "-1\n");
    assert_eq!(format_word(10), "10\n");
    assert_eq!(format_word(1_000_000), "1000000\n");
    assert_eq!(format_word(i32::MAX), "2147483647\n");
    assert_eq!(format_word(i32::MIN), "-2147483648\n");
    for v in [-99999, -100, -10, -9, 9, 99, 100, 101, 12345] {
        assert_eq!(format_word(v), format!("{}\n", v));
    }
}

#[test]
fn push_decimal_appends_digits() {
    let mut s = String::from("n=");
    push_decimal(&mut s, 0);
    push_decimal(&mut s, 18446744073709551615);
    assert_eq!(s, "n=018446744073709551615");
}

#[test]
fn fault_messages_name_the_kind_and_the_offset() {
    let at = |kind, ip| Fault { kind, ip }.message();
    assert_eq!(at(FaultKind::StackUnderflow, 0), "stack underflow at offset 0");
    assert_eq!(at(FaultKind::MemoryOutOfBounds, 5), "memory access out of bounds at offset 5");
    assert_eq!(at(FaultKind::DivideByZero, 10), "divide by zero at offset 10");
    assert_eq!(at(FaultKind::TruncatedProgram, 65535), "truncated program at offset 65535");
    assert_eq!(at(FaultKind::UnknownOpcode, 1), "unknown opcode at offset 1");
    assert_eq!(at(FaultKind::InvalidReturn, 123), "invalid return at offset 123");
}

#[test]
fn arithmetic_agrees_with_wrapping_operations() {
    let values = [
        i32::MIN,
        i32::MIN + 1,
        -65536,
        -46341,
        -7,
        -2,
        -1,
        0,
        1,
        2,
        7,
        46341,
        65536,
        i32::MAX - 1,
        i32::MAX,
    ];
    for b in values {
        for a in values {
            let mut e = Asm::new();
            e.push_i32(b);
            e.push_i32(a);
            e.add();
            e.print();
            e.push_i32(b);
            e.push_i32(a);
            e.sub();
            e.print();
            e.push_i32(b);
            e.push_i32(a);
            e.mul();
            e.print();
            e.push_i32(b);
            e.push_i32(a);
            e.div();
            e.print();
            e.halt();
            let (_, out, outcome) = run(e.finish(), 0, 100);
            let sums = vec![b.wrapping_add(a), b.wrapping_sub(a), b.wrapping_mul(a)];
            if a == 0 {
                assert_eq!(
                    outcome,
                    RunOutcome::Faulted(Fault { kind: FaultKind::DivideByZero, ip: 46 })
                );
                assert_eq!(out, sums);
            } else {
                assert_eq!(outcome, RunOutcome::Halted);
                assert_eq!(out[..3], sums[..]);
                assert_eq!(out[3], b.wrapping_div(a));
            }
        }
    }
}

#[test]
fn call_pushes_the_offset_after_itself() {
    let mut prefix = Asm::new();
    for _ in 0..300 {
        prefix.u8(0x00);
    }
    prefix.call(0);
    let mut m = Machine::new(prefix.finish(), 0);
    let mut out = Vec::new();
    assert_eq!(m.run_loop(301, &mut out), RunOutcome::StepLimit);
    assert_eq!(m.stack(), &vec![303]);
    assert_eq!(m.ip(), 0);
}

#[test]
fn a_call_at_the_end_cannot_be_returned_to() {
    // 0: JMP 4   3: RET   4: CALL 3
    let mut a = Asm::new();
    a.jmp(4);
    a.ret();
    a.call(3);
    let (m, _, outcome) = run(a.finish(), 0, 100);
    assert_eq!(
        outcome,
        RunOutcome::Faulted(Fault { kind: FaultKind::InvalidReturn, ip: 3 })
    );
    assert_eq!(m.stack(), &vec![7]);
}
