use ember_vm::vm::bytes::{decode_u16, decode_word, encode_u16, encode_word};
use ember_vm::vm::encoder::Asm;

#[test]
fn new_encoder_is_empty() {
    assert_eq!(Asm::new().finish(), Vec::<u8>::new());
}

#[test]
fn single_byte_instructions() {
    let mut a = Asm::new();
    a.pop();
    a.dup();
    a.swap();
    a.add();
    a.sub();
    a.mul();
    a.div();
    a.ret();
    a.print();
    a.halt();
    assert_eq!(
        a.finish(),
        vec![0x02, 0x03, 0x04, 0x10, 0x11, 0x12, 0x13, 0x41, 0x50, 0xFF]
    );
}

#[test]
fn push_is_opcode_and_four_little_endian_bytes() {
    let mut a = Asm::new();
    a.push_i32(0x1234_5678);
    a.push_i32(-2);
    a.push_i32(i32::MIN);
    assert_eq!(
        a.finish(),
        vec![
            0x01, 0x78, 0x56, 0x34, 0x12, 0x01, 0xFE, 0xFF, 0xFF, 0xFF, 0x01, 0x00, 0x00, 0x00,
            0x80
        ]
    );
}

#[test]
fn addresses_and_targets_are_two_little_endian_bytes() {
    let mut a = Asm::new();
    a.load(0x0102);
    a.store(0xFFFF);
    a.jmp(0);
    a.jz(0x0100);
    a.jnz(0x00FF);
    a.call(0xABCD);
    assert_eq!(
        a.finish(),
        vec![
            0x20, 0x02, 0x01, 0x21, 0xFF, 0xFF, 0x30, 0x00, 0x00, 0x31, 0x00, 0x01, 0x32, 0xFF,
            0x00, 0x40, 0xCD, 0xAB
        ]
    );
}

#[test]
fn raw_emitters_append() {
    let mut a = Asm::new();
    a.u8(0x22);
    a.u16(0x1234);
    a.i32(-1);
    a.bytes(&[9, 8, 7]);
    a.bytes(&[]);
    assert_eq!(
        a.finish(),
        vec![0x22, 0x34, 0x12, 0xFF, 0xFF, 0xFF, 0xFF, 9, 8, 7]
    );
}

#[test]
fn operand_codecs_agree_with_std() {
    for v in [0u16, 1, 255, 256, 0x1234, u16::MAX] {
        assert_eq!(encode_u16(v), v.to_le_bytes());
        let b = v.to_le_bytes();
        assert_eq!(decode_u16(b[0], b[1]), v);
    }
    for v in [0i32, 1, -1, 255, 256, 0x1234_5678, -0x1234_5678, i32::MIN, i32::MAX] {
        assert_eq!(encode_word(v), v.to_le_bytes());
        let b = v.to_le_bytes();
        assert_eq!(decode_word(b[0], b[1], b[2], b[3]), v);
    }
}
