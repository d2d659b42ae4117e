use ironjdk::disassembler::{disassemble_code, DisassemblerError};
use ironjdk::instruction::Instruction;

#[test]
fn decodes_sipush_and_ireturn_with_offsets() {
    let bytes: Vec<u8> = vec![0x11, 0x00, 0x07, 0xac];
    let decoded = disassemble_code(&bytes).unwrap();
    assert_eq!(decoded.len(), 2);
    assert_eq!(decoded[0].index, 0);
    assert!(matches!(decoded[0].instruction, Instruction::Sipush { value: 7 }));
    assert_eq!(decoded[1].index, 3);
    assert!(matches!(decoded[1].instruction, Instruction::Ireturn));
}

#[test]
fn decodes_bipush_sign_extended() {
    let bytes: Vec<u8> = vec![0x10, 0xff, 0xb1];
    let decoded = disassemble_code(&bytes).unwrap();
    assert!(matches!(decoded[0].instruction, Instruction::Bipush { byte: -1 }));
    assert!(matches!(decoded[1].instruction, Instruction::Return));
}

#[test]
fn decodes_negative_branch_offset() {
    let bytes: Vec<u8> = vec![0x9f, 0xff, 0xfb];
    let decoded = disassemble_code(&bytes).unwrap();
    assert!(matches!(decoded[0].instruction, Instruction::IfIcmpeq { branch_offset: -5 }));
}

#[test]
fn decodes_wide_constant_pool_index() {
    let bytes: Vec<u8> = vec![0xb6, 0x01, 0x02];
    let decoded = disassemble_code(&bytes).unwrap();
    assert!(matches!(decoded[0].instruction, Instruction::Invokevirtual { index: 0x0102 }));
}

#[test]
fn decodes_iinc_signed_constant() {
    let bytes: Vec<u8> = vec![0x84, 0x01, 0xff];
    let decoded = disassemble_code(&bytes).unwrap();
    assert!(matches!(decoded[0].instruction, Instruction::Iinc { index: 1, constant: -1 }));
}

#[test]
fn truncated_operand_reports_end_of_code() {
    let bytes: Vec<u8> = vec![0x11, 0x00];
    assert!(matches!(disassemble_code(&bytes), Err(DisassemblerError::EndOfCode)));
}

#[test]
fn unsupported_opcode_is_reported() {
    let bytes: Vec<u8> = vec![0xca];
    assert!(matches!(disassemble_code(&bytes), Err(DisassemblerError::InvalidOpcode(0xca))));
}

#[test]
fn over_long_stream_is_rejected() {
    let bytes: Vec<u8> = vec![0x00; 0x10000];
    assert!(matches!(disassemble_code(&bytes), Err(DisassemblerError::CodeTooLong)));
}

#[test]
fn empty_stream_decodes_to_nothing() {
    let bytes: Vec<u8> = Vec::new();
    let decoded = disassemble_code(&bytes).unwrap();
    assert_eq!(decoded.len(), 0);
}

#[test]
fn offsets_accumulate_instruction_sizes() {
    // iconst_0 (1), istore_0 (1), iload_0 (1), sipush 5 (3), iadd (1), ireturn (1)
    let bytes: Vec<u8> = vec![0x03, 0x3b, 0x1a, 0x11, 0x00, 0x05, 0x60, 0xac];
    let decoded = disassemble_code(&bytes).unwrap();
    let offsets: Vec<u16> = decoded.iter().map(|t| t.index).collect();
    assert_eq!(offsets, vec![0, 1, 2, 3, 6, 7]);
}
