//! Decoding a raw code-attribute byte stream into tagged instructions.

use vstd::prelude::*;
use crate::instruction::{Instruction, TaggedInstruction};

verus! {

/// Why a code stream failed to decode.
#[derive(Clone, Copy, Debug, PartialEq, Eq, Structural)]
pub enum DisassemblerError {
    EndOfCode,
    InvalidOpcode(u8),
    CodeTooLong,
}

/// The big-endian 16-bit value assembled from two bytes.
pub open spec fn be_u16(b1: u8, b2: u8) -> u16 {
    ((b1 as int) * 256 + (b2 as int)) as u16
}

/// The instruction starting at byte position `i`, together with its encoded
/// size in bytes; `EndOfCode` when its operands run past the end of the
/// stream, `InvalidOpcode` when the opcode is not part of the supported
/// instruction set.
pub open spec fn decode_instruction(bytes: Seq<u8>, i: int) -> Result<
    (Instruction, int),
    DisassemblerError,
> {
    let op = bytes[i];
    if op == 0x00u8 {
        Ok((Instruction::Nop, 1))
    } else if op == 0x01u8 {
        Ok((Instruction::AconstNull, 1))
    } else if op == 0x02u8 {
        Ok((Instruction::IconstM1, 1))
    } else if op == 0x03u8 {
        Ok((Instruction::Iconst0, 1))
    } else if op == 0x04u8 {
        Ok((Instruction::Iconst1, 1))
    } else if op == 0x05u8 {
        Ok((Instruction::Iconst2, 1))
    } else if op == 0x06u8 {
        Ok((Instruction::Iconst3, 1))
    } else if op == 0x07u8 {
        Ok((Instruction::Iconst4, 1))
    } else if op == 0x08u8 {
        Ok((Instruction::Iconst5, 1))
    } else if op == 0x10u8 {
        if i + 2 <= bytes.len() {
            Ok((Instruction::Bipush { byte: bytes[i + 1] as i8 }, 2))
        } else {
            Err(DisassemblerError::EndOfCode)
        }
    } else if op == 0x11u8 {
        if i + 3 <= bytes.len() {
            Ok((Instruction::Sipush { value: be_u16(bytes[i + 1], bytes[i + 2]) as i16 }, 3))
        } else {
            Err(DisassemblerError::EndOfCode)
        }
    } else if op == 0x12u8 {
        if i + 2 <= bytes.len() {
            Ok((Instruction::Ldc { index: bytes[i + 1] }, 2))
        } else {
            Err(DisassemblerError::EndOfCode)
        }
    } else if op == 0x15u8 {
        if i + 2 <= bytes.len() {
            Ok((Instruction::Iload { index: bytes[i + 1] }, 2))
        } else {
            Err(DisassemblerError::EndOfCode)
        }
    } else if op == 0x19u8 {
        if i + 2 <= bytes.len() {
            Ok((Instruction::Aload { index: bytes[i + 1] }, 2))
        } else {
            Err(DisassemblerError::EndOfCode)
        }
    } else if op == 0x1au8 {
        Ok((Instruction::Iload0, 1))
    } else if op == 0x1bu8 {
        Ok((Instruction::Iload1, 1))
    } else if op == 0x1cu8 {
        Ok((Instruction::Iload2, 1))
    } else if op == 0x1du8 {
        Ok((Instruction::Iload3, 1))
    } else if op == 0x2au8 {
        Ok((Instruction::Aload0, 1))
    } else if op == 0x2bu8 {
        Ok((Instruction::Aload1, 1))
    } else if op == 0x2cu8 {
        Ok((Instruction::Aload2, 1))
    } else if op == 0x2du8 {
        Ok((Instruction::Aload3, 1))
    } else if op == 0x2eu8 {
        Ok((Instruction::Iaload, 1))
    } else if op == 0x36u8 {
        if i + 2 <= bytes.len() {
            Ok((Instruction::Istore { index: bytes[i + 1] }, 2))
        } else {
            Err(DisassemblerError::EndOfCode)
        }
    } else if op == 0x3au8 {
        if i + 2 <= bytes.len() {
            Ok((Instruction::Astore { index: bytes[i + 1] }, 2))
        } else {
            Err(DisassemblerError::EndOfCode)
        }
    } else if op == 0x3bu8 {
        Ok((Instruction::Istore0, 1))
    } else if op == 0x3cu8 {
        Ok((Instruction::Istore1, 1))
    } else if op == 0x3du8 {
        Ok((Instruction::Istore2, 1))
    } else if op == 0x3eu8 {
        Ok((Instruction::Istore3, 1))
    } else if op == 0x4bu8 {
        Ok((Instruction::Astore0, 1))
    } else if op == 0x4cu8 {
        Ok((Instruction::Astore1, 1))
    } else if op == 0x4du8 {
        Ok((Instruction::Astore2, 1))
    } else if op == 0x4eu8 {
        Ok((Instruction::Astore3, 1))
    } else if op == 0x4fu8 {
        Ok((Instruction::Iastore, 1))
    } else if op == 0x57u8 {
        Ok((Instruction::Pop, 1))
    } else if op == 0x58u8 {
        Ok((Instruction::Pop2, 1))
    } else if op == 0x59u8 {
        Ok((Instruction::Dup, 1))
    } else if op == 0x5fu8 {
        Ok((Instruction::Swap, 1))
    } else if op == 0x60u8 {
        Ok((Instruction::Iadd, 1))
    } else if op == 0x64u8 {
        Ok((Instruction::Isub, 1))
    } else if op == 0x68u8 {
        Ok((Instruction::Imul, 1))
    } else if op == 0x6cu8 {
        Ok((Instruction::Idiv, 1))
    } else if op == 0x70u8 {
        Ok((Instruction::Irem, 1))
    } else if op == 0x74u8 {
        Ok((Instruction::Ineg, 1))
    } else if op == 0x84u8 {
        if i + 3 <= bytes.len() {
            Ok((Instruction::Iinc { index: bytes[i + 1], constant: bytes[i + 2] as i8 }, 3))
        } else {
            Err(DisassemblerError::EndOfCode)
        }
    } else if op == 0x99u8 {
        decode_branch(bytes, i, |o: i16| Instruction::Ifeq { branch_offset: o })
    } else if op == 0x9au8 {
        decode_branch(bytes, i, |o: i16| Instruction::Ifne { branch_offset: o })
    } else if op == 0x9bu8 {
        decode_branch(bytes, i, |o: i16| Instruction::Iflt { branch_offset: o })
    } else if op == 0x9cu8 {
        decode_branch(bytes, i, |o: i16| Instruction::Ifge { branch_offset: o })
    } else if op == 0x9du8 {
        decode_branch(bytes, i, |o: i16| Instruction::Ifgt { branch_offset: o })
    } else if op == 0x9eu8 {
        decode_branch(bytes, i, |o: i16| Instruction::Ifle { branch_offset: o })
    } else if op == 0x9fu8 {
        decode_branch(bytes, i, |o: i16| Instruction::IfIcmpeq { branch_offset: o })
    } else if op == 0xa0u8 {
        decode_branch(bytes, i, |o: i16| Instruction::IfIcmpne { branch_offset: o })
    } else if op == 0xa1u8 {
        decode_branch(bytes, i, |o: i16| Instruction::IfIcmplt { branch_offset: o })
    } else if op == 0xa2u8 {
        decode_branch(bytes, i, |o: i16| Instruction::IfIcmpge { branch_offset: o })
    } else if op == 0xa3u8 {
        decode_branch(bytes, i, |o: i16| Instruction::IfIcmpgt { branch_offset: o })
    } else if op == 0xa4u8 {
        decode_branch(bytes, i, |o: i16| Instruction::IfIcmple { branch_offset: o })
    } else if op == 0xa7u8 {
        decode_branch(bytes, i, |o: i16| Instruction::Goto { branch_offset: o })
    } else if op == 0xacu8 {
        Ok((Instruction::Ireturn, 1))
    } else if op == 0xb0u8 {
        Ok((Instruction::Areturn, 1))
    } else if op == 0xb1u8 {
        Ok((Instruction::Return, 1))
    } else if op == 0xb4u8 {
        decode_wide_index(bytes, i, |x: u16| Instruction::Getfield { index: x })
    } else if op == 0xb5u8 {
        decode_wide_index(bytes, i, |x: u16| Instruction::Putfield { index: x })
    } else if op == 0xb6u8 {
        decode_wide_index(bytes, i, |x: u16| Instruction::Invokevirtual { index: x })
    } else if op == 0xb7u8 {
        decode_wide_index(bytes, i, |x: u16| Instruction::Invokespecial { index: x })
    } else if op == 0xb8u8 {
        decode_wide_index(bytes, i, |x: u16| Instruction::Invokestatic { index: x })
    } else if op == 0xbbu8 {
        decode_wide_index(bytes, i, |x: u16| Instruction::New { index: x })
    } else if op == 0xbcu8 {
        if i + 2 <= bytes.len() {
            Ok((Instruction::Newarray { atype: bytes[i + 1] }, 2))
        } else {
            Err(DisassemblerError::EndOfCode)
        }
    } else if op == 0xbeu8 {
        Ok((Instruction::Arraylength, 1))
    } else if op == 0xbfu8 {
        Ok((Instruction::Athrow, 1))
    } else if op == 0xc6u8 {
        decode_branch(bytes, i, |o: i16| Instruction::Ifnull { branch_offset: o })
    } else if op == 0xc7u8 {
        decode_branch(bytes, i, |o: i16| Instruction::Ifnonnull { branch_offset: o })
    } else {
        Err(DisassemblerError::InvalidOpcode(op))
    }
}

/// A three-byte instruction whose operand is a signed branch offset.
pub open spec fn decode_branch(
    bytes: Seq<u8>,
    i: int,
    make: spec_fn(i16) -> Instruction,
) -> Result<(Instruction, int), DisassemblerError> {
    if i + 3 <= bytes.len() {
        Ok((make(be_u16(bytes[i + 1], bytes[i + 2]) as i16), 3))
    } else {
        Err(DisassemblerError::EndOfCode)
    }
}

/// A three-byte instruction whose operand is a constant-pool index.
pub open spec fn decode_wide_index(
    bytes: Seq<u8>,
    i: int,
    make: spec_fn(u16) -> Instruction,
) -> Result<(Instruction, int), DisassemblerError> {
    if i + 3 <= bytes.len() {
        Ok((make(be_u16(bytes[i + 1], bytes[i + 2])), 3))
    } else {
        Err(DisassemblerError::EndOfCode)
    }
}

/// The tagged instructions decoded from position `i` to the end of the
/// stream.
pub open spec fn disasm_from(bytes: Seq<u8>, i: int) -> Result<
    Seq<TaggedInstruction>,
    DisassemblerError,
>
    decreases bytes.len() - i,
{
    if i < 0 || i >= bytes.len() {
        Ok(Seq::empty())
    } else {
        match decode_instruction(bytes, i) {
            Ok((inst, size)) => if 1 <= size {
                match disasm_from(bytes, i + size) {
                    Ok(rest) => Ok(
                        seq![TaggedInstruction { index: i as u16, instruction: inst }] + rest,
                    ),
                    Err(e) => Err(e),
                }
            } else {
                Err(DisassemblerError::EndOfCode)
            },
            Err(e) => Err(e),
        }
    }
}

/// The tagged instruction list an entire code stream decodes to.
pub open spec fn disassemble_spec(bytes: Seq<u8>) -> Result<
    Seq<TaggedInstruction>,
    DisassemblerError,
> {
    if bytes.len() > 0xFFFF {
        Err(DisassemblerError::CodeTooLong)
    } else {
        disasm_from(bytes, 0)
    }
}

/// Decodes the instruction starting at `i` and reports how many bytes it
/// occupied.
fn parse_instruction_at(bytes: &Vec<u8>, i: usize) -> (r: Result<
    (Instruction, usize),
    DisassemblerError,
>)
    requires
        i < bytes@.len(),
        bytes@.len() <= 0xFFFF,
    ensures
        match r {
            Ok(p) => decode_instruction(bytes@, i as int) == Ok::<_, DisassemblerError>(
                (p.0, p.1 as int),
            ) && 1 <= p.1 && i + p.1 <= bytes@.len(),
            Err(e) => decode_instruction(bytes@, i as int) == Err::<(Instruction, int), _>(e),
        },
{
    let n = bytes.len();
    let op = bytes[i];
    if op == 0x00u8 {
        Ok((Instruction::Nop, 1))
    } else if op == 0x01u8 {
        Ok((Instruction::AconstNull, 1))
    } else if op == 0x02u8 {
        Ok((Instruction::IconstM1, 1))
    } else if op == 0x03u8 {
        Ok((Instruction::Iconst0, 1))
    } else if op == 0x04u8 {
        Ok((Instruction::Iconst1, 1))
    } else if op == 0x05u8 {
        Ok((Instruction::Iconst2, 1))
    } else if op == 0x06u8 {
        Ok((Instruction::Iconst3, 1))
    } else if op == 0x07u8 {
        Ok((Instruction::Iconst4, 1))
    } else if op == 0x08u8 {
        Ok((Instruction::Iconst5, 1))
    } else if op == 0x10u8 {
        if i + 2 <= n {
            Ok((Instruction::Bipush { byte: bytes[i + 1] as i8 }, 2))
        } else {
            Err(DisassemblerError::EndOfCode)
        }
    } else if op == 0x11u8 {
        if i + 3 <= n {
            let v = (bytes[i + 1] as u16) * 256 + (bytes[i + 2] as u16);
            Ok((Instruction::Sipush { value: v as i16 }, 3))
        } else {
            Err(DisassemblerError::EndOfCode)
        }
    } else if op == 0x12u8 {
        if i + 2 <= n {
            Ok((Instruction::Ldc { index: bytes[i + 1] }, 2))
        } else {
            Err(DisassemblerError::EndOfCode)
        }
    } else if op == 0x15u8 {
        if i + 2 <= n {
            Ok((Instruction::Iload { index: bytes[i + 1] }, 2))
        } else {
            Err(DisassemblerError::EndOfCode)
        }
    } else if op == 0x19u8 {
        if i + 2 <= n {
            Ok((Instruction::Aload { index: bytes[i + 1] }, 2))
        } else {
            Err(DisassemblerError::EndOfCode)
        }
    } else if op == 0x1au8 {
        Ok((Instruction::Iload0, 1))
    } else if op == 0x1bu8 {
        Ok((Instruction::Iload1, 1))
    } else if op == 0x1cu8 {
        Ok((Instruction::Iload2, 1))
    } else if op == 0x1du8 {
        Ok((Instruction::Iload3, 1))
    } else if op == 0x2au8 {
        Ok((Instruction::Aload0, 1))
    } else if op == 0x2bu8 {
        Ok((Instruction::Aload1, 1))
    } else if op == 0x2cu8 {
        Ok((Instruction::Aload2, 1))
    } else if op == 0x2du8 {
        Ok((Instruction::Aload3, 1))
    } else if op == 0x2eu8 {
        Ok((Instruction::Iaload, 1))
    } else if op == 0x36u8 {
        if i + 2 <= n {
            Ok((Instruction::Istore { index: bytes[i + 1] }, 2))
        } else {
            Err(DisassemblerError::EndOfCode)
        }
    } else if op == 0x3au8 {
        if i + 2 <= n {
            Ok((Instruction::Astore { index: bytes[i + 1] }, 2))
        } else {
            Err(DisassemblerError::EndOfCode)
        }
    } else if op == 0x3bu8 {
        Ok((Instruction::Istore0, 1))
    } else if op == 0x3cu8 {
        Ok((Instruction::Istore1, 1))
    } else if op == 0x3du8 {
        Ok((Instruction::Istore2, 1))
    } else if op == 0x3eu8 {
        Ok((Instruction::Istore3, 1))
    } else if op == 0x4bu8 {
        Ok((Instruction::Astore0, 1))
    } else if op == 0x4cu8 {
        Ok((Instruction::Astore1, 1))
    } else if op == 0x4du8 {
        Ok((Instruction::Astore2, 1))
    } else if op == 0x4eu8 {
        Ok((Instruction::Astore3, 1))
    } else if op == 0x4fu8 {
        Ok((Instruction::Iastore, 1))
    } else if op == 0x57u8 {
        Ok((Instruction::Pop, 1))
    } else if op == 0x58u8 {
        Ok((Instruction::Pop2, 1))
    } else if op == 0x59u8 {
        Ok((Instruction::Dup, 1))
    } else if op == 0x5fu8 {
        Ok((Instruction::Swap, 1))
    } else if op == 0x60u8 {
        Ok((Instruction::Iadd, 1))
    } else if op == 0x64u8 {
        Ok((Instruction::Isub, 1))
    } else if op == 0x68u8 {
        Ok((Instruction::Imul, 1))
    } else if op == 0x6cu8 {
        Ok((Instruction::Idiv, 1))
    } else if op == 0x70u8 {
        Ok((Instruction::Irem, 1))
    } else if op == 0x74u8 {
        Ok((Instruction::Ineg, 1))
    } else if op == 0x84u8 {
        if i + 3 <= n {
            Ok((Instruction::Iinc { index: bytes[i + 1], constant: bytes[i + 2] as i8 }, 3))
        } else {
            Err(DisassemblerError::EndOfCode)
        }
    } else if op >= 0x99u8 && op <= 0xa7u8 && (op <= 0xa4u8 || op == 0xa7u8) {
        if i + 3 <= n {
            let v = (bytes[i + 1] as u16) * 256 + (bytes[i + 2] as u16);
            let o = v as i16;
            let inst = if op == 0x99u8 {
                Instruction::Ifeq { branch_offset: o }
            } else if op == 0x9au8 {
                Instruction::Ifne { branch_offset: o }
            } else if op == 0x9bu8 {
                Instruction::Iflt { branch_offset: o }
            } else if op == 0x9cu8 {
                Instruction::Ifge { branch_offset: o }
            } else if op == 0x9du8 {
                Instruction::Ifgt { branch_offset: o }
            } else if op == 0x9eu8 {
                Instruction::Ifle { branch_offset: o }
            } else if op == 0x9fu8 {
                Instruction::IfIcmpeq { branch_offset: o }
            } else if op == 0xa0u8 {
                Instruction::IfIcmpne { branch_offset: o }
            } else if op == 0xa1u8 {
                Instruction::IfIcmplt { branch_offset: o }
            } else if op == 0xa2u8 {
                Instruction::IfIcmpge { branch_offset: o }
            } else if op == 0xa3u8 {
                Instruction::IfIcmpgt { branch_offset: o }
            } else if op == 0xa4u8 {
                Instruction::IfIcmple { branch_offset: o }
            } else {
                Instruction::Goto { branch_offset: o }
            };
            Ok((inst, 3))
        } else {
            Err(DisassemblerError::EndOfCode)
        }
    } else if op == 0xacu8 {
        Ok((Instruction::Ireturn, 1))
    } else if op == 0xb0u8 {
        Ok((Instruction::Areturn, 1))
    } else if op == 0xb1u8 {
        Ok((Instruction::Return, 1))
    } else if (op >= 0xb4u8 && op <= 0xb8u8) || op == 0xbbu8 {
        if i + 3 <= n {
            let x = (bytes[i + 1] as u16) * 256 + (bytes[i + 2] as u16);
            let inst = if op == 0xb4u8 {
                Instruction::Getfield { index: x }
            } else if op == 0xb5u8 {
                Instruction::Putfield { index: x }
            } else if op == 0xb6u8 {
                Instruction::Invokevirtual { index: x }
            } else if op == 0xb7u8 {
                Instruction::Invokespecial { index: x }
            } else if op == 0xb8u8 {
                Instruction::Invokestatic { index: x }
            } else {
                Instruction::New { index: x }
            };
            Ok((inst, 3))
        } else {
            Err(DisassemblerError::EndOfCode)
        }
    } else if op == 0xbcu8 {
        if i + 2 <= n {
            Ok((Instruction::Newarray { atype: bytes[i + 1] }, 2))
        } else {
            Err(DisassemblerError::EndOfCode)
        }
    } else if op == 0xbeu8 {
        Ok((Instruction::Arraylength, 1))
    } else if op == 0xbfu8 {
        Ok((Instruction::Athrow, 1))
    } else if op == 0xc6u8 {
        if i + 3 <= n {
            let v = (bytes[i + 1] as u16) * 256 + (bytes[i + 2] as u16);
            Ok((Instruction::Ifnull { branch_offset: v as i16 }, 3))
        } else {
            Err(DisassemblerError::EndOfCode)
        }
    } else if op == 0xc7u8 {
        if i + 3 <= n {
            let v = (bytes[i + 1] as u16) * 256 + (bytes[i + 2] as u16);
            Ok((Instruction::Ifnonnull { branch_offset: v as i16 }, 3))
        } else {
            Err(DisassemblerError::EndOfCode)
        }
    } else {
        Err(DisassemblerError::InvalidOpcode(op))
    }
}

/// Decodes a raw code stream into instructions tagged with their byte
/// offsets; fails on a truncated instruction, an unsupported opcode, or a
/// stream too long for 16-bit offset tags.
pub fn disassemble_code(buffer: &Vec<u8>) -> (r: Result<
    Vec<TaggedInstruction>,
    DisassemblerError,
>)
    ensures
        match r {
            Ok(v) => disassemble_spec(buffer@) == Ok::<_, DisassemblerError>(v@),
            Err(e) => disassemble_spec(buffer@) == Err::<Seq<TaggedInstruction>, _>(e),
        },
{
    let len = buffer.len();
    if len > 0xFFFF {
        return Err(DisassemblerError::CodeTooLong);
    }
    let mut out: Vec<TaggedInstruction> = Vec::new();
    let mut i: usize = 0;
    while i < len
        invariant
            i <= len,
            len == buffer@.len(),
            len <= 0xFFFF,
            disasm_from(buffer@, 0) == (match disasm_from(buffer@, i as int) {
                Ok(rest) => Ok::<_, DisassemblerError>(out@ + rest),
                Err(e) => Err(e),
            }),
        decreases len - i,
    {
        let ghost i0 = i as int;
        match parse_instruction_at(buffer, i) {
            Ok((inst, size)) => {
                let tagged = TaggedInstruction { index: i as u16, instruction: inst };
                proof {
                    assert(disasm_from(buffer@, i0) == (match disasm_from(
                        buffer@,
                        i0 + size as int,
                    ) {
                        Ok(rest) => Ok::<_, DisassemblerError>(seq![tagged] + rest),
                        Err(e) => Err(e),
                    }));
                    match disasm_from(buffer@, i0 + size as int) {
                        Ok(rest) => {
                            assert((out@ + seq![tagged]) + rest =~= out@ + (seq![tagged] + rest));
                        },
                        Err(_) => {},
                    }
                    assert(out@.push(tagged) =~= out@ + seq![tagged]);
                }
                out.push(tagged);
                i = i + size;
            },
            Err(e) => {
                return Err(e);
            },
        }
    }
    proof {
        assert(disasm_from(buffer@, i as int) == Ok::<Seq<TaggedInstruction>, DisassemblerError>(
            Seq::empty(),
        ));
        assert(out@ + Seq::<TaggedInstruction>::empty() =~= out@);
    }
    Ok(out)
}

} // verus!
