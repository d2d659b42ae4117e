//! Decoded bytecode instructions, tagged with their original byte offsets.

use vstd::prelude::*;

verus! {

/// A decoded instruction. Index and branch operands are already assembled
/// from their constituent bytes: constant-pool indices are `u16`, branch
/// offsets are signed byte-relative `i16` displacements, and immediate
/// pushes carry their sign-extended payload.
#[derive(Clone, Copy, Debug, PartialEq, Eq, Structural)]
pub enum Instruction {
    AconstNull,
    Aload { index: u8 },
    Aload0,
    Aload1,
    Aload2,
    Aload3,
    Areturn,
    Arraylength,
    Astore { index: u8 },
    Astore0,
    Astore1,
    Astore2,
    Astore3,
    Athrow,
    Bipush { byte: i8 },
    Dup,
    Getfield { index: u16 },
    Goto { branch_offset: i16 },
    Iadd,
    Iaload,
    Iastore,
    IconstM1,
    Iconst0,
    Iconst1,
    Iconst2,
    Iconst3,
    Iconst4,
    Iconst5,
    Idiv,
    IfIcmpeq { branch_offset: i16 },
    IfIcmpne { branch_offset: i16 },
    IfIcmplt { branch_offset: i16 },
    IfIcmpge { branch_offset: i16 },
    IfIcmpgt { branch_offset: i16 },
    IfIcmple { branch_offset: i16 },
    Ifeq { branch_offset: i16 },
    Ifne { branch_offset: i16 },
    Iflt { branch_offset: i16 },
    Ifge { branch_offset: i16 },
    Ifgt { branch_offset: i16 },
    Ifle { branch_offset: i16 },
    Ifnonnull { branch_offset: i16 },
    Ifnull { branch_offset: i16 },
    Iinc { index: u8, constant: i8 },
    Iload { index: u8 },
    Iload0,
    Iload1,
    Iload2,
    Iload3,
    Imul,
    Ineg,
    Invokespecial { index: u16 },
    Invokestatic { index: u16 },
    Invokevirtual { index: u16 },
    Irem,
    Ireturn,
    Istore { index: u8 },
    Istore0,
    Istore1,
    Istore2,
    Istore3,
    Isub,
    Ldc { index: u8 },
    New { index: u16 },
    Newarray { atype: u8 },
    Nop,
    Pop,
    Pop2,
    Putfield { index: u16 },
    Return,
    Sipush { value: i16 },
    Swap,
}

/// An instruction paired with the byte offset at which it started in the
/// raw code stream. Control-transfer instructions encode byte-relative
/// offsets, so the interpreter must map byte positions back to positions in
/// the decoded list through this tag.
#[derive(Clone, Copy, Debug, PartialEq, Eq, Structural)]
pub struct TaggedInstruction {
    pub index: u16,
    pub instruction: Instruction,
}

} // verus!
