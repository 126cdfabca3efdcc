//! The opcode dispatcher: the leading byte is classified against a fixed,
//! priority-ordered rule set into an instruction shape and a provisional
//! mnemonic, and routed to the decode routine of that shape. A byte no
//! rule covers is the unknown-opcode error — never a guess and never a
//! silent skip.

use vstd::prelude::*;
use vstd::string::StringExecFns;

use crate::decoders::{
    acc_reversed, spec_acc_reversed, decode_far_proc_label, decode_immed16, decode_immed8,
    decode_immediate_to_register, decode_immediate_to_register_memory, decode_jump,
    decode_memory_to_fro_accumulator, decode_near_proc_label, decode_register,
    decode_register_memory_to_from_register, decode_repeat, decode_segment_register,
    spec_decode_accumulator, spec_decode_far_proc_label, spec_decode_immed16, spec_decode_immed8,
    spec_decode_immediate_to_register, spec_decode_immediate_to_register_memory, spec_decode_jump,
    spec_decode_near_proc_label, spec_decode_register, spec_decode_register_memory_to_from_register,
    spec_decode_repeat, spec_decode_segment_register, SpecDecoded,
};
use crate::errors::DecodeError;
use crate::mnemonic::Mnemonic;
use crate::readers::{end_of_stream, Cursor};

verus! {

/// How the operands of an instruction are encoded; each shape maps to
/// exactly one decode routine.
#[derive(Clone, Copy, Debug, PartialEq, Eq, Structural)]
pub enum InstructionShape {
    /// A ModRM byte with an optional displacement; also the home of the
    /// extension groups.
    RegMemToFromReg,
    /// A ModRM byte, an optional displacement, then an immediate.
    ImmediateToRegMem,
    /// An immediate or direct address tied to `AL`/`AX`.
    ImmediateToAccumulator,
    /// A register in the opcode byte, then an immediate.
    ImmediateToRegister,
    /// One signed displacement byte.
    ShortJump,
    /// A 16-bit displacement relative to the following instruction.
    NearProcLabel,
    /// A 16-bit offset and a 16-bit segment.
    FarProcLabel,
    /// A register in the opcode byte, nothing else.
    RegisterOnly,
    /// A segment register in the opcode byte, nothing else.
    SegmentRegisterOnly,
    /// A repeat prefix governing the following string instruction.
    StringRepeat,
    /// One 8-bit immediate.
    Immediate8,
    /// One 16-bit immediate.
    Immediate16,
    /// A complete instruction in the opcode byte alone.
    NoOperand,
    /// A complete instruction whose second byte carries no printed operand.
    NoOperandPadded,
}

/// The dispatch rules: the shape selected by the leading byte, or `None`
/// when no rule matches. Each arm stands for one `(mask, pattern)` rule of
/// the opcode table; the exact single-byte rules come before the wider
/// mask ranges that would swallow them.
pub open spec fn shape_of(b: u8) -> Option<InstructionShape> {
    if b <= 0x03 || (0x08 <= b <= 0x0B) || (0x10 <= b <= 0x13) || (0x18 <= b <= 0x1B) || (0x20 <= b
        <= 0x23) || (0x28 <= b <= 0x2B) || (0x30 <= b <= 0x33) || (0x38 <= b <= 0x3B) || (0x84 <= b
        <= 0x8D) && b != 0x8E || b == 0x8F || b == 0xC4 || b == 0xC5 || (0xD0 <= b <= 0xD3) || b
        == 0xF6 || b == 0xF7 || b == 0xFE || b == 0xFF {
        Some(InstructionShape::RegMemToFromReg)
    } else if (0x04 <= b <= 0x05) || (0x0C <= b <= 0x0D) || (0x14 <= b <= 0x15) || (0x1C <= b
        <= 0x1D) || (0x24 <= b <= 0x25) || (0x2C <= b <= 0x2D) || (0x34 <= b <= 0x35) || (0x3C <= b
        <= 0x3D) || (0xA0 <= b <= 0xA3) || b == 0xA8 || b == 0xA9 || (0xE4 <= b <= 0xE7) {
        Some(InstructionShape::ImmediateToAccumulator)
    } else if b == 0x06 || b == 0x0E || b == 0x1F {
        Some(InstructionShape::SegmentRegisterOnly)
    } else if (0x80 <= b <= 0x83) || b == 0xC6 || b == 0xC7 {
        Some(InstructionShape::ImmediateToRegMem)
    } else if 0x40 <= b <= 0x5F {
        Some(InstructionShape::RegisterOnly)
    } else if (0x70 <= b <= 0x7F) || (0xE0 <= b <= 0xE3) {
        Some(InstructionShape::ShortJump)
    } else if (0xB0 <= b <= 0xBF) || b == 0xC2 {
        Some(InstructionShape::ImmediateToRegister)
    } else if b == 0xCD {
        Some(InstructionShape::Immediate8)
    } else if b == 0xCA {
        Some(InstructionShape::Immediate16)
    } else if b == 0x9A || b == 0xEA {
        Some(InstructionShape::FarProcLabel)
    } else if b == 0xE8 || b == 0xE9 {
        Some(InstructionShape::NearProcLabel)
    } else if b == 0xF3 {
        Some(InstructionShape::StringRepeat)
    } else if b == 0xD4 || b == 0xD5 {
        Some(InstructionShape::NoOperandPadded)
    } else if b == 0x26 || b == 0x27 || b == 0x2E || b == 0x2F || b == 0x36 || b == 0x37 || b
        == 0x3E || b == 0x3F || b == 0x90 || b == 0x92 || b == 0x94 || b == 0x96 || b == 0x97 || b
        == 0x98 || b == 0x99 || (0x9B <= b <= 0x9F) || b == 0xC3 || b == 0xCB || b == 0xCC || b
        == 0xCE || b == 0xCF || b == 0xD7 || (0xEC <= b <= 0xEE) || b == 0xF0 || b == 0xF4 || b
        == 0xF5 || (0xF8 <= b <= 0xFD) {
        Some(InstructionShape::NoOperand)
    } else {
        None
    }
}

/// The provisional mnemonic the leading byte selects; meaningful for the
/// shapes that carry one.
pub open spec fn provisional_of(b: u8) -> Mnemonic {
    if b <= 0x05 {
        Mnemonic::Add
    } else if b == 0x06 || b == 0x0E {
        Mnemonic::Push
    } else if 0x08 <= b <= 0x0D {
        Mnemonic::Or
    } else if 0x10 <= b <= 0x15 {
        Mnemonic::Adc
    } else if 0x18 <= b <= 0x1D {
        Mnemonic::Sbb
    } else if b == 0x1F {
        Mnemonic::Pop
    } else if 0x20 <= b <= 0x25 {
        Mnemonic::And
    } else if 0x28 <= b <= 0x2D {
        Mnemonic::Sub
    } else if 0x30 <= b <= 0x35 {
        Mnemonic::Xor
    } else if 0x38 <= b <= 0x3D {
        Mnemonic::Cmp
    } else if 0x40 <= b <= 0x47 {
        Mnemonic::Inc
    } else if 0x48 <= b <= 0x4F {
        Mnemonic::Dec
    } else if 0x50 <= b <= 0x57 {
        Mnemonic::Push
    } else if 0x58 <= b <= 0x5F {
        Mnemonic::Pop
    } else if b == 0x70 {
        Mnemonic::Jo
    } else if b == 0x71 {
        Mnemonic::Jno
    } else if b == 0x72 {
        Mnemonic::Jb
    } else if b == 0x73 {
        Mnemonic::Jae
    } else if b == 0x74 {
        Mnemonic::Jz
    } else if b == 0x75 {
        Mnemonic::Jnz
    } else if b == 0x76 {
        Mnemonic::Jbe
    } else if b == 0x77 {
        Mnemonic::Ja
    } else if b == 0x78 {
        Mnemonic::Js
    } else if b == 0x79 {
        Mnemonic::Jns
    } else if b == 0x7A {
        Mnemonic::Jp
    } else if b == 0x7B {
        Mnemonic::Jnp
    } else if b == 0x7C {
        Mnemonic::Jl
    } else if b == 0x7D {
        Mnemonic::Jge
    } else if b == 0x7E {
        Mnemonic::Jle
    } else if b == 0x7F {
        Mnemonic::Jg
    } else if 0x80 <= b <= 0x83 {
        Mnemonic::Add
    } else if b == 0x84 || b == 0x85 {
        Mnemonic::Test
    } else if b == 0x86 || b == 0x87 {
        Mnemonic::Xchg
    } else if 0x88 <= b <= 0x8C {
        Mnemonic::Mov
    } else if b == 0x8D {
        Mnemonic::Lea
    } else if b == 0x8F {
        Mnemonic::Pop
    } else if b == 0x9A {
        Mnemonic::Call
    } else if 0xA0 <= b <= 0xA3 {
        Mnemonic::Mov
    } else if b == 0xA8 || b == 0xA9 {
        Mnemonic::Test
    } else if 0xB0 <= b <= 0xBF {
        Mnemonic::Mov
    } else if b == 0xC2 {
        Mnemonic::Ret
    } else if b == 0xC4 {
        Mnemonic::Les
    } else if b == 0xC5 {
        Mnemonic::Lds
    } else if b == 0xC6 || b == 0xC7 {
        Mnemonic::Mov
    } else if b == 0xCA {
        Mnemonic::Retf
    } else if b == 0xCD {
        Mnemonic::Int
    } else if 0xD0 <= b <= 0xD3 {
        Mnemonic::Shl
    } else if b == 0xE0 {
        Mnemonic::Loopnz
    } else if b == 0xE1 {
        Mnemonic::Loopz
    } else if b == 0xE2 {
        Mnemonic::Loop
    } else if b == 0xE3 {
        Mnemonic::Jcxz
    } else if b == 0xE4 || b == 0xE5 {
        Mnemonic::In
    } else if b == 0xE6 || b == 0xE7 {
        Mnemonic::Out
    } else if b == 0xE8 {
        Mnemonic::Call
    } else if b == 0xE9 || b == 0xEA {
        Mnemonic::Jmp
    } else if b == 0xF3 {
        Mnemonic::Rep
    } else if b == 0xF6 || b == 0xF7 {
        Mnemonic::Neg
    } else if b == 0xFE {
        Mnemonic::Inc
    } else if b == 0xFF {
        Mnemonic::Push
    } else {
        Mnemonic::Add
    }
}

/// The complete line of an instruction the opcode byte determines alone
/// (meaningful for the `NoOperand` and `NoOperandPadded` shapes).
pub open spec fn fixed_line_text(b: u8) -> Seq<char> {
    if b == 0x26 {
        "ES"@
    } else if b == 0x27 {
        "DAA"@
    } else if b == 0x2E {
        "CS"@
    } else if b == 0x2F {
        "DAS"@
    } else if b == 0x36 {
        "SS"@
    } else if b == 0x37 {
        "AAA"@
    } else if b == 0x3E {
        "DS"@
    } else if b == 0x3F {
        "AAS"@
    } else if b == 0x90 {
        "NOP"@
    } else if b == 0x92 {
        "XCHG AX, DX"@
    } else if b == 0x94 {
        "XCHG AX, SP"@
    } else if b == 0x96 {
        "XCHG AX, SI"@
    } else if b == 0x97 {
        "XCHG AX, DI"@
    } else if b == 0x98 {
        "CBW"@
    } else if b == 0x99 {
        "CWD"@
    } else if b == 0x9B {
        "WAIT"@
    } else if b == 0x9C {
        "PUSHF"@
    } else if b == 0x9D {
        "POPF"@
    } else if b == 0x9E {
        "SAHF"@
    } else if b == 0x9F {
        "LAHF"@
    } else if b == 0xC3 {
        "RET"@
    } else if b == 0xCB {
        "RETF"@
    } else if b == 0xCC {
        "INT3"@
    } else if b == 0xCE {
        "INTO"@
    } else if b == 0xCF {
        "IRET"@
    } else if b == 0xD4 {
        "AAM"@
    } else if b == 0xD5 {
        "AAD"@
    } else if b == 0xD7 {
        "XLAT"@
    } else if b == 0xEC {
        "IN AL, DX"@
    } else if b == 0xED {
        "IN AX, DX"@
    } else if b == 0xEE {
        "OUT DX, AL"@
    } else if b == 0xF0 {
        "LOCK"@
    } else if b == 0xF4 {
        "HLT"@
    } else if b == 0xF5 {
        "CMC"@
    } else if b == 0xF8 {
        "CLC"@
    } else if b == 0xF9 {
        "STC"@
    } else if b == 0xFA {
        "CLI"@
    } else if b == 0xFB {
        "STI"@
    } else if b == 0xFC {
        "CLD"@
    } else if b == 0xFD {
        "STD"@
    } else {
        ""@
    }
}

/// The reported offset of an unknown opcode: the byte was read from just
/// before the cursor's position.
pub open spec fn unknown_position(pos: int) -> usize {
    if pos >= 1 {
        (pos - 1) as usize
    } else {
        0
    }
}

/// The line and consumption of the instruction whose leading byte is
/// `byte`, read with the cursor standing at `pos`, just past that byte.
pub open spec fn spec_decode_first_byte(byte: u8, bytes: Seq<u8>, pos: int) -> SpecDecoded {
    match shape_of(byte) {
        None => Err(
            DecodeError::UnknownOpcode { opcode: byte, position: unknown_position(pos) },
        ),
        Some(shape) => match shape {
            InstructionShape::RegMemToFromReg => spec_decode_register_memory_to_from_register(
                provisional_of(byte),
                byte,
                bytes,
                pos,
            ),
            InstructionShape::ImmediateToRegMem => spec_decode_immediate_to_register_memory(
                provisional_of(byte),
                byte,
                bytes,
                pos,
            ),
            InstructionShape::ImmediateToAccumulator => spec_decode_accumulator(
                provisional_of(byte),
                byte,
                spec_acc_reversed(byte),
                bytes,
                pos,
            ),
            InstructionShape::ImmediateToRegister => spec_decode_immediate_to_register(
                provisional_of(byte),
                byte,
                bytes,
                pos,
            ),
            InstructionShape::ShortJump => spec_decode_jump(provisional_of(byte), bytes, pos),
            InstructionShape::NearProcLabel => spec_decode_near_proc_label(
                provisional_of(byte),
                bytes,
                pos,
            ),
            InstructionShape::FarProcLabel => spec_decode_far_proc_label(
                provisional_of(byte),
                bytes,
                pos,
            ),
            InstructionShape::RegisterOnly => Ok(
                (spec_decode_register(provisional_of(byte), byte), pos),
            ),
            InstructionShape::SegmentRegisterOnly => Ok(
                (spec_decode_segment_register(provisional_of(byte), byte), pos),
            ),
            InstructionShape::StringRepeat => spec_decode_repeat(provisional_of(byte), bytes, pos),
            InstructionShape::Immediate8 => spec_decode_immed8(provisional_of(byte), bytes, pos),
            InstructionShape::Immediate16 => spec_decode_immed16(provisional_of(byte), bytes, pos),
            InstructionShape::NoOperand => Ok((fixed_line_text(byte), pos)),
            InstructionShape::NoOperandPadded => if pos + 1 <= bytes.len() {
                Ok((fixed_line_text(byte), pos + 1))
            } else {
                Err(end_of_stream(bytes))
            },
        },
    }
}

/// Classifies the leading byte: the first dispatch rule it satisfies, in
/// the fixed priority order.
pub fn classify_first_byte(b: u8) -> (r: Option<InstructionShape>)
    ensures
        r == shape_of(b),
{
    match b {
        0x00..=0x03 | 0x08..=0x0B | 0x10..=0x13 | 0x18..=0x1B | 0x20..=0x23 | 0x28..=0x2B
            | 0x30..=0x33 | 0x38..=0x3B | 0x84..=0x8D | 0x8F | 0xC4 | 0xC5 | 0xD0..=0xD3 | 0xF6
            | 0xF7 | 0xFE | 0xFF => {
            if b == 0x8E {
                None
            } else {
                Some(InstructionShape::RegMemToFromReg)
            }
        },
        0x04 | 0x05 | 0x0C | 0x0D | 0x14 | 0x15 | 0x1C | 0x1D | 0x24 | 0x25 | 0x2C | 0x2D | 0x34
            | 0x35 | 0x3C | 0x3D | 0xA0..=0xA3 | 0xA8 | 0xA9 | 0xE4..=0xE7 => Some(
            InstructionShape::ImmediateToAccumulator,
        ),
        0x06 | 0x0E | 0x1F => Some(InstructionShape::SegmentRegisterOnly),
        0x80..=0x83 | 0xC6 | 0xC7 => Some(InstructionShape::ImmediateToRegMem),
        0x40..=0x5F => Some(InstructionShape::RegisterOnly),
        0x70..=0x7F | 0xE0..=0xE3 => Some(InstructionShape::ShortJump),
        0xB0..=0xBF | 0xC2 => Some(InstructionShape::ImmediateToRegister),
        0xCD => Some(InstructionShape::Immediate8),
        0xCA => Some(InstructionShape::Immediate16),
        0x9A | 0xEA => Some(InstructionShape::FarProcLabel),
        0xE8 | 0xE9 => Some(InstructionShape::NearProcLabel),
        0xF3 => Some(InstructionShape::StringRepeat),
        0xD4 | 0xD5 => Some(InstructionShape::NoOperandPadded),
        0x26 | 0x27 | 0x2E | 0x2F | 0x36 | 0x37 | 0x3E | 0x3F | 0x90 | 0x92 | 0x94 | 0x96 | 0x97
            | 0x98 | 0x99 | 0x9B..=0x9F | 0xC3 | 0xCB | 0xCC | 0xCE | 0xCF | 0xD7 | 0xEC..=0xEE
            | 0xF0 | 0xF4 | 0xF5 | 0xF8..=0xFD => Some(InstructionShape::NoOperand),
        _ => None,
    }
}

/// The provisional mnemonic of the leading byte.
pub fn provisional_mnemonic(b: u8) -> (r: Mnemonic)
    ensures
        r == provisional_of(b),
{
    match b {
        0x00..=0x05 | 0x80..=0x83 => Mnemonic::Add,
        0x06 | 0x0E | 0x50..=0x57 | 0xFF => Mnemonic::Push,
        0x08..=0x0D => Mnemonic::Or,
        0x10..=0x15 => Mnemonic::Adc,
        0x18..=0x1D => Mnemonic::Sbb,
        0x1F | 0x58..=0x5F | 0x8F => Mnemonic::Pop,
        0x20..=0x25 => Mnemonic::And,
        0x28..=0x2D => Mnemonic::Sub,
        0x30..=0x35 => Mnemonic::Xor,
        0x38..=0x3D => Mnemonic::Cmp,
        0x40..=0x47 | 0xFE => Mnemonic::Inc,
        0x48..=0x4F => Mnemonic::Dec,
        0x70 => Mnemonic::Jo,
        0x71 => Mnemonic::Jno,
        0x72 => Mnemonic::Jb,
        0x73 => Mnemonic::Jae,
        0x74 => Mnemonic::Jz,
        0x75 => Mnemonic::Jnz,
        0x76 => Mnemonic::Jbe,
        0x77 => Mnemonic::Ja,
        0x78 => Mnemonic::Js,
        0x79 => Mnemonic::Jns,
        0x7A => Mnemonic::Jp,
        0x7B => Mnemonic::Jnp,
        0x7C => Mnemonic::Jl,
        0x7D => Mnemonic::Jge,
        0x7E => Mnemonic::Jle,
        0x7F => Mnemonic::Jg,
        0x84 | 0x85 | 0xA8 | 0xA9 => Mnemonic::Test,
        0x86 | 0x87 => Mnemonic::Xchg,
        0x88..=0x8C | 0xA0..=0xA3 | 0xB0..=0xBF | 0xC6 | 0xC7 => Mnemonic::Mov,
        0x8D => Mnemonic::Lea,
        0x9A | 0xE8 => Mnemonic::Call,
        0xC2 => Mnemonic::Ret,
        0xC4 => Mnemonic::Les,
        0xC5 => Mnemonic::Lds,
        0xCA => Mnemonic::Retf,
        0xCD => Mnemonic::Int,
        0xD0..=0xD3 => Mnemonic::Shl,
        0xE0 => Mnemonic::Loopnz,
        0xE1 => Mnemonic::Loopz,
        0xE2 => Mnemonic::Loop,
        0xE3 => Mnemonic::Jcxz,
        0xE4 | 0xE5 => Mnemonic::In,
        0xE6 | 0xE7 => Mnemonic::Out,
        0xE9 | 0xEA => Mnemonic::Jmp,
        0xF3 => Mnemonic::Rep,
        0xF6 | 0xF7 => Mnemonic::Neg,
        _ => Mnemonic::Add,
    }
}

/// The complete line of a `NoOperand` or `NoOperandPadded` opcode byte.
fn fixed_line_str(b: u8) -> (r: &'static str)
    requires
        shape_of(b) == Some(InstructionShape::NoOperand) || shape_of(b) == Some(
            InstructionShape::NoOperandPadded,
        ),
    ensures
        r@ == fixed_line_text(b),
{
    match b {
        0x26 => "ES",
        0x27 => "DAA",
        0x2E => "CS",
        0x2F => "DAS",
        0x36 => "SS",
        0x37 => "AAA",
        0x3E => "DS",
        0x3F => "AAS",
        0x90 => "NOP",
        0x92 => "XCHG AX, DX",
        0x94 => "XCHG AX, SP",
        0x96 => "XCHG AX, SI",
        0x97 => "XCHG AX, DI",
        0x98 => "CBW",
        0x99 => "CWD",
        0x9B => "WAIT",
        0x9C => "PUSHF",
        0x9D => "POPF",
        0x9E => "SAHF",
        0x9F => "LAHF",
        0xC3 => "RET",
        0xCB => "RETF",
        0xCC => "INT3",
        0xCE => "INTO",
        0xCF => "IRET",
        0xD4 => "AAM",
        0xD5 => "AAD",
        0xD7 => "XLAT",
        0xEC => "IN AL, DX",
        0xED => "IN AX, DX",
        0xEE => "OUT DX, AL",
        0xF0 => "LOCK",
        0xF4 => "HLT",
        0xF5 => "CMC",
        0xF8 => "CLC",
        0xF9 => "STC",
        0xFA => "CLI",
        0xFB => "STI",
        0xFC => "CLD",
        _ => "STD",
    }
}

/// No rule, no guess: a leading byte outside the dispatch rules decodes to
/// the unknown-opcode error naming that byte and its offset, and a byte
/// some rule covers never reports an unknown opcode.
pub proof fn lemma_unknown_opcode(byte: u8, bytes: Seq<u8>, pos: int)
    ensures
        shape_of(byte) is None ==> spec_decode_first_byte(byte, bytes, pos) == Err::<
            (Seq<char>, int),
            DecodeError,
        >(DecodeError::UnknownOpcode { opcode: byte, position: unknown_position(pos) }),
        shape_of(byte) is Some ==> (spec_decode_first_byte(byte, bytes, pos) matches Err(e)
            ==> !(e is UnknownOpcode)),
{
}

/// Boundary failure: a buffer holding only a leading byte whose shape
/// requires a ModRM byte decodes to `UnexpectedEndOfStream`, reported at
/// the end of the one-byte buffer.
pub proof fn lemma_boundary_failure(b: u8)
    requires
        shape_of(b) == Some(InstructionShape::RegMemToFromReg) || shape_of(b) == Some(
            InstructionShape::ImmediateToRegMem,
        ),
    ensures
        spec_decode_first_byte(b, seq![b], 1) == Err::<(Seq<char>, int), DecodeError>(
            DecodeError::UnexpectedEndOfStream { position: 1 },
        ),
{
    assert(seq![b].len() == 1);
}

/// Decodes one instruction: `byte` is its leading byte, already consumed,
/// and the cursor stands just past it. Returns the output line, leaving
/// the cursor exactly past the instruction, or the decode error.
pub fn decode_first_byte(byte: u8, cur: &mut Cursor) -> (r: Result<String, DecodeError>)
    requires
        old(cur).wf(),
    ensures
        final(cur).bytes@ == old(cur).bytes@,
        final(cur).wf(),
        final(cur).pos >= old(cur).pos,
        match spec_decode_first_byte(byte, old(cur).bytes@, old(cur).pos as int) {
            Ok(ln) => r matches Ok(line) && line@ == ln.0 && final(cur).pos == ln.1,
            Err(e) => r == Err::<String, DecodeError>(e),
        },
{
    let shape = match classify_first_byte(byte) {
        Some(s) => s,
        None => {
            let position = if cur.pos >= 1 {
                cur.pos - 1
            } else {
                0
            };
            return Err(DecodeError::UnknownOpcode { opcode: byte, position });
        },
    };
    let op = provisional_mnemonic(byte);
    match shape {
        InstructionShape::RegMemToFromReg => decode_register_memory_to_from_register(
            op,
            byte,
            cur,
        ),
        InstructionShape::ImmediateToRegMem => decode_immediate_to_register_memory(op, byte, cur),
        InstructionShape::ImmediateToAccumulator => {
            let reverse = acc_reversed(byte);
            decode_memory_to_fro_accumulator(op, byte, cur, reverse)
        },
        InstructionShape::ImmediateToRegister => decode_immediate_to_register(op, byte, cur),
        InstructionShape::ShortJump => decode_jump(op, cur),
        InstructionShape::NearProcLabel => decode_near_proc_label(op, cur),
        InstructionShape::FarProcLabel => decode_far_proc_label(op, cur),
        InstructionShape::RegisterOnly => Ok(decode_register(op, byte)),
        InstructionShape::SegmentRegisterOnly => Ok(decode_segment_register(op, byte)),
        InstructionShape::StringRepeat => decode_repeat(op, cur),
        InstructionShape::Immediate8 => decode_immed8(op, cur),
        InstructionShape::Immediate16 => decode_immed16(op, cur),
        InstructionShape::NoOperand => Ok(String::from_str(fixed_line_str(byte))),
        InstructionShape::NoOperandPadded => {
            match cur.next() {
                Ok(_) => Ok(String::from_str(fixed_line_str(byte))),
                Err(e) => Err(e),
            }
        },
    }
}

} // verus!
