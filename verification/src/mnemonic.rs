//! Mnemonics and the extension-group resolution tables.
//!
//! An opcode byte selects a provisional mnemonic. For the extension-group
//! opcodes (the unary group, the shift/rotate group, and the
//! increment/push group) the true mnemonic is selected afterwards by the
//! `reg` sub-field of the ModRM byte; the resolution tables here are that
//! second, pure stage.

use vstd::prelude::*;

verus! {

/// Every operation the decoder can name in an output line.
#[derive(Clone, Copy, Debug, PartialEq, Eq, Structural)]
pub enum Mnemonic {
    Add,
    Or,
    Adc,
    Sbb,
    And,
    Sub,
    Xor,
    Cmp,
    Mov,
    Lea,
    Lds,
    Les,
    Test,
    Xchg,
    Push,
    Pop,
    Inc,
    Dec,
    Neg,
    Not,
    Mul,
    Imul,
    Div,
    Idiv,
    Shl,
    Shr,
    Sar,
    Rol,
    Ror,
    Rcl,
    Rcr,
    Call,
    Jmp,
    Ret,
    Retf,
    Int,
    In,
    Out,
    Rep,
    Jo,
    Jno,
    Jb,
    Jae,
    Jz,
    Jnz,
    Jbe,
    Ja,
    Js,
    Jns,
    Jp,
    Jnp,
    Jl,
    Jge,
    Jle,
    Jg,
    Loopnz,
    Loopz,
    Loop,
    Jcxz,
}

/// The text of a mnemonic as it appears in an output line.
pub open spec fn mnemonic_text(m: Mnemonic) -> Seq<char> {
    match m {
        Mnemonic::Add => "ADD"@,
        Mnemonic::Or => "OR"@,
        Mnemonic::Adc => "ADC"@,
        Mnemonic::Sbb => "SBB"@,
        Mnemonic::And => "AND"@,
        Mnemonic::Sub => "SUB"@,
        Mnemonic::Xor => "XOR"@,
        Mnemonic::Cmp => "CMP"@,
        Mnemonic::Mov => "MOV"@,
        Mnemonic::Lea => "LEA"@,
        Mnemonic::Lds => "LDS"@,
        Mnemonic::Les => "LES"@,
        Mnemonic::Test => "TEST"@,
        Mnemonic::Xchg => "XCHG"@,
        Mnemonic::Push => "PUSH"@,
        Mnemonic::Pop => "POP"@,
        Mnemonic::Inc => "INC"@,
        Mnemonic::Dec => "DEC"@,
        Mnemonic::Neg => "NEG"@,
        Mnemonic::Not => "NOT"@,
        Mnemonic::Mul => "MUL"@,
        Mnemonic::Imul => "IMUL"@,
        Mnemonic::Div => "DIV"@,
        Mnemonic::Idiv => "IDIV"@,
        Mnemonic::Shl => "SHL"@,
        Mnemonic::Shr => "SHR"@,
        Mnemonic::Sar => "SAR"@,
        Mnemonic::Rol => "ROL"@,
        Mnemonic::Ror => "ROR"@,
        Mnemonic::Rcl => "RCL"@,
        Mnemonic::Rcr => "RCR"@,
        Mnemonic::Call => "CALL"@,
        Mnemonic::Jmp => "JMP"@,
        Mnemonic::Ret => "RET"@,
        Mnemonic::Retf => "RETF"@,
        Mnemonic::Int => "INT"@,
        Mnemonic::In => "IN"@,
        Mnemonic::Out => "OUT"@,
        Mnemonic::Rep => "REP"@,
        Mnemonic::Jo => "JO"@,
        Mnemonic::Jno => "JNO"@,
        Mnemonic::Jb => "JB"@,
        Mnemonic::Jae => "JAE"@,
        Mnemonic::Jz => "JZ"@,
        Mnemonic::Jnz => "JNZ"@,
        Mnemonic::Jbe => "JBE"@,
        Mnemonic::Ja => "JA"@,
        Mnemonic::Js => "JS"@,
        Mnemonic::Jns => "JNS"@,
        Mnemonic::Jp => "JP"@,
        Mnemonic::Jnp => "JNP"@,
        Mnemonic::Jl => "JL"@,
        Mnemonic::Jge => "JGE"@,
        Mnemonic::Jle => "JLE"@,
        Mnemonic::Jg => "JG"@,
        Mnemonic::Loopnz => "LOOPNZ"@,
        Mnemonic::Loopz => "LOOPZ"@,
        Mnemonic::Loop => "LOOP"@,
        Mnemonic::Jcxz => "JCXZ"@,
    }
}

/// The text of a mnemonic.
pub fn mnemonic_str(m: Mnemonic) -> (r: &'static str)
    ensures
        r@ == mnemonic_text(m),
{
    match m {
        Mnemonic::Add => "ADD",
        Mnemonic::Or => "OR",
        Mnemonic::Adc => "ADC",
        Mnemonic::Sbb => "SBB",
        Mnemonic::And => "AND",
        Mnemonic::Sub => "SUB",
        Mnemonic::Xor => "XOR",
        Mnemonic::Cmp => "CMP",
        Mnemonic::Mov => "MOV",
        Mnemonic::Lea => "LEA",
        Mnemonic::Lds => "LDS",
        Mnemonic::Les => "LES",
        Mnemonic::Test => "TEST",
        Mnemonic::Xchg => "XCHG",
        Mnemonic::Push => "PUSH",
        Mnemonic::Pop => "POP",
        Mnemonic::Inc => "INC",
        Mnemonic::Dec => "DEC",
        Mnemonic::Neg => "NEG",
        Mnemonic::Not => "NOT",
        Mnemonic::Mul => "MUL",
        Mnemonic::Imul => "IMUL",
        Mnemonic::Div => "DIV",
        Mnemonic::Idiv => "IDIV",
        Mnemonic::Shl => "SHL",
        Mnemonic::Shr => "SHR",
        Mnemonic::Sar => "SAR",
        Mnemonic::Rol => "ROL",
        Mnemonic::Ror => "ROR",
        Mnemonic::Rcl => "RCL",
        Mnemonic::Rcr => "RCR",
        Mnemonic::Call => "CALL",
        Mnemonic::Jmp => "JMP",
        Mnemonic::Ret => "RET",
        Mnemonic::Retf => "RETF",
        Mnemonic::Int => "INT",
        Mnemonic::In => "IN",
        Mnemonic::Out => "OUT",
        Mnemonic::Rep => "REP",
        Mnemonic::Jo => "JO",
        Mnemonic::Jno => "JNO",
        Mnemonic::Jb => "JB",
        Mnemonic::Jae => "JAE",
        Mnemonic::Jz => "JZ",
        Mnemonic::Jnz => "JNZ",
        Mnemonic::Jbe => "JBE",
        Mnemonic::Ja => "JA",
        Mnemonic::Js => "JS",
        Mnemonic::Jns => "JNS",
        Mnemonic::Jp => "JP",
        Mnemonic::Jnp => "JNP",
        Mnemonic::Jl => "JL",
        Mnemonic::Jge => "JGE",
        Mnemonic::Jle => "JLE",
        Mnemonic::Jg => "JG",
        Mnemonic::Loopnz => "LOOPNZ",
        Mnemonic::Loopz => "LOOPZ",
        Mnemonic::Loop => "LOOP",
        Mnemonic::Jcxz => "JCXZ",
    }
}

/// Resolution table of the increment/push extension group (the opcodes
/// whose provisional mnemonic is `INC` or `PUSH`): `reg` values without an
/// entry keep the provisional mnemonic.
pub open spec fn resolve_inc_group(reg: u8, provisional: Mnemonic) -> Mnemonic {
    if reg == 0 {
        Mnemonic::Inc
    } else if reg == 1 {
        Mnemonic::Dec
    } else if reg == 2 || reg == 3 {
        Mnemonic::Call
    } else if reg == 4 || reg == 5 {
        Mnemonic::Jmp
    } else {
        provisional
    }
}

/// Resolution table of the unary extension group (provisional mnemonic
/// `NEG`).
pub open spec fn resolve_unary_group(reg: u8, provisional: Mnemonic) -> Mnemonic {
    if reg == 0 {
        Mnemonic::Test
    } else if reg == 2 {
        Mnemonic::Not
    } else if reg == 4 {
        Mnemonic::Mul
    } else if reg == 5 {
        Mnemonic::Imul
    } else if reg == 6 {
        Mnemonic::Div
    } else if reg == 7 {
        Mnemonic::Idiv
    } else {
        provisional
    }
}

/// Resolution table of the shift/rotate extension group (provisional
/// mnemonic `SHL`).
pub open spec fn resolve_shift_group(reg: u8, provisional: Mnemonic) -> Mnemonic {
    if reg == 0 {
        Mnemonic::Rol
    } else if reg == 1 {
        Mnemonic::Ror
    } else if reg == 2 {
        Mnemonic::Rcl
    } else if reg == 3 {
        Mnemonic::Rcr
    } else if reg == 5 {
        Mnemonic::Shr
    } else if reg == 7 {
        Mnemonic::Sar
    } else {
        provisional
    }
}

/// Resolution table of the arithmetic immediate group; the provisional
/// mnemonic stands for the group's `reg == 0` entry.
pub open spec fn resolve_arith_imm_group(reg: u8, provisional: Mnemonic) -> Mnemonic {
    if reg == 1 {
        Mnemonic::Or
    } else if reg == 2 {
        Mnemonic::Adc
    } else if reg == 3 {
        Mnemonic::Sbb
    } else if reg == 4 {
        Mnemonic::And
    } else if reg == 5 {
        Mnemonic::Sub
    } else if reg == 6 {
        Mnemonic::Xor
    } else if reg == 7 {
        Mnemonic::Cmp
    } else {
        provisional
    }
}

/// Whether a provisional mnemonic marks the increment/push extension group.
pub open spec fn is_inc_group(m: Mnemonic) -> bool {
    m == Mnemonic::Push || m == Mnemonic::Inc
}

/// The mnemonic that governs formatting and width rules: the provisional
/// mnemonic of the opcode byte, re-resolved through the per-group table
/// when the opcode belongs to an extension group.
pub open spec fn resolve_mnemonic(provisional: Mnemonic, reg: u8) -> Mnemonic {
    if is_inc_group(provisional) {
        resolve_inc_group(reg, provisional)
    } else if provisional == Mnemonic::Neg {
        resolve_unary_group(reg, provisional)
    } else if provisional == Mnemonic::Shl {
        resolve_shift_group(reg, provisional)
    } else {
        provisional
    }
}

/// Applies the extension-group tables.
pub fn resolve_mnemonic_exec(provisional: Mnemonic, reg: u8) -> (r: Mnemonic)
    ensures
        r == resolve_mnemonic(provisional, reg),
{
    match provisional {
        Mnemonic::Push | Mnemonic::Inc => match reg {
            0 => Mnemonic::Inc,
            1 => Mnemonic::Dec,
            2 | 3 => Mnemonic::Call,
            4 | 5 => Mnemonic::Jmp,
            _ => provisional,
        },
        Mnemonic::Neg => match reg {
            0 => Mnemonic::Test,
            2 => Mnemonic::Not,
            4 => Mnemonic::Mul,
            5 => Mnemonic::Imul,
            6 => Mnemonic::Div,
            7 => Mnemonic::Idiv,
            _ => provisional,
        },
        Mnemonic::Shl => match reg {
            0 => Mnemonic::Rol,
            1 => Mnemonic::Ror,
            2 => Mnemonic::Rcl,
            3 => Mnemonic::Rcr,
            5 => Mnemonic::Shr,
            7 => Mnemonic::Sar,
            _ => provisional,
        },
        _ => provisional,
    }
}

/// Applies the arithmetic-immediate-group table.
pub fn resolve_arith_imm_exec(reg: u8, provisional: Mnemonic) -> (r: Mnemonic)
    ensures
        r == resolve_arith_imm_group(reg, provisional),
{
    match reg {
        1 => Mnemonic::Or,
        2 => Mnemonic::Adc,
        3 => Mnemonic::Sbb,
        4 => Mnemonic::And,
        5 => Mnemonic::Sub,
        6 => Mnemonic::Xor,
        7 => Mnemonic::Cmp,
        _ => provisional,
    }
}

/// Extension-group resolution: each `reg` value of the unary (`F6`/`F7`),
/// shift/rotate (`D0`–`D3`) and increment/push (`FE`/`FF`) groups resolves
/// to the mnemonic its fixed per-group table names, and the `reg` values
/// without a table entry keep the group's provisional mnemonic.
pub proof fn lemma_extension_group_resolution()
    ensures
        resolve_mnemonic(Mnemonic::Neg, 0) == Mnemonic::Test,
        resolve_mnemonic(Mnemonic::Neg, 1) == Mnemonic::Neg,
        resolve_mnemonic(Mnemonic::Neg, 2) == Mnemonic::Not,
        resolve_mnemonic(Mnemonic::Neg, 3) == Mnemonic::Neg,
        resolve_mnemonic(Mnemonic::Neg, 4) == Mnemonic::Mul,
        resolve_mnemonic(Mnemonic::Neg, 5) == Mnemonic::Imul,
        resolve_mnemonic(Mnemonic::Neg, 6) == Mnemonic::Div,
        resolve_mnemonic(Mnemonic::Neg, 7) == Mnemonic::Idiv,
        resolve_mnemonic(Mnemonic::Shl, 0) == Mnemonic::Rol,
        resolve_mnemonic(Mnemonic::Shl, 1) == Mnemonic::Ror,
        resolve_mnemonic(Mnemonic::Shl, 2) == Mnemonic::Rcl,
        resolve_mnemonic(Mnemonic::Shl, 3) == Mnemonic::Rcr,
        resolve_mnemonic(Mnemonic::Shl, 4) == Mnemonic::Shl,
        resolve_mnemonic(Mnemonic::Shl, 5) == Mnemonic::Shr,
        resolve_mnemonic(Mnemonic::Shl, 6) == Mnemonic::Shl,
        resolve_mnemonic(Mnemonic::Shl, 7) == Mnemonic::Sar,
        forall|p: Mnemonic|
            is_inc_group(p) ==> {
                &&& #[trigger] resolve_mnemonic(p, 0) == Mnemonic::Inc
                &&& resolve_mnemonic(p, 1) == Mnemonic::Dec
                &&& resolve_mnemonic(p, 2) == Mnemonic::Call
                &&& resolve_mnemonic(p, 3) == Mnemonic::Call
                &&& resolve_mnemonic(p, 4) == Mnemonic::Jmp
                &&& resolve_mnemonic(p, 5) == Mnemonic::Jmp
                &&& resolve_mnemonic(p, 6) == p
                &&& resolve_mnemonic(p, 7) == p
            },
{
}

} // verus!
