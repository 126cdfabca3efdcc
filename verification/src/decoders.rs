//! The per-shape decode routines.
//!
//! Each routine takes the provisional mnemonic and the opcode byte, pulls
//! from the cursor exactly the bytes its instruction shape implies, and
//! returns the finished output line. Beside every executable routine
//! stands a specification function that states, over the byte sequence and
//! the start position, both the line and the position after the
//! instruction; the routine's contract ties the two together, which also
//! pins the central invariant that no routine under- or over-consumes.

use vstd::prelude::*;
use vstd::string::StringExecFns;

use crate::errors::DecodeError;
use crate::fields::{d_of, mod_of, reg_of, rm_of, w_of};
use crate::mnemonic::{mnemonic_str, mnemonic_text, Mnemonic};
use crate::readers::{end_of_stream, read_next_byte_and_combine, read_next_word, word_at, Cursor};
use crate::tables::{reg_name, reg_name_str, seg_reg_name, seg_reg_name_str};
use crate::text::{dec_digits, dec_u16};

verus! {

/// What a decode routine says over the byte sequence: the output line and
/// the position just after the instruction, or the reported error.
pub type SpecDecoded = Result<(Seq<char>, int), DecodeError>;

/// The line of a register-only instruction: the word register named by the
/// low three bits of the opcode byte itself.
pub open spec fn spec_decode_register(op: Mnemonic, byte: u8) -> Seq<char> {
    mnemonic_text(op) + " "@ + reg_name(rm_of(byte), 1)
}

/// Decodes a register-only instruction (no further bytes).
pub fn decode_register(op: Mnemonic, byte: u8) -> (r: String)
    ensures
        r@ == spec_decode_register(op, byte),
{
    let mut t = String::from_str(mnemonic_str(op));
    t.append(" ");
    t.append(reg_name_str(byte % 8, 1));
    proof {
        assert(t@ =~= spec_decode_register(op, byte));
    }
    t
}

/// The line of a segment-register instruction: the segment register named
/// by bits 4..3 of the opcode byte.
pub open spec fn spec_decode_segment_register(op: Mnemonic, byte: u8) -> Seq<char> {
    mnemonic_text(op) + " "@ + seg_reg_name((byte / 8) % 4)
}

/// Decodes a segment-register-only instruction (no further bytes).
pub fn decode_segment_register(op: Mnemonic, byte: u8) -> (r: String)
    ensures
        r@ == spec_decode_segment_register(op, byte),
{
    let mut t = String::from_str(mnemonic_str(op));
    t.append(" ");
    t.append(seg_reg_name_str((byte / 8) % 4));
    proof {
        assert(t@ =~= spec_decode_segment_register(op, byte));
    }
    t
}

/// The line and consumption of an instruction with one 8-bit immediate.
pub open spec fn spec_decode_immed8(op: Mnemonic, bytes: Seq<u8>, pos: int) -> SpecDecoded {
    if pos + 1 <= bytes.len() {
        Ok((mnemonic_text(op) + " "@ + dec_digits(bytes[pos] as nat), pos + 1))
    } else {
        Err(end_of_stream(bytes))
    }
}

/// Decodes an instruction with one 8-bit immediate operand.
pub fn decode_immed8(op: Mnemonic, cur: &mut Cursor) -> (r: Result<String, DecodeError>)
    requires
        old(cur).wf(),
    ensures
        final(cur).bytes@ == old(cur).bytes@,
        final(cur).wf(),
        final(cur).pos >= old(cur).pos,
        match spec_decode_immed8(op, old(cur).bytes@, old(cur).pos as int) {
            Ok(ln) => r matches Ok(line) && line@ == ln.0 && final(cur).pos == ln.1,
            Err(e) => r == Err::<String, DecodeError>(e),
        },
{
    let data = match cur.next() {
        Ok(v) => v,
        Err(e) => {
            return Err(e);
        },
    };
    let mut t = String::from_str(mnemonic_str(op));
    t.append(" ");
    t.append(dec_u16(data as u16).as_str());
    proof {
        assert(t@ =~= mnemonic_text(op) + " "@ + dec_digits(data as nat));
    }
    Ok(t)
}

/// The line and consumption of an instruction with one 16-bit immediate,
/// read low byte first.
pub open spec fn spec_decode_immed16(op: Mnemonic, bytes: Seq<u8>, pos: int) -> SpecDecoded {
    if pos + 2 <= bytes.len() {
        Ok((mnemonic_text(op) + " "@ + dec_digits(word_at(bytes, pos) as nat), pos + 2))
    } else {
        Err(end_of_stream(bytes))
    }
}

/// Decodes an instruction with one 16-bit immediate operand.
pub fn decode_immed16(op: Mnemonic, cur: &mut Cursor) -> (r: Result<String, DecodeError>)
    requires
        old(cur).wf(),
    ensures
        final(cur).bytes@ == old(cur).bytes@,
        final(cur).wf(),
        final(cur).pos >= old(cur).pos,
        match spec_decode_immed16(op, old(cur).bytes@, old(cur).pos as int) {
            Ok(ln) => r matches Ok(line) && line@ == ln.0 && final(cur).pos == ln.1,
            Err(e) => r == Err::<String, DecodeError>(e),
        },
{
    let data = match read_next_word(cur) {
        Ok(v) => v,
        Err(e) => {
            return Err(e);
        },
    };
    let mut t = String::from_str(mnemonic_str(op));
    t.append(" ");
    t.append(dec_u16(data).as_str());
    proof {
        assert(t@ =~= mnemonic_text(op) + " "@ + dec_digits(
            word_at(old(cur).bytes@, old(cur).pos as int) as nat,
        ));
    }
    Ok(t)
}

/// The line and consumption of a far call or jump: a 16-bit offset word,
/// then a 16-bit segment word, rendered `segment:offset`.
pub open spec fn spec_decode_far_proc_label(op: Mnemonic, bytes: Seq<u8>, pos: int) -> SpecDecoded {
    if pos + 4 <= bytes.len() {
        Ok(
            (
                mnemonic_text(op) + " "@ + dec_digits(word_at(bytes, pos + 2) as nat) + ":"@
                    + dec_digits(word_at(bytes, pos) as nat),
                pos + 4,
            ),
        )
    } else {
        Err(end_of_stream(bytes))
    }
}

/// Decodes a far call or jump target.
pub fn decode_far_proc_label(op: Mnemonic, cur: &mut Cursor) -> (r: Result<String, DecodeError>)
    requires
        old(cur).wf(),
    ensures
        final(cur).bytes@ == old(cur).bytes@,
        final(cur).wf(),
        final(cur).pos >= old(cur).pos,
        match spec_decode_far_proc_label(op, old(cur).bytes@, old(cur).pos as int) {
            Ok(ln) => r matches Ok(line) && line@ == ln.0 && final(cur).pos == ln.1,
            Err(e) => r == Err::<String, DecodeError>(e),
        },
{
    let offset = match read_next_word(cur) {
        Ok(v) => v,
        Err(e) => {
            return Err(e);
        },
    };
    let segment = match read_next_word(cur) {
        Ok(v) => v,
        Err(e) => {
            return Err(e);
        },
    };
    let mut t = String::from_str(mnemonic_str(op));
    t.append(" ");
    t.append(dec_u16(segment).as_str());
    t.append(":");
    t.append(dec_u16(offset).as_str());
    proof {
        assert(t@ =~= mnemonic_text(op) + " "@ + dec_digits(
            word_at(old(cur).bytes@, old(cur).pos + 2) as nat,
        ) + ":"@ + dec_digits(word_at(old(cur).bytes@, old(cur).pos as int) as nat));
    }
    Ok(t)
}

/// The printed target of a short jump: the signed displacement plus the
/// two bytes of the jump instruction itself, so the value is relative to
/// the start of the following instruction; `$+0` names that start.
pub open spec fn jump_target_text(d: u8) -> Seq<char> {
    if d < 128 {
        "+"@ + dec_digits((d + 2) as nat)
    } else if d >= 254 {
        "+"@ + dec_digits((d - 254) as nat)
    } else {
        "-"@ + dec_digits((254 - d) as nat)
    }
}

/// The line and consumption of a short jump or loop instruction: one
/// signed displacement byte, rendered `$+n` or `$-n`.
pub open spec fn spec_decode_jump(op: Mnemonic, bytes: Seq<u8>, pos: int) -> SpecDecoded {
    if pos + 1 <= bytes.len() {
        Ok((mnemonic_text(op) + " $"@ + jump_target_text(bytes[pos]), pos + 1))
    } else {
        Err(end_of_stream(bytes))
    }
}

/// Decodes a short jump or loop instruction.
pub fn decode_jump(op: Mnemonic, cur: &mut Cursor) -> (r: Result<String, DecodeError>)
    requires
        old(cur).wf(),
    ensures
        final(cur).bytes@ == old(cur).bytes@,
        final(cur).wf(),
        final(cur).pos >= old(cur).pos,
        match spec_decode_jump(op, old(cur).bytes@, old(cur).pos as int) {
            Ok(ln) => r matches Ok(line) && line@ == ln.0 && final(cur).pos == ln.1,
            Err(e) => r == Err::<String, DecodeError>(e),
        },
{
    let data = match cur.next() {
        Ok(v) => v,
        Err(e) => {
            return Err(e);
        },
    };
    let mut t = String::from_str(mnemonic_str(op));
    t.append(" $");
    if data < 128 {
        t.append("+");
        t.append(dec_u16(data as u16 + 2).as_str());
    } else if data >= 254 {
        t.append("+");
        t.append(dec_u16((data - 254) as u16).as_str());
    } else {
        t.append("-");
        t.append(dec_u16((254 - data) as u16).as_str());
    }
    proof {
        assert(t@ =~= mnemonic_text(op) + " $"@ + jump_target_text(data));
    }
    Ok(t)
}

/// The string instruction named by the byte following a repeat prefix, if
/// any.
pub open spec fn string_op_known(b: u8) -> bool {
    (0xA4 <= b <= 0xA7) || (0xAA <= b <= 0xAF)
}

/// The name of the string instruction selected by the byte following a
/// repeat prefix.
pub open spec fn string_op_text(b: u8) -> Seq<char> {
    if b == 0xA4 {
        "MOVSB"@
    } else if b == 0xA5 {
        "MOVSW"@
    } else if b == 0xA6 {
        "CMPSB"@
    } else if b == 0xA7 {
        "CMPSW"@
    } else if b == 0xAA {
        "STOSB"@
    } else if b == 0xAB {
        "STOSW"@
    } else if b == 0xAC {
        "LODSB"@
    } else if b == 0xAD {
        "LODSW"@
    } else if b == 0xAE {
        "SCASB"@
    } else {
        "SCASW"@
    }
}

/// The line and consumption of a repeat prefix: the following byte selects
/// the string instruction; a byte that names none is the reserved-field
/// error.
pub open spec fn spec_decode_repeat(op: Mnemonic, bytes: Seq<u8>, pos: int) -> SpecDecoded {
    if pos + 1 <= bytes.len() {
        if string_op_known(bytes[pos]) {
            Ok((mnemonic_text(op) + " "@ + string_op_text(bytes[pos]), pos + 1))
        } else {
            Err(DecodeError::InvalidField { value: bytes[pos], position: pos as usize })
        }
    } else {
        Err(end_of_stream(bytes))
    }
}

/// Decodes a repeat prefix and the string instruction it governs.
pub fn decode_repeat(op: Mnemonic, cur: &mut Cursor) -> (r: Result<String, DecodeError>)
    requires
        old(cur).wf(),
    ensures
        final(cur).bytes@ == old(cur).bytes@,
        final(cur).wf(),
        final(cur).pos >= old(cur).pos,
        match spec_decode_repeat(op, old(cur).bytes@, old(cur).pos as int) {
            Ok(ln) => r matches Ok(line) && line@ == ln.0 && final(cur).pos == ln.1,
            Err(e) => r == Err::<String, DecodeError>(e),
        },
{
    let next_byte = match cur.next() {
        Ok(v) => v,
        Err(e) => {
            return Err(e);
        },
    };
    let suffix: &'static str = match next_byte {
        0xA4 => "MOVSB",
        0xA5 => "MOVSW",
        0xA6 => "CMPSB",
        0xA7 => "CMPSW",
        0xAA => "STOSB",
        0xAB => "STOSW",
        0xAC => "LODSB",
        0xAD => "LODSW",
        0xAE => "SCASB",
        0xAF => "SCASW",
        _ => {
            return Err(
                DecodeError::InvalidField { value: next_byte, position: cur.pos - 1 },
            );
        },
    };
    let mut t = String::from_str(mnemonic_str(op));
    t.append(" ");
    t.append(suffix);
    proof {
        assert(t@ =~= mnemonic_text(op) + " "@ + string_op_text(next_byte));
    }
    Ok(t)
}

/// The line and consumption of a near call or jump: a 16-bit signed
/// displacement, read low byte first, relative to the start of the
/// following instruction; the printed target is the running byte offset of
/// that following instruction plus the displacement, as a 16-bit
/// instruction-pointer value.
pub open spec fn spec_decode_near_proc_label(op: Mnemonic, bytes: Seq<u8>, pos: int) -> SpecDecoded {
    if pos + 2 <= bytes.len() {
        Ok(
            (
                mnemonic_text(op) + " "@ + dec_digits(
                    ((word_at(bytes, pos) + pos + 2) % 65536) as nat,
                ),
                pos + 2,
            ),
        )
    } else {
        Err(end_of_stream(bytes))
    }
}

/// Decodes a near call or jump target.
pub fn decode_near_proc_label(op: Mnemonic, cur: &mut Cursor) -> (r: Result<String, DecodeError>)
    requires
        old(cur).wf(),
    ensures
        final(cur).bytes@ == old(cur).bytes@,
        final(cur).wf(),
        final(cur).pos >= old(cur).pos,
        match spec_decode_near_proc_label(op, old(cur).bytes@, old(cur).pos as int) {
            Ok(ln) => r matches Ok(line) && line@ == ln.0 && final(cur).pos == ln.1,
            Err(e) => r == Err::<String, DecodeError>(e),
        },
{
    let disp = match read_next_word(cur) {
        Ok(v) => v,
        Err(e) => {
            return Err(e);
        },
    };
    // The cursor now stands at the following instruction; its offset is the
    // base the displacement is relative to.
    let base = cur.pos % 65536;
    let target = ((disp as usize) + base) % 65536;
    proof {
        vstd::arithmetic::div_mod::lemma_add_mod_noop(
            disp as int,
            cur.pos as int,
            65536,
        );
        vstd::arithmetic::div_mod::lemma_mod_bound(disp + cur.pos, 65536);
        assert((disp as int) % 65536 == disp as int);
    }
    let target16 = target as u16;
    let mut t = String::from_str(mnemonic_str(op));
    t.append(" ");
    t.append(dec_u16(target16).as_str());
    proof {
        assert(t@ =~= mnemonic_text(op) + " "@ + dec_digits(
            ((word_at(old(cur).bytes@, old(cur).pos as int) + old(cur).pos + 2) % 65536) as nat,
        ));
    }
    Ok(t)
}

/// The line and consumption of an accumulator-form instruction: the `w`
/// bit selects `AL` or `AX` and the operand width; a `MOV` treats the
/// value as a direct address, every other mnemonic as an immediate; an
/// `OUT` keeps an 8-bit value at either width. `reverse` puts the
/// accumulator second.
pub open spec fn spec_decode_accumulator(
    op: Mnemonic,
    byte: u8,
    reverse: bool,
    bytes: Seq<u8>,
    pos: int,
) -> SpecDecoded {
    let w = w_of(byte);
    let wide = w == 1 && op != Mnemonic::Out;
    let need: int = if wide {
        2
    } else {
        1
    };
    if pos + need <= bytes.len() {
        let v: int = if wide {
            word_at(bytes, pos)
        } else {
            bytes[pos] as int
        };
        let acc = if w == 1 {
            "AX"@
        } else {
            "AL"@
        };
        let operand = if op == Mnemonic::Mov {
            "["@ + dec_digits(v as nat) + "]"@
        } else {
            dec_digits(v as nat)
        };
        let line = if reverse {
            mnemonic_text(op) + " "@ + operand + ", "@ + acc
        } else {
            mnemonic_text(op) + " "@ + acc + ", "@ + operand
        };
        Ok((line, pos + need))
    } else {
        Err(end_of_stream(bytes))
    }
}

/// Decodes a memory-to/from-accumulator or immediate-to-accumulator
/// instruction.
pub fn decode_memory_to_fro_accumulator(
    op: Mnemonic,
    byte: u8,
    cur: &mut Cursor,
    reverse: bool,
) -> (r: Result<String, DecodeError>)
    requires
        old(cur).wf(),
    ensures
        final(cur).bytes@ == old(cur).bytes@,
        final(cur).wf(),
        final(cur).pos >= old(cur).pos,
        match spec_decode_accumulator(op, byte, reverse, old(cur).bytes@, old(cur).pos as int) {
            Ok(ln) => r matches Ok(line) && line@ == ln.0 && final(cur).pos == ln.1,
            Err(e) => r == Err::<String, DecodeError>(e),
        },
{
    let w = byte % 2;
    let mut data = match cur.next() {
        Ok(v) => v as u16,
        Err(e) => {
            return Err(e);
        },
    };
    let mut acc = "AL";
    if w == 1 {
        if !matches!(op, Mnemonic::Out) {
            data = match read_next_byte_and_combine(data, cur) {
                Ok(v) => v,
                Err(e) => {
                    return Err(e);
                },
            };
        }
        acc = "AX";
    }
    let mut operand = String::new();
    if matches!(op, Mnemonic::Mov) {
        operand.append("[");
        operand.append(dec_u16(data).as_str());
        operand.append("]");
    } else {
        operand.append(dec_u16(data).as_str());
    }
    let mut t = String::from_str(mnemonic_str(op));
    t.append(" ");
    if reverse {
        t.append(operand.as_str());
        t.append(", ");
        t.append(acc);
    } else {
        t.append(acc);
        t.append(", ");
        t.append(operand.as_str());
    }
    proof {
        let ln = spec_decode_accumulator(
            op,
            byte,
            reverse,
            old(cur).bytes@,
            old(cur).pos as int,
        );
        assert(t@ =~= ln->Ok_0.0);
    }
    Ok(t)
}

/// Whether the accumulator form puts the accumulator second (the
/// memory-destination and port-output opcodes).
pub open spec fn spec_acc_reversed(b: u8) -> bool {
    b == 0xA2 || b == 0xA3 || b == 0xE6 || b == 0xE7
}

/// Whether the accumulator form puts the accumulator second.
pub fn acc_reversed(b: u8) -> (r: bool)
    ensures
        r == spec_acc_reversed(b),
{
    matches!(b, 0xA2 | 0xA3 | 0xE6 | 0xE7)
}

/// The printed value of a `RET` immediate: the 16-bit word read as a
/// two's-complement value, with an explicit minus sign when negative.
pub open spec fn ret_value_text(v: u16) -> Seq<char> {
    if v < 32768 {
        dec_digits(v as nat)
    } else {
        "-"@ + dec_digits((65536 - v) as nat)
    }
}

/// The line and consumption of an immediate-to-register instruction. The
/// `w` bit sits in bit 3 of the opcode byte and the register in its low
/// three bits; a full-width immediate is always read when `w == 1`. A
/// `RET` instead carries a 16-bit pop count, printed signed.
pub open spec fn spec_decode_immediate_to_register(
    op: Mnemonic,
    byte: u8,
    bytes: Seq<u8>,
    pos: int,
) -> SpecDecoded {
    if op == Mnemonic::Ret {
        if pos + 2 <= bytes.len() {
            Ok((mnemonic_text(op) + " "@ + ret_value_text(word_at(bytes, pos) as u16), pos + 2))
        } else {
            Err(end_of_stream(bytes))
        }
    } else {
        let w = (byte / 8) % 2;
        let reg = byte % 8;
        let need: int = if w == 1 {
            2
        } else {
            1
        };
        if pos + need <= bytes.len() {
            let v: int = if w == 1 {
                word_at(bytes, pos)
            } else {
                bytes[pos] as int
            };
            Ok(
                (
                    mnemonic_text(op) + " "@ + reg_name(reg, w) + ", "@ + dec_digits(v as nat),
                    pos + need,
                ),
            )
        } else {
            Err(end_of_stream(bytes))
        }
    }
}

/// Decodes an immediate-to-register instruction (or a `RET` pop count).
pub fn decode_immediate_to_register(op: Mnemonic, byte: u8, cur: &mut Cursor) -> (r: Result<
    String,
    DecodeError,
>)
    requires
        old(cur).wf(),
    ensures
        final(cur).bytes@ == old(cur).bytes@,
        final(cur).wf(),
        final(cur).pos >= old(cur).pos,
        match spec_decode_immediate_to_register(op, byte, old(cur).bytes@, old(cur).pos as int) {
            Ok(ln) => r matches Ok(line) && line@ == ln.0 && final(cur).pos == ln.1,
            Err(e) => r == Err::<String, DecodeError>(e),
        },
{
    if matches!(op, Mnemonic::Ret) {
        let data = match read_next_word(cur) {
            Ok(v) => v,
            Err(e) => {
                return Err(e);
            },
        };
        let mut t = String::from_str(mnemonic_str(op));
        t.append(" ");
        if data < 32768 {
            t.append(dec_u16(data).as_str());
        } else {
            t.append("-");
            let m = 65535 - data + 1;
            assert(m == 65536 - data);
            t.append(dec_u16(m).as_str());
        }
        proof {
            assert(t@ =~= mnemonic_text(op) + " "@ + ret_value_text(
                word_at(old(cur).bytes@, old(cur).pos as int) as u16,
            ));
        }
        Ok(t)
    } else {
        let w = (byte / 8) % 2;
        let reg = byte % 8;
        let mut data = match cur.next() {
            Ok(v) => v as u16,
            Err(e) => {
                return Err(e);
            },
        };
        if w == 1 {
            data = match read_next_byte_and_combine(data, cur) {
                Ok(v) => v,
                Err(e) => {
                    return Err(e);
                },
            };
        }
        let mut t = String::from_str(mnemonic_str(op));
        t.append(" ");
        t.append(reg_name_str(reg, w));
        t.append(", ");
        t.append(dec_u16(data).as_str());
        proof {
            let ln = spec_decode_immediate_to_register(
                op,
                byte,
                old(cur).bytes@,
                old(cur).pos as int,
            );
            assert(t@ =~= ln->Ok_0.0);
        }
        Ok(t)
    }
}

/// How many bytes the immediate of an immediate-to-register/memory
/// instruction occupies: one when `w == 0`; at full width two, except that
/// the arithmetic group with `s == 1` reads one byte and sign-extends it.
/// A `MOV` ignores `s` and always reads full width when `w == 1`.
pub open spec fn imm_len(op: Mnemonic, s: u8, w: u8) -> int {
    if w != 1 {
        1int
    } else if op == Mnemonic::Mov || s == 0 {
        2int
    } else {
        1int
    }
}

/// An 8-bit value widened to 16 bits by replicating its sign bit.
pub open spec fn sign_extend8(b: u8) -> int {
    if b < 128 {
        b as int
    } else {
        b + 0xFF00
    }
}

/// The 16-bit value of the immediate read under the width and
/// sign-extension rule of `imm_len`.
pub open spec fn imm_val(op: Mnemonic, s: u8, w: u8, bytes: Seq<u8>, pos: int) -> int {
    if w != 1 {
        bytes[pos] as int
    } else if op == Mnemonic::Mov || s == 0 {
        word_at(bytes, pos)
    } else {
        sign_extend8(bytes[pos])
    }
}

/// Width/sign rule of the immediate group: with `w == 0` one byte is read
/// and used as is; with `s == 1, w == 1` one byte is read and sign-extended
/// to 16 bits before use; with `s == 0, w == 1` a full 16-bit immediate is
/// read. A `MOV` ignores `s`: at `w == 1` it always reads full width.
pub proof fn lemma_immediate_width_sign(op: Mnemonic, s: u8, w: u8, bytes: Seq<u8>, pos: int)
    ensures
        w == 0 ==> imm_len(op, s, w) == 1 && imm_val(op, s, w, bytes, pos) == bytes[pos],
        op != Mnemonic::Mov && s == 1 && w == 1 ==> imm_len(op, s, w) == 1 && imm_val(
            op,
            s,
            w,
            bytes,
            pos,
        ) == sign_extend8(bytes[pos]),
        s == 0 && w == 1 ==> imm_len(op, s, w) == 2 && imm_val(op, s, w, bytes, pos) == word_at(
            bytes,
            pos,
        ),
        op == Mnemonic::Mov && w == 1 ==> imm_len(op, s, w) == 2 && imm_val(op, s, w, bytes, pos)
            == word_at(bytes, pos),
{
}

/// Reads the immediate of an immediate-to-register/memory instruction
/// under the width and sign-extension rule.
fn read_immediate(op: Mnemonic, s: u8, w: u8, cur: &mut Cursor) -> (r: Result<u16, DecodeError>)
    requires
        old(cur).wf(),
    ensures
        final(cur).bytes@ == old(cur).bytes@,
        final(cur).wf(),
        final(cur).pos >= old(cur).pos,
        old(cur).remaining() >= imm_len(op, s, w) ==> {
            &&& r == Ok::<u16, DecodeError>(
                imm_val(op, s, w, old(cur).bytes@, old(cur).pos as int) as u16,
            )
            &&& final(cur).pos == old(cur).pos + imm_len(op, s, w)
        },
        old(cur).remaining() < imm_len(op, s, w) ==> r == Err::<u16, DecodeError>(
            end_of_stream(old(cur).bytes@),
        ),
{
    let b0 = match cur.next() {
        Ok(v) => v,
        Err(e) => {
            return Err(e);
        },
    };
    if w == 1 {
        if matches!(op, Mnemonic::Mov) || s == 0 {
            match read_next_byte_and_combine(b0 as u16, cur) {
                Ok(v) => Ok(v),
                Err(e) => Err(e),
            }
        } else {
            if b0 < 128 {
                Ok(b0 as u16)
            } else {
                Ok(b0 as u16 + 0xFF00)
            }
        }
    } else {
        Ok(b0 as u16)
    }
}

/// The `BYTE`/`WORD` qualifier selected by the `w` bit.
pub open spec fn size_text(w: u8) -> Seq<char> {
    if w == 1 {
        "WORD"@
    } else {
        "BYTE"@
    }
}

/// The line and consumption of an immediate-to-register/memory instruction
/// after its ModRM byte: the register-or-memory operand, then the
/// immediate. A memory destination carries an explicit `BYTE`/`WORD`
/// qualifier on the immediate, a register destination needs none.
pub open spec fn spec_decode_imm_to_rm_tail(
    m: u8,
    w: u8,
    op: Mnemonic,
    rm: u8,
    s: u8,
    bytes: Seq<u8>,
    pos: int,
) -> SpecDecoded {
    let total = crate::operand::ea_len(m, rm) + imm_len(op, s, w);
    if pos + total <= bytes.len() {
        let ea = crate::operand::ea_text(m, rm, w, bytes, pos);
        let v = imm_val(op, s, w, bytes, pos + crate::operand::ea_len(m, rm));
        let line = if m == 3 {
            mnemonic_text(op) + " "@ + ea + ", "@ + dec_digits(v as nat)
        } else {
            mnemonic_text(op) + " "@ + ea + ", "@ + size_text(w) + " "@ + dec_digits(v as nat)
        };
        Ok((line, pos + total))
    } else {
        Err(end_of_stream(bytes))
    }
}

/// Decodes the remainder of an immediate-to-register/memory instruction
/// once its `mod`, `rm` and width fields are known.
pub fn decode_immediate_to_register_memory_match_mod_field(
    mod_field: u8,
    cur: &mut Cursor,
    w_field: u8,
    op: Mnemonic,
    rm_field: u8,
    s_field: u8,
) -> (r: Result<String, DecodeError>)
    requires
        old(cur).wf(),
        mod_field < 4,
        rm_field < 8,
    ensures
        final(cur).bytes@ == old(cur).bytes@,
        final(cur).wf(),
        final(cur).pos >= old(cur).pos,
        match spec_decode_imm_to_rm_tail(
            mod_field,
            w_field,
            op,
            rm_field,
            s_field,
            old(cur).bytes@,
            old(cur).pos as int,
        ) {
            Ok(ln) => r matches Ok(line) && line@ == ln.0 && final(cur).pos == ln.1,
            Err(e) => r == Err::<String, DecodeError>(e),
        },
{
    let ea = match crate::operand::ea_operand(mod_field, rm_field, w_field, cur) {
        Ok(v) => v,
        Err(e) => {
            return Err(e);
        },
    };
    let data = match read_immediate(op, s_field, w_field, cur) {
        Ok(v) => v,
        Err(e) => {
            return Err(e);
        },
    };
    let mut t = String::from_str(mnemonic_str(op));
    t.append(" ");
    t.append(ea.as_str());
    t.append(", ");
    if mod_field != 3 {
        if w_field == 1 {
            t.append("WORD");
        } else {
            t.append("BYTE");
        }
        t.append(" ");
    }
    t.append(dec_u16(data).as_str());
    proof {
        let ln = spec_decode_imm_to_rm_tail(
            mod_field,
            w_field,
            op,
            rm_field,
            s_field,
            old(cur).bytes@,
            old(cur).pos as int,
        );
        assert(t@ =~= ln->Ok_0.0);
    }
    Ok(t)
}

/// The line and consumption of the immediate-to-register/memory shape: the
/// `s` and `w` bits of the opcode byte, a ModRM byte whose `reg` field
/// selects the arithmetic-group mnemonic (a `MOV` keeps its mnemonic), the
/// addressing form, then the immediate.
pub open spec fn spec_decode_immediate_to_register_memory(
    op: Mnemonic,
    byte: u8,
    bytes: Seq<u8>,
    pos: int,
) -> SpecDecoded {
    if pos + 1 <= bytes.len() {
        let mb = bytes[pos];
        let resolved = if op == Mnemonic::Mov {
            op
        } else {
            crate::mnemonic::resolve_arith_imm_group(reg_of(mb), op)
        };
        spec_decode_imm_to_rm_tail(
            mod_of(mb),
            w_of(byte),
            resolved,
            rm_of(mb),
            d_of(byte),
            bytes,
            pos + 1,
        )
    } else {
        Err(end_of_stream(bytes))
    }
}

/// Decodes an immediate-to-register/memory instruction.
pub fn decode_immediate_to_register_memory(op: Mnemonic, byte: u8, cur: &mut Cursor) -> (r: Result<
    String,
    DecodeError,
>)
    requires
        old(cur).wf(),
    ensures
        final(cur).bytes@ == old(cur).bytes@,
        final(cur).wf(),
        final(cur).pos >= old(cur).pos,
        match spec_decode_immediate_to_register_memory(
            op,
            byte,
            old(cur).bytes@,
            old(cur).pos as int,
        ) {
            Ok(ln) => r matches Ok(line) && line@ == ln.0 && final(cur).pos == ln.1,
            Err(e) => r == Err::<String, DecodeError>(e),
        },
{
    let s = crate::fields::d_field(byte);
    let w = crate::fields::w_field(byte);
    let mb = match cur.next() {
        Ok(v) => v,
        Err(e) => {
            return Err(e);
        },
    };
    let m = crate::fields::mod_field(mb);
    let regf = crate::fields::reg_field(mb);
    let rm = crate::fields::rm_field(mb);
    let resolved = if matches!(op, Mnemonic::Mov) {
        op
    } else {
        crate::mnemonic::resolve_arith_imm_exec(regf, op)
    };
    decode_immediate_to_register_memory_match_mod_field(m, cur, w, resolved, rm, s)
}

/// The mnemonics of the shift/rotate group, whose count operand is the
/// literal `1` or the register `CL`.
pub open spec fn is_shift(m: Mnemonic) -> bool {
    ||| m == Mnemonic::Shl
    ||| m == Mnemonic::Shr
    ||| m == Mnemonic::Sar
    ||| m == Mnemonic::Rol
    ||| m == Mnemonic::Ror
    ||| m == Mnemonic::Rcl
    ||| m == Mnemonic::Rcr
}

/// The mnemonics rendered with a single register-or-memory operand.
pub open spec fn is_one_operand(m: Mnemonic) -> bool {
    ||| m == Mnemonic::Inc
    ||| m == Mnemonic::Dec
    ||| m == Mnemonic::Neg
    ||| m == Mnemonic::Mul
    ||| m == Mnemonic::Imul
    ||| m == Mnemonic::Div
    ||| m == Mnemonic::Idiv
    ||| m == Mnemonic::Not
    ||| m == Mnemonic::Call
    ||| m == Mnemonic::Jmp
}

/// The unary, increment and shift classes whose memory operand carries an
/// explicit `BYTE`/`WORD` qualifier, the width being otherwise ambiguous.
pub open spec fn takes_size_qualifier(m: Mnemonic) -> bool {
    ||| is_shift(m)
    ||| m == Mnemonic::Inc
    ||| m == Mnemonic::Dec
    ||| m == Mnemonic::Neg
    ||| m == Mnemonic::Not
    ||| m == Mnemonic::Mul
    ||| m == Mnemonic::Imul
    ||| m == Mnemonic::Div
    ||| m == Mnemonic::Idiv
}

/// The load-pointer mnemonics, whose register field is always the
/// destination.
pub open spec fn is_load_pointer(m: Mnemonic) -> bool {
    m == Mnemonic::Lea || m == Mnemonic::Lds || m == Mnemonic::Les
}

fn is_shift_exec(m: Mnemonic) -> (r: bool)
    ensures
        r == is_shift(m),
{
    matches!(
        m,
        Mnemonic::Shl | Mnemonic::Shr | Mnemonic::Sar | Mnemonic::Rol | Mnemonic::Ror
            | Mnemonic::Rcl | Mnemonic::Rcr
    )
}

fn is_one_operand_exec(m: Mnemonic) -> (r: bool)
    ensures
        r == is_one_operand(m),
{
    matches!(
        m,
        Mnemonic::Inc | Mnemonic::Dec | Mnemonic::Neg | Mnemonic::Mul | Mnemonic::Imul
            | Mnemonic::Div | Mnemonic::Idiv | Mnemonic::Not | Mnemonic::Call | Mnemonic::Jmp
    )
}

fn takes_size_qualifier_exec(m: Mnemonic) -> (r: bool)
    ensures
        r == takes_size_qualifier(m),
{
    matches!(
        m,
        Mnemonic::Shl | Mnemonic::Shr | Mnemonic::Sar | Mnemonic::Rol | Mnemonic::Ror
            | Mnemonic::Rcl | Mnemonic::Rcr | Mnemonic::Inc | Mnemonic::Dec | Mnemonic::Neg
            | Mnemonic::Not | Mnemonic::Mul | Mnemonic::Imul | Mnemonic::Div | Mnemonic::Idiv
    )
}

/// The line and consumption of the register/memory-to/from-register shape,
/// the shape of the extension-group opcodes as well. The `d` and `w` bits
/// come from the opcode byte (the load-pointer forms force them); the
/// ModRM byte selects the addressing form and either the second register
/// or, for an extension group, the true mnemonic, which then governs the
/// rendering: `PUSH`/`POP` with a fixed `WORD` qualifier, the one-operand
/// class with an optional `FAR`, the shift class with a `1`-or-`CL` count,
/// and everything else as a `d`-directed register pair. The unary-group
/// `TEST` (from opcode `F6`) goes on as an immediate form instead.
pub open spec fn spec_decode_register_memory_to_from_register(
    op: Mnemonic,
    byte: u8,
    bytes: Seq<u8>,
    pos: int,
) -> SpecDecoded {
    let d = if is_load_pointer(op) {
        1u8
    } else {
        d_of(byte)
    };
    let w = if op == Mnemonic::Les {
        1u8
    } else {
        w_of(byte)
    };
    if pos + 1 <= bytes.len() {
        let mb = bytes[pos];
        let m = mod_of(mb);
        let regf = reg_of(mb);
        let rm = rm_of(mb);
        let resolved = crate::mnemonic::resolve_mnemonic(op, regf);
        if byte == 0xF6 && resolved == Mnemonic::Test {
            spec_decode_imm_to_rm_tail(m, w, resolved, rm, d_of(byte), bytes, pos + 1)
        } else {
            let total = 1 + crate::operand::ea_len(m, rm);
            if pos + total <= bytes.len() {
                let base = crate::operand::ea_text(m, rm, w, bytes, pos + 1);
                let b = if m != 3 && takes_size_qualifier(resolved) {
                    size_text(w) + " "@ + base
                } else {
                    base
                };
                let mn = mnemonic_text(resolved);
                let line = if resolved == Mnemonic::Push || resolved == Mnemonic::Pop {
                    mn + " WORD "@ + b
                } else if is_one_operand(resolved) {
                    if (resolved == Mnemonic::Call && regf == 3) || (resolved == Mnemonic::Jmp
                        && regf == 5) {
                        mn + " FAR "@ + b
                    } else {
                        mn + " "@ + b
                    }
                } else if is_shift(resolved) {
                    mn + " "@ + b + ", "@ + (if d == 0 {
                        "1"@
                    } else {
                        "CL"@
                    })
                } else {
                    let a = if byte == 0x8C {
                        seg_reg_name(regf % 4)
                    } else {
                        reg_name(regf, w)
                    };
                    if d == 1 {
                        mn + " "@ + a + ", "@ + b
                    } else {
                        mn + " "@ + b + ", "@ + a
                    }
                };
                Ok((line, pos + total))
            } else {
                Err(end_of_stream(bytes))
            }
        }
    } else {
        Err(end_of_stream(bytes))
    }
}

/// Decodes a register/memory-to/from-register instruction, the
/// extension-group forms included.
pub fn decode_register_memory_to_from_register(
    op: Mnemonic,
    byte: u8,
    cur: &mut Cursor,
) -> (r: Result<String, DecodeError>)
    requires
        old(cur).wf(),
    ensures
        final(cur).bytes@ == old(cur).bytes@,
        final(cur).wf(),
        final(cur).pos >= old(cur).pos,
        match spec_decode_register_memory_to_from_register(
            op,
            byte,
            old(cur).bytes@,
            old(cur).pos as int,
        ) {
            Ok(ln) => r matches Ok(line) && line@ == ln.0 && final(cur).pos == ln.1,
            Err(e) => r == Err::<String, DecodeError>(e),
        },
{
    let d0 = crate::fields::d_field(byte);
    let w0 = crate::fields::w_field(byte);
    let lp = matches!(op, Mnemonic::Lea | Mnemonic::Lds | Mnemonic::Les);
    let d = if lp {
        1
    } else {
        d0
    };
    let w = if matches!(op, Mnemonic::Les) {
        1
    } else {
        w0
    };
    let mb = match cur.next() {
        Ok(v) => v,
        Err(e) => {
            return Err(e);
        },
    };
    let m = crate::fields::mod_field(mb);
    let regf = crate::fields::reg_field(mb);
    let rm = crate::fields::rm_field(mb);
    let resolved = crate::mnemonic::resolve_mnemonic_exec(op, regf);
    if byte == 0xF6 && matches!(resolved, Mnemonic::Test) {
        return decode_immediate_to_register_memory_match_mod_field(m, cur, w, resolved, rm, d0);
    }
    let base = match crate::operand::ea_operand(m, rm, w, cur) {
        Ok(v) => v,
        Err(e) => {
            return Err(e);
        },
    };
    let mut b = String::new();
    if m != 3 && takes_size_qualifier_exec(resolved) {
        if w == 1 {
            b.append("WORD");
        } else {
            b.append("BYTE");
        }
        b.append(" ");
    }
    b.append(base.as_str());
    let ghost ln = spec_decode_register_memory_to_from_register(
        op,
        byte,
        old(cur).bytes@,
        old(cur).pos as int,
    );
    let mut t = String::from_str(mnemonic_str(resolved));
    if matches!(resolved, Mnemonic::Push | Mnemonic::Pop) {
        t.append(" WORD ");
        t.append(b.as_str());
        proof {
            assert(t@ =~= ln->Ok_0.0);
        }
    } else if is_one_operand_exec(resolved) {
        if (matches!(resolved, Mnemonic::Call) && regf == 3) || (matches!(resolved, Mnemonic::Jmp)
            && regf == 5) {
            t.append(" FAR ");
        } else {
            t.append(" ");
        }
        t.append(b.as_str());
        proof {
            assert(t@ =~= ln->Ok_0.0);
        }
    } else if is_shift_exec(resolved) {
        t.append(" ");
        t.append(b.as_str());
        t.append(", ");
        if d == 0 {
            t.append("1");
        } else {
            t.append("CL");
        }
        proof {
            assert(t@ =~= ln->Ok_0.0);
        }
    } else {
        let a = if byte == 0x8C {
            seg_reg_name_str(regf % 4)
        } else {
            reg_name_str(regf, w)
        };
        t.append(" ");
        if d == 1 {
            t.append(a);
            t.append(", ");
            t.append(b.as_str());
        } else {
            t.append(b.as_str());
            t.append(", ");
            t.append(a);
        }
        proof {
            assert(t@ =~= ln->Ok_0.0);
        }
    }
    Ok(t)
}

} // verus!
