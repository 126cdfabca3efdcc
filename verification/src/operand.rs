//! The addressing-mode interpreter: given the `mod`, `rm` and `w` fields it
//! consumes the displacement bytes the fields imply and renders the
//! register-or-memory operand.

use vstd::prelude::*;
use vstd::string::StringExecFns;

use crate::errors::DecodeError;
use crate::readers::{end_of_stream, read_next_word, word_at, Cursor};
use crate::tables::{reg_name, reg_name_str, rm_expr, rm_expr_str};
use crate::text::{dec_digits, dec_u16, sign_mag16, sign_mag16_text, sign_mag8, sign_mag8_text};

verus! {

/// How many bytes beyond the ModRM byte the addressing form consumes:
/// none for a register or a plain memory operand, one or two for a
/// displacement, two for the reserved direct-address form.
pub open spec fn ea_len(m: u8, rm: u8) -> int {
    if m == 0 {
        if rm == 6 {
            2int
        } else {
            0int
        }
    } else if m == 1 {
        1int
    } else if m == 2 {
        2int
    } else {
        0int
    }
}

/// The text of the register-or-memory operand selected by `(mod, rm, w)`,
/// reading its displacement from `bytes` at `pos`:
/// - `mod == 3`: the register named by `(rm, w)`;
/// - `mod == 0`, `rm == 6`: the reserved direct-address form `[addr]`;
/// - `mod == 0` otherwise: the bare base expression in brackets;
/// - `mod == 1` / `mod == 2`: the base expression with an explicitly
///   signed 8-bit / 16-bit displacement.
pub open spec fn ea_text(m: u8, rm: u8, w: u8, bytes: Seq<u8>, pos: int) -> Seq<char> {
    if m == 3 {
        reg_name(rm, w)
    } else if m == 0 {
        if rm == 6 {
            "["@ + dec_digits(word_at(bytes, pos) as nat) + "]"@
        } else {
            "["@ + rm_expr(rm) + "]"@
        }
    } else if m == 1 {
        "["@ + rm_expr(rm) + sign_mag8(bytes[pos]) + "]"@
    } else {
        "["@ + rm_expr(rm) + sign_mag16(word_at(bytes, pos) as u16) + "]"@
    }
}

/// Decodes the register-or-memory operand: consumes exactly the
/// displacement bytes the `mod` and `rm` fields imply and returns the
/// operand text, or reports `UnexpectedEndOfStream`.
pub fn ea_operand(m: u8, rm: u8, w: u8, cur: &mut Cursor) -> (r: Result<String, DecodeError>)
    requires
        old(cur).wf(),
        m < 4,
        rm < 8,
    ensures
        final(cur).bytes@ == old(cur).bytes@,
        final(cur).wf(),
        final(cur).pos >= old(cur).pos,
        old(cur).remaining() >= ea_len(m, rm) ==> {
            &&& r matches Ok(t) && t@ == ea_text(m, rm, w, old(cur).bytes@, old(cur).pos as int)
            &&& final(cur).pos == old(cur).pos + ea_len(m, rm)
        },
        old(cur).remaining() < ea_len(m, rm) ==> r == Err::<String, DecodeError>(
            end_of_stream(old(cur).bytes@),
        ),
{
    if m == 3 {
        Ok(String::from_str(reg_name_str(rm, w)))
    } else if m == 0 && rm == 6 {
        let addr = match read_next_word(cur) {
            Ok(v) => v,
            Err(e) => {
                return Err(e);
            },
        };
        let mut t = String::from_str("[");
        t.append(dec_u16(addr).as_str());
        t.append("]");
        proof {
            assert(t@ =~= ea_text(m, rm, w, old(cur).bytes@, old(cur).pos as int));
        }
        Ok(t)
    } else if m == 0 {
        let mut t = String::from_str("[");
        t.append(rm_expr_str(rm));
        t.append("]");
        proof {
            assert(t@ =~= ea_text(m, rm, w, old(cur).bytes@, old(cur).pos as int));
        }
        Ok(t)
    } else if m == 1 {
        let d8 = match cur.next() {
            Ok(v) => v,
            Err(e) => {
                return Err(e);
            },
        };
        let mut t = String::from_str("[");
        t.append(rm_expr_str(rm));
        t.append(sign_mag8_text(d8).as_str());
        t.append("]");
        proof {
            assert(t@ =~= ea_text(m, rm, w, old(cur).bytes@, old(cur).pos as int));
        }
        Ok(t)
    } else {
        let d16 = match read_next_word(cur) {
            Ok(v) => v,
            Err(e) => {
                return Err(e);
            },
        };
        let mut t = String::from_str("[");
        t.append(rm_expr_str(rm));
        t.append(sign_mag16_text(d16).as_str());
        t.append("]");
        proof {
            assert(t@ =~= ea_text(m, rm, w, old(cur).bytes@, old(cur).pos as int));
        }
        Ok(t)
    }
}

/// Addressing completeness: for every `mod` value and every `rm` value the
/// operand takes the documented form — a register name for `mod == 3`, the
/// direct-address exception for `mod == 0, rm == 6`, the bare bracketed
/// base expression for the other `mod == 0` forms, and the base expression
/// with an explicitly signed displacement of the documented width for
/// `mod == 1` and `mod == 2`.
pub proof fn lemma_addressing_completeness(m: u8, rm: u8, w: u8, bytes: Seq<u8>, pos: int)
    requires
        m < 4,
        rm < 8,
    ensures
        m == 3 ==> ea_text(m, rm, w, bytes, pos) == reg_name(rm, w) && ea_len(m, rm) == 0,
        m == 0 && rm == 6 ==> ea_text(m, rm, w, bytes, pos) == "["@ + dec_digits(
            (bytes[pos] + 256 * bytes[pos + 1]) as nat,
        ) + "]"@ && ea_len(m, rm) == 2,
        m == 0 && rm != 6 ==> ea_text(m, rm, w, bytes, pos) == "["@ + rm_expr(rm) + "]"@ && ea_len(
            m,
            rm,
        ) == 0,
        m == 1 ==> ea_text(m, rm, w, bytes, pos) == "["@ + rm_expr(rm) + sign_mag8(bytes[pos])
            + "]"@ && ea_len(m, rm) == 1,
        m == 2 ==> ea_text(m, rm, w, bytes, pos) == "["@ + rm_expr(rm) + sign_mag16(
            word_at(bytes, pos) as u16,
        ) + "]"@ && ea_len(m, rm) == 2,
{
}

} // verus!
