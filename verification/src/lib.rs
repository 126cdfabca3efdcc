//! A decoder for 8086-class machine code.
//!
//! The crate turns a raw byte buffer into a textual assembly listing, one
//! line per instruction. Decoding an instruction is a pure function of the
//! byte buffer and the start offset: every executable decode routine is
//! proved to return exactly the line (and to consume exactly the bytes)
//! that the specification-level decoder in this crate describes. Malformed
//! input is reported through [`errors::DecodeError`], never by a panic.

use vstd::prelude::*;

pub mod decoders;
pub mod decoding_table;
pub mod errors;
pub mod fields;
pub mod mnemonic;
pub mod operand;
pub mod readers;
pub mod tables;
pub mod text;

use crate::decoding_table::{decode_first_byte, spec_decode_first_byte};
use crate::errors::DecodeError;
use crate::readers::Cursor;

verus! {

/// The listing of the whole buffer from `pos` on: the decoded lines in
/// source order, and the error that stopped decoding, if one did. Lines
/// decoded before the failure are kept.
pub open spec fn spec_decode_all(bytes: Seq<u8>, pos: int) -> (Seq<Seq<char>>, Option<DecodeError>)
    decreases bytes.len() - pos,
{
    if !(0 <= pos < bytes.len()) {
        (Seq::<Seq<char>>::empty(), None::<DecodeError>)
    } else {
        match spec_decode_first_byte(bytes[pos], bytes, pos + 1) {
            Ok(ln) => {
                // A successful decode always lands between the byte after the
                // opcode and the end of the buffer; the clamp only carries
                // that bound into the termination measure.
                let next = if pos + 1 <= ln.1 <= bytes.len() {
                    ln.1
                } else {
                    bytes.len() as int
                };
                let rest = spec_decode_all(bytes, next);
                (seq![ln.0] + rest.0, rest.1)
            },
            Err(e) => (Seq::<Seq<char>>::empty(), Some(e)),
        }
    }
}

/// Boundary failure, seen from the whole listing: a buffer holding only a
/// leading byte whose shape requires a ModRM byte decodes to no lines and
/// the `UnexpectedEndOfStream` error at the end of the one-byte buffer.
pub proof fn lemma_truncated_instruction_listing(b: u8)
    requires
        crate::decoding_table::shape_of(b) == Some(
            crate::decoding_table::InstructionShape::RegMemToFromReg,
        ) || crate::decoding_table::shape_of(b) == Some(
            crate::decoding_table::InstructionShape::ImmediateToRegMem,
        ),
    ensures
        spec_decode_all(seq![b], 0) == (
            Seq::<Seq<char>>::empty(),
            Some(DecodeError::UnexpectedEndOfStream { position: 1 }),
        ),
{
    crate::decoding_table::lemma_boundary_failure(b);
}

/// Decodes the whole buffer into one output line per instruction, in
/// source order, stopping at the first malformed instruction and reporting
/// it beside the lines already decoded. The result is pinned to a
/// specification function of the byte buffer alone, so decoding is
/// deterministic: repeated runs over the same bytes produce the same text.
pub fn decode_all(bytes: Vec<u8>) -> (r: (Vec<String>, Option<DecodeError>))
    ensures
        r.0@.map_values(|l: String| l@) == spec_decode_all(bytes@, 0).0,
        r.1 == spec_decode_all(bytes@, 0).1,
{
    let mut lines: Vec<String> = Vec::new();
    let mut err: Option<DecodeError> = None;
    let mut cur = Cursor::new(bytes);
    while err.is_none() && cur.pos < cur.bytes.len()
        invariant
            cur.wf(),
            cur.bytes@ == bytes@,
            err is None ==> {
                &&& spec_decode_all(bytes@, 0).0 == lines@.map_values(|l: String| l@)
                    + spec_decode_all(bytes@, cur.pos as int).0
                &&& spec_decode_all(bytes@, 0).1 == spec_decode_all(bytes@, cur.pos as int).1
            },
            err is Some ==> {
                &&& spec_decode_all(bytes@, 0).0 == lines@.map_values(|l: String| l@)
                &&& spec_decode_all(bytes@, 0).1 == err
            },
        decreases
            (if err is None {
                1int
            } else {
                0int
            }),
            cur.bytes@.len() - cur.pos,
    {
        let ghost prev = cur.pos as int;
        let ghost prev_lines = lines@;
        let b = match cur.next() {
            Ok(v) => v,
            Err(e) => {
                // The loop condition guarantees a byte remains.
                proof {
                    assert(false);
                }
                return (lines, Some(e));
            },
        };
        match decode_first_byte(b, &mut cur) {
            Ok(line) => {
                proof {
                    let ln = spec_decode_first_byte(bytes@[prev], bytes@, prev + 1)->Ok_0;
                    assert(spec_decode_all(bytes@, prev).0 == seq![ln.0] + spec_decode_all(
                        bytes@,
                        ln.1,
                    ).0);
                }
                lines.push(line);
                proof {
                    assert(lines@.map_values(|l: String| l@) =~= prev_lines.map_values(
                        |l: String| l@,
                    ) + seq![line@]);
                    assert(spec_decode_all(bytes@, 0).0 =~= lines@.map_values(|l: String| l@)
                        + spec_decode_all(bytes@, cur.pos as int).0);
                }
            },
            Err(e) => {
                err = Some(e);
            },
        }
    }
    proof {
        if err is None {
            assert(spec_decode_all(bytes@, cur.pos as int) == (
                Seq::<Seq<char>>::empty(),
                None::<DecodeError>,
            ));
            assert(spec_decode_all(bytes@, 0).0 =~= lines@.map_values(|l: String| l@));
        }
    }
    (lines, err)
}

} // verus!
