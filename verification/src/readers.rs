//! The byte cursor: a sequential, forward-only view over the instruction
//! bytes, and the primitive read operations the decode routines build on.

use vstd::prelude::*;

use crate::errors::DecodeError;

verus! {

/// A position into an immutable byte buffer, advancing monotonically and
/// never rewound. The cursor is the sole mutable state of the decoder.
pub struct Cursor {
    /// The full program image, fixed for the run.
    pub bytes: Vec<u8>,
    /// Offset of the next byte to read.
    pub pos: usize,
}

/// The error every exhausted read reports: input ran out at the end of the
/// buffer.
pub open spec fn end_of_stream(bytes: Seq<u8>) -> DecodeError {
    DecodeError::UnexpectedEndOfStream { position: bytes.len() as usize }
}

impl Cursor {
    /// A well-formed cursor never points past the end of its buffer.
    pub open spec fn wf(&self) -> bool {
        self.pos <= self.bytes@.len()
    }

    /// How many bytes remain to be read.
    pub open spec fn remaining(&self) -> int {
        self.bytes@.len() - self.pos
    }

    /// A cursor at the start of `bytes`.
    pub fn new(bytes: Vec<u8>) -> (cur: Cursor)
        ensures
            cur.bytes@ == bytes@,
            cur.pos == 0,
            cur.wf(),
    {
        Cursor { bytes, pos: 0 }
    }

    /// Reads the byte at the current position and advances past it, or
    /// reports `UnexpectedEndOfStream` when the buffer is exhausted.
    pub fn next(&mut self) -> (r: Result<u8, DecodeError>)
        requires
            old(self).wf(),
        ensures
            final(self).bytes@ == old(self).bytes@,
            final(self).wf(),
            old(self).remaining() >= 1 ==> {
                &&& r == Ok::<u8, DecodeError>(old(self).bytes@[old(self).pos as int])
                &&& final(self).pos == old(self).pos + 1
            },
            old(self).remaining() < 1 ==> {
                &&& r == Err::<u8, DecodeError>(end_of_stream(old(self).bytes@))
                &&& final(self).pos == old(self).pos
            },
    {
        if self.pos < self.bytes.len() {
            let b = self.bytes[self.pos];
            self.pos = self.pos + 1;
            Ok(b)
        } else {
            Err(DecodeError::UnexpectedEndOfStream { position: self.bytes.len() })
        }
    }
}

/// The 16-bit value stored little-endian at `pos`.
pub open spec fn word_at(bytes: Seq<u8>, pos: int) -> int {
    bytes[pos] + 256 * bytes[pos + 1]
}

/// Reads a 16-bit word, low byte first.
pub fn read_next_word(cur: &mut Cursor) -> (r: Result<u16, DecodeError>)
    requires
        old(cur).wf(),
    ensures
        final(cur).bytes@ == old(cur).bytes@,
        final(cur).wf(),
        final(cur).pos >= old(cur).pos,
        old(cur).remaining() >= 2 ==> {
            &&& r == Ok::<u16, DecodeError>(word_at(old(cur).bytes@, old(cur).pos as int) as u16)
            &&& final(cur).pos == old(cur).pos + 2
        },
        old(cur).remaining() < 2 ==> r == Err::<u16, DecodeError>(end_of_stream(old(cur).bytes@)),
{
    let lo = match cur.next() {
        Ok(b) => b,
        Err(e) => {
            return Err(e);
        },
    };
    let hi = match cur.next() {
        Ok(b) => b,
        Err(e) => {
            return Err(e);
        },
    };
    Ok(lo as u16 + 256 * (hi as u16))
}

/// Reads one more byte and makes it the high half of `word`, whose current
/// value stays in the low half: the little-endian continuation of a wide
/// field whose low byte was read first.
pub fn read_next_byte_and_combine(word: u16, cur: &mut Cursor) -> (r: Result<u16, DecodeError>)
    requires
        old(cur).wf(),
        word < 256,
    ensures
        final(cur).bytes@ == old(cur).bytes@,
        final(cur).wf(),
        final(cur).pos >= old(cur).pos,
        old(cur).remaining() >= 1 ==> {
            &&& r == Ok::<u16, DecodeError>(
                (word + 256 * old(cur).bytes@[old(cur).pos as int]) as u16,
            )
            &&& final(cur).pos == old(cur).pos + 1
        },
        old(cur).remaining() < 1 ==> {
            &&& r == Err::<u16, DecodeError>(end_of_stream(old(cur).bytes@))
            &&& final(cur).pos == old(cur).pos
        },
{
    let hi = match cur.next() {
        Ok(b) => b,
        Err(e) => {
            return Err(e);
        },
    };
    Ok(word + 256 * (hi as u16))
}

} // verus!
