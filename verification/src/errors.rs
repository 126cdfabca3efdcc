//! The error kinds a decode routine can report.
//!
//! Decoding never panics: a routine that cannot finish returns one of these
//! values, carrying the byte offset at which decoding stopped so the caller
//! can present a diagnostic.

use vstd::prelude::*;

verus! {

/// Why decoding of an instruction failed.
#[derive(Clone, Copy, Debug, PartialEq, Eq, Structural)]
pub enum DecodeError {
    /// A decode routine needed more bytes than remain in the buffer.
    /// `position` is the offset at which input ran out (the buffer length).
    UnexpectedEndOfStream { position: usize },
    /// The leading byte at `position` matches no dispatch rule.
    UnknownOpcode { opcode: u8, position: usize },
    /// A sub-field value at `position` has no defined meaning, such as a
    /// string-instruction selector that names no string instruction.
    InvalidField { value: u8, position: usize },
}

} // verus!
