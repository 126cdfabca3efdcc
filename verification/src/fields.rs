//! The field extractor: the named sub-fields of an opcode or ModRM byte.
//!
//! Each field is a fixed group of bits; the functions here express the
//! mask-and-shift extraction as division and remainder by powers of two,
//! which names the same bits.

use vstd::prelude::*;

verus! {

/// The `mod` field: the top two bits of a ModRM byte.
pub open spec fn mod_of(b: u8) -> u8 {
    b / 64
}

/// The `reg` field: bits 5..3 of a ModRM byte.
pub open spec fn reg_of(b: u8) -> u8 {
    (b / 8) % 8
}

/// The `rm` field: the low three bits of a ModRM byte.
pub open spec fn rm_of(b: u8) -> u8 {
    b % 8
}

/// The `d` (direction) bit of an opcode byte, also the `s` (sign-extend)
/// bit and the shift-count selector, which share the position.
pub open spec fn d_of(b: u8) -> u8 {
    (b / 2) % 2
}

/// The `w` (width) bit of an opcode byte.
pub open spec fn w_of(b: u8) -> u8 {
    b % 2
}

/// Extracts the `mod` field.
pub fn mod_field(b: u8) -> (r: u8)
    ensures
        r == mod_of(b),
        r < 4,
{
    b / 64
}

/// Extracts the `reg` field.
pub fn reg_field(b: u8) -> (r: u8)
    ensures
        r == reg_of(b),
        r < 8,
{
    (b / 8) % 8
}

/// Extracts the `rm` field.
pub fn rm_field(b: u8) -> (r: u8)
    ensures
        r == rm_of(b),
        r < 8,
{
    b % 8
}

/// Extracts the `d` (or `s`) bit.
pub fn d_field(b: u8) -> (r: u8)
    ensures
        r == d_of(b),
        r < 2,
{
    (b / 2) % 2
}

/// Extracts the `w` bit.
pub fn w_field(b: u8) -> (r: u8)
    ensures
        r == w_of(b),
        r < 2,
{
    b % 2
}

} // verus!
