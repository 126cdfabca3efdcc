//! The fixed lookup tables: register names by `(reg, w)`, effective-address
//! base expressions by `rm`, and segment-register names.

use vstd::prelude::*;

verus! {

/// The register named by the 3-bit `reg` (or `rm`) field at width `w`:
/// the byte registers for `w == 0`, the word registers for `w == 1`.
pub open spec fn reg_name(reg: u8, w: u8) -> Seq<char> {
    if w == 1 {
        if reg == 0 {
            "AX"@
        } else if reg == 1 {
            "CX"@
        } else if reg == 2 {
            "DX"@
        } else if reg == 3 {
            "BX"@
        } else if reg == 4 {
            "SP"@
        } else if reg == 5 {
            "BP"@
        } else if reg == 6 {
            "SI"@
        } else {
            "DI"@
        }
    } else {
        if reg == 0 {
            "AL"@
        } else if reg == 1 {
            "CL"@
        } else if reg == 2 {
            "DL"@
        } else if reg == 3 {
            "BL"@
        } else if reg == 4 {
            "AH"@
        } else if reg == 5 {
            "CH"@
        } else if reg == 6 {
            "DH"@
        } else {
            "BH"@
        }
    }
}

/// The base expression of a memory operand, selected by the `rm` field.
pub open spec fn rm_expr(rm: u8) -> Seq<char> {
    if rm == 0 {
        "BX + SI"@
    } else if rm == 1 {
        "BX + DI"@
    } else if rm == 2 {
        "BP + SI"@
    } else if rm == 3 {
        "BP + DI"@
    } else if rm == 4 {
        "SI"@
    } else if rm == 5 {
        "DI"@
    } else if rm == 6 {
        "BP"@
    } else {
        "BX"@
    }
}

/// The segment register named by the 2-bit `sr` field.
pub open spec fn seg_reg_name(sr: u8) -> Seq<char> {
    if sr == 0 {
        "ES"@
    } else if sr == 1 {
        "CS"@
    } else if sr == 2 {
        "SS"@
    } else {
        "DS"@
    }
}

/// Looks a register name up by `(reg, w)`.
pub fn reg_name_str(reg: u8, w: u8) -> (r: &'static str)
    requires
        reg < 8,
    ensures
        r@ == reg_name(reg, w),
{
    if w == 1 {
        match reg {
            0 => "AX",
            1 => "CX",
            2 => "DX",
            3 => "BX",
            4 => "SP",
            5 => "BP",
            6 => "SI",
            _ => "DI",
        }
    } else {
        match reg {
            0 => "AL",
            1 => "CL",
            2 => "DL",
            3 => "BL",
            4 => "AH",
            5 => "CH",
            6 => "DH",
            _ => "BH",
        }
    }
}

/// Looks an effective-address base expression up by `rm`.
pub fn rm_expr_str(rm: u8) -> (r: &'static str)
    requires
        rm < 8,
    ensures
        r@ == rm_expr(rm),
{
    match rm {
        0 => "BX + SI",
        1 => "BX + DI",
        2 => "BP + SI",
        3 => "BP + DI",
        4 => "SI",
        5 => "DI",
        6 => "BP",
        _ => "BX",
    }
}

/// Looks a segment-register name up by `sr`.
pub fn seg_reg_name_str(sr: u8) -> (r: &'static str)
    requires
        sr < 4,
    ensures
        r@ == seg_reg_name(sr),
{
    match sr {
        0 => "ES",
        1 => "CS",
        2 => "SS",
        _ => "DS",
    }
}

} // verus!
