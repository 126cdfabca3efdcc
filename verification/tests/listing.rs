//! End-to-end decoding through `decode_all`: whole buffers in, one text
//! line per instruction out.

use sim86rs::decode_all;
use sim86rs::errors::DecodeError;

fn lines_of(bytes: Vec<u8>) -> Vec<String> {
    let (lines, err) = decode_all(bytes);
    assert_eq!(err, None);
    lines
}

#[test]
fn mov_register_to_register() {
    assert_eq!(lines_of(vec![0x89, 0xD8]), vec!["MOV AX, BX"]);
}

#[test]
fn mov_immediate_to_register() {
    assert_eq!(lines_of(vec![0xB8, 0x05, 0x00]), vec!["MOV AX, 5"]);
}

#[test]
fn decoding_is_deterministic() {
    let program = vec![0x89, 0xD8, 0xB8, 0x05, 0x00, 0x74, 0xFE, 0x90];
    let first = decode_all(program.clone());
    let second = decode_all(program);
    assert_eq!(first.0, second.0);
    assert_eq!(first.1, second.1);
}

#[test]
fn short_jump_negative_two_is_self_relative() {
    assert_eq!(lines_of(vec![0x74, 0xFE]), vec!["JZ $+0"]);
}

#[test]
fn short_jump_positive_two() {
    assert_eq!(lines_of(vec![0x74, 0x02]), vec!["JZ $+4"]);
}

#[test]
fn short_jump_backward() {
    assert_eq!(lines_of(vec![0xE2, 0xFC]), vec!["LOOP $-2"]);
}

#[test]
fn short_jump_zero_displacement() {
    assert_eq!(lines_of(vec![0x75, 0x00]), vec!["JNZ $+2"]);
}

#[test]
fn short_jump_extreme_displacements() {
    assert_eq!(lines_of(vec![0x70, 0x7F]), vec!["JO $+129"]);
    assert_eq!(lines_of(vec![0x70, 0x80]), vec!["JO $-126"]);
    assert_eq!(lines_of(vec![0x70, 0xFF]), vec!["JO $+1"]);
}

#[test]
fn addressing_mod_00_all_rm() {
    let expected = [
        "MOV AX, [BX + SI]",
        "MOV AX, [BX + DI]",
        "MOV AX, [BP + SI]",
        "MOV AX, [BP + DI]",
        "MOV AX, [SI]",
        "MOV AX, [DI]",
        "MOV AX, [4660]",
        "MOV AX, [BX]",
    ];
    for rm in 0u8..8 {
        let modrm = rm;
        let bytes = if rm == 6 {
            vec![0x8B, modrm, 0x34, 0x12]
        } else {
            vec![0x8B, modrm]
        };
        assert_eq!(lines_of(bytes), vec![expected[rm as usize]]);
    }
}

#[test]
fn addressing_mod_01_all_rm() {
    let expected = [
        "MOV AX, [BX + SI + 5]",
        "MOV AX, [BX + DI + 5]",
        "MOV AX, [BP + SI + 5]",
        "MOV AX, [BP + DI + 5]",
        "MOV AX, [SI + 5]",
        "MOV AX, [DI + 5]",
        "MOV AX, [BP + 5]",
        "MOV AX, [BX + 5]",
    ];
    for rm in 0u8..8 {
        let modrm = 0x40 | rm;
        assert_eq!(lines_of(vec![0x8B, modrm, 0x05]), vec![expected[rm as usize]]);
    }
}

#[test]
fn addressing_mod_10_all_rm() {
    let expected = [
        "MOV AX, [BX + SI + 4660]",
        "MOV AX, [BX + DI + 4660]",
        "MOV AX, [BP + SI + 4660]",
        "MOV AX, [BP + DI + 4660]",
        "MOV AX, [SI + 4660]",
        "MOV AX, [DI + 4660]",
        "MOV AX, [BP + 4660]",
        "MOV AX, [BX + 4660]",
    ];
    for rm in 0u8..8 {
        let modrm = 0x80 | rm;
        assert_eq!(lines_of(vec![0x8B, modrm, 0x34, 0x12]), vec![expected[rm as usize]]);
    }
}

#[test]
fn addressing_mod_11_all_rm() {
    let expected = [
        "MOV AX, AX",
        "MOV AX, CX",
        "MOV AX, DX",
        "MOV AX, BX",
        "MOV AX, SP",
        "MOV AX, BP",
        "MOV AX, SI",
        "MOV AX, DI",
    ];
    for rm in 0u8..8 {
        let modrm = 0xC0 | rm;
        assert_eq!(lines_of(vec![0x8B, modrm]), vec![expected[rm as usize]]);
    }
}

#[test]
fn addressing_negative_displacements() {
    assert_eq!(lines_of(vec![0x8B, 0x46, 0xFB]), vec!["MOV AX, [BP - 5]"]);
    assert_eq!(lines_of(vec![0x8B, 0x46, 0x00]), vec!["MOV AX, [BP + 0]"]);
    assert_eq!(lines_of(vec![0x8B, 0x86, 0xFE, 0xFF]), vec!["MOV AX, [BP - 2]"]);
}

#[test]
fn unary_group_resolution() {
    // Opcode F7, mod=11, rm=0; the reg field selects the operation.
    assert_eq!(lines_of(vec![0xF7, 0xC0]), vec!["TEST AX, AX"]);
    assert_eq!(lines_of(vec![0xF7, 0xD8]), vec!["NEG AX"]);
    assert_eq!(lines_of(vec![0xF7, 0xD0]), vec!["NOT AX"]);
    assert_eq!(lines_of(vec![0xF7, 0xE0]), vec!["MUL AX"]);
    assert_eq!(lines_of(vec![0xF7, 0xE8]), vec!["IMUL AX"]);
    assert_eq!(lines_of(vec![0xF7, 0xF0]), vec!["DIV AX"]);
    assert_eq!(lines_of(vec![0xF7, 0xF8]), vec!["IDIV AX"]);
}

#[test]
fn unary_group_test_takes_immediate() {
    // Opcode F6 with reg=000 resolves to TEST and reads an immediate.
    assert_eq!(lines_of(vec![0xF6, 0xC0, 0x07]), vec!["TEST AL, 7"]);
}

#[test]
fn shift_group_resolution() {
    assert_eq!(lines_of(vec![0xD0, 0xC0]), vec!["ROL AL, 1"]);
    assert_eq!(lines_of(vec![0xD0, 0xC8]), vec!["ROR AL, 1"]);
    assert_eq!(lines_of(vec![0xD0, 0xD0]), vec!["RCL AL, 1"]);
    assert_eq!(lines_of(vec![0xD0, 0xD8]), vec!["RCR AL, 1"]);
    assert_eq!(lines_of(vec![0xD1, 0xE0]), vec!["SHL AX, 1"]);
    assert_eq!(lines_of(vec![0xD1, 0xE8]), vec!["SHR AX, 1"]);
    assert_eq!(lines_of(vec![0xD3, 0xF8]), vec!["SAR AX, CL"]);
    assert_eq!(lines_of(vec![0xD2, 0xC0]), vec!["ROL AL, CL"]);
}

#[test]
fn inc_group_resolution() {
    assert_eq!(lines_of(vec![0xFE, 0xC0]), vec!["INC AL"]);
    assert_eq!(lines_of(vec![0xFE, 0xC8]), vec!["DEC AL"]);
    assert_eq!(lines_of(vec![0xFF, 0xC0]), vec!["INC AX"]);
    assert_eq!(lines_of(vec![0xFF, 0xC8]), vec!["DEC AX"]);
    assert_eq!(lines_of(vec![0xFF, 0xD0]), vec!["CALL AX"]);
    assert_eq!(lines_of(vec![0xFF, 0xE0]), vec!["JMP AX"]);
    assert_eq!(lines_of(vec![0xFF, 0xF0]), vec!["PUSH WORD AX"]);
}

#[test]
fn indirect_far_forms() {
    assert_eq!(lines_of(vec![0xFF, 0x16, 0x34, 0x12]), vec!["CALL [4660]"]);
    assert_eq!(lines_of(vec![0xFF, 0x1E, 0x34, 0x12]), vec!["CALL FAR [4660]"]);
    assert_eq!(lines_of(vec![0xFF, 0x26, 0x34, 0x12]), vec!["JMP [4660]"]);
    assert_eq!(lines_of(vec![0xFF, 0x2E, 0x34, 0x12]), vec!["JMP FAR [4660]"]);
}

#[test]
fn size_qualifiers_on_memory_operands() {
    assert_eq!(lines_of(vec![0xF7, 0x1E, 0x34, 0x12]), vec!["NEG WORD [4660]"]);
    assert_eq!(lines_of(vec![0xF6, 0x17]), vec!["NOT BYTE [BX]"]);
    assert_eq!(lines_of(vec![0xFE, 0x07]), vec!["INC BYTE [BX]"]);
    assert_eq!(lines_of(vec![0xFF, 0x07]), vec!["INC WORD [BX]"]);
    assert_eq!(lines_of(vec![0xD1, 0x27]), vec!["SHL WORD [BX], 1"]);
}

#[test]
fn push_pop_register_memory() {
    assert_eq!(lines_of(vec![0xFF, 0x37]), vec!["PUSH WORD [BX]"]);
    assert_eq!(lines_of(vec![0x8F, 0x06, 0x34, 0x12]), vec!["POP WORD [4660]"]);
}

#[test]
fn immediate_group_width_and_sign() {
    // s=0, w=0: one byte, used as is.
    assert_eq!(lines_of(vec![0x80, 0xC0, 0x05]), vec!["ADD AL, 5"]);
    // s=0, w=1: a full 16-bit immediate.
    assert_eq!(lines_of(vec![0x81, 0xC0, 0x05, 0x00]), vec!["ADD AX, 5"]);
    assert_eq!(lines_of(vec![0x81, 0xC0, 0xFE, 0xFF]), vec!["ADD AX, 65534"]);
    // s=1, w=1: one byte, sign-extended to 16 bits before use.
    assert_eq!(lines_of(vec![0x83, 0xC0, 0xFE]), vec!["ADD AX, 65534"]);
    assert_eq!(lines_of(vec![0x83, 0xC0, 0x05]), vec!["ADD AX, 5"]);
}

#[test]
fn immediate_group_mnemonics() {
    assert_eq!(lines_of(vec![0x80, 0xC8, 0x05]), vec!["OR AL, 5"]);
    assert_eq!(lines_of(vec![0x80, 0xD0, 0x05]), vec!["ADC AL, 5"]);
    assert_eq!(lines_of(vec![0x80, 0xD8, 0x05]), vec!["SBB AL, 5"]);
    assert_eq!(lines_of(vec![0x80, 0xE0, 0x05]), vec!["AND AL, 5"]);
    assert_eq!(lines_of(vec![0x80, 0xE8, 0x05]), vec!["SUB AL, 5"]);
    assert_eq!(lines_of(vec![0x80, 0xF0, 0x05]), vec!["XOR AL, 5"]);
    assert_eq!(lines_of(vec![0x80, 0xF8, 0x05]), vec!["CMP AL, 5"]);
}

#[test]
fn immediate_to_memory_carries_size() {
    assert_eq!(
        lines_of(vec![0xC7, 0x06, 0x34, 0x12, 0x05, 0x00]),
        vec!["MOV [4660], WORD 5"]
    );
    assert_eq!(lines_of(vec![0xC6, 0x07, 0x09]), vec!["MOV [BX], BYTE 9"]);
    assert_eq!(
        lines_of(vec![0x83, 0x06, 0x34, 0x12, 0xFE]),
        vec!["ADD [4660], WORD 65534"]
    );
    assert_eq!(
        lines_of(vec![0x81, 0x47, 0x05, 0x34, 0x12]),
        vec!["ADD [BX + 5], WORD 4660"]
    );
}

#[test]
fn immediate_to_memory_other_addressing_modes() {
    assert_eq!(lines_of(vec![0x80, 0x07, 0x05]), vec!["ADD [BX], BYTE 5"]);
    assert_eq!(
        lines_of(vec![0x81, 0x87, 0xFE, 0xFF, 0x05, 0x00]),
        vec!["ADD [BX - 2], WORD 5"]
    );
}

#[test]
fn near_label_wraps_at_sixteen_bits() {
    let mut program = vec![0x90; 65533];
    program.extend([0xE8, 0x05, 0x00]);
    let (lines, err) = decode_all(program);
    assert_eq!(err, None);
    assert_eq!(lines.len(), 65534);
    assert_eq!(lines.last().unwrap(), "CALL 5");
}

#[test]
fn mov_ignores_sign_extension_bit() {
    // C7 has the bit that is `s` on the arithmetic group set, yet reads a
    // full-width immediate.
    assert_eq!(
        lines_of(vec![0xC7, 0xC0, 0xFE, 0xFF]),
        vec!["MOV AX, 65534"]
    );
}

#[test]
fn accumulator_forms() {
    assert_eq!(lines_of(vec![0xA1, 0x34, 0x12]), vec!["MOV AX, [4660]"]);
    assert_eq!(lines_of(vec![0xA2, 0x34]), vec!["MOV [52], AL"]);
    assert_eq!(lines_of(vec![0xA3, 0x34, 0x12]), vec!["MOV [4660], AX"]);
    assert_eq!(lines_of(vec![0x04, 0x05]), vec!["ADD AL, 5"]);
    assert_eq!(lines_of(vec![0x3D, 0x05, 0x00]), vec!["CMP AX, 5"]);
    assert_eq!(lines_of(vec![0xA8, 0x0F]), vec!["TEST AL, 15"]);
    assert_eq!(lines_of(vec![0xE4, 0x20]), vec!["IN AL, 32"]);
    // OUT keeps an 8-bit port number even at word width.
    assert_eq!(lines_of(vec![0xE7, 0x20]), vec!["OUT 32, AX"]);
}

#[test]
fn register_only_forms() {
    assert_eq!(lines_of(vec![0x43]), vec!["INC BX"]);
    assert_eq!(lines_of(vec![0x4B]), vec!["DEC BX"]);
    assert_eq!(lines_of(vec![0x50]), vec!["PUSH AX"]);
    assert_eq!(lines_of(vec![0x5F]), vec!["POP DI"]);
}

#[test]
fn segment_register_forms() {
    assert_eq!(lines_of(vec![0x06]), vec!["PUSH ES"]);
    assert_eq!(lines_of(vec![0x0E]), vec!["PUSH CS"]);
    assert_eq!(lines_of(vec![0x1F]), vec!["POP DS"]);
}

#[test]
fn segment_register_move() {
    assert_eq!(lines_of(vec![0x8C, 0xD8]), vec!["MOV AL, DS"]);
}

#[test]
fn load_pointer_forms() {
    assert_eq!(lines_of(vec![0x8D, 0x07]), vec!["LEA AX, [BX]"]);
    assert_eq!(lines_of(vec![0xC4, 0x07]), vec!["LES AX, [BX]"]);
    assert_eq!(lines_of(vec![0xC5, 0x47, 0x05]), vec!["LDS AX, [BX + 5]"]);
}

#[test]
fn exchange_and_test_two_operand() {
    assert_eq!(lines_of(vec![0x87, 0xC3]), vec!["XCHG AX, BX"]);
    // Opcode 85 has d=0: the register field is the source.
    assert_eq!(lines_of(vec![0x85, 0xC3]), vec!["TEST BX, AX"]);
}

#[test]
fn near_labels_track_instruction_pointer() {
    assert_eq!(lines_of(vec![0xE8, 0x05, 0x00]), vec!["CALL 8"]);
    assert_eq!(lines_of(vec![0xE9, 0xFD, 0xFF]), vec!["JMP 0"]);
    // The base is the offset of the following instruction, not zero.
    assert_eq!(
        lines_of(vec![0x90, 0xE8, 0x05, 0x00]),
        vec!["NOP", "CALL 9"]
    );
}

#[test]
fn far_labels_render_segment_and_offset() {
    assert_eq!(
        lines_of(vec![0x9A, 0x78, 0x56, 0x34, 0x12]),
        vec!["CALL 4660:22136"]
    );
    assert_eq!(
        lines_of(vec![0xEA, 0x00, 0x00, 0xFF, 0xFF]),
        vec!["JMP 65535:0"]
    );
}

#[test]
fn repeat_prefix_forms() {
    assert_eq!(lines_of(vec![0xF3, 0xA4]), vec!["REP MOVSB"]);
    assert_eq!(lines_of(vec![0xF3, 0xA5]), vec!["REP MOVSW"]);
    assert_eq!(lines_of(vec![0xF3, 0xA6]), vec!["REP CMPSB"]);
    assert_eq!(lines_of(vec![0xF3, 0xA7]), vec!["REP CMPSW"]);
    assert_eq!(lines_of(vec![0xF3, 0xAA]), vec!["REP STOSB"]);
    assert_eq!(lines_of(vec![0xF3, 0xAB]), vec!["REP STOSW"]);
    assert_eq!(lines_of(vec![0xF3, 0xAC]), vec!["REP LODSB"]);
    assert_eq!(lines_of(vec![0xF3, 0xAD]), vec!["REP LODSW"]);
    assert_eq!(lines_of(vec![0xF3, 0xAE]), vec!["REP SCASB"]);
    assert_eq!(lines_of(vec![0xF3, 0xAF]), vec!["REP SCASW"]);
}

#[test]
fn interrupt_and_return_immediates() {
    assert_eq!(lines_of(vec![0xCD, 0x15]), vec!["INT 21"]);
    assert_eq!(lines_of(vec![0xCA, 0x02, 0x00]), vec!["RETF 2"]);
    assert_eq!(lines_of(vec![0xC2, 0x02, 0x00]), vec!["RET 2"]);
    assert_eq!(lines_of(vec![0xC2, 0xFE, 0xFF]), vec!["RET -2"]);
}

#[test]
fn no_operand_lines() {
    assert_eq!(lines_of(vec![0x90]), vec!["NOP"]);
    assert_eq!(lines_of(vec![0xF4]), vec!["HLT"]);
    assert_eq!(lines_of(vec![0x98, 0x99]), vec!["CBW", "CWD"]);
    assert_eq!(lines_of(vec![0x26, 0x2E, 0x36, 0x3E]), vec!["ES", "CS", "SS", "DS"]);
    assert_eq!(lines_of(vec![0xEC, 0xED, 0xEE]), vec!["IN AL, DX", "IN AX, DX", "OUT DX, AL"]);
    assert_eq!(lines_of(vec![0x92, 0x94]), vec!["XCHG AX, DX", "XCHG AX, SP"]);
}

#[test]
fn padded_no_operand_consumes_second_byte() {
    assert_eq!(lines_of(vec![0xD4, 0x0A]), vec!["AAM"]);
    assert_eq!(lines_of(vec![0xD5, 0x0A, 0x90]), vec!["AAD", "NOP"]);
}

#[test]
fn number_formatting_extremes() {
    assert_eq!(lines_of(vec![0xB8, 0xFF, 0xFF]), vec!["MOV AX, 65535"]);
    assert_eq!(lines_of(vec![0xB0, 0x00]), vec!["MOV AL, 0"]);
    assert_eq!(lines_of(vec![0xB0, 0x0A]), vec!["MOV AL, 10"]);
}

#[test]
fn multi_instruction_listing() {
    assert_eq!(
        lines_of(vec![0x89, 0xD8, 0xB8, 0x05, 0x00, 0x74, 0xFE]),
        vec!["MOV AX, BX", "MOV AX, 5", "JZ $+0"]
    );
}

#[test]
fn empty_buffer_decodes_to_nothing() {
    let (lines, err) = decode_all(vec![]);
    assert!(lines.is_empty());
    assert_eq!(err, None);
}

#[test]
fn truncated_modrm_fails_with_end_of_stream() {
    let (lines, err) = decode_all(vec![0x88]);
    assert!(lines.is_empty());
    assert_eq!(err, Some(DecodeError::UnexpectedEndOfStream { position: 1 }));
}

#[test]
fn truncated_immediate_fails_with_end_of_stream() {
    let (lines, err) = decode_all(vec![0xB8, 0x05]);
    assert!(lines.is_empty());
    assert_eq!(err, Some(DecodeError::UnexpectedEndOfStream { position: 2 }));
}

#[test]
fn truncated_padded_opcode_fails_with_end_of_stream() {
    let (lines, err) = decode_all(vec![0xD4]);
    assert!(lines.is_empty());
    assert_eq!(err, Some(DecodeError::UnexpectedEndOfStream { position: 1 }));
}

#[test]
fn unknown_opcode_reports_byte_and_offset() {
    let (lines, err) = decode_all(vec![0x0F]);
    assert!(lines.is_empty());
    assert_eq!(err, Some(DecodeError::UnknownOpcode { opcode: 0x0F, position: 0 }));
}

#[test]
fn lines_before_a_failure_are_kept() {
    let (lines, err) = decode_all(vec![0x90, 0x0F]);
    assert_eq!(lines, vec!["NOP"]);
    assert_eq!(err, Some(DecodeError::UnknownOpcode { opcode: 0x0F, position: 1 }));
}

#[test]
fn unknown_string_selector_is_invalid_field() {
    let (lines, err) = decode_all(vec![0xF3, 0x00]);
    assert!(lines.is_empty());
    assert_eq!(err, Some(DecodeError::InvalidField { value: 0x00, position: 1 }));
}
