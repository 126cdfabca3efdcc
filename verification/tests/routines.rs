//! The decode routines and readers called directly, one shape at a time.

use sim86rs::decoders::{
    decode_far_proc_label, decode_immed16, decode_immed8, decode_immediate_to_register,
    decode_immediate_to_register_memory, decode_immediate_to_register_memory_match_mod_field,
    decode_jump, decode_memory_to_fro_accumulator, decode_near_proc_label, decode_register,
    decode_register_memory_to_from_register, decode_repeat, decode_segment_register,
};
use sim86rs::decoding_table::decode_first_byte;
use sim86rs::errors::DecodeError;
use sim86rs::mnemonic::Mnemonic;
use sim86rs::readers::{read_next_byte_and_combine, read_next_word, Cursor};

#[test]
fn cursor_reads_in_order_and_stops_at_the_end() {
    let mut cur = Cursor::new(vec![1, 2]);
    assert_eq!(cur.next(), Ok(1));
    assert_eq!(cur.next(), Ok(2));
    assert_eq!(
        cur.next(),
        Err(DecodeError::UnexpectedEndOfStream { position: 2 })
    );
}

#[test]
fn word_reads_are_little_endian() {
    let mut cur = Cursor::new(vec![0x34, 0x12]);
    assert_eq!(read_next_word(&mut cur), Ok(0x1234));
}

#[test]
fn combine_puts_the_new_byte_in_the_high_half() {
    let mut cur = Cursor::new(vec![0x12]);
    assert_eq!(read_next_byte_and_combine(0x34, &mut cur), Ok(0x1234));
}

#[test]
fn word_read_short_buffer_fails() {
    let mut cur = Cursor::new(vec![0x34]);
    assert_eq!(
        read_next_word(&mut cur),
        Err(DecodeError::UnexpectedEndOfStream { position: 1 })
    );
}

#[test]
fn register_routine() {
    assert_eq!(decode_register(Mnemonic::Push, 0x53), "PUSH BX");
}

#[test]
fn segment_register_routine() {
    assert_eq!(decode_segment_register(Mnemonic::Push, 0x0E), "PUSH CS");
}

#[test]
fn jump_routine() {
    let mut cur = Cursor::new(vec![0xFE]);
    assert_eq!(decode_jump(Mnemonic::Jz, &mut cur), Ok("JZ $+0".to_string()));
}

#[test]
fn immed8_routine() {
    let mut cur = Cursor::new(vec![0x15]);
    assert_eq!(decode_immed8(Mnemonic::Int, &mut cur), Ok("INT 21".to_string()));
}

#[test]
fn immed16_routine() {
    let mut cur = Cursor::new(vec![0x02, 0x00]);
    assert_eq!(decode_immed16(Mnemonic::Retf, &mut cur), Ok("RETF 2".to_string()));
}

#[test]
fn far_label_routine() {
    let mut cur = Cursor::new(vec![0x78, 0x56, 0x34, 0x12]);
    assert_eq!(
        decode_far_proc_label(Mnemonic::Call, &mut cur),
        Ok("CALL 4660:22136".to_string())
    );
}

#[test]
fn near_label_routine_uses_the_cursor_offset() {
    let mut cur = Cursor::new(vec![0x05, 0x00]);
    assert_eq!(
        decode_near_proc_label(Mnemonic::Call, &mut cur),
        Ok("CALL 7".to_string())
    );
}

#[test]
fn repeat_routine() {
    let mut cur = Cursor::new(vec![0xA4]);
    assert_eq!(decode_repeat(Mnemonic::Rep, &mut cur), Ok("REP MOVSB".to_string()));
}

#[test]
fn accumulator_routine() {
    let mut cur = Cursor::new(vec![0x34, 0x12]);
    assert_eq!(
        decode_memory_to_fro_accumulator(Mnemonic::Mov, 0xA1, &mut cur, false),
        Ok("MOV AX, [4660]".to_string())
    );
}

#[test]
fn immediate_to_register_routine() {
    let mut cur = Cursor::new(vec![0x05, 0x00]);
    assert_eq!(
        decode_immediate_to_register(Mnemonic::Mov, 0xB8, &mut cur),
        Ok("MOV AX, 5".to_string())
    );
}

#[test]
fn immediate_to_register_memory_routine() {
    let mut cur = Cursor::new(vec![0xC0, 0xFE]);
    assert_eq!(
        decode_immediate_to_register_memory(Mnemonic::Add, 0x83, &mut cur),
        Ok("ADD AX, 65534".to_string())
    );
}

#[test]
fn immediate_tail_routine() {
    // mod=01, w=1, rm=7: a displaced memory destination, then a full-width
    // immediate.
    let mut cur = Cursor::new(vec![0x05, 0x34, 0x12]);
    assert_eq!(
        decode_immediate_to_register_memory_match_mod_field(
            1,
            &mut cur,
            1,
            Mnemonic::Add,
            7,
            0
        ),
        Ok("ADD [BX + 5], WORD 4660".to_string())
    );
}

#[test]
fn register_memory_routine() {
    let mut cur = Cursor::new(vec![0xD8]);
    assert_eq!(
        decode_register_memory_to_from_register(Mnemonic::Mov, 0x89, &mut cur),
        Ok("MOV AX, BX".to_string())
    );
}

#[test]
fn register_memory_routine_direction_bit() {
    let mut cur = Cursor::new(vec![0xD8]);
    assert_eq!(
        decode_register_memory_to_from_register(Mnemonic::Mov, 0x8B, &mut cur),
        Ok("MOV BX, AX".to_string())
    );
}

#[test]
fn dispatch_routine_decodes_and_leaves_the_cursor_past_the_instruction() {
    let mut cur = Cursor::new(vec![0x89, 0xD8, 0x90]);
    let first = cur.next().unwrap();
    assert_eq!(decode_first_byte(first, &mut cur), Ok("MOV AX, BX".to_string()));
    assert_eq!(cur.pos, 2);
    let second = cur.next().unwrap();
    assert_eq!(decode_first_byte(second, &mut cur), Ok("NOP".to_string()));
    assert_eq!(cur.pos, 3);
}

#[test]
fn dispatch_routine_rejects_unknown_opcodes() {
    let mut cur = Cursor::new(vec![0x0F]);
    let first = cur.next().unwrap();
    assert_eq!(
        decode_first_byte(first, &mut cur),
        Err(DecodeError::UnknownOpcode { opcode: 0x0F, position: 0 })
    );
}
