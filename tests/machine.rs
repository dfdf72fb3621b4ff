use chip_u8::cpu::ChipU8;
use chip_u8::machine::Fault;
use chip_u8::ops::{binary_to_opcode, Opcode};

fn machine_with(rom: &[u8]) -> ChipU8 {
    let mut cpu = ChipU8::new(false);
    cpu.load(rom).unwrap();
    cpu
}

fn lit(cpu: &ChipU8, x: usize, y: usize) -> bool {
    cpu.gfx[y * 64 + x]
}

#[test]
fn decodes_each_family() {
    assert_eq!(binary_to_opcode(0x00E0), Opcode::Clear);
    assert_eq!(binary_to_opcode(0x00EE), Opcode::Return);
    assert_eq!(binary_to_opcode(0x0123), Opcode::Rca(0x123));
    assert_eq!(binary_to_opcode(0x1ABC), Opcode::Jump(0xABC));
    assert_eq!(binary_to_opcode(0x2ABC), Opcode::Call(0xABC));
    assert_eq!(binary_to_opcode(0x3A42), Opcode::SkipEqVal(0xA, 0x42));
    assert_eq!(binary_to_opcode(0x4A42), Opcode::SkipNotEqVal(0xA, 0x42));
    assert_eq!(binary_to_opcode(0x5AB0), Opcode::SkipEq(0xA, 0xB));
    assert_eq!(binary_to_opcode(0x6A42), Opcode::SetReg(0xA, 0x42));
    assert_eq!(binary_to_opcode(0x7A42), Opcode::AddVal(0xA, 0x42));
    assert_eq!(binary_to_opcode(0x8AB0), Opcode::CopyReg(0xA, 0xB));
    assert_eq!(binary_to_opcode(0x8AB1), Opcode::Or(0xA, 0xB));
    assert_eq!(binary_to_opcode(0x8AB2), Opcode::And(0xA, 0xB));
    assert_eq!(binary_to_opcode(0x8AB3), Opcode::Xor(0xA, 0xB));
    assert_eq!(binary_to_opcode(0x8AB4), Opcode::Add(0xA, 0xB));
    assert_eq!(binary_to_opcode(0x8AB5), Opcode::Substract(0xA, 0xB));
    assert_eq!(binary_to_opcode(0x8AB6), Opcode::ShiftRight(0xA));
    assert_eq!(binary_to_opcode(0x8AB7), Opcode::MinusReg(0xA, 0xB));
    assert_eq!(binary_to_opcode(0x8ABE), Opcode::ShiftLeft(0xA));
    assert_eq!(binary_to_opcode(0x9AB0), Opcode::SkipNotEq(0xA, 0xB));
    assert_eq!(binary_to_opcode(0xA123), Opcode::SetI(0x123));
    assert_eq!(binary_to_opcode(0xB123), Opcode::JumpPlus(0x123));
    assert_eq!(binary_to_opcode(0xCA0F), Opcode::Random(0xA, 0x0F));
    assert_eq!(binary_to_opcode(0xDAB5), Opcode::DrawSprite(0xA, 0xB, 5));
    assert_eq!(binary_to_opcode(0xEA9E), Opcode::SkipIfKeyPressed(0xA));
    assert_eq!(binary_to_opcode(0xEAA1), Opcode::SkipIfKeyNotPressed(0xA));
    assert_eq!(binary_to_opcode(0xFA07), Opcode::GetDelayTimer(0xA));
    assert_eq!(binary_to_opcode(0xFA0A), Opcode::GetKeypress(0xA));
    assert_eq!(binary_to_opcode(0xFA15), Opcode::SetDelayTimer(0xA));
    assert_eq!(binary_to_opcode(0xFA18), Opcode::SetSoundTimer(0xA));
    assert_eq!(binary_to_opcode(0xFA1E), Opcode::AddI(0xA));
    assert_eq!(binary_to_opcode(0xFA29), Opcode::SetISprite(0xA));
    assert_eq!(binary_to_opcode(0xFA33), Opcode::StoreBCD(0xA));
    assert_eq!(binary_to_opcode(0xFA55), Opcode::Store(0xA));
    assert_eq!(binary_to_opcode(0xFA65), Opcode::Restore(0xA));
}

#[test]
fn decodes_unrecognised_patterns_as_unknown() {
    assert_eq!(binary_to_opcode(0x8AB8), Opcode::Unknown(0x8AB8));
    assert_eq!(binary_to_opcode(0xEA00), Opcode::Unknown(0xEA00));
    assert_eq!(binary_to_opcode(0xF0FF), Opcode::Unknown(0xF0FF));
    assert_eq!(binary_to_opcode(0x5AB1), Opcode::Unknown(0x5AB1));
    assert_eq!(binary_to_opcode(0x9AB1), Opcode::Unknown(0x9AB1));
    assert_eq!(binary_to_opcode(0x5121), Opcode::Unknown(0x5121));
    assert_eq!(binary_to_opcode(0x9ABF), Opcode::Unknown(0x9ABF));
}

#[test]
fn unknown_opcode_runs_as_no_op() {
    let mut cpu = machine_with(&[0x51, 0x21]);
    assert_eq!(cpu.fetch_op(), Ok(Opcode::Unknown(0x5121)));
    let before = cpu.regs;
    assert_eq!(cpu.cycle_with_random(0), Ok(false));
    assert_eq!(cpu.pc, 0x202);
    assert_eq!(cpu.regs, before);
}

#[test]
fn new_machine_has_font_and_starts_at_program() {
    let cpu = ChipU8::new(true);
    assert_eq!(cpu.pc, 0x200);
    assert_eq!(cpu.sp, 0);
    assert_eq!(cpu.i, 0);
    assert!(cpu.debug);
    assert_eq!(&cpu.mem[0..5], &[0xF0, 0x90, 0x90, 0x90, 0xF0]);
    assert_eq!(&cpu.mem[75..80], &[0xF0, 0x80, 0xF0, 0x80, 0x80]);
    assert_eq!(cpu.mem[80], 0);
    assert!(cpu.regs.iter().all(|r| *r == 0));
    assert!(cpu.gfx.iter().all(|p| !*p));
}

#[test]
fn add_sets_carry_on_overflow() {
    let mut cpu = ChipU8::new(false);
    cpu.regs[1] = 200;
    cpu.regs[2] = 100;
    assert_eq!(cpu.run_op(Opcode::Add(1, 2), 0), Ok(false));
    assert_eq!(cpu.regs[1], 44);
    assert_eq!(cpu.regs[15], 1);
    cpu.regs[1] = 1;
    cpu.regs[2] = 2;
    cpu.run_op(Opcode::Add(1, 2), 0).unwrap();
    assert_eq!(cpu.regs[1], 3);
    assert_eq!(cpu.regs[15], 0);
    cpu.regs[1] = 255;
    cpu.regs[2] = 0;
    cpu.run_op(Opcode::Add(1, 2), 0).unwrap();
    assert_eq!(cpu.regs[1], 255);
    assert_eq!(cpu.regs[15], 0);
}

#[test]
fn add_immediate_wraps_without_flag() {
    let mut cpu = ChipU8::new(false);
    cpu.regs[3] = 250;
    cpu.regs[15] = 7;
    cpu.run_op(Opcode::AddVal(3, 10), 0).unwrap();
    assert_eq!(cpu.regs[3], 4);
    assert_eq!(cpu.regs[15], 7);
}

#[test]
fn subtract_flags_no_borrow() {
    let mut cpu = ChipU8::new(false);
    cpu.regs[1] = 5;
    cpu.regs[2] = 3;
    cpu.run_op(Opcode::Substract(1, 2), 0).unwrap();
    assert_eq!(cpu.regs[1], 2);
    assert_eq!(cpu.regs[15], 1);
    cpu.regs[1] = 3;
    cpu.regs[2] = 5;
    cpu.run_op(Opcode::Substract(1, 2), 0).unwrap();
    assert_eq!(cpu.regs[1], 254);
    assert_eq!(cpu.regs[15], 0);
    cpu.regs[1] = 4;
    cpu.regs[2] = 4;
    cpu.run_op(Opcode::Substract(1, 2), 0).unwrap();
    assert_eq!(cpu.regs[1], 0);
    assert_eq!(cpu.regs[15], 1);
}

#[test]
fn minus_reg_swaps_operands() {
    let mut cpu = ChipU8::new(false);
    cpu.regs[1] = 3;
    cpu.regs[2] = 5;
    cpu.run_op(Opcode::MinusReg(1, 2), 0).unwrap();
    assert_eq!(cpu.regs[1], 2);
    assert_eq!(cpu.regs[15], 1);
    cpu.regs[1] = 5;
    cpu.regs[2] = 3;
    cpu.run_op(Opcode::MinusReg(1, 2), 0).unwrap();
    assert_eq!(cpu.regs[1], 254);
    assert_eq!(cpu.regs[15], 0);
}

#[test]
fn shifts_move_out_bit_to_flag() {
    let mut cpu = ChipU8::new(false);
    cpu.regs[4] = 0b1000_0011;
    cpu.run_op(Opcode::ShiftRight(4), 0).unwrap();
    assert_eq!(cpu.regs[4], 0b0100_0001);
    assert_eq!(cpu.regs[15], 1);
    cpu.regs[4] = 0b1000_0010;
    cpu.run_op(Opcode::ShiftRight(4), 0).unwrap();
    assert_eq!(cpu.regs[15], 0);
    cpu.regs[4] = 0b1000_0011;
    cpu.run_op(Opcode::ShiftLeft(4), 0).unwrap();
    assert_eq!(cpu.regs[4], 0b0000_0110);
    assert_eq!(cpu.regs[15], 1);
    cpu.regs[4] = 0b0100_0000;
    cpu.run_op(Opcode::ShiftLeft(4), 0).unwrap();
    assert_eq!(cpu.regs[4], 0b1000_0000);
    assert_eq!(cpu.regs[15], 0);
}

#[test]
fn bitwise_and_copy() {
    let mut cpu = ChipU8::new(false);
    cpu.regs[1] = 0b1100;
    cpu.regs[2] = 0b1010;
    cpu.run_op(Opcode::And(1, 2), 0).unwrap();
    assert_eq!(cpu.regs[1], 0b1000);
    cpu.regs[1] = 0b1100;
    cpu.run_op(Opcode::Or(1, 2), 0).unwrap();
    assert_eq!(cpu.regs[1], 0b1110);
    cpu.regs[1] = 0b1100;
    cpu.run_op(Opcode::Xor(1, 2), 0).unwrap();
    assert_eq!(cpu.regs[1], 0b0110);
    cpu.run_op(Opcode::CopyReg(1, 2), 0).unwrap();
    assert_eq!(cpu.regs[1], 0b1010);
}

#[test]
fn random_masks_the_drawn_byte() {
    let mut cpu = ChipU8::new(false);
    cpu.run_op(Opcode::Random(6, 0x0F), 0xAB).unwrap();
    assert_eq!(cpu.regs[6], 0x0B);
    cpu.run_op(Opcode::Random(6, 0x00), 0xFF).unwrap();
    assert_eq!(cpu.regs[6], 0);
}

#[test]
fn cycle_draws_random_within_mask() {
    let mut cpu = machine_with(&[0xC6, 0x0F, 0xC7, 0x00]);
    cpu.regs[7] = 9;
    assert_eq!(cpu.cycle(), Ok(false));
    assert!(cpu.regs[6] < 16);
    assert_eq!(cpu.cycle(), Ok(false));
    assert_eq!(cpu.regs[7], 0);
    assert_eq!(cpu.pc, 0x204);
}

#[test]
fn skips_advance_past_next_instruction() {
    let mut cpu = ChipU8::new(false);
    cpu.regs[1] = 7;
    cpu.regs[2] = 7;
    cpu.run_op(Opcode::SkipEqVal(1, 7), 0).unwrap();
    assert_eq!(cpu.pc, 0x202);
    cpu.run_op(Opcode::SkipNotEqVal(1, 7), 0).unwrap();
    assert_eq!(cpu.pc, 0x202);
    cpu.run_op(Opcode::SkipEq(1, 2), 0).unwrap();
    assert_eq!(cpu.pc, 0x204);
    cpu.run_op(Opcode::SkipNotEq(1, 2), 0).unwrap();
    assert_eq!(cpu.pc, 0x204);
}

#[test]
fn key_skips_treat_out_of_range_keys_as_released() {
    let mut cpu = ChipU8::new(false);
    cpu.press_key(5);
    cpu.regs[0] = 5;
    cpu.run_op(Opcode::SkipIfKeyPressed(0), 0).unwrap();
    assert_eq!(cpu.pc, 0x202);
    cpu.run_op(Opcode::SkipIfKeyNotPressed(0), 0).unwrap();
    assert_eq!(cpu.pc, 0x202);
    cpu.regs[0] = 200;
    cpu.run_op(Opcode::SkipIfKeyPressed(0), 0).unwrap();
    assert_eq!(cpu.pc, 0x202);
    cpu.run_op(Opcode::SkipIfKeyNotPressed(0), 0).unwrap();
    assert_eq!(cpu.pc, 0x204);
    cpu.regs[0] = 16;
    cpu.run_op(Opcode::SkipIfKeyNotPressed(0), 0).unwrap();
    assert_eq!(cpu.pc, 0x206);
    cpu.regs[0] = 6;
    cpu.run_op(Opcode::SkipIfKeyNotPressed(0), 0).unwrap();
    assert_eq!(cpu.pc, 0x208);
}

#[test]
fn call_and_return() {
    let mut cpu = ChipU8::new(false);
    cpu.pc = 0x208;
    cpu.run_op(Opcode::Call(0x300), 0).unwrap();
    assert_eq!(cpu.pc, 0x300);
    assert_eq!(cpu.sp, 1);
    assert_eq!(cpu.stack[0], 0x208);
    cpu.run_op(Opcode::Return, 0).unwrap();
    assert_eq!(cpu.pc, 0x208);
    assert_eq!(cpu.sp, 0);
}

#[test]
fn jumps() {
    let mut cpu = ChipU8::new(false);
    cpu.run_op(Opcode::Jump(0x345), 0).unwrap();
    assert_eq!(cpu.pc, 0x345);
    cpu.regs[0] = 0x10;
    cpu.run_op(Opcode::JumpPlus(0x300), 0).unwrap();
    assert_eq!(cpu.pc, 0x310);
}

#[test]
fn return_on_empty_stack_faults() {
    let mut cpu = ChipU8::new(false);
    assert_eq!(cpu.run_op(Opcode::Return, 0), Err(Fault::StackUnderflow));
    assert_eq!(cpu.pc, 0x200);
    assert_eq!(cpu.sp, 0);
}

#[test]
fn call_on_full_stack_faults() {
    let mut cpu = ChipU8::new(false);
    for _ in 0..32 {
        cpu.run_op(Opcode::Call(0x200), 0).unwrap();
    }
    assert_eq!(cpu.sp, 32);
    assert_eq!(cpu.run_op(Opcode::Call(0x200), 0), Err(Fault::StackOverflow));
    assert_eq!(cpu.sp, 32);
}

#[test]
fn memory_access_past_the_end_faults() {
    let mut cpu = ChipU8::new(false);
    cpu.i = 4095;
    assert_eq!(cpu.run_op(Opcode::DrawSprite(0, 0, 2), 0), Err(Fault::MemoryOutOfRange));
    assert_eq!(cpu.run_op(Opcode::StoreBCD(0), 0), Err(Fault::MemoryOutOfRange));
    assert_eq!(cpu.run_op(Opcode::Store(2), 0), Err(Fault::MemoryOutOfRange));
    assert_eq!(cpu.run_op(Opcode::Restore(1), 0), Err(Fault::MemoryOutOfRange));
    assert!(!cpu.draw_flag);
    cpu.pc = 4095;
    assert_eq!(cpu.fetch_op(), Err(Fault::MemoryOutOfRange));
    assert_eq!(cpu.cycle_with_random(0), Err(Fault::MemoryOutOfRange));
    assert_eq!(cpu.pc, 4095);
}

#[test]
fn load_refuses_oversized_image() {
    let mut cpu = ChipU8::new(false);
    let image = vec![1u8; 4096 - 0x200 + 1];
    assert_eq!(cpu.load(&image), Err(Fault::MemoryOutOfRange));
    assert_eq!(cpu.mem[0x200], 0);
    let image = vec![1u8; 4096 - 0x200];
    assert_eq!(cpu.load(&image), Ok(()));
    assert_eq!(cpu.mem[0x200], 1);
    assert_eq!(cpu.mem[4095], 1);
}

#[test]
fn clear_turns_every_pixel_off() {
    let mut cpu = ChipU8::new(false);
    cpu.gfx[0] = true;
    cpu.gfx[2047] = true;
    cpu.run_op(Opcode::Clear, 0).unwrap();
    assert!(cpu.gfx.iter().all(|p| !*p));
}

#[test]
fn draw_twice_restores_display_and_flags_collision() {
    let mut cpu = ChipU8::new(false);
    cpu.regs[1] = 10;
    cpu.regs[2] = 4;
    cpu.i = 0; // glyph "0": 0xF0, 0x90, 0x90, 0x90, 0xF0
    cpu.run_op(Opcode::DrawSprite(1, 2, 5), 0).unwrap();
    assert_eq!(cpu.regs[15], 0);
    assert!(cpu.draw_flag);
    assert!(lit(&cpu, 10, 4));
    assert!(lit(&cpu, 13, 4));
    assert!(!lit(&cpu, 14, 4));
    assert!(lit(&cpu, 10, 5));
    assert!(!lit(&cpu, 11, 5));
    assert_eq!(cpu.gfx.iter().filter(|p| **p).count(), 14);
    cpu.run_op(Opcode::DrawSprite(1, 2, 5), 0).unwrap();
    assert_eq!(cpu.regs[15], 1);
    assert!(cpu.gfx.iter().all(|p| !*p));
}

#[test]
fn draw_wraps_around_screen_edges() {
    let mut cpu = ChipU8::new(false);
    cpu.mem[0x300] = 0xFF;
    cpu.mem[0x301] = 0x81;
    cpu.i = 0x300;
    cpu.regs[1] = 63;
    cpu.regs[2] = 31;
    cpu.run_op(Opcode::DrawSprite(1, 2, 2), 0).unwrap();
    assert!(lit(&cpu, 63, 31));
    for x in 0..7 {
        assert!(lit(&cpu, x, 31));
    }
    assert!(!lit(&cpu, 7, 31));
    assert!(lit(&cpu, 63, 0));
    assert!(lit(&cpu, 6, 0));
    assert!(!lit(&cpu, 0, 0));
    assert_eq!(cpu.regs[15], 0);
}

#[test]
fn draw_returns_frame_only_after_a_draw() {
    let mut cpu = ChipU8::new(false);
    assert_eq!(cpu.draw(), None);
    cpu.run_op(Opcode::DrawSprite(0, 0, 1), 0).unwrap();
    let frame = cpu.draw().unwrap();
    assert!(frame[0] && frame[3] && !frame[4]);
    assert!(cpu.draw().is_some());
}

#[test]
fn store_bcd_of_157() {
    let mut cpu = ChipU8::new(false);
    cpu.regs[3] = 157;
    cpu.i = 0x300;
    cpu.run_op(Opcode::StoreBCD(3), 0).unwrap();
    assert_eq!(&cpu.mem[0x300..0x303], &[1, 5, 7]);
}

#[test]
fn store_zero_writes_nothing_restore_zero_reads_one() {
    let mut cpu = ChipU8::new(false);
    cpu.i = 0x300;
    cpu.regs[0] = 0xAA;
    cpu.mem[0x300] = 0x55;
    cpu.run_op(Opcode::Store(0), 0).unwrap();
    assert_eq!(cpu.mem[0x300], 0x55);
    cpu.run_op(Opcode::Restore(0), 0).unwrap();
    assert_eq!(cpu.regs[0], 0x55);
    assert_eq!(cpu.regs[1], 0);
}

#[test]
fn store_and_restore_ranges() {
    let mut cpu = ChipU8::new(false);
    cpu.i = 0x300;
    for r in 0..16 {
        cpu.regs[r] = r as u8 + 1;
    }
    cpu.run_op(Opcode::Store(3), 0).unwrap();
    assert_eq!(&cpu.mem[0x300..0x304], &[1, 2, 3, 0]);
    cpu.mem[0x303] = 9;
    cpu.regs = [0; 16];
    cpu.run_op(Opcode::Restore(3), 0).unwrap();
    assert_eq!(&cpu.regs[0..5], &[1, 2, 3, 9, 0]);
}

#[test]
fn index_register_instructions() {
    let mut cpu = ChipU8::new(false);
    cpu.run_op(Opcode::SetI(0x123), 0).unwrap();
    assert_eq!(cpu.i, 0x123);
    cpu.regs[2] = 0x10;
    cpu.run_op(Opcode::AddI(2), 0).unwrap();
    assert_eq!(cpu.i, 0x133);
    cpu.regs[2] = 0xA;
    cpu.run_op(Opcode::SetISprite(2), 0).unwrap();
    assert_eq!(cpu.i, 50);
    assert_eq!(cpu.mem[50], 0xF0);
    cpu.i = 0xFFFF;
    cpu.regs[2] = 2;
    cpu.run_op(Opcode::AddI(2), 0).unwrap();
    assert_eq!(cpu.i, 1);
}

#[test]
fn timers_tick_and_beep_once() {
    let mut cpu = machine_with(&[0x60, 0x02, 0xF0, 0x15, 0xF0, 0x18, 0xF1, 0x07, 0x00, 0x00]);
    assert_eq!(cpu.cycle_with_random(0), Ok(false));
    assert_eq!(cpu.cycle_with_random(0), Ok(false));
    assert_eq!(cpu.delay_timer, 1);
    assert_eq!(cpu.cycle_with_random(0), Ok(false));
    assert_eq!(cpu.delay_timer, 0);
    assert_eq!(cpu.sound_timer, 1);
    assert_eq!(cpu.cycle_with_random(0), Ok(true));
    assert_eq!(cpu.sound_timer, 0);
    assert_eq!(cpu.regs[1], 0);
    assert_eq!(cpu.cycle_with_random(0), Ok(false));
}

#[test]
fn key_wait_repeats_until_a_key_is_released() {
    let mut cpu = machine_with(&[0xF3, 0x0A, 0x00, 0x00]);
    assert_eq!(cpu.cycle_with_random(0), Ok(false));
    assert_eq!(cpu.pc, 0x200);
    cpu.press_key(7);
    assert_eq!(cpu.cycle_with_random(0), Ok(false));
    assert_eq!(cpu.pc, 0x200);
    cpu.release_key(7);
    assert_eq!(cpu.last_key, Some(7));
    assert_eq!(cpu.cycle_with_random(0), Ok(false));
    assert_eq!(cpu.regs[3], 7);
    assert_eq!(cpu.pc, 0x202);
    assert_eq!(cpu.last_key, None);
}

#[test]
fn set_then_add_program() {
    let mut cpu = machine_with(&[0x60, 0x05, 0x70, 0x03]);
    cpu.cycle().unwrap();
    cpu.cycle().unwrap();
    assert_eq!(cpu.regs[0], 8);
    assert_eq!(cpu.pc, 0x204);
}

#[test]
fn self_jump_loops_forever() {
    let mut cpu = machine_with(&[0x12, 0x00]);
    for _ in 0..1000 {
        assert_eq!(cpu.cycle(), Ok(false));
        assert_eq!(cpu.pc, 0x200);
    }
}

#[test]
fn fetch_op_reads_big_endian() {
    let mut cpu = machine_with(&[0xD1, 0x25]);
    assert_eq!(cpu.fetch_op(), Ok(Opcode::DrawSprite(1, 2, 5)));
    assert_eq!(cpu.pc, 0x200);
}
