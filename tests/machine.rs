use chip8::display::{HEIGHT, WIDTH};
use chip8::keyboard::{HostKey, NO_KEY};
use chip8::{Chip8, Fault, Step};

fn boot(program: &[u8]) -> Chip8 {
    let mut c = Chip8::new();
    assert_eq!(c.load_rom(&program.to_vec()), Ok(()));
    c
}

fn run(c: &mut Chip8, steps: usize) {
    for _ in 0..steps {
        assert!(c.step(0).is_ok());
    }
}

#[test]
fn load_and_add_scenario() {
    let mut c = boot(&[0x60, 0x05, 0x70, 0x03]);
    assert_eq!(c.execute_next_instruction(), Ok(Step::Executed));
    assert_eq!(c.execute_next_instruction(), Ok(Step::Executed));
    assert_eq!(c.cpu().v(0), 8);
    assert_eq!(c.cpu().pc(), 0x204);
}

#[test]
fn cls_clears_and_marks_dirty_once() {
    // LD I, glyph 0; DRW V0, V0, 5; CLS
    let mut c = boot(&[0xA0, 0x00, 0xD0, 0x05, 0x00, 0xE0]);
    run(&mut c, 2);
    let lit = |c: &Chip8| {
        let mut n = 0;
        for y in 0..HEIGHT {
            for x in 0..WIDTH {
                n += c.display().read_pixel(x, y) as usize;
            }
        }
        n
    };
    assert!(lit(&c) > 0);
    assert!(c.update_display());
    assert!(!c.display().needs_update());
    run(&mut c, 1);
    assert_eq!(lit(&c), 0);
    assert!(c.display().needs_update());
    assert!(c.update_display());
    assert!(!c.update_display());
}

#[test]
fn key_wait_blocks_until_press() {
    let mut c = boot(&[0xF2, 0x0A, 0x60, 0x07]);
    assert_eq!(c.step(0), Ok(Step::Executed));
    assert_eq!(c.cpu().pc(), 0x200);
    assert!(c.keyboard().is_waiting_for_press());
    for _ in 0..3 {
        assert_eq!(c.poll_keys(vec![]), NO_KEY);
        assert_eq!(c.step(0), Ok(Step::Waiting));
        assert_eq!(c.cpu().pc(), 0x200);
    }
    assert_eq!(c.poll_keys(vec![HostKey::Key1]), 0x1);
    assert_eq!(c.step(0), Ok(Step::Executed));
    assert_eq!(c.cpu().v(2), 0x1);
    assert_eq!(c.cpu().pc(), 0x202);
    assert!(!c.keyboard().is_waiting_for_press());
    assert_eq!(c.step(0), Ok(Step::Executed));
    assert_eq!(c.cpu().v(0), 7);
}

#[test]
fn bcd_of_234() {
    // LD V5, 234; LD I, 0x300; LD B, V5
    let mut c = boot(&[0x65, 234, 0xA3, 0x00, 0xF5, 0x33]);
    run(&mut c, 3);
    assert_eq!(c.memory().read_byte(0x300), Ok(2));
    assert_eq!(c.memory().read_byte(0x301), Ok(3));
    assert_eq!(c.memory().read_byte(0x302), Ok(4));
}

#[test]
fn bcd_into_font_region_faults() {
    // LD I, 0x1FF; LD B, V0
    let mut c = boot(&[0xA1, 0xFF, 0xF0, 0x33]);
    run(&mut c, 1);
    assert_eq!(c.step(0), Err(Fault::ReservedRegionFault));
}

#[test]
fn bcd_past_the_end_faults() {
    // LD I, 0xFFE; LD B, V0
    let mut c = boot(&[0xAF, 0xFE, 0xF0, 0x33]);
    run(&mut c, 1);
    assert_eq!(c.step(0), Err(Fault::OutOfRange));
    assert_eq!(c.memory().read_byte(0xFFE), Ok(0));
}

#[test]
fn add_with_carry() {
    // LD V1, 200; LD V2, 100; ADD V1, V2
    let mut c = boot(&[0x61, 200, 0x62, 100, 0x81, 0x24]);
    run(&mut c, 3);
    assert_eq!(c.cpu().v(1), 44);
    assert_eq!(c.cpu().v(15), 1);
    // LD V1, 200; LD V2, 55; ADD V1, V2
    let mut c = boot(&[0x61, 200, 0x62, 55, 0x81, 0x24]);
    run(&mut c, 3);
    assert_eq!(c.cpu().v(1), 255);
    assert_eq!(c.cpu().v(15), 0);
}

#[test]
fn add_into_vf_keeps_the_flag() {
    // LD VF, 200; LD V2, 100; ADD VF, V2
    let mut c = boot(&[0x6F, 200, 0x62, 100, 0x8F, 0x24]);
    run(&mut c, 3);
    assert_eq!(c.cpu().v(15), 1);
}

#[test]
fn sub_and_subn_flags() {
    // LD V1, 5; LD V2, 9; SUB V1, V2
    let mut c = boot(&[0x61, 5, 0x62, 9, 0x81, 0x25]);
    run(&mut c, 3);
    assert_eq!(c.cpu().v(1), 252);
    assert_eq!(c.cpu().v(15), 0);
    // LD V1, 5; LD V2, 9; SUBN V1, V2
    let mut c = boot(&[0x61, 5, 0x62, 9, 0x81, 0x27]);
    run(&mut c, 3);
    assert_eq!(c.cpu().v(1), 4);
    assert_eq!(c.cpu().v(15), 1);
    // equal operands: no flag either way
    let mut c = boot(&[0x61, 9, 0x62, 9, 0x81, 0x25]);
    run(&mut c, 3);
    assert_eq!(c.cpu().v(1), 0);
    assert_eq!(c.cpu().v(15), 0);
    // SUB into VF: the flag wins
    let mut c = boot(&[0x6F, 9, 0x62, 5, 0x8F, 0x25]);
    run(&mut c, 3);
    assert_eq!(c.cpu().v(15), 1);
}

#[test]
fn shift_flags() {
    // LD V3, 0x81; SHR V3
    let mut c = boot(&[0x63, 0x81, 0x83, 0x06]);
    run(&mut c, 2);
    assert_eq!(c.cpu().v(3), 0x40);
    assert_eq!(c.cpu().v(15), 1);
    // LD V3, 0x81; SHL V3
    let mut c = boot(&[0x63, 0x81, 0x83, 0x0E]);
    run(&mut c, 2);
    assert_eq!(c.cpu().v(3), 0x02);
    assert_eq!(c.cpu().v(15), 1);
    // LD V3, 0x40; SHL V3
    let mut c = boot(&[0x63, 0x40, 0x83, 0x0E]);
    run(&mut c, 2);
    assert_eq!(c.cpu().v(3), 0x80);
    assert_eq!(c.cpu().v(15), 0);
}

#[test]
fn call_then_ret_returns_after_call() {
    // 0x200: CALL 0x206; 0x202: LD V0, 1; ...; 0x206: RET
    let mut c = boot(&[0x22, 0x06, 0x60, 0x01, 0x00, 0x00, 0x00, 0xEE]);
    assert_eq!(c.step(0), Ok(Step::Executed));
    assert_eq!(c.cpu().pc(), 0x206);
    assert_eq!(c.cpu().sp(), 1);
    assert_eq!(c.step(0), Ok(Step::Executed));
    assert_eq!(c.cpu().pc(), 0x202);
    assert_eq!(c.cpu().sp(), 0);
}

#[test]
fn ret_on_empty_stack_underflows() {
    let mut c = boot(&[0x00, 0xEE]);
    assert_eq!(c.step(0), Err(Fault::StackUnderflow));
}

#[test]
fn seventeenth_call_overflows() {
    // 0x200: CALL 0x200, forever
    let mut c = boot(&[0x22, 0x00]);
    for depth in 1..=16u8 {
        assert_eq!(c.step(0), Ok(Step::Executed));
        assert_eq!(c.cpu().sp(), depth);
    }
    assert_eq!(c.step(0), Err(Fault::StackOverflow));
}

#[test]
fn jumps() {
    // JP 0x208
    let mut c = boot(&[0x12, 0x08]);
    run(&mut c, 1);
    assert_eq!(c.cpu().pc(), 0x208);
    // LD V0, 0x10; JP V0, 0x300
    let mut c = boot(&[0x60, 0x10, 0xB3, 0x00]);
    run(&mut c, 2);
    assert_eq!(c.cpu().pc(), 0x310);
}

#[test]
fn running_off_the_end_faults() {
    // JP 0xFFF
    let mut c = boot(&[0x1F, 0xFF]);
    run(&mut c, 1);
    assert_eq!(c.step(0), Err(Fault::OutOfRange));
}

#[test]
fn skips() {
    // LD V1, 3; SE V1, 3 -> skip to 0x206
    let mut c = boot(&[0x61, 3, 0x31, 3]);
    run(&mut c, 2);
    assert_eq!(c.cpu().pc(), 0x206);
    // LD V1, 3; SNE V1, 3 -> next
    let mut c = boot(&[0x61, 3, 0x41, 3]);
    run(&mut c, 2);
    assert_eq!(c.cpu().pc(), 0x204);
    // LD V1, 3; LD V2, 3; SE V1, V2 ; then SNE V1, V2 at 0x208
    let mut c = boot(&[0x61, 3, 0x62, 3, 0x51, 0x20, 0, 0, 0x91, 0x20]);
    run(&mut c, 3);
    assert_eq!(c.cpu().pc(), 0x208);
    run(&mut c, 1);
    assert_eq!(c.cpu().pc(), 0x20A);
}

#[test]
fn key_skips() {
    // LD V1, 0xC; SKP V1
    let mut c = boot(&[0x61, 0xC, 0xE1, 0x9E]);
    c.poll_keys(vec![HostKey::Key4]);
    run(&mut c, 2);
    assert_eq!(c.cpu().pc(), 0x206);
    // LD V1, 0xC; SKNP V1 with the key down: no skip
    let mut c = boot(&[0x61, 0xC, 0xE1, 0xA1]);
    c.poll_keys(vec![HostKey::Key4]);
    run(&mut c, 2);
    assert_eq!(c.cpu().pc(), 0x204);
    // LD V1, 0x20 (no such key); SKNP V1: it is up
    let mut c = boot(&[0x61, 0x20, 0xE1, 0xA1]);
    run(&mut c, 2);
    assert_eq!(c.cpu().pc(), 0x206);
}

#[test]
fn store_and_load_registers_inclusive() {
    // LD V0,1; LD V1,2; LD V2,3; LD I,0x300; LD [I],V1; LD V0..: LD V0,0; LD V1,0; LD V1,[I]
    let mut c = boot(&[
        0x60, 1, 0x61, 2, 0x62, 3, 0xA3, 0x00, 0xF1, 0x55, 0x60, 0, 0x61, 0, 0xF1, 0x65,
    ]);
    run(&mut c, 5);
    assert_eq!(c.memory().read_byte(0x300), Ok(1));
    assert_eq!(c.memory().read_byte(0x301), Ok(2));
    assert_eq!(c.memory().read_byte(0x302), Ok(0));
    run(&mut c, 2);
    assert_eq!(c.cpu().v(0), 0);
    run(&mut c, 1);
    assert_eq!(c.cpu().v(0), 1);
    assert_eq!(c.cpu().v(1), 2);
    assert_eq!(c.cpu().v(2), 3);
    assert_eq!(c.cpu().i(), 0x300);
}

#[test]
fn store_registers_into_font_region_faults() {
    // LD [I], V3 with I = 0
    let mut c = boot(&[0xF3, 0x55]);
    assert_eq!(c.step(0), Err(Fault::ReservedRegionFault));
}

#[test]
fn load_registers_past_the_end_faults() {
    // LD I, 0xFFE; LD V3, [I]
    let mut c = boot(&[0xAF, 0xFE, 0xF3, 0x65]);
    run(&mut c, 1);
    assert_eq!(c.step(0), Err(Fault::OutOfRange));
}

#[test]
fn index_register_ops() {
    // LD V4, 0xF; LD F, V4 -> I = 75
    let mut c = boot(&[0x64, 0xF, 0xF4, 0x29]);
    run(&mut c, 2);
    assert_eq!(c.cpu().i(), 75);
    // LD I, 0xFFF; LD V0, 0xFF; ADD I, V0 -> 0x10FE
    let mut c = boot(&[0xAF, 0xFF, 0x60, 0xFF, 0xF0, 0x1E]);
    run(&mut c, 3);
    assert_eq!(c.cpu().i(), 0x10FE);
}

#[test]
fn add_byte_wraps_without_flag() {
    // LD V1, 250; ADD V1, 10
    let mut c = boot(&[0x61, 250, 0x71, 10]);
    run(&mut c, 2);
    assert_eq!(c.cpu().v(1), 4);
    assert_eq!(c.cpu().v(15), 0);
}

#[test]
fn logic_ops() {
    // LD V1, 0xC; LD V2, 0xA; then OR / AND / XOR V1, V2
    for (n, want) in [(1u8, 0xEu8), (2, 0x8), (3, 0x6)] {
        let mut c = boot(&[0x61, 0xC, 0x62, 0xA, 0x81, 0x20 | n]);
        run(&mut c, 3);
        assert_eq!(c.cpu().v(1), want);
    }
    // LD V2, 9; LD V1, V2
    let mut c = boot(&[0x62, 9, 0x81, 0x20]);
    run(&mut c, 2);
    assert_eq!(c.cpu().v(1), 9);
}

#[test]
fn random_is_masked() {
    // RND V1, 0x0F with random byte 0xAB
    let mut c = boot(&[0xC1, 0x0F]);
    assert_eq!(c.step(0xAB), Ok(Step::Executed));
    assert_eq!(c.cpu().v(1), 0x0B);
    let mut c = boot(&[0xC1, 0x00]);
    assert_eq!(c.execute_next_instruction(), Ok(Step::Executed));
    assert_eq!(c.cpu().v(1), 0);
}

#[test]
fn timers_load_and_tick() {
    // LD V1, 2; LD DT, V1; LD ST, V1; LD V2, DT
    let mut c = boot(&[0x61, 2, 0xF1, 0x15, 0xF1, 0x18, 0xF2, 0x07]);
    run(&mut c, 3);
    assert_eq!(c.cpu().dt(), 2);
    assert_eq!(c.cpu().st(), 2);
    c.tick_timers();
    run(&mut c, 1);
    assert_eq!(c.cpu().v(2), 1);
    c.tick_timers();
    c.tick_timers();
    assert_eq!(c.cpu().dt(), 0);
    assert_eq!(c.cpu().st(), 0);
}

#[test]
fn draw_opcode_sets_collision_flag() {
    // LD I, glyph 0; DRW V0, V0, 5 twice
    let mut c = boot(&[0xA0, 0x00, 0xD0, 0x05, 0xD0, 0x05]);
    run(&mut c, 2);
    assert_eq!(c.cpu().v(15), 0);
    assert_eq!(c.display().read_pixel(0, 0), 1);
    assert_eq!(c.display().read_pixel(4, 0), 0);
    run(&mut c, 1);
    assert_eq!(c.cpu().v(15), 1);
    assert_eq!(c.display().read_pixel(0, 0), 0);
}

#[test]
fn draw_past_the_end_faults() {
    // LD I, 0xFFE; DRW V0, V0, 3
    let mut c = boot(&[0xAF, 0xFE, 0xD0, 0x03]);
    run(&mut c, 1);
    assert_eq!(c.step(0), Err(Fault::OutOfRange));
}

#[test]
fn unknown_opcode_is_skipped() {
    let mut c = boot(&[0x51, 0x21, 0x60, 0x01]);
    assert_eq!(c.step(0), Ok(Step::UnknownOpcode { word: 0x5121 }));
    assert_eq!(c.cpu().pc(), 0x202);
    assert_eq!(c.step(0), Ok(Step::Executed));
    assert_eq!(c.cpu().v(0), 1);
}

#[test]
fn rom_too_large_is_refused() {
    let mut c = Chip8::new();
    assert_eq!(c.load_rom(&vec![0u8; 0xE01]), Err(Fault::OutOfRange));
}
