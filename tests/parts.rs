use chip8::display::{Display, HEIGHT, LIT, WIDTH};
use chip8::keyboard::{HostKey, KeyWait, Keyboard, NO_KEY};
use chip8::memory::{Memory, PROGRAM_START};
use chip8::opcode::{Instruction, Opcode};
use chip8::Fault;

#[test]
fn write_below_program_start_is_refused() {
    let mut mem = Memory::new();
    assert_eq!(mem.write_byte(0x1FF, 7), Err(Fault::ReservedRegionFault));
    assert_eq!(mem.read_byte(0x1FF), Ok(0));
    assert_eq!(mem.write_byte(0x200, 7), Ok(()));
    assert_eq!(mem.read_byte(0x200), Ok(7));
}

#[test]
fn access_past_the_end_is_out_of_range() {
    let mut mem = Memory::new();
    assert_eq!(mem.write_byte(0x1000, 1), Err(Fault::OutOfRange));
    assert_eq!(mem.read_byte(0x1000), Err(Fault::OutOfRange));
    assert_eq!(mem.write_byte(0xFFF, 9), Ok(()));
    assert_eq!(mem.read_byte(0xFFF), Ok(9));
}

#[test]
fn font_is_installed_at_zero() {
    let mem = Memory::new();
    let zero = [0xF0, 0x90, 0x90, 0x90, 0xF0];
    for (k, b) in zero.iter().enumerate() {
        assert_eq!(mem.read_byte(k as u16), Ok(*b));
    }
    let f = [0xF0, 0x80, 0xF0, 0x80, 0x80];
    for (k, b) in f.iter().enumerate() {
        assert_eq!(mem.read_byte(75 + k as u16), Ok(*b));
    }
    assert_eq!(mem.read_byte(80), Ok(0));
}

#[test]
fn load_copies_at_program_start() {
    let mut mem = Memory::new();
    assert_eq!(mem.load(&vec![1, 2, 3]), Ok(()));
    assert_eq!(mem.read_byte(PROGRAM_START), Ok(1));
    assert_eq!(mem.read_byte(PROGRAM_START + 2), Ok(3));
    assert_eq!(mem.read_byte(PROGRAM_START + 3), Ok(0));
}

#[test]
fn load_of_largest_program_fits_and_one_more_is_refused() {
    let mut mem = Memory::new();
    assert_eq!(mem.load(&vec![5u8; 0xE00]), Ok(()));
    assert_eq!(mem.read_byte(0xFFF), Ok(5));
    let mut other = Memory::new();
    assert_eq!(other.load(&vec![5u8; 0xE01]), Err(Fault::OutOfRange));
    assert_eq!(other.read_byte(0x200), Ok(0));
}

#[test]
fn parse_splits_nibbles() {
    let op = Opcode::parse(0xD12F);
    assert_eq!((op.h, op.x, op.y, op.n), (0xD, 0x1, 0x2, 0xF));
    assert_eq!(op.nnn, 0x12F);
    assert_eq!(op.kk, 0x2F);
    let op = Opcode::parse(0x0000);
    assert_eq!((op.h, op.x, op.y, op.n, op.nnn, op.kk), (0, 0, 0, 0, 0, 0));
    let op = Opcode::parse(0xFFFF);
    assert_eq!((op.h, op.x, op.y, op.n, op.nnn, op.kk), (0xF, 0xF, 0xF, 0xF, 0xFFF, 0xFF));
}

#[test]
fn decode_covers_the_table() {
    assert_eq!(Instruction::decode(0x00E0), Instruction::Cls);
    assert_eq!(Instruction::decode(0x00EE), Instruction::Ret);
    assert_eq!(Instruction::decode(0x1ABC), Instruction::Jp { addr: 0xABC });
    assert_eq!(Instruction::decode(0x2ABC), Instruction::Call { addr: 0xABC });
    assert_eq!(Instruction::decode(0x8124), Instruction::AddReg { x: 1, y: 2 });
    assert_eq!(Instruction::decode(0x812E), Instruction::Shl { x: 1 });
    assert_eq!(Instruction::decode(0xD345), Instruction::Drw { x: 3, y: 4, n: 5 });
    assert_eq!(Instruction::decode(0xE29E), Instruction::Skp { x: 2 });
    assert_eq!(Instruction::decode(0xE2A1), Instruction::Sknp { x: 2 });
    assert_eq!(Instruction::decode(0xF20A), Instruction::LdKey { x: 2 });
    assert_eq!(Instruction::decode(0xF765), Instruction::LoadRegs { x: 7 });
    assert_eq!(Instruction::decode(0x5121), Instruction::Unknown { word: 0x5121 });
    assert_eq!(Instruction::decode(0xE29F), Instruction::Unknown { word: 0xE29F });
    assert_eq!(Instruction::decode(0x0123), Instruction::Unknown { word: 0x0123 });
}

fn lit(d: &Display) -> usize {
    let mut n = 0;
    for y in 0..HEIGHT {
        for x in 0..WIDTH {
            n += d.read_pixel(x, y) as usize;
        }
    }
    n
}

#[test]
fn draw_sets_pixels_msb_first() {
    let mut d = Display::new();
    assert!(!d.draw(0, 0, &vec![0b1000_0001]));
    assert_eq!(d.read_pixel(0, 0), 1);
    assert_eq!(d.read_pixel(7, 0), 1);
    assert_eq!(d.read_pixel(1, 0), 0);
    assert_eq!(lit(&d), 2);
}

#[test]
fn draw_wraps_at_both_edges() {
    let mut d = Display::new();
    assert!(!d.draw(62, 31, &vec![0xFF, 0xFF]));
    assert_eq!(d.read_pixel(62, 31), 1);
    assert_eq!(d.read_pixel(63, 31), 1);
    assert_eq!(d.read_pixel(0, 31), 1);
    assert_eq!(d.read_pixel(5, 31), 1);
    assert_eq!(d.read_pixel(62, 0), 1);
    assert_eq!(d.read_pixel(5, 0), 1);
    assert_eq!(d.read_pixel(6, 0), 0);
    assert_eq!(lit(&d), 16);
    // coordinates beyond the screen wrap too
    let mut e = Display::new();
    e.draw(64 + 3, 32 + 2, &vec![0x80]);
    assert_eq!(e.read_pixel(3, 2), 1);
}

#[test]
fn draw_twice_restores_and_collides() {
    let mut d = Display::new();
    d.write(11, 10, 1);
    let sprite = vec![0xF0, 0x90, 0xF0];
    let before: Vec<u8> = (0..HEIGHT * WIDTH).map(|p| d.read_pixel(p % WIDTH, p / WIDTH)).collect();
    let first = d.draw(8, 9, &sprite);
    assert!(first);
    assert!(d.draw(8, 9, &sprite));
    let after: Vec<u8> = (0..HEIGHT * WIDTH).map(|p| d.read_pixel(p % WIDTH, p / WIDTH)).collect();
    assert_eq!(before, after);
}

#[test]
fn draw_of_empty_sprite_changes_nothing_but_marks_dirty() {
    let mut d = Display::new();
    d.update();
    assert!(!d.needs_update());
    assert!(!d.draw(5, 5, &vec![]));
    assert!(!d.draw(5, 5, &vec![0, 0]));
    assert_eq!(lit(&d), 0);
    assert!(d.needs_update());
}

#[test]
fn update_renders_once_per_change() {
    let mut d = Display::new();
    d.write(1, 0, 1);
    assert!(d.update());
    assert_eq!(d.buffer()[1], LIT);
    assert_eq!(d.buffer()[0], 0);
    assert!(!d.update());
    d.clear();
    assert!(d.update());
    assert_eq!(d.buffer()[1], 0);
}

#[test]
fn poll_none_single_and_unmapped() {
    let mut kb = Keyboard::new();
    assert_eq!(kb.poll(vec![]), NO_KEY);
    assert_eq!(kb.poll(vec![HostKey::Other, HostKey::Other]), NO_KEY);
    assert!(!kb.query_key(0));
    assert_eq!(kb.poll(vec![HostKey::Other, HostKey::Key4, HostKey::Other]), 0xC);
    assert!(kb.query_key(0xC));
    assert!(!kb.query_key(0x4));
    assert_eq!(kb.poll(vec![HostKey::X]), 0x0);
    assert_eq!(kb.poll(vec![HostKey::V]), 0xF);
    assert!(!kb.query_key(0xC));
}

#[test]
fn poll_reports_first_and_records_all() {
    let mut kb = Keyboard::new();
    assert_eq!(kb.poll(vec![HostKey::R, HostKey::Q, HostKey::Key1]), 0xD);
    assert!(kb.query_key(0xD));
    assert!(kb.query_key(0x4));
    assert!(kb.query_key(0x1));
    assert!(!kb.query_key(0x2));
    assert!(!kb.query_key(16));
    assert_eq!(kb.last_pressed(), Some(0xD));
}

#[test]
fn key_map_matches_layout() {
    let pairs = [
        (HostKey::Key1, 0x1),
        (HostKey::Key2, 0x2),
        (HostKey::Key3, 0x3),
        (HostKey::Key4, 0xC),
        (HostKey::Q, 0x4),
        (HostKey::W, 0x5),
        (HostKey::E, 0x6),
        (HostKey::R, 0xD),
        (HostKey::A, 0x7),
        (HostKey::S, 0x8),
        (HostKey::D, 0x9),
        (HostKey::F, 0xE),
        (HostKey::Z, 0xA),
        (HostKey::X, 0x0),
        (HostKey::C, 0xB),
        (HostKey::V, 0xF),
    ];
    for (k, code) in pairs {
        assert_eq!(Keyboard::key_map(k), Some(code));
    }
    assert_eq!(Keyboard::key_map(HostKey::Other), None);
}

#[test]
fn wait_state_machine() {
    let mut kb = Keyboard::new();
    assert!(!kb.is_waiting_for_press());
    kb.start_waiting_for_press(2);
    assert!(kb.is_waiting_for_press());
    assert_eq!(kb.wait_state(), KeyWait::AwaitingKey { register: 2 });
    kb.poll(vec![HostKey::Key1]);
    assert!(kb.is_waiting_for_press());
    kb.stop_waiting_for_press();
    assert_eq!(kb.wait_state(), KeyWait::Running);
}
