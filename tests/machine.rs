use chip8::chip::{Chip, ChipError};
use chip8::controller::{ChipController, HostAction};
use chip8::input::{ChipKey, KeyCode};
use chip8::instruction::Instruction;

fn chip_with(rom: &[u8]) -> Chip {
    let mut c = Chip::new();
    c.read_rom_bytes(rom.to_vec()).unwrap();
    c
}

fn run(c: &mut Chip, steps: usize) {
    for _ in 0..steps {
        c.tick().unwrap();
    }
}

#[test]
fn new_machine_holds_font_and_zeroes() {
    let c = Chip::new();
    assert_eq!(&c.ram[0..5], &[0xF0, 0x90, 0x90, 0x90, 0xF0]);
    assert_eq!(&c.ram[75..80], &[0xF0, 0x80, 0xF0, 0x80, 0x80]);
    assert!(c.ram[80..].iter().all(|b| *b == 0));
    assert_eq!(c.ram.len(), 4096);
    assert_eq!(c.pc, 0);
    assert_eq!(c.sp, 0);
    assert!(c.v.iter().all(|b| *b == 0));
}

#[test]
fn load_byte_scenario() {
    let mut c = chip_with(&[0x6A, 0x0C]);
    assert_eq!(c.pc, 0x200);
    assert_eq!(c.tick(), Ok(Instruction::LDBR(0xA, 0x0C)));
    assert_eq!(c.v[0xA], 0x0C);
    assert_eq!(c.pc, 0x202);
}

#[test]
fn load_index_scenario() {
    let mut c = chip_with(&[0xA2, 0xF0]);
    run(&mut c, 1);
    assert_eq!(c.i, 0x2F0);
    assert_eq!(c.pc, 0x202);
}

#[test]
fn bcd_scenario() {
    let mut c = chip_with(&[0x63, 234, 0xA3, 0x00, 0xF3, 0x33]);
    run(&mut c, 3);
    assert_eq!(c.v[3], 234);
    assert_eq!(c.i, 0x300);
    assert_eq!(&c.ram[0x300..0x303], &[2, 3, 4]);
    assert_eq!(c.i, 0x300);
}

#[test]
fn call_then_return_scenario() {
    let mut rom = vec![0u8; 0x102];
    rom[0] = 0x23;
    rom[1] = 0x00;
    rom[0x100] = 0x00;
    rom[0x101] = 0xEE;
    let mut c = chip_with(&rom);
    assert_eq!(c.tick(), Ok(Instruction::CALL(0x300)));
    assert_eq!(c.pc, 0x300);
    assert_eq!(c.sp, 1);
    assert_eq!(c.tick(), Ok(Instruction::RET));
    assert_eq!(c.pc, 0x202);
    assert_eq!(c.sp, 0);
}

#[test]
fn stack_overflow_scenario() {
    let mut c = chip_with(&[0x22, 0x00]);
    run(&mut c, 16);
    assert_eq!(c.sp, 16);
    let (ram, v, stack, pc, i) = (c.ram.clone(), c.v.clone(), c.stack.clone(), c.pc, c.i);
    assert_eq!(c.tick(), Err(ChipError::StackOverflow));
    assert_eq!(c.sp, 16);
    assert_eq!(c.pc, pc);
    assert_eq!(c.i, i);
    assert_eq!(c.ram, ram);
    assert_eq!(c.v, v);
    assert_eq!(c.stack, stack);
}

#[test]
fn stack_underflow_on_return_without_call() {
    let mut c = chip_with(&[0x00, 0xEE]);
    assert_eq!(c.tick(), Err(ChipError::StackUnderflow));
    assert_eq!(c.pc, 0x200);
    assert_eq!(c.sp, 0);
}

#[test]
fn decode_error_leaves_machine_unchanged() {
    let mut c = chip_with(&[0xF0, 0x00]);
    assert_eq!(c.tick(), Err(ChipError::DecodeError(0xF000)));
    assert_eq!(c.pc, 0x200);
}

#[test]
fn delay_timer_counts_down_to_zero() {
    let mut c = chip_with(&[0x60, 0x05, 0xF0, 0x15]);
    run(&mut c, 2);
    assert_eq!(c.dt, 5);
    for _ in 0..5 {
        c.decrement_timers();
    }
    assert_eq!(c.dt, 0);
    c.decrement_timers();
    assert_eq!(c.dt, 0);
}

#[test]
fn controller_timers_count_down_to_zero() {
    let mut ctl = ChipController::new();
    ctl.set_rom(vec![0x60, 0x05, 0xF0, 0x15, 0xF0, 0x18]).unwrap();
    ctl.tick(Some(3)).unwrap();
    assert_eq!(ctl.delay_timer(), 5);
    assert_eq!(ctl.sound_timer(), 5);
    for _ in 0..5 {
        ctl.dec_delay_timer();
    }
    assert_eq!(ctl.delay_timer(), 0);
    ctl.dec_delay_timer();
    assert_eq!(ctl.delay_timer(), 0);
    assert_eq!(ctl.sound_timer(), 5);
    assert_eq!(ctl.get_sound_timer(), 5);
    assert_eq!(ctl.get_sound_timer(), 5);
    assert_eq!(ctl.sound_timer(), 5);
    ctl.dec_timers();
    assert_eq!(ctl.sound_timer(), 4);
    ctl.dec_sound_timer();
    assert_eq!(ctl.get_sound_timer(), 3);
    assert_eq!(ctl.get_delay_timer(), 0);
    assert_eq!(ctl.get_delay_timer(), 0);
}

#[test]
fn add_byte_twice_matches_doubled_byte() {
    for b in [0u8, 1, 100, 128, 200, 255] {
        let mut twice = chip_with(&[0x65, 77, 0x75, b, 0x75, b]);
        run(&mut twice, 3);
        let mut once = chip_with(&[0x65, 77, 0x75, b.wrapping_add(b)]);
        run(&mut once, 2);
        assert_eq!(twice.v, once.v);
        assert_eq!(twice.pc, once.pc + 2);
    }
}

#[test]
fn add_byte_wraps_without_flag() {
    let mut c = chip_with(&[0x61, 250, 0x71, 10]);
    run(&mut c, 2);
    assert_eq!(c.v[1], 4);
    assert_eq!(c.v[0xF], 0);
}

#[test]
fn clear_then_draw_equals_draw_on_blank() {
    // font glyph 8 is drawn first so that the clear has something to erase
    let prog = [0x60, 0x08, 0xF0, 0x29, 0x61, 0x02, 0xD1, 0x15, 0xA3, 0x00, 0x00, 0xE0, 0xD1, 0x14];
    let mut rom = prog.to_vec();
    rom.resize(0x104, 0);
    for k in 0..4 {
        rom[0x100 + k] = 0xFF;
    }
    let mut c = chip_with(&rom);
    run(&mut c, 7);
    let mut fresh = chip_with(&[0x61, 0x02, 0xA3, 0x00, 0xD1, 0x14]);
    for k in 0..4 {
        fresh.ram[0x300 + k] = 0xFF;
    }
    run(&mut fresh, 3);
    assert_eq!(c.display.get_pixels(), fresh.display.get_pixels());
    assert_eq!(c.v[0xF], 0);
    assert_eq!(c.display.get_pixels().iter().filter(|p| **p == 1).count(), 32);
}

#[test]
fn drawing_twice_restores_framebuffer() {
    let mut c = chip_with(&[0x60, 0x3C, 0x61, 0x1E, 0xA0, 0x05, 0xD0, 0x15, 0xD0, 0x15]);
    run(&mut c, 3);
    let before = c.display.get_pixels();
    run(&mut c, 1);
    assert_ne!(c.display.get_pixels(), before);
    assert_eq!(c.v[0xF], 0);
    run(&mut c, 1);
    assert_eq!(c.display.get_pixels(), before);
    assert_eq!(c.v[0xF], 1);
}

#[test]
fn draw_clips_at_the_edges() {
    // glyph 0 at (62, 30): only its top-left 2x2 corner is visible
    let mut c = chip_with(&[0x60, 62, 0x61, 30, 0xA0, 0x00, 0xD0, 0x15]);
    run(&mut c, 4);
    let px = c.display.get_pixels();
    assert_eq!(px.iter().filter(|p| **p == 1).count(), 3);
    assert_eq!(c.display.pixel(62, 30), 1);
    assert_eq!(c.display.pixel(63, 30), 1);
    assert_eq!(c.display.pixel(62, 31), 1);
    assert_eq!(c.display.pixel(63, 31), 0);
}

#[test]
fn alu_flags() {
    // V1 = 200, V2 = 100; V1 += V2 sets carry
    let mut c = chip_with(&[0x61, 200, 0x62, 100, 0x81, 0x24]);
    run(&mut c, 3);
    assert_eq!((c.v[1], c.v[0xF]), (44, 1));
    // SUB: V1 = 10 - 20, no borrow flag
    let mut c = chip_with(&[0x61, 10, 0x62, 20, 0x81, 0x25]);
    run(&mut c, 3);
    assert_eq!((c.v[1], c.v[0xF]), (246, 0));
    // SUBN stores into Vy: V2 = 20 - 10
    let mut c = chip_with(&[0x61, 10, 0x62, 20, 0x81, 0x27]);
    run(&mut c, 3);
    assert_eq!((c.v[1], c.v[2], c.v[0xF]), (10, 10, 1));
    // SHR and SHL
    let mut c = chip_with(&[0x61, 0x81, 0x81, 0x06]);
    run(&mut c, 2);
    assert_eq!((c.v[1], c.v[0xF]), (0x40, 1));
    let mut c = chip_with(&[0x61, 0x81, 0x81, 0x0E]);
    run(&mut c, 2);
    assert_eq!((c.v[1], c.v[0xF]), (0x02, 1));
    // OR, AND, XOR
    let mut c = chip_with(&[0x61, 0x0C, 0x62, 0x0A, 0x63, 0x0C, 0x64, 0x0C, 0x81, 0x21, 0x83, 0x22, 0x84, 0x23]);
    run(&mut c, 7);
    assert_eq!((c.v[1], c.v[3], c.v[4]), (0x0E, 0x08, 0x06));
}

#[test]
fn register_skips_use_opposite_predicates() {
    let mut c = chip_with(&[0x61, 5, 0x62, 5, 0x51, 0x20]);
    run(&mut c, 3);
    assert_eq!(c.pc, 0x208);
    let mut c = chip_with(&[0x61, 5, 0x62, 5, 0x91, 0x20]);
    run(&mut c, 3);
    assert_eq!(c.pc, 0x206);
    let mut c = chip_with(&[0x61, 5, 0x31, 5]);
    run(&mut c, 2);
    assert_eq!(c.pc, 0x206);
    let mut c = chip_with(&[0x61, 5, 0x41, 5]);
    run(&mut c, 2);
    assert_eq!(c.pc, 0x204);
}

#[test]
fn key_skips_compare_register_value() {
    let mut c = chip_with(&[0x63, 0x07, 0xE3, 0x9E]);
    c.set_key(Some(ChipKey::Seven));
    run(&mut c, 2);
    assert_eq!(c.pc, 0x206);
    let mut c = chip_with(&[0x63, 0x07, 0xE3, 0xA1]);
    c.set_key(Some(ChipKey::Seven));
    run(&mut c, 2);
    assert_eq!(c.pc, 0x204);
    let mut c = chip_with(&[0x63, 0x07, 0xE3, 0xA1]);
    c.set_key(None);
    run(&mut c, 2);
    assert_eq!(c.pc, 0x206);
}

#[test]
fn key_wait_resumes_on_a_later_step() {
    let mut c = chip_with(&[0xF4, 0x0A, 0x00, 0xE0]);
    c.set_key(Some(ChipKey::B));
    assert_eq!(c.tick(), Ok(Instruction::LDKR(4)));
    assert_eq!(c.pc, 0x200);
    assert_eq!(c.v[4], 0);
    c.set_key(None);
    assert_eq!(c.tick(), Ok(Instruction::LDKR(4)));
    assert_eq!(c.pc, 0x200);
    c.set_key(Some(ChipKey::C));
    assert_eq!(c.tick(), Ok(Instruction::LDKR(4)));
    assert_eq!(c.v[4], 0xC);
    assert_eq!(c.pc, 0x202);
    assert_eq!(c.tick(), Ok(Instruction::CLS));
}

#[test]
fn register_block_store_and_load() {
    let mut c = chip_with(&[0x60, 1, 0x61, 2, 0x62, 3, 0xA4, 0x00, 0xF2, 0x55, 0x60, 0, 0x61, 0, 0x62, 0, 0xF1, 0x65]);
    run(&mut c, 5);
    assert_eq!(&c.ram[0x400..0x404], &[1, 2, 3, 0]);
    assert_eq!(c.i, 0x400);
    run(&mut c, 4);
    assert_eq!(&c.v[0..3], &[1, 2, 0]);
    assert_eq!(c.i, 0x400);
}

#[test]
fn index_arithmetic() {
    // ADDRI wraps at 16 bits: I = 0xFFF + 0xFF, then + 0xFF twice more
    let mut c = chip_with(&[0xAF, 0xFF, 0x65, 0x0A, 0xF5, 0x1E]);
    run(&mut c, 3);
    assert_eq!(c.i, 0x1009);
    assert_eq!(c.v[0xF], 0);
    // LDSI points at the glyph of the register's value
    let mut c = chip_with(&[0x65, 0x0A, 0xF5, 0x29]);
    run(&mut c, 2);
    assert_eq!(c.i, 50);
    let mut c = chip_with(&[]);
    c.i = 0xFFFF;
    c.v[2] = 3;
    c.ram[0x200] = 0xF2;
    c.ram[0x201] = 0x1E;
    run(&mut c, 1);
    assert_eq!(c.i, 2);
}

#[test]
fn jumps() {
    let mut c = chip_with(&[0x12, 0x34]);
    run(&mut c, 1);
    assert_eq!(c.pc, 0x234);
    let mut c = chip_with(&[0x60, 0x10, 0xB3, 0x00]);
    run(&mut c, 2);
    assert_eq!(c.pc, 0x310);
    let mut c = chip_with(&[0x01, 0x23]);
    assert_eq!(c.tick(), Ok(Instruction::SYS(0x123)));
    assert_eq!(c.pc, 0x202);
}

#[test]
fn random_byte_is_masked() {
    let mut c = chip_with(&[0x64, 0xAA, 0xC4, 0x00, 0xC5, 0x0F]);
    run(&mut c, 3);
    assert_eq!(c.v[4], 0);
    assert!(c.v[5] <= 0x0F);
}

#[test]
fn rom_load_errors() {
    let mut c = Chip::new();
    assert_eq!(c.read_rom_bytes(vec![0; 3585]), Err(ChipError::RomTooLarge));
    assert_eq!(c.read_rom_bytes(vec![0xAB; 3584]), Ok(()));
    assert_eq!(c.ram[4095], 0xAB);
    assert_eq!(c.read_rom_bytes(vec![1]), Err(ChipError::AlreadyLoaded));
    c.remove_rom();
    assert_eq!(c.ram[4095], 0);
    assert_eq!(c.read_rom_bytes(vec![1]), Ok(()));
    assert_eq!(c.ram[0x200], 1);
}

#[test]
fn reset_restores_initial_state() {
    let mut ctl = ChipController::new();
    ctl.set_rom(vec![0x60, 0x08, 0xF0, 0x29, 0xD0, 0x05, 0x22, 0x00]).unwrap();
    ctl.set_pressed_key(Some(ChipKey::A));
    ctl.tick(Some(4)).unwrap();
    assert!(ctl.get_display().iter().any(|p| *p != 0));
    ctl.reset();
    let c = ctl.chip();
    assert_eq!(c.pc, 0);
    assert_eq!(c.sp, 0);
    assert_eq!(c.pressed_key, None);
    assert!(c.v.iter().all(|b| *b == 0));
    assert!(ctl.get_display().iter().all(|p| *p == 0));
    assert_eq!(ctl.get_display().len(), 2048);
    assert_eq!(ctl.set_rom(vec![0x00, 0xE0]), Ok(()));
}

#[test]
fn controller_tick_stops_at_first_error() {
    let mut ctl = ChipController::new();
    ctl.set_rom(vec![0x60, 0x01, 0x00, 0xEE, 0x61, 0x01]).unwrap();
    assert_eq!(ctl.tick(Some(3)), Err(ChipError::StackUnderflow));
    assert_eq!(ctl.chip().pc, 0x202);
    assert_eq!(ctl.chip().v[1], 0);
    let mut ctl = ChipController::new();
    ctl.set_rom(vec![0x60, 0x01]).unwrap();
    assert_eq!(ctl.tick(None), Ok(()));
    assert_eq!(ctl.chip().v[0], 1);
}

#[test]
fn host_cycle_quits_on_q_after_timers() {
    let mut ctl = ChipController::new();
    ctl.set_rom(vec![0x60, 0x03, 0xF0, 0x15, 0xF0, 0x18, 0x12, 0x06]).unwrap();
    ctl.tick(Some(3)).unwrap();
    let pc = ctl.chip().pc;
    assert_eq!(ctl.cycle(KeyCode::Char('q'), true, false), HostAction::Quit);
    assert_eq!(ctl.delay_timer(), 2);
    assert_eq!(ctl.sound_timer(), 3);
    assert_eq!(ctl.chip().pc, pc);
}

#[test]
fn host_cycle_sets_key_and_steps() {
    let mut ctl = ChipController::new();
    ctl.set_rom(vec![0xF4, 0x0A, 0x00, 0xE0, 0x00, 0xEE]).unwrap();
    assert_eq!(ctl.cycle(KeyCode::Null, false, false), HostAction::Continue);
    assert_eq!(ctl.chip().pressed_key, None);
    assert_eq!(ctl.cycle(KeyCode::Char('z'), false, false), HostAction::Continue);
    assert_eq!(ctl.chip().pc, 0x200);
    assert_eq!(ctl.cycle(KeyCode::Char('e'), false, false), HostAction::Continue);
    assert_eq!(ctl.chip().pressed_key, Some(ChipKey::E));
    assert_eq!(ctl.chip().v[4], 0xE);
    assert_eq!(ctl.chip().pc, 0x202);
    assert_eq!(ctl.cycle(KeyCode::Null, false, false), HostAction::Continue);
    assert_eq!(ctl.cycle(KeyCode::Null, false, false), HostAction::Fault(ChipError::StackUnderflow));
    assert_eq!(ctl.chip().pc, 0x204);
}
