use yace::chip::{Chip, ChipError};
use yace::display::{DisplayChange, BUFFER_SIZE, WIDTH};

fn run(chip: &mut Chip, ops: &[u16]) {
    for &op in ops {
        assert_eq!(chip.execute_with(op, 0), Ok(()));
    }
}

#[test]
fn new_chip_starts_at_program_start() {
    let chip = Chip::new(&[0x12, 0x34]);
    assert_eq!(chip.pc(), 0x200);
    assert_eq!(chip.sp(), 0);
    assert_eq!(chip.i(), 0);
    assert_eq!(chip.memory().read(0x200), 0x12);
    assert_eq!(chip.memory().read(0x201), 0x34);
    assert_eq!(chip.memory().read(0x202), 0);
}

#[test]
fn fetch_is_big_endian() {
    let chip = Chip::new(&[0xA2, 0x0F]);
    assert_eq!(chip.fetch(), 0xA20F);
}

#[test]
fn add_byte_wraps_and_keeps_flag() {
    let mut chip = Chip::default();
    run(&mut chip, &[0x6FAB, 0x63C8, 0x7364]);
    assert_eq!(chip.register(3), 44);
    assert_eq!(chip.register(0xF), 0xAB);
    assert_eq!(chip.pc(), 0x206);
}

#[test]
fn add_byte_without_overflow() {
    let mut chip = Chip::default();
    run(&mut chip, &[0x6505, 0x7507]);
    assert_eq!(chip.register(5), 12);
}

#[test]
fn add_registers_sets_carry() {
    let mut chip = Chip::default();
    run(&mut chip, &[0x60F0, 0x6120, 0x8014]);
    assert_eq!(chip.register(0), 0x10);
    assert_eq!(chip.register(0xF), 1);
}

#[test]
fn add_registers_clears_carry() {
    let mut chip = Chip::default();
    run(&mut chip, &[0x6FFF, 0x6010, 0x6120, 0x8014]);
    assert_eq!(chip.register(0), 0x30);
    assert_eq!(chip.register(0xF), 0);
}

#[test]
fn sub_registers_without_borrow() {
    let mut chip = Chip::default();
    run(&mut chip, &[0x6032, 0x6132, 0x8015]);
    assert_eq!(chip.register(0), 0);
    assert_eq!(chip.register(0xF), 1);
}

#[test]
fn sub_registers_with_borrow() {
    let mut chip = Chip::default();
    run(&mut chip, &[0x6010, 0x6120, 0x8015]);
    assert_eq!(chip.register(0), 0xF0);
    assert_eq!(chip.register(0xF), 0);
}

#[test]
fn reverse_subtraction() {
    let mut chip = Chip::default();
    run(&mut chip, &[0x6010, 0x6130, 0x8017]);
    assert_eq!(chip.register(0), 0x20);
    assert_eq!(chip.register(0xF), 1);
}

#[test]
fn shifts_capture_the_lost_bit() {
    let mut chip = Chip::default();
    run(&mut chip, &[0x6081, 0x8006]);
    assert_eq!(chip.register(0), 0x40);
    assert_eq!(chip.register(0xF), 1);
    run(&mut chip, &[0x6181, 0x810E]);
    assert_eq!(chip.register(1), 0x02);
    assert_eq!(chip.register(0xF), 1);
    run(&mut chip, &[0x6240, 0x820E]);
    assert_eq!(chip.register(2), 0x80);
    assert_eq!(chip.register(0xF), 0);
}

#[test]
fn bitwise_operations() {
    let mut chip = Chip::default();
    run(&mut chip, &[0x600C, 0x610A, 0x6200, 0x8200, 0x8211]);
    assert_eq!(chip.register(2), 0x0E);
    run(&mut chip, &[0x8200, 0x8212]);
    assert_eq!(chip.register(2), 0x08);
    run(&mut chip, &[0x8200, 0x8213]);
    assert_eq!(chip.register(2), 0x06);
}

#[test]
fn bcd_of_234() {
    let mut chip = Chip::default();
    run(&mut chip, &[0xA300, 0x65EA, 0xF533]);
    assert_eq!(chip.memory().read(0x300), 2);
    assert_eq!(chip.memory().read(0x301), 3);
    assert_eq!(chip.memory().read(0x302), 4);
}

#[test]
fn bcd_of_zero() {
    let mut chip = Chip::default();
    run(&mut chip, &[0xA300, 0x6500, 0xF533]);
    assert_eq!(chip.memory().read(0x300), 0);
    assert_eq!(chip.memory().read(0x301), 0);
    assert_eq!(chip.memory().read(0x302), 0);
}

#[test]
fn store_and_load_all_registers() {
    let mut chip = Chip::default();
    let mut ops = Vec::new();
    for r in 0..16u16 {
        ops.push(0x6000 | (r << 8) | (r * 7 + 3));
    }
    run(&mut chip, &ops);
    run(&mut chip, &[0xA400, 0xFF55]);
    for r in 0..16u16 {
        assert_eq!(chip.memory().read(0x400 + r as usize), (r * 7 + 3) as u8);
    }
    let mut clear = Vec::new();
    for r in 0..16u16 {
        clear.push(0x6000 | (r << 8));
    }
    run(&mut chip, &clear);
    run(&mut chip, &[0xFF65]);
    for r in 0..16u16 {
        assert_eq!(chip.register(r as u8), (r * 7 + 3) as u8);
    }
    assert_eq!(chip.i(), 0x400);
}

#[test]
fn clear_screen_blanks_the_buffer() {
    let mut chip = Chip::new(&[0xF0]);
    run(&mut chip, &[0xA200, 0xD015]);
    assert!(chip.display.get_buffer().iter().any(|&p| p == 1));
    run(&mut chip, &[0x00E0]);
    assert!(chip.display.get_buffer().iter().all(|&p| p == 0));
    assert_eq!(chip.display.get_buffer().len(), BUFFER_SIZE);
}

#[test]
fn wait_for_key_idles_until_pressed() {
    let mut chip = Chip::new(&[0xF3, 0x0A]);
    for _ in 0..3 {
        assert_eq!(chip.tick(), Ok(()));
        assert_eq!(chip.pc(), 0x200);
        assert_eq!(chip.register(3), 0);
    }
    chip.keyboard.set_key(0x7);
    assert_eq!(chip.tick(), Ok(()));
    assert_eq!(chip.register(3), 0x7);
    assert_eq!(chip.pc(), 0x202);
}

#[test]
fn draw_scenario_lights_four_pixels() {
    let mut chip = Chip::new(&[0xF0]);
    run(&mut chip, &[0xA200, 0x6000, 0x6100, 0xD011]);
    let buffer = chip.display.get_buffer();
    for x in 0..8 {
        assert_eq!(buffer[x], if x < 4 { 1 } else { 0 });
    }
    assert_eq!(buffer[WIDTH], 0);
    assert_eq!(chip.register(0xF), 0);
    assert_eq!(chip.display.get_changes(), Some(DisplayChange { x: 0, y: 0, n: 1 }));
}

#[test]
fn draw_program_by_ticks() {
    let program = [0xA2, 0x00, 0x60, 0x00, 0x61, 0x00, 0xD0, 0x11];
    let mut chip = Chip::new(&program);
    for _ in 0..4 {
        assert_eq!(chip.tick(), Ok(()));
    }
    let buffer = chip.display.get_buffer();
    // the sprite byte at 0x200 is the program's first byte, 0xA2
    assert_eq!(&buffer[0..8], &[1, 0, 1, 0, 0, 0, 1, 0]);
    assert_eq!(chip.register(0xF), 0);
    assert_eq!(chip.pc(), 0x208);
    assert!(chip.display.has_changed());
}

#[test]
fn draw_twice_collides_and_restores() {
    let mut chip = Chip::new(&[0x3C]);
    run(&mut chip, &[0xA200, 0x6005, 0x6107, 0xD011]);
    assert_eq!(chip.register(0xF), 0);
    run(&mut chip, &[0xD011]);
    assert_eq!(chip.register(0xF), 1);
    assert!(chip.display.get_buffer().iter().all(|&p| p == 0));
}

#[test]
fn tick_clears_the_damage_descriptor() {
    let mut chip = Chip::new(&[0xA2, 0x00, 0xD0, 0x01, 0x60, 0x01]);
    assert_eq!(chip.tick(), Ok(()));
    assert_eq!(chip.tick(), Ok(()));
    assert!(chip.display.has_changed());
    assert_eq!(chip.tick(), Ok(()));
    assert!(!chip.display.has_changed());
    assert_eq!(chip.display.get_changes(), None);
}

#[test]
fn call_and_return() {
    let mut chip = Chip::default();
    run(&mut chip, &[0x2400]);
    assert_eq!(chip.pc(), 0x400);
    assert_eq!(chip.sp(), 1);
    run(&mut chip, &[0x00EE]);
    assert_eq!(chip.pc(), 0x202);
    assert_eq!(chip.sp(), 0);
}

#[test]
fn return_with_empty_stack_fails() {
    let mut chip = Chip::default();
    assert_eq!(chip.execute_with(0x00EE, 0), Err(ChipError::StackUnderflow));
    assert_eq!(chip.pc(), 0x200);
}

#[test]
fn seventeenth_call_overflows() {
    let mut chip = Chip::default();
    for _ in 0..16 {
        assert_eq!(chip.execute_with(0x2300, 0), Ok(()));
    }
    assert_eq!(chip.sp(), 16);
    assert_eq!(chip.execute_with(0x2300, 0), Err(ChipError::StackOverflow));
    assert_eq!(chip.sp(), 16);
}

#[test]
fn illegal_instruction_is_reported() {
    let mut chip = Chip::default();
    assert_eq!(chip.execute_with(0x5121, 0), Err(ChipError::IllegalInstruction(0x5121)));
    assert_eq!(chip.execute(0xE1FF), Err(ChipError::IllegalInstruction(0xE1FF)));
    assert_eq!(chip.execute(0x0123), Err(ChipError::IllegalInstruction(0x0123)));
    assert_eq!(chip.pc(), 0x200);
}

#[test]
fn memory_beyond_the_end_is_a_fault() {
    let mut chip = Chip::default();
    run(&mut chip, &[0xAFFF]);
    assert_eq!(chip.execute_with(0xF033, 0), Err(ChipError::MemoryOutOfBounds));
    assert_eq!(chip.execute_with(0xD005, 0), Err(ChipError::MemoryOutOfBounds));
    assert_eq!(chip.execute_with(0xF155, 0), Err(ChipError::MemoryOutOfBounds));
    assert_eq!(chip.execute_with(0xF165, 0), Err(ChipError::MemoryOutOfBounds));
    assert_eq!(chip.execute_with(0xF055, 0), Ok(()));
    run(&mut chip, &[0x1FFF]);
    assert_eq!(chip.tick(), Err(ChipError::MemoryOutOfBounds));
    assert_eq!(chip.pc(), 0xFFF);
}

#[test]
fn skips_on_comparisons() {
    let mut chip = Chip::default();
    run(&mut chip, &[0x6042, 0x3042]);
    assert_eq!(chip.pc(), 0x206);
    run(&mut chip, &[0x3041]);
    assert_eq!(chip.pc(), 0x208);
    run(&mut chip, &[0x4041]);
    assert_eq!(chip.pc(), 0x20C);
    run(&mut chip, &[0x6142, 0x5010]);
    assert_eq!(chip.pc(), 0x212);
    run(&mut chip, &[0x9010]);
    assert_eq!(chip.pc(), 0x214);
}

#[test]
fn key_skips() {
    let mut chip = Chip::default();
    run(&mut chip, &[0x6205, 0xE29E]);
    assert_eq!(chip.pc(), 0x204);
    chip.keyboard.set_key(5);
    run(&mut chip, &[0xE29E]);
    assert_eq!(chip.pc(), 0x208);
    run(&mut chip, &[0xE2A1]);
    assert_eq!(chip.pc(), 0x20A);
    run(&mut chip, &[0x6220, 0xE2A1]);
    assert_eq!(chip.pc(), 0x210);
}

#[test]
fn jumps() {
    let mut chip = Chip::default();
    run(&mut chip, &[0x1345]);
    assert_eq!(chip.pc(), 0x345);
    run(&mut chip, &[0x6010, 0xB300]);
    assert_eq!(chip.pc(), 0x310);
}

#[test]
fn index_register_instructions() {
    let mut chip = Chip::default();
    run(&mut chip, &[0x6A07, 0xFA29]);
    assert_eq!(chip.i(), 35);
    run(&mut chip, &[0xAFFE, 0x6105, 0xF11E]);
    assert_eq!(chip.i(), 0x1003);
}

#[test]
fn timers_load_and_count_down() {
    let mut chip = Chip::default();
    run(&mut chip, &[0x6002, 0xF015, 0x6101, 0xF118]);
    assert_eq!(chip.dt(), 2);
    assert_eq!(chip.st(), 1);
    chip.update_timers();
    assert_eq!(chip.dt(), 1);
    assert_eq!(chip.st(), 0);
    chip.update_timers();
    chip.update_timers();
    assert_eq!(chip.dt(), 0);
    assert_eq!(chip.st(), 0);
    run(&mut chip, &[0x6009, 0xF015, 0xF307]);
    assert_eq!(chip.register(3), 9);
}

#[test]
fn random_byte_is_masked() {
    let mut chip = Chip::default();
    assert_eq!(chip.execute_with(0xC30F, 0xAB), Ok(()));
    assert_eq!(chip.register(3), 0x0B);
    assert_eq!(chip.execute(0xC40F), Ok(()));
    assert!(chip.register(4) <= 0x0F);
    assert_eq!(chip.execute(0xC500), Ok(()));
    assert_eq!(chip.register(5), 0);
}

#[test]
fn reset_restores_power_on_state() {
    let mut chip = Chip::new(&[0x60, 0x01]);
    run(&mut chip, &[0x6507, 0xA123, 0x2300]);
    chip.keyboard.set_key(3);
    chip.reset();
    assert_eq!(chip.pc(), 0x200);
    assert_eq!(chip.sp(), 0);
    assert_eq!(chip.i(), 0);
    assert_eq!(chip.register(5), 0);
    assert_eq!(chip.memory().read(0x200), 0);
    assert!(!chip.keyboard.is_pressed(3));
}

#[test]
fn load_keeps_registers() {
    let mut chip = Chip::default();
    run(&mut chip, &[0x6507]);
    chip.load(&[0xAB, 0xCD]);
    assert_eq!(chip.register(5), 7);
    assert_eq!(chip.memory().read(0x201), 0xCD);
}
