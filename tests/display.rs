use yace::display::{Display, DisplayChange, HEIGHT, WIDTH};

#[test]
fn new_display_is_blank() {
    let display = Display::default();
    assert!(display.get_buffer().iter().all(|&p| p == 0));
    assert_eq!(display.get_buffer().len(), WIDTH * HEIGHT);
    assert!(!display.has_changed());
}

#[test]
fn sprite_rows_are_most_significant_bit_first() {
    let mut display = Display::new();
    assert!(!display.load_sprite(2, 1, &[0x80, 0x01]));
    let buffer = display.get_buffer();
    assert_eq!(buffer[WIDTH + 2], 1);
    assert_eq!(buffer[2 * WIDTH + 9], 1);
    assert_eq!(buffer.iter().filter(|&&p| p == 1).count(), 2);
    assert_eq!(display.get_changes(), Some(DisplayChange { x: 2, y: 1, n: 2 }));
}

#[test]
fn sprite_wraps_on_both_axes() {
    let mut display = Display::new();
    assert!(!display.load_sprite(62, 31, &[0xF0, 0xF0]));
    let buffer = display.get_buffer();
    assert_eq!(buffer[31 * WIDTH + 62], 1);
    assert_eq!(buffer[31 * WIDTH + 63], 1);
    assert_eq!(buffer[31 * WIDTH], 1);
    assert_eq!(buffer[31 * WIDTH + 1], 1);
    assert_eq!(buffer[62], 1);
    assert_eq!(buffer[1], 1);
    assert_eq!(buffer.iter().filter(|&&p| p == 1).count(), 8);
}

#[test]
fn coordinates_beyond_the_screen_wrap() {
    let mut display = Display::new();
    display.load_sprite(64 + 3, 32 + 2, &[0x80]);
    assert_eq!(display.get_buffer()[2 * WIDTH + 3], 1);
}

#[test]
fn redraw_erases_and_collides() {
    let mut display = Display::new();
    let sprite = [0x3C, 0x42, 0x81];
    assert!(!display.load_sprite(10, 5, &sprite));
    assert!(display.load_sprite(10, 5, &sprite));
    assert!(display.get_buffer().iter().all(|&p| p == 0));
}

#[test]
fn empty_sprite_draws_nothing() {
    let mut display = Display::new();
    assert!(!display.load_sprite(0, 0, &[0x00, 0x00]));
    assert!(display.get_buffer().iter().all(|&p| p == 0));
    assert!(!display.load_sprite(0, 0, &[]));
    assert!(display.has_changed());
}

#[test]
fn collision_only_when_lit_pixel_is_erased() {
    let mut display = Display::new();
    display.load_sprite(0, 0, &[0x0F]);
    assert!(!display.load_sprite(0, 0, &[0xF0]));
    assert!(display.load_sprite(0, 0, &[0x01]));
    assert_eq!(display.get_buffer()[7], 0);
}

#[test]
fn clear_status_forgets_changes() {
    let mut display = Display::new();
    display.load_sprite(0, 0, &[0xFF]);
    assert!(display.has_changed());
    display.clear_status();
    assert!(!display.has_changed());
    assert_eq!(display.get_changes(), None);
}

#[test]
fn clear_turns_every_pixel_off() {
    let mut display = Display::new();
    display.load_sprite(5, 5, &[0xFF, 0xFF]);
    display.clear();
    assert!(display.get_buffer().iter().all(|&p| p == 0));
}

#[test]
fn redraw_over_lit_pixels_does_not_collide() {
    let mut display = Display::new();
    display.load_sprite(0, 0, &[0x80]);
    assert!(display.load_sprite(0, 0, &[0x80]));
    assert!(!display.load_sprite(0, 0, &[0x80]));
    assert_eq!(display.get_buffer()[0], 1);
}
