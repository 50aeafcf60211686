use yace::keyboard::Keyboard;

#[test]
fn keys_start_released() {
    let keyboard = Keyboard::default();
    for k in 0..16 {
        assert!(!keyboard.is_pressed(k));
    }
    assert_eq!(keyboard.get_pressed(), None);
}

#[test]
fn press_and_release_are_idempotent() {
    let mut keyboard = Keyboard::new();
    keyboard.set_key(0xA);
    keyboard.set_key(0xA);
    assert!(keyboard.is_pressed(0xA));
    keyboard.unset_key(0xA);
    assert!(!keyboard.is_pressed(0xA));
    keyboard.unset_key(0xA);
    assert!(!keyboard.is_pressed(0xA));
}

#[test]
fn lowest_pressed_key_wins() {
    let mut keyboard = Keyboard::new();
    keyboard.set_key(0xC);
    keyboard.set_key(0x4);
    assert_eq!(keyboard.get_pressed(), Some(0x4));
    keyboard.unset_key(0x4);
    assert_eq!(keyboard.get_pressed(), Some(0xC));
    keyboard.set_key(0xF);
    keyboard.set_key(0x0);
    assert_eq!(keyboard.get_pressed(), Some(0x0));
}

#[test]
fn reset_releases_all_keys() {
    let mut keyboard = Keyboard::new();
    keyboard.set_key(1);
    keyboard.set_key(15);
    keyboard.reset();
    assert_eq!(keyboard.get_pressed(), None);
}
