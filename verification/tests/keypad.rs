use esp32s3_cam_qr::keypad::{
    bit_to_digit, first_pressed_key, newly_pressed, read_mcp_buttons, CodeStatus, Keypad,
    ALL_RELEASED,
};

#[test]
fn read_combines_both_ports() {
    assert_eq!(read_mcp_buttons(Some((0xFF, 0x01))), 0x01FF);
    assert_eq!(read_mcp_buttons(Some((0xFE, 0x00))), 0x00FE);
    assert_eq!(read_mcp_buttons(Some((0x12, 0xFF))), 0x0112);
    assert_eq!(read_mcp_buttons(Some((0x00, 0xFE))), 0x0000);
}

#[test]
fn failed_read_is_all_released() {
    assert_eq!(read_mcp_buttons(None), ALL_RELEASED);
    assert_eq!(ALL_RELEASED, 0x01FF);
}

#[test]
fn bits_map_to_digits() {
    let expected = ['1', '2', '3', '4', '5', '6', '7', '8', '9'];
    for (bit, d) in expected.iter().enumerate() {
        assert_eq!(bit_to_digit(bit as u8), *d);
    }
    assert_eq!(bit_to_digit(9), '?');
    assert_eq!(bit_to_digit(255), '?');
}

#[test]
fn new_presses_are_high_to_low_edges() {
    assert_eq!(newly_pressed(0x01FF, 0x01FE), 0x0001);
    assert_eq!(newly_pressed(0x01FE, 0x01FE), 0x0000);
    assert_eq!(newly_pressed(0x01FE, 0x01FF), 0x0000);
    assert_eq!(newly_pressed(0x01FF, 0x00FF), 0x0100);
}

#[test]
fn lowest_pressed_key_wins() {
    assert_eq!(first_pressed_key(0), None);
    assert_eq!(first_pressed_key(0b110), Some(1));
    assert_eq!(first_pressed_key(0x0100), Some(8));
    assert_eq!(first_pressed_key(0x0200), None);
    assert_eq!(first_pressed_key(0xFFFF), Some(0));
}

#[test]
fn keypad_starts_idle() {
    let k = Keypad::new(0x01FF);
    assert_eq!(k.prev_gpio(), 0x01FF);
    assert_eq!(k.entered_code(), "");
    assert!(!k.in_keypad_mode());
}

#[test]
fn key_press_is_taken_once() {
    let mut k = Keypad::new(0x01FF);
    let p = k.poll(0x01FE).expect("a press");
    assert_eq!(p.digit, '1');
    assert_eq!(p.code, "1");
    assert_eq!(p.status, CodeStatus::Incomplete);
    assert!(k.in_keypad_mode());
    assert!(k.poll(0x01FE).is_none());
    assert!(k.poll(0x01FF).is_none());
    assert_eq!(k.entered_code(), "1");
    assert!(k.in_keypad_mode());
}

#[test]
fn two_keys_at_once_take_the_lowest() {
    let mut k = Keypad::new(0x01FF);
    let p = k.poll(0x01FF & !0b1_0000_0100).expect("a press");
    assert_eq!(p.digit, '3');
    assert_eq!(k.entered_code(), "3");
}

#[test]
fn failed_read_never_presses() {
    let mut k = Keypad::new(0x0000);
    assert!(k.poll(ALL_RELEASED).is_none());
    assert_eq!(k.prev_gpio(), ALL_RELEASED);
    assert!(!k.in_keypad_mode());
}

fn press(k: &mut Keypad, bit: u8) -> esp32s3_cam_qr::keypad::KeyPress {
    let pressed = 0x01FF & !(1u16 << bit);
    let p = k.poll(pressed).expect("a press");
    assert!(k.poll(0x01FF).is_none());
    p
}

#[test]
fn seven_digits_complete_and_clear_the_code() {
    let mut k = Keypad::new(0x01FF);
    for (i, bit) in [0u8, 1, 2, 3, 4, 5].iter().enumerate() {
        let p = press(&mut k, *bit);
        assert_eq!(p.status, CodeStatus::Incomplete);
        assert_eq!(p.code.len(), i + 1);
    }
    assert_eq!(k.entered_code(), "123456");
    let last = press(&mut k, 8);
    assert_eq!(last.digit, '9');
    assert_eq!(last.code, "1234569");
    assert_eq!(last.status, CodeStatus::Accepted);
    assert_eq!(k.entered_code(), "");
    assert!(!k.in_keypad_mode());
    let next = press(&mut k, 7);
    assert_eq!(next.code, "8");
    assert_eq!(next.status, CodeStatus::Incomplete);
}
