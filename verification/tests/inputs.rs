use raycore::input::{scancode_to_key, GamepadAxis, GamepadButton, KeyboardKey, MouseButton, MouseCursor};

#[test]
fn key_codes_match_native_numbering() {
    assert_eq!(KeyboardKey::Apostrophe.code(), 39);
    assert_eq!(KeyboardKey::Zero.code(), 48);
    assert_eq!(KeyboardKey::Nine.code(), 57);
    assert_eq!(KeyboardKey::A.code(), 65);
    assert_eq!(KeyboardKey::Z.code(), 90);
    assert_eq!(KeyboardKey::Space.code(), 32);
    assert_eq!(KeyboardKey::Escape.code(), 256);
    assert_eq!(KeyboardKey::Enter.code(), 257);
    assert_eq!(KeyboardKey::F1.code(), 290);
    assert_eq!(KeyboardKey::F12.code(), 301);
    assert_eq!(KeyboardKey::LeftShift.code(), 340);
    assert_eq!(KeyboardKey::KbMenu.code(), 348);
    assert_eq!(KeyboardKey::Kp0.code(), 320);
    assert_eq!(KeyboardKey::KpEqual.code(), 336);
    assert_eq!(KeyboardKey::Back.code(), 4);
    assert_eq!(KeyboardKey::VolumeDown.code(), 25);
}

#[test]
fn key_from_code_round_trips() {
    let keys = [
        KeyboardKey::A,
        KeyboardKey::Zero,
        KeyboardKey::Space,
        KeyboardKey::Escape,
        KeyboardKey::F7,
        KeyboardKey::Kp5,
        KeyboardKey::RightSuper,
        KeyboardKey::VolumeUp,
    ];
    for key in keys {
        assert_eq!(KeyboardKey::from_code(key.code()), Some(key));
    }
    assert_eq!(KeyboardKey::from_code(0), None);
    assert_eq!(KeyboardKey::from_code(37), None);
    assert_eq!(KeyboardKey::from_code(1000), None);
}

#[test]
fn mouse_button_indices() {
    assert_eq!(MouseButton::Left.index(), 0);
    assert_eq!(MouseButton::Right.index(), 1);
    assert_eq!(MouseButton::Middle.index(), 2);
    assert_eq!(MouseButton::Back.index(), 6);
}

#[test]
fn mouse_cursor_lookup_indices() {
    assert_eq!(MouseCursor::Standard.index(), 0);
    assert_eq!(MouseCursor::Arrow.index(), 1);
    assert_eq!(MouseCursor::Ibeam.index(), 2);
    assert_eq!(MouseCursor::NotAllowed.index(), 10);
}

#[test]
fn gamepad_button_indices() {
    assert_eq!(GamepadButton::LeftFaceUp.index(), 0);
    assert_eq!(GamepadButton::RightFaceDown.index(), 6);
    assert_eq!(GamepadButton::RightThumb.index(), 16);
}

#[test]
fn gamepad_axis_indices() {
    assert_eq!(GamepadAxis::LeftX.index(), 0);
    assert_eq!(GamepadAxis::LeftTrigger.index(), 4);
    assert_eq!(GamepadAxis::RightTrigger.index(), 5);
}

#[test]
fn scancodes_map_to_keys() {
    assert_eq!(scancode_to_key(4), Some(KeyboardKey::A));
    assert_eq!(scancode_to_key(29), Some(KeyboardKey::Z));
    assert_eq!(scancode_to_key(30), Some(KeyboardKey::One));
    assert_eq!(scancode_to_key(39), Some(KeyboardKey::Zero));
    assert_eq!(scancode_to_key(44), Some(KeyboardKey::Space));
    assert_eq!(scancode_to_key(58), Some(KeyboardKey::F1));
    assert_eq!(scancode_to_key(99), Some(KeyboardKey::KpDecimal));
    assert_eq!(scancode_to_key(224), Some(KeyboardKey::LeftControl));
    assert_eq!(scancode_to_key(231), Some(KeyboardKey::RightSuper));
}

#[test]
fn unmapped_scancodes_give_no_key() {
    assert_eq!(scancode_to_key(0), None);
    assert_eq!(scancode_to_key(50), None);
    assert_eq!(scancode_to_key(100), None);
    assert_eq!(scancode_to_key(223), None);
    assert_eq!(scancode_to_key(232), None);
    assert_eq!(scancode_to_key(100_000), None);
}
