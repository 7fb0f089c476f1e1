use pogp::{InputError, InputType, Key, KeyboardInput, KEYBOARD_TAG, KEY_COUNT};

#[test]
fn keyboard_input_new() {
    let input = KeyboardInput::new();
    assert_eq!(input.keys().len(), 0);
}

#[test]
fn keyboard_input_is_key_down() {
    let mut input = KeyboardInput::new();
    input.set_key(Key::KeyA);
    assert_eq!(input.keys().len(), 1);
    assert_eq!(input.is_key_down(Key::KeyA), true);
}

#[test]
fn keyboard_input_set_key() {
    let mut input = KeyboardInput::new();
    input.set_key(Key::KeyB);
    assert_eq!(input.keys().len(), 1);
    input.set_key(Key::KeyB);
    assert_eq!(input.keys().len(), 1, "set key only sets once");
}

#[test]
fn keyboard_input_from_vec() {
    let input = KeyboardInput::from_keys(vec![Key::Digit2]);
    assert_eq!(input.keys().len(), 1);
    assert_eq!(input.is_key_down(Key::Digit2), true, "builds from vec");
}

#[test]
fn from_u8array() {
    let mut buffer: [u8; 10] = [0; 10];
    buffer[0] = InputType::Keyboard as u8;
    buffer[1] |= 1 << 1;
    buffer[1] |= 1 << 2;
    buffer[4] |= 1 << 6;
    let input = KeyboardInput::from_bytes(&buffer).unwrap();
    assert_eq!(input.keys().len(), 3);
    assert_eq!(input.keys()[0], Key::ArrowDown);
    assert_eq!(input.keys()[1], Key::ArrowLeft);
    assert_eq!(input.keys()[2], Key::Minus);
}

#[test]
fn from_u8array_bad_input_type() {
    let mut buffer: [u8; 10] = [0; 10];
    buffer[0] = InputType::Mouse as u8;
    let result = KeyboardInput::from_bytes(&buffer);
    assert_eq!(result.unwrap_err(), InputError::InvalidInputKind { expected: 4, actual: 3 });
}

#[test]
fn from_slice_ref() {
    let buffer: &mut [u8] = &mut [0; 20];
    buffer[0] = InputType::Keyboard as u8;
    buffer[1] |= 1 << 1;
    buffer[1] |= 1 << 2;
    buffer[4] |= 1 << 6;

    let input = KeyboardInput::from_bytes(buffer as &[u8]).unwrap();
    assert_eq!(input.keys().len(), 3);
    assert_eq!(input.keys()[0], Key::ArrowDown);
    assert_eq!(input.keys()[1], Key::ArrowLeft);
    assert_eq!(input.keys()[2], Key::Minus);
}

#[test]
fn tags_follow_declaration_order() {
    assert_eq!(InputType::Null.tag(), 0);
    assert_eq!(InputType::Mouse.tag(), 3);
    assert_eq!(InputType::Keyboard.tag(), KEYBOARD_TAG);
    assert_eq!(InputType::Keyboard as u8, KEYBOARD_TAG);
    assert_eq!(InputType::Custom.tag(), 5);
}

#[test]
fn every_key_round_trips_through_its_code() {
    for c in 0..KEY_COUNT {
        assert_eq!(Key::from_code(c).code(), c);
    }
    assert_eq!(Key::ArrowUp.code(), 0);
    assert_eq!(Key::Minus.code(), 30);
    assert_eq!(Key::F12.code(), KEY_COUNT - 1);
}

#[test]
fn single_bit_buffer_decodes_to_its_key() {
    for c in 0..KEY_COUNT {
        let mut buffer = vec![0u8; 11];
        buffer[0] = KEYBOARD_TAG;
        buffer[1 + (c / 8) as usize] = 1 << (c % 8);
        let input = KeyboardInput::from_bytes(&buffer).unwrap();
        assert_eq!(input.keys(), &[Key::from_code(c)][..]);
    }
}

#[test]
fn set_key_twice_keeps_one_copy() {
    let mut once = KeyboardInput::new();
    once.set_key(Key::Space);
    let mut twice = KeyboardInput::new();
    twice.set_key(Key::Space);
    twice.set_key(Key::Space);
    assert_eq!(once.keys(), twice.keys());
    assert_eq!(twice.len(), 1);
}

#[test]
fn from_keys_drops_repeats_and_keeps_order() {
    let input = KeyboardInput::from_keys(vec![Key::KeyS, Key::KeyW, Key::KeyS, Key::Enter]);
    assert_eq!(input.keys(), &[Key::KeyS, Key::KeyW, Key::Enter][..]);
}

#[test]
fn tag_only_buffer_decodes_to_no_keys() {
    let input = KeyboardInput::from_bytes(&[KEYBOARD_TAG]).unwrap();
    assert_eq!(input.len(), 0);
    let empty = KeyboardInput::from_bytes(&[KEYBOARD_TAG, 0, 0, 0]).unwrap();
    assert_eq!(empty.len(), 0);
}

#[test]
fn wrong_tag_names_both_tags() {
    let result = KeyboardInput::from_bytes(&[InputType::Gamepad as u8, 0xff]);
    assert_eq!(result.unwrap_err(), InputError::InvalidInputKind { expected: KEYBOARD_TAG, actual: 1 });
}

#[test]
fn wrong_tag_is_refused_even_with_bits_past_the_catalog() {
    let buffer = [InputType::Touch as u8, 0xff, 0xff, 0xff, 0xff, 0xff, 0xff, 0xff, 0xff, 0xff, 0xff, 0xff];
    let result = KeyboardInput::from_bytes(&buffer);
    assert_eq!(result.unwrap_err(), InputError::InvalidInputKind { expected: KEYBOARD_TAG, actual: 2 });
}
