use bevy::input::keyboard::KeyCode;
use bevy::input::ButtonInput;
use client_core::input::buffer_input;
use client_core::input::read_keys;
use client_core::input::record_keys;
use client_core::intent::Direction;
use client_core::intent::Intent;
use client_core::intent::Keypress;
use client_core::message::message_for;
use client_core::message::send_message;
use client_core::message::Message1;
use client_core::tick_buffer::InputTickBuffer;
use client_core::tick_buffer::RecordError;

#[test]
fn an_untouched_keyboard_reads_as_released() {
    let keyboard = ButtonInput::<KeyCode>::default();
    assert_eq!(read_keys(&keyboard), Keypress::released());
}

#[test]
fn each_key_is_read_from_its_own_key_code() {
    let codes = [
        KeyCode::KeyW,
        KeyCode::ArrowUp,
        KeyCode::KeyS,
        KeyCode::ArrowDown,
        KeyCode::KeyA,
        KeyCode::ArrowLeft,
        KeyCode::KeyD,
        KeyCode::ArrowRight,
        KeyCode::KeyK,
        KeyCode::Space,
        KeyCode::KeyM,
    ];
    let mut index: usize = 0;
    while index < codes.len() {
        let mut keyboard = ButtonInput::<KeyCode>::default();
        keyboard.press(codes[index]);
        let mut expected = Keypress::released();
        match index {
            0 => expected.key_w = true,
            1 => expected.arrow_up = true,
            2 => expected.key_s = true,
            3 => expected.arrow_down = true,
            4 => expected.key_a = true,
            5 => expected.arrow_left = true,
            6 => expected.key_d = true,
            7 => expected.arrow_right = true,
            8 => expected.key_k = true,
            9 => expected.space = true,
            _ => expected.key_m = true,
        }
        assert_eq!(read_keys(&keyboard), expected);
        index += 1;
    }
}

#[test]
fn a_key_the_client_does_not_listen_to_is_ignored() {
    let mut keyboard = ButtonInput::<KeyCode>::default();
    keyboard.press(KeyCode::KeyQ);
    keyboard.press(KeyCode::Enter);
    assert_eq!(read_keys(&keyboard), Keypress::released());
}

#[test]
fn a_released_key_is_no_longer_read() {
    let mut keyboard = ButtonInput::<KeyCode>::default();
    keyboard.press(KeyCode::KeyD);
    keyboard.press(KeyCode::Space);
    keyboard.release(KeyCode::KeyD);
    let mut expected = Keypress::released();
    expected.space = true;
    assert_eq!(read_keys(&keyboard), expected);
}

#[test]
fn buffer_input_records_the_intent_of_the_held_keys() {
    let mut keyboard = ButtonInput::<KeyCode>::default();
    keyboard.press(KeyCode::ArrowRight);
    keyboard.press(KeyCode::KeyK);
    let mut buffer = InputTickBuffer::new();
    let tick: u64 = 40;
    let expected = Intent::Direction(Direction { up: false, down: false, left: false, right: true });
    assert_eq!(buffer_input(&mut buffer, tick, &keyboard), Ok(expected));
    assert_eq!(buffer.get(tick), Some(expected));
    assert_eq!(buffer.len(), 1);
}

#[test]
fn buffer_input_on_an_idle_keyboard_records_idle() {
    let keyboard = ButtonInput::<KeyCode>::default();
    let mut buffer = InputTickBuffer::new();
    let tick: u64 = 1;
    assert_eq!(buffer_input(&mut buffer, tick, &keyboard), Ok(Intent::Idle));
    assert_eq!(buffer.get(tick), Some(Intent::Idle));
}

#[test]
fn buffer_input_refuses_a_second_intent_for_a_tick() {
    let mut keyboard = ButtonInput::<KeyCode>::default();
    keyboard.press(KeyCode::Space);
    let mut buffer = InputTickBuffer::new();
    let tick: u64 = 7;
    assert_eq!(buffer_input(&mut buffer, tick, &keyboard), Ok(Intent::Spawn));
    keyboard.release(KeyCode::Space);
    keyboard.press(KeyCode::KeyK);
    assert_eq!(buffer_input(&mut buffer, tick, &keyboard), Err(RecordError::AlreadyRecorded));
    assert_eq!(buffer.get(tick), Some(Intent::Spawn));
    assert_eq!(buffer.len(), 1);
}

#[test]
fn buffer_input_refuses_a_past_tick() {
    let keyboard = ButtonInput::<KeyCode>::default();
    let mut buffer = InputTickBuffer::new();
    let now: u64 = 9;
    let earlier: u64 = 8;
    assert_eq!(buffer_input(&mut buffer, now, &keyboard), Ok(Intent::Idle));
    assert_eq!(buffer_input(&mut buffer, earlier, &keyboard), Err(RecordError::PastTick));
    assert_eq!(buffer.get(earlier), None);
}

#[test]
fn record_keys_encodes_and_records() {
    let mut keys = Keypress::released();
    keys.key_k = true;
    let mut buffer = InputTickBuffer::new();
    let tick: u64 = 3;
    assert_eq!(record_keys(&mut buffer, tick, &keys), Ok(Intent::Delete));
    assert_eq!(buffer.latest(), Some(tick));
    assert_eq!(record_keys(&mut buffer, tick, &keys), Err(RecordError::AlreadyRecorded));
}

#[test]
fn the_broadcast_key_sends_the_message() {
    let mut keyboard = ButtonInput::<KeyCode>::default();
    assert_eq!(send_message(&keyboard), None);
    keyboard.press(KeyCode::KeyK);
    assert_eq!(send_message(&keyboard), None);
    keyboard.press(KeyCode::KeyM);
    assert_eq!(send_message(&keyboard), Some(Message1(5)));
    keyboard.release(KeyCode::KeyM);
    assert_eq!(send_message(&keyboard), None);
}

#[test]
fn message_for_follows_the_key() {
    assert_eq!(message_for(true), Some(Message1(5)));
    assert_eq!(message_for(false), None);
}
