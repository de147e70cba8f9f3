//! Sampling the keyboard: from the keyboard state of a frame to the recorded
//! intent of a tick.

use vstd::prelude::*;
use bevy::input::keyboard::KeyCode;
use bevy::input::ButtonInput;
use crate::entity::Tick;
use crate::intent::encode_intent;
use crate::intent::intent_of;
use crate::intent::Intent;
use crate::intent::Keypress;
use crate::tick_buffer::record_outcome;
use crate::tick_buffer::InputTickBuffer;
use crate::tick_buffer::RecordError;

verus! {

/// bevy's `ButtonInput`, the set of buttons that are held down. Its inside is
/// not visible to the verifier.
#[verifier::external_type_specification]
#[verifier::external_body]
#[verifier::reject_recursive_types(T)]
pub struct ExButtonInput<T: Copy + Eq + core::hash::Hash + Send + Sync + 'static>(ButtonInput<T>);

/// bevy's `KeyCode`, the physical key of a keyboard event. Its inside is not
/// visible to the verifier.
#[verifier::external_type_specification]
#[verifier::external_body]
pub struct ExKeyCode(KeyCode);

/// The keys the client listens to.
#[derive(Clone, Copy, Debug, PartialEq, Eq, Structural)]
pub enum Key {
    KeyW,
    ArrowUp,
    KeyS,
    ArrowDown,
    KeyA,
    ArrowLeft,
    KeyD,
    ArrowRight,
    KeyK,
    Space,
    KeyM,
}

/// Those of the client's keys whose key codes are in the set of pressed
/// buttons of a bevy `ButtonInput`: the keys for which its method `pressed`
/// answers `true`.
pub uninterp spec fn held_keys(keyboard: ButtonInput<KeyCode>) -> Set<Key>;

/// The held keys as one flag per key.
pub open spec fn keypress_of(held: Set<Key>) -> Keypress {
    Keypress {
        key_w: held.contains(Key::KeyW),
        arrow_up: held.contains(Key::ArrowUp),
        key_s: held.contains(Key::KeyS),
        arrow_down: held.contains(Key::ArrowDown),
        key_a: held.contains(Key::KeyA),
        arrow_left: held.contains(Key::ArrowLeft),
        key_d: held.contains(Key::KeyD),
        arrow_right: held.contains(Key::ArrowRight),
        key_k: held.contains(Key::KeyK),
        space: held.contains(Key::Space),
        key_m: held.contains(Key::KeyM),
    }
}

/// Calls bevy's `ButtonInput::pressed` with the key code that `key` stands for.
/// Not verified: that the answer is whether that key code is in the keyboard
/// state's set of pressed buttons, which is what [`held_keys`] names.
#[verifier::external_body]
pub(crate) fn key_pressed(keyboard: &ButtonInput<KeyCode>, key: Key) -> (held: bool)
    ensures
        held == held_keys(*keyboard).contains(key),
{
    keyboard.pressed(match key {
        Key::KeyW => KeyCode::KeyW,
        Key::ArrowUp => KeyCode::ArrowUp,
        Key::KeyS => KeyCode::KeyS,
        Key::ArrowDown => KeyCode::ArrowDown,
        Key::KeyA => KeyCode::KeyA,
        Key::ArrowLeft => KeyCode::ArrowLeft,
        Key::KeyD => KeyCode::KeyD,
        Key::ArrowRight => KeyCode::ArrowRight,
        Key::KeyK => KeyCode::KeyK,
        Key::Space => KeyCode::Space,
        Key::KeyM => KeyCode::KeyM,
    })
}

/// Reads the state of each of the client's keys.
pub fn read_keys(keyboard: &ButtonInput<KeyCode>) -> (keys: Keypress)
    ensures
        keys == keypress_of(held_keys(*keyboard)),
{
    Keypress {
        key_w: key_pressed(keyboard, Key::KeyW),
        arrow_up: key_pressed(keyboard, Key::ArrowUp),
        key_s: key_pressed(keyboard, Key::KeyS),
        arrow_down: key_pressed(keyboard, Key::ArrowDown),
        key_a: key_pressed(keyboard, Key::KeyA),
        arrow_left: key_pressed(keyboard, Key::ArrowLeft),
        key_d: key_pressed(keyboard, Key::KeyD),
        arrow_right: key_pressed(keyboard, Key::ArrowRight),
        key_k: key_pressed(keyboard, Key::KeyK),
        space: key_pressed(keyboard, Key::Space),
        key_m: key_pressed(keyboard, Key::KeyM),
    }
}

/// Records the intent that the held keys stand for as the intent of `tick`.
///
/// On success the intent is returned, for the caller to hand to the transport
/// under the same tick. A tick that has its intent already, or lies before the
/// newest recorded tick, is refused: the buffer stays as it was and nothing is
/// to be handed on.
pub fn record_keys(buffer: &mut InputTickBuffer, tick: Tick, keys: &Keypress) -> (submitted: Result<
    Intent,
    RecordError,
>)
    requires
        old(buffer).wf(),
    ensures
        final(buffer).wf(),
        match submitted {
            Ok(intent) => {
                &&& record_outcome(old(buffer)@, tick) is Ok
                &&& intent == intent_of(*keys)
                &&& final(buffer)@ == old(buffer)@.push((tick, intent))
            },
            Err(error) => {
                &&& record_outcome(old(buffer)@, tick) == Err::<(), RecordError>(error)
                &&& final(buffer)@ == old(buffer)@
            },
        },
{
    let intent = encode_intent(keys);
    match buffer.record(tick, intent) {
        Ok(()) => Ok(intent),
        Err(error) => Err(error),
    }
}

/// Samples the keyboard for `tick`: reads the client's keys, encodes them into
/// the tick's intent and records it, as [`record_keys`] does.
pub fn buffer_input(
    buffer: &mut InputTickBuffer,
    tick: Tick,
    keyboard: &ButtonInput<KeyCode>,
) -> (submitted: Result<Intent, RecordError>)
    requires
        old(buffer).wf(),
    ensures
        final(buffer).wf(),
        match submitted {
            Ok(intent) => {
                &&& record_outcome(old(buffer)@, tick) is Ok
                &&& intent == intent_of(keypress_of(held_keys(*keyboard)))
                &&& final(buffer)@ == old(buffer)@.push((tick, intent))
            },
            Err(error) => {
                &&& record_outcome(old(buffer)@, tick) == Err::<(), RecordError>(error)
                &&& final(buffer)@ == old(buffer)@
            },
        },
{
    let keys = read_keys(keyboard);
    record_keys(buffer, tick, &keys)
}

} // verus!
