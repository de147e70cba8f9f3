//! The message that the client broadcasts on a key press.

use vstd::prelude::*;
use bevy::input::keyboard::KeyCode;
use bevy::input::ButtonInput;
use crate::input::held_keys;
use crate::input::key_pressed;
use crate::input::Key;

verus! {

/// What the broadcast key sends.
pub const BROADCAST_PAYLOAD: usize = 5;

/// A message that the server passes on to every client.
#[derive(Clone, Copy, Debug, PartialEq, Eq, Structural)]
pub struct Message1(pub usize);

/// The message of a frame: the broadcast while its key is held, else none.
pub open spec fn broadcast_for(key_held: bool) -> Option<Message1> {
    if key_held {
        Some(Message1(BROADCAST_PAYLOAD))
    } else {
        None
    }
}

/// The message to send in a frame in which the broadcast key is or is not held.
pub fn message_for(key_held: bool) -> (message: Option<Message1>)
    ensures
        message == broadcast_for(key_held),
{
    if key_held {
        Some(Message1(BROADCAST_PAYLOAD))
    } else {
        None
    }
}

/// Decides from the keyboard whether this frame broadcasts: it does while the
/// broadcast key is held. The caller sends what is returned to all clients; a
/// failed delivery is the caller's to report and changes nothing here.
pub fn send_message(keyboard: &ButtonInput<KeyCode>) -> (message: Option<Message1>)
    ensures
        message == broadcast_for(held_keys(*keyboard).contains(Key::KeyM)),
{
    message_for(key_pressed(keyboard, Key::KeyM))
}

} // verus!
