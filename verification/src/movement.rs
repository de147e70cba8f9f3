//! The deterministic movement function.
//!
//! Prediction on the client and replay on the server both advance a position
//! with [`apply_movement`]. Its result is a function of the position and the
//! intent alone, so the two sides agree whenever their inputs agree.

use vstd::prelude::*;
use crate::intent::Intent;

verus! {

/// The distance, in simulation units, that one tick of movement covers on one axis.
pub const MOVE_SPEED: i64 = 10;

/// Where a player's avatar stands, in whole simulation units. `y` grows upwards.
#[derive(Clone, Copy, Debug, PartialEq, Eq, Structural)]
pub struct PlayerPosition {
    pub x: i64,
    pub y: i64,
}

/// How a kind of state is kept in step between the server and the client.
#[derive(Clone, Copy, Debug, PartialEq, Eq, Structural)]
pub enum SyncMode {
    /// Predicted and corrected on the client: the client writes the state.
    Full,
    /// Copied from the server whenever it changes.
    Simple,
    /// Copied from the server once.
    Once,
    /// Not kept in step at all.
    Unsynced,
}

/// How far an intent moves a position along x. Opposite directions cancel.
pub open spec fn delta_x(intent: Intent) -> int {
    match intent {
        Intent::Direction(held) => (if held.right {
            MOVE_SPEED as int
        } else {
            0
        }) - (if held.left {
            MOVE_SPEED as int
        } else {
            0
        }),
        _ => 0,
    }
}

/// How far an intent moves a position along y. Opposite directions cancel.
pub open spec fn delta_y(intent: Intent) -> int {
    match intent {
        Intent::Direction(held) => (if held.up {
            MOVE_SPEED as int
        } else {
            0
        }) - (if held.down {
            MOVE_SPEED as int
        } else {
            0
        }),
        _ => 0,
    }
}

/// The x coordinate after the intent, as a mathematical integer.
pub open spec fn moved_x(position: PlayerPosition, intent: Intent) -> int {
    position.x + delta_x(intent)
}

/// The y coordinate after the intent, as a mathematical integer.
pub open spec fn moved_y(position: PlayerPosition, intent: Intent) -> int {
    position.y + delta_y(intent)
}

/// The position after the intent can be stored: both coordinates fit in `i64`.
pub open spec fn movement_fits(position: PlayerPosition, intent: Intent) -> bool {
    &&& i64::MIN <= moved_x(position, intent) <= i64::MAX
    &&& i64::MIN <= moved_y(position, intent) <= i64::MAX
}

/// The position after the intent. Only meaningful where [`movement_fits`] holds.
pub open spec fn moved(position: PlayerPosition, intent: Intent) -> PlayerPosition {
    PlayerPosition {
        x: moved_x(position, intent) as i64,
        y: moved_y(position, intent) as i64,
    }
}

impl PlayerPosition {
    /// The position every avatar starts from.
    pub fn origin() -> (position: PlayerPosition)
        ensures
            position.x == 0,
            position.y == 0,
    {
        PlayerPosition { x: 0, y: 0 }
    }
}

/// The displacement `(dx, dy)` that an intent asks for. A direction moves one
/// step of [`MOVE_SPEED`] per axis, a diagonal is the sum of its two axes, and
/// every other intent moves nothing.
pub fn movement_delta(intent: &Intent) -> (delta: (i64, i64))
    ensures
        delta.0 == delta_x(*intent),
        delta.1 == delta_y(*intent),
{
    match intent {
        Intent::Direction(held) => {
            let mut dx: i64 = 0;
            let mut dy: i64 = 0;
            if held.up {
                dy = dy + MOVE_SPEED;
            }
            if held.down {
                dy = dy - MOVE_SPEED;
            }
            if held.left {
                dx = dx - MOVE_SPEED;
            }
            if held.right {
                dx = dx + MOVE_SPEED;
            }
            (dx, dy)
        },
        _ => (0, 0),
    }
}

/// The displacement that one input of a fixed step asks for: that of its
/// intent in full synchronisation mode, and none in any other mode or where
/// the input carries no intent.
pub open spec fn input_delta(mode: SyncMode, input: Option<Intent>) -> (int, int) {
    match input {
        Some(intent) => if mode is Full {
            (delta_x(intent), delta_y(intent))
        } else {
            (0, 0)
        },
        None => (0, 0),
    }
}

/// The displacement `(dx, dy)` by which one input of a fixed step moves every
/// position that the client predicts. An input without an intent, and every
/// input outside full synchronisation mode, moves nothing.
pub fn movement_of_input(mode: SyncMode, input: &Option<Intent>) -> (delta: (i64, i64))
    ensures
        delta.0 == input_delta(mode, *input).0,
        delta.1 == input_delta(mode, *input).1,
{
    match mode {
        SyncMode::Full => match input {
            Some(intent) => movement_delta(intent),
            None => (0, 0),
        },
        _ => (0, 0),
    }
}

/// Whether the position after the intent still fits in the coordinate type.
pub fn can_move(position: &PlayerPosition, intent: &Intent) -> (fits: bool)
    ensures
        fits == movement_fits(*position, *intent),
{
    let (dx, dy) = movement_delta(intent);
    position.x.checked_add(dx).is_some() && position.y.checked_add(dy).is_some()
}

/// Advances a position by one tick of the given intent.
///
/// Inputs whose result would leave the range of `i64` are excluded; [`can_move`]
/// tests for them.
pub fn apply_movement(position: PlayerPosition, intent: &Intent) -> (after: PlayerPosition)
    requires
        movement_fits(position, *intent),
    ensures
        after.x == moved_x(position, *intent),
        after.y == moved_y(position, *intent),
        after == moved(position, *intent),
        !(*intent is Direction) ==> after == position,
{
    let (dx, dy) = movement_delta(intent);
    PlayerPosition { x: position.x + dx, y: position.y + dy }
}

/// Advances a position by one tick of the given intent where the result fits
/// in `i64`, and says so where it does not: the result is the moved position
/// exactly when [`can_move`] holds, and nothing otherwise.
pub fn checked_movement(position: PlayerPosition, intent: &Intent) -> (after: Option<
    PlayerPosition,
>)
    ensures
        after == (if movement_fits(position, *intent) {
            Some(moved(position, *intent))
        } else {
            None
        }),
{
    if can_move(&position, intent) {
        Some(apply_movement(position, intent))
    } else {
        None
    }
}

} // verus!
