//! The intent encoder: from the keys held down in a frame to the one intent of a tick.

use vstd::prelude::*;

verus! {

/// The movement directions that are held down together.
#[derive(Clone, Copy, Debug, PartialEq, Eq, Structural)]
pub struct Direction {
    pub up: bool,
    pub down: bool,
    pub left: bool,
    pub right: bool,
}

impl Direction {
    /// No direction is held.
    pub open spec fn spec_is_none(&self) -> bool {
        !self.up && !self.down && !self.left && !self.right
    }

    /// Whether no direction is held.
    #[verifier::when_used_as_spec(spec_is_none)]
    pub fn is_none(&self) -> (none: bool)
        ensures
            none == self.spec_is_none(),
    {
        !self.up && !self.down && !self.left && !self.right
    }
}

/// What the player asks for in one tick. A tick carries exactly one intent.
#[derive(Clone, Copy, Debug, PartialEq, Eq, Structural)]
pub enum Intent {
    /// Move the avatar; at least one direction is set when the encoder emits it.
    Direction(Direction),
    /// Retire the avatar.
    Delete,
    /// Create the avatar.
    Spawn,
    /// Nothing is asked for.
    Idle,
}

/// The keys the client listens to, each `true` while it is held down.
#[derive(Clone, Copy, Debug, PartialEq, Eq, Structural)]
pub struct Keypress {
    pub key_w: bool,
    pub arrow_up: bool,
    pub key_s: bool,
    pub arrow_down: bool,
    pub key_a: bool,
    pub arrow_left: bool,
    pub key_d: bool,
    pub arrow_right: bool,
    /// The delete key.
    pub key_k: bool,
    /// The spawn key.
    pub space: bool,
    /// The key that broadcasts a message.
    pub key_m: bool,
}

impl Keypress {
    /// The directions held: each one by its letter key or its arrow key.
    pub open spec fn direction(&self) -> Direction {
        Direction {
            up: self.key_w || self.arrow_up,
            down: self.key_s || self.arrow_down,
            left: self.key_a || self.arrow_left,
            right: self.key_d || self.arrow_right,
        }
    }

    /// No key is held.
    pub fn released() -> (keys: Keypress)
        ensures
            keys.direction().is_none(),
            !keys.key_k,
            !keys.space,
            !keys.key_m,
            intent_of(keys) == Intent::Idle,
    {
        Keypress {
            key_w: false,
            arrow_up: false,
            key_s: false,
            arrow_down: false,
            key_a: false,
            arrow_left: false,
            key_d: false,
            arrow_right: false,
            key_k: false,
            space: false,
            key_m: false,
        }
    }

    /// The directions held down.
    pub fn held_direction(&self) -> (held: Direction)
        ensures
            held == self.direction(),
    {
        Direction {
            up: self.key_w || self.arrow_up,
            down: self.key_s || self.arrow_down,
            left: self.key_a || self.arrow_left,
            right: self.key_d || self.arrow_right,
        }
    }
}

/// The intent that a set of held keys stands for. Movement comes first, then
/// delete, then spawn: a tick has room for one intent only, and a delete or a
/// spawn must never swallow a movement.
pub open spec fn intent_of(keys: Keypress) -> Intent {
    if !keys.direction().is_none() {
        Intent::Direction(keys.direction())
    } else if keys.key_k {
        Intent::Delete
    } else if keys.space {
        Intent::Spawn
    } else {
        Intent::Idle
    }
}

/// Encodes the keys held down into the intent of the tick.
pub fn encode_intent(keys: &Keypress) -> (intent: Intent)
    ensures
        intent == intent_of(*keys),
        intent matches Intent::Direction(held) ==> !held.is_none(),
{
    let held = keys.held_direction();
    if !held.is_none() {
        Intent::Direction(held)
    } else if keys.key_k {
        Intent::Delete
    } else if keys.space {
        Intent::Spawn
    } else {
        Intent::Idle
    }
}

/// One of the inputs carries the intent `wanted`.
pub open spec fn has_intent(inputs: Seq<Option<Intent>>, wanted: Intent) -> bool {
    exists|i: int| 0 <= i < inputs.len() && inputs[i] == Some(wanted)
}

/// Whether one of the inputs carries the intent `wanted`.
pub fn requested(inputs: &Vec<Option<Intent>>, wanted: Intent) -> (found: bool)
    ensures
        found == has_intent(inputs@, wanted),
{
    let mut i: usize = 0;
    while i < inputs.len()
        invariant
            i <= inputs@.len(),
            forall|k: int| 0 <= k < i ==> inputs@[k] != Some(wanted),
        decreases inputs@.len() - i,
    {
        match inputs[i] {
            Some(intent) => {
                if intent == wanted {
                    return true;
                }
            },
            None => {},
        }
        i = i + 1;
    }
    false
}

} // verus!
