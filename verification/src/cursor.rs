//! The cursor: an object whose state comes from the local pointer alone. It is
//! never predicted and never rolled back; its owner writes it and everyone else
//! receives copies.

use vstd::prelude::*;
use crate::color::color_from_id;
use crate::color::color_of;
use crate::color::PlayerColor;
use crate::entity::PlayerId;

verus! {

/// Where a cursor points, seen from the centre of the window with `y` growing
/// upwards.
///
/// The centre of a window of odd size lies half a unit off the pixel grid, so
/// the coordinates are kept doubled: a cursor at `(x, y)` has `twice_x == 2 * x`
/// and `twice_y == 2 * y`. Every position that a pixel can map to is exact in
/// this form.
#[derive(Clone, Copy, Debug, PartialEq, Eq, Structural)]
pub struct CursorPosition {
    pub twice_x: i64,
    pub twice_y: i64,
}

/// A pixel of the window, counted from the top left corner with `y` growing
/// downwards.
#[derive(Clone, Copy, Debug, PartialEq, Eq, Structural)]
pub struct Pixel {
    pub x: i32,
    pub y: i32,
}

/// What the cursor logic reads of the window: its size and, while the pointer
/// is inside it, the pointer's pixel.
#[derive(Clone, Copy, Debug, PartialEq, Eq, Structural)]
pub struct Window {
    pub width: u32,
    pub height: u32,
    pub cursor_position: Option<Pixel>,
}

/// A cursor of one player.
#[derive(Clone, Copy, Debug, PartialEq, Eq, Structural)]
pub struct Cursor {
    pub owner: PlayerId,
    pub position: CursorPosition,
    pub color: PlayerColor,
    /// The cursor is written here, at its source. A copy received from another
    /// participant is not local.
    pub local: bool,
}

/// Twice the x coordinate of the pixel column `x` in a window `width` wide:
/// `x - width / 2`, doubled, with the half taken exactly.
pub open spec fn centred_twice_x(x: int, width: int) -> int {
    2 * x - width
}

/// Twice the y coordinate of the pixel row `y` in a window `height` high:
/// `-(y - height / 2)`, doubled, with the half taken exactly.
pub open spec fn centred_twice_y(y: int, height: int) -> int {
    -(2 * y - height)
}

/// The pointer's pixel `(x, y)` seen from the window's centre, with the
/// vertical axis turned upwards: `(x - width / 2, -(y - height / 2))`, exact
/// for every size.
pub open spec fn window_relative(window: Window) -> Option<CursorPosition> {
    match window.cursor_position {
        Some(pixel) => Some(
            CursorPosition {
                twice_x: centred_twice_x(pixel.x as int, window.width as int) as i64,
                twice_y: centred_twice_y(pixel.y as int, window.height as int) as i64,
            },
        ),
        None => None,
    }
}

/// The cursor that the first acquisition of an identity creates.
pub open spec fn fresh_cursor(owner: PlayerId) -> Cursor {
    Cursor {
        owner,
        position: CursorPosition { twice_x: 0, twice_y: 0 },
        color: color_of(owner),
        local: true,
    }
}

/// A copy of another participant's cursor, as it is received.
pub open spec fn cursor_copy(owner: PlayerId, position: CursorPosition, color: PlayerColor) -> Cursor {
    Cursor { owner, position, color, local: false }
}

/// The cursor is the local cursor of `owner`.
pub open spec fn local_cursor_of(cursor: Cursor, owner: PlayerId) -> bool {
    cursor.local && cursor.owner == owner
}

/// `owner` has a local cursor.
pub open spec fn has_local_cursor(cursors: Seq<Cursor>, owner: PlayerId) -> bool {
    exists|i: int| 0 <= i < cursors.len() && #[trigger] local_cursor_of(cursors[i], owner)
}

/// No player has two local cursors.
pub open spec fn local_cursors_unique(cursors: Seq<Cursor>) -> bool {
    forall|i: int, j: int, owner: PlayerId|
        0 <= i < cursors.len() && 0 <= j < cursors.len() && #[trigger] local_cursor_of(
            cursors[i],
            owner,
        ) && #[trigger] local_cursor_of(cursors[j], owner) ==> i == j
}

/// A cursor is due: the identity has just become known and has no local cursor.
pub open spec fn cursor_due(cursors: Seq<Cursor>, changed: bool, identity: Option<PlayerId>) -> bool {
    &&& changed
    &&& identity matches Some(owner)
    &&& !has_local_cursor(cursors, owner)
}

/// The cursors after the identity may have become known.
pub open spec fn after_spawn_cursor(
    cursors: Seq<Cursor>,
    changed: bool,
    identity: Option<PlayerId>,
) -> Seq<Cursor> {
    if cursor_due(cursors, changed, identity) {
        cursors.push(fresh_cursor(identity->0))
    } else {
        cursors
    }
}

/// The position that the pointer gives the local cursor in this frame, if it
/// gives one: the identity must be known, the window present and the pointer
/// inside it.
pub open spec fn pointer_target(identity: Option<PlayerId>, window: Option<Window>) -> Option<
    CursorPosition,
> {
    match (identity, window) {
        (Some(_), Some(window)) => window_relative(window),
        _ => None,
    }
}

/// The position that this frame gives to `cursor`, if it gives one: the
/// pointer's, where the cursor is the local cursor of the identity.
pub open spec fn cursor_target(
    cursor: Cursor,
    identity: Option<PlayerId>,
    window: Option<Window>,
) -> Option<CursorPosition> {
    match pointer_target(identity, window) {
        Some(target) => if local_cursor_of(cursor, identity->0) {
            Some(target)
        } else {
            None
        },
        None => None,
    }
}

/// What a frame of cursor movement makes of one cursor: the local cursor of the
/// identity follows the pointer, every other cursor stays.
pub open spec fn cursor_after_movement(
    cursor: Cursor,
    identity: Option<PlayerId>,
    window: Option<Window>,
) -> Cursor {
    match cursor_target(cursor, identity, window) {
        Some(target) => Cursor {
            owner: cursor.owner,
            position: target,
            color: cursor.color,
            local: cursor.local,
        },
        None => cursor,
    }
}

/// The cursors after a frame of cursor movement.
pub open spec fn after_cursor_movement(
    cursors: Seq<Cursor>,
    identity: Option<PlayerId>,
    window: Option<Window>,
) -> Seq<Cursor> {
    Seq::new(cursors.len(), |i: int| cursor_after_movement(cursors[i], identity, window))
}

/// How many of the first `n` cursors a frame of cursor movement changes. Only a
/// changed cursor is written, and only a written cursor is sent to the others.
pub open spec fn writes_upto(
    cursors: Seq<Cursor>,
    identity: Option<PlayerId>,
    window: Option<Window>,
    n: nat,
) -> nat
    decreases n,
{
    if n == 0 {
        0
    } else if cursor_after_movement(cursors[n - 1], identity, window) != cursors[n - 1] {
        writes_upto(cursors, identity, window, (n - 1) as nat) + 1
    } else {
        writes_upto(cursors, identity, window, (n - 1) as nat)
    }
}

/// Maps the pointer's pixel to simulation coordinates: the origin moves to the
/// centre of the window and the vertical axis is turned upwards. Without a
/// pointer there is no position.
///
/// The pixel `(x, y)` in a window of `width` by `height` maps to
/// `(x - width / 2, -(y - height / 2))`, returned doubled so that the half of
/// an odd size is exact.
pub fn window_relative_mouse_position(window: &Window) -> (position: Option<CursorPosition>)
    ensures
        position == window_relative(*window),
        match window.cursor_position {
            Some(pixel) => position matches Some(p) && p.twice_x == 2 * pixel.x - window.width
                && p.twice_y == -(2 * pixel.y - window.height),
            None => position is None,
        },
{
    match window.cursor_position {
        Some(pixel) => {
            let width: i64 = window.width as i64;
            let height: i64 = window.height as i64;
            Some(
                CursorPosition {
                    twice_x: 2 * (pixel.x as i64) - width,
                    twice_y: height - 2 * (pixel.y as i64),
                },
            )
        },
        None => None,
    }
}

impl Cursor {
    /// The position that this frame gives to the cursor, if it gives one.
    ///
    /// It gives the pointer's position in simulation coordinates when the
    /// identity is known, the cursor is the identity's local cursor, the window
    /// is present and the pointer is inside it.
    pub fn target(&self, identity: Option<PlayerId>, window: Option<Window>) -> (target: Option<
        CursorPosition,
    >)
        ensures
            target == cursor_target(*self, identity, window),
    {
        let owner = match identity {
            Some(owner) => owner,
            None => {
                return None;
            },
        };
        if !self.local || self.owner != owner {
            return None;
        }
        match window {
            Some(window) => window_relative_mouse_position(&window),
            None => None,
        }
    }

    /// Lets the cursor follow the pointer for one frame, and returns whether
    /// that changed it.
    ///
    /// The cursor moves to the position that [`Cursor::target`] gives. Where it
    /// gives none, and where the cursor is at that position already, the cursor
    /// stays as it is.
    pub fn follow_pointer(&mut self, identity: Option<PlayerId>, window: Option<Window>) -> (written:
        bool)
        ensures
            *final(self) == cursor_after_movement(*old(self), identity, window),
            written == (*final(self) != *old(self)),
    {
        match self.target(identity, window) {
            Some(target) => {
                if self.position != target {
                    self.position = target;
                    true
                } else {
                    false
                }
            },
            None => false,
        }
    }
}

/// The cursors that the client knows: its own and the copies of the others'.
pub struct Cursors {
    cursors: Vec<Cursor>,
}

impl View for Cursors {
    type V = Seq<Cursor>;

    /// The cursors in the order in which they appeared.
    closed spec fn view(&self) -> Seq<Cursor> {
        self.cursors@
    }
}

impl Cursors {
    /// No player has two local cursors.
    pub open spec fn wf(&self) -> bool {
        local_cursors_unique(self@)
    }

    /// No cursors.
    pub fn new() -> (cursors: Cursors)
        ensures
            cursors.wf(),
            cursors@ == Seq::<Cursor>::empty(),
    {
        Cursors { cursors: Vec::new() }
    }

    /// The number of cursors.
    pub fn len(&self) -> (count: usize)
        ensures
            count == self@.len(),
    {
        self.cursors.len()
    }

    /// The cursor at `index`, if there is one.
    pub fn get(&self, index: usize) -> (found: Option<Cursor>)
        ensures
            found == (if index < self@.len() {
                Some(self@[index as int])
            } else {
                None
            }),
    {
        if index < self.cursors.len() {
            Some(self.cursors[index])
        } else {
            None
        }
    }

    /// Whether `owner` has a local cursor.
    pub fn has_local_cursor(&self, owner: PlayerId) -> (found: bool)
        ensures
            found == has_local_cursor(self@, owner),
    {
        let mut i: usize = 0;
        while i < self.cursors.len()
            invariant
                i <= self.cursors@.len(),
                forall|k: int| 0 <= k < i ==> !local_cursor_of(self.cursors@[k], owner),
            decreases self.cursors@.len() - i,
        {
            let cursor = self.cursors[i];
            if cursor.local && cursor.owner == owner {
                assert(local_cursor_of(self.cursors@[i as int], owner));
                return true;
            }
            i = i + 1;
        }
        false
    }

    /// Creates the local cursor when the identity has just become known.
    ///
    /// `changed` says that the session's identity changed since it was last
    /// looked at. The cursor starts at the origin, in the owner's colour, and its
    /// index is returned. Nothing happens while the identity is unknown, when it
    /// did not change, or when it has its local cursor already: an identity gets
    /// one cursor.
    pub fn spawn_cursor(&mut self, changed: bool, identity: Option<PlayerId>) -> (created: Option<
        usize,
    >)
        requires
            old(self).wf(),
        ensures
            final(self).wf(),
            final(self)@ == after_spawn_cursor(old(self)@, changed, identity),
            created == (if cursor_due(old(self)@, changed, identity) {
                Some(old(self)@.len() as usize)
            } else {
                None
            }),
    {
        if !changed {
            return None;
        }
        let owner = match identity {
            Some(owner) => owner,
            None => {
                return None;
            },
        };
        if self.has_local_cursor(owner) {
            return None;
        }
        let index: usize = self.cursors.len();
        self.cursors.push(
            Cursor {
                owner,
                position: CursorPosition { twice_x: 0, twice_y: 0 },
                color: color_from_id(owner),
                local: true,
            },
        );
        Some(index)
    }

    /// Takes in the copy of another participant's cursor and returns its index.
    pub fn materialize(&mut self, owner: PlayerId, position: CursorPosition, color: PlayerColor) -> (index:
        usize)
        requires
            old(self).wf(),
        ensures
            final(self).wf(),
            index == old(self)@.len(),
            final(self)@ == old(self)@.push(cursor_copy(owner, position, color)),
    {
        let index: usize = self.cursors.len();
        self.cursors.push(Cursor { owner, position, color, local: false });
        index
    }

    /// Lets the local cursor follow the pointer for one frame.
    ///
    /// When the identity is known, the window is present and the pointer is
    /// inside it, the local cursor of the identity is set to the pointer's
    /// position in simulation coordinates. A cursor that is there already is not
    /// written. Returns the number of cursors written. Copies of other
    /// participants' cursors are never touched.
    pub fn cursor_movement(&mut self, identity: Option<PlayerId>, window: Option<Window>) -> (writes:
        usize)
        requires
            old(self).wf(),
        ensures
            final(self).wf(),
            final(self)@ == after_cursor_movement(old(self)@, identity, window),
            writes == writes_upto(old(self)@, identity, window, old(self)@.len()),
    {
        let count: usize = self.cursors.len();
        let mut writes: usize = 0;
        let mut i: usize = 0;
        while i < count
            invariant
                i <= count,
                count == old(self)@.len(),
                self.cursors@.len() == count,
                writes <= i,
                writes == writes_upto(old(self)@, identity, window, i as nat),
                forall|k: int|
                    0 <= k < i ==> self.cursors@[k] == cursor_after_movement(
                        #[trigger] old(self)@[k],
                        identity,
                        window,
                    ),
                forall|k: int| i <= k < count ==> self.cursors@[k] == old(self)@[k],
            decreases count - i,
        {
            let mut cursor = self.cursors[i];
            if cursor.follow_pointer(identity, window) {
                self.cursors[i] = cursor;
                writes = writes + 1;
            }
            i = i + 1;
        }
        proof {
            let before = old(self)@;
            let after = self.cursors@;
            assert forall|a: int, b: int, o: PlayerId|
                0 <= a < after.len() && 0 <= b < after.len() && #[trigger] local_cursor_of(
                    after[a],
                    o,
                ) && #[trigger] local_cursor_of(after[b], o) implies a == b by {
                assert(local_cursor_of(before[a], o));
                assert(local_cursor_of(before[b], o));
            }
        }
        writes
    }
}

} // verus!
