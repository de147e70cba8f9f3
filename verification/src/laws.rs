//! Laws of the client core: what holds of every input and every world.
//!
//! Each law is stated over the same spec functions that the contracts of the
//! executable functions use, so that it speaks of what those functions do.

use vstd::prelude::*;
use crate::color::role_saturation;
use crate::color::INTERPOLATED_SATURATION;
use crate::color::PREDICTED_SATURATION;
use crate::cursor::after_cursor_movement;
use crate::cursor::centred_twice_x;
use crate::cursor::centred_twice_y;
use crate::cursor::window_relative;
use crate::cursor::Pixel;
use crate::cursor::after_spawn_cursor;
use crate::cursor::fresh_cursor;
use crate::cursor::has_local_cursor;
use crate::cursor::local_cursor_of;
use crate::cursor::writes_upto;
use crate::cursor::Cursor;
use crate::cursor::Window;
use crate::entity::EntityId;
use crate::entity::PlayerEntity;
use crate::entity::PlayerId;
use crate::entity::Role;
use crate::entity::Tick;
use crate::intent::has_intent;
use crate::intent::intent_of;
use crate::intent::Direction;
use crate::intent::Intent;
use crate::intent::Keypress;
use crate::lifecycle::after_delete;
use crate::lifecycle::after_movement;
use crate::lifecycle::after_movements;
use crate::lifecycle::after_purge;
use crate::lifecycle::after_role_assigned;
use crate::lifecycle::after_spawn;
use crate::lifecycle::delete_due;
use crate::lifecycle::despawn_requests;
use crate::lifecycle::despawn_target;
use crate::lifecycle::fresh_player;
use crate::lifecycle::lemma_movements_keep_roles;
use crate::lifecycle::lemma_roles_stay_unique;
use crate::lifecycle::lemma_roles_unique_after_push;
use crate::lifecycle::lemma_unowned_has_no_role;
use crate::lifecycle::live_owned;
use crate::lifecycle::marked;
use crate::lifecycle::movable;
use crate::lifecycle::movements_fit;
use crate::lifecycle::owns_player;
use crate::lifecycle::placed;
use crate::lifecycle::roles_unique;
use crate::lifecycle::seen_at;
use crate::lifecycle::spawn_due;
use crate::lifecycle::targets_upto;
use crate::movement::delta_x;
use crate::movement::delta_y;
use crate::movement::input_delta;
use crate::movement::moved;
use crate::movement::moved_x;
use crate::movement::moved_y;
use crate::movement::movement_fits;
use crate::movement::PlayerPosition;
use crate::movement::SyncMode;
use crate::movement::MOVE_SPEED;
use crate::tick_buffer::latest_tick;
use crate::tick_buffer::lemma_stale_run;
use crate::tick_buffer::record_outcome;
use crate::tick_buffer::recorded_at;
use crate::tick_buffer::retained;
use crate::tick_buffer::stale_run;
use crate::tick_buffer::strictly_increasing;
use crate::tick_buffer::RecordError;

verus! {

/// The encoder answers every combination of keys with exactly one intent, by
/// precedence: any direction key held gives a movement with just the held
/// directions; else the delete key gives a delete; else the spawn key gives a
/// spawn; else there is no intent.
pub proof fn law_intent_precedence(keys: Keypress)
    ensures
        (keys.key_w || keys.arrow_up || keys.key_s || keys.arrow_down || keys.key_a
            || keys.arrow_left || keys.key_d || keys.arrow_right) ==> intent_of(keys)
            == Intent::Direction(keys.direction()) && !keys.direction().is_none(),
        keys.direction().up == (keys.key_w || keys.arrow_up),
        keys.direction().down == (keys.key_s || keys.arrow_down),
        keys.direction().left == (keys.key_a || keys.arrow_left),
        keys.direction().right == (keys.key_d || keys.arrow_right),
        keys.direction().is_none() && keys.key_k ==> intent_of(keys) == Intent::Delete,
        keys.direction().is_none() && !keys.key_k && keys.space ==> intent_of(keys)
            == Intent::Spawn,
        keys.direction().is_none() && !keys.key_k && !keys.space ==> intent_of(keys)
            == Intent::Idle,
{
}

/// The movement function is a function: equal positions and equal intents give
/// equal results, however often it is asked.
pub proof fn law_movement_deterministic(
    first: PlayerPosition,
    first_intent: Intent,
    second: PlayerPosition,
    second_intent: Intent,
)
    requires
        first == second,
        first_intent == second_intent,
    ensures
        moved(first, first_intent) == moved(second, second_intent),
        movement_fits(first, first_intent) == movement_fits(second, second_intent),
        checked(first, first_intent) == checked(second, second_intent),
{
}

/// What the checked movement function returns: the moved position where it
/// fits, and nothing where it does not.
pub open spec fn checked(position: PlayerPosition, intent: Intent) -> Option<PlayerPosition> {
    if movement_fits(position, intent) {
        Some(moved(position, intent))
    } else {
        None
    }
}

/// Only a direction moves a position, and it moves each axis by one step per
/// held direction: a diagonal is the sum of its axes and opposite directions
/// cancel.
pub proof fn law_movement_steps(position: PlayerPosition, intent: Intent)
    ensures
        !(intent is Direction) ==> moved(position, intent) == position,
        intent matches Intent::Direction(held) ==> {
            &&& moved_x(position, intent) == position.x + (if held.right {
                MOVE_SPEED as int
            } else {
                0
            }) - (if held.left {
                MOVE_SPEED as int
            } else {
                0
            })
            &&& moved_y(position, intent) == position.y + (if held.up {
                MOVE_SPEED as int
            } else {
                0
            }) - (if held.down {
                MOVE_SPEED as int
            } else {
                0
            })
        },
        -MOVE_SPEED <= delta_x(intent) <= MOVE_SPEED,
        -MOVE_SPEED <= delta_y(intent) <= MOVE_SPEED,
{
}

/// The movement function writes no entity but a live one that the client
/// simulates itself: interpolated and confirmed copies, entities pending
/// removal and empty slots come out as they went in. Outside full
/// synchronisation mode it writes nothing at all.
pub proof fn law_movement_spares_copies(
    players: Seq<Option<PlayerEntity>>,
    mode: SyncMode,
    intent: Intent,
    id: int,
)
    requires
        0 <= id < players.len(),
    ensures
        players[id] is None ==> after_movement(players, mode, intent)[id] is None,
        players[id] matches Some(entity) && (entity.role is Interpolated || entity.role
            is Confirmed) ==> after_movement(players, mode, intent)[id] == players[id],
        players[id] matches Some(entity) && !entity.is_live() ==> after_movement(
            players,
            mode,
            intent,
        )[id] == players[id],
        !movable(players[id]) ==> after_movement(players, mode, intent)[id] == players[id],
        !(mode is Full) ==> after_movement(players, mode, intent) == players,
{
}

/// Movement of the world is a function of the world, the mode and the inputs
/// alone: equal worlds given equal inputs come out equal, and can take their
/// steps alike. Nothing else, no clock and nothing kept between calls, has a
/// part in it.
pub proof fn law_world_movement_deterministic(
    first: Seq<Option<PlayerEntity>>,
    second: Seq<Option<PlayerEntity>>,
    mode: SyncMode,
    first_inputs: Seq<Option<Intent>>,
    second_inputs: Seq<Option<Intent>>,
)
    requires
        first == second,
        first_inputs == second_inputs,
    ensures
        after_movements(first, mode, first_inputs) == after_movements(second, mode, second_inputs),
        movements_fit(first, mode, first_inputs) == movements_fit(second, mode, second_inputs),
{
}

/// The inputs of a fixed step are applied one by one: no inputs leave the
/// world as it is, an input without an intent changes nothing, and an input
/// with an intent is one tick of movement after all the inputs before it.
pub proof fn law_movements_in_order(
    players: Seq<Option<PlayerEntity>>,
    mode: SyncMode,
    inputs: Seq<Option<Intent>>,
    intent: Intent,
)
    ensures
        after_movements(players, mode, Seq::empty()) == players,
        after_movements(players, mode, inputs.push(None)) == after_movements(players, mode, inputs),
        after_movements(players, mode, inputs.push(Some(intent))) == after_movement(
            after_movements(players, mode, inputs),
            mode,
            intent,
        ),
        after_movements(players, mode, seq![Some(intent)]) == after_movement(players, mode, intent),
{
    assert(inputs.push(None::<Intent>).drop_last() =~= inputs);
    assert(inputs.push(Some(intent)).drop_last() =~= inputs);
    let single = seq![Some(intent)];
    assert(single.drop_last() =~= Seq::<Option<Intent>>::empty());
    assert(single.last() == Some(intent));
    assert(after_movements(players, mode, single.drop_last()) == players);
}

/// What an input does to a predicted position is its displacement added: in
/// the world, a movable entity whose step fits ends where its position and the
/// displacement of the input sum to, and every other slot stays as it is.
pub proof fn law_input_displaces(
    players: Seq<Option<PlayerEntity>>,
    mode: SyncMode,
    intent: Intent,
    id: int,
)
    requires
        0 <= id < players.len(),
    ensures
        movable(players[id]) && movement_fits(players[id]->0.position, intent) ==> {
            &&& after_movement(players, mode, intent)[id] matches Some(moved)
            &&& moved.position.x == players[id]->0.position.x + input_delta(mode, Some(intent)).0
            &&& moved.position.y == players[id]->0.position.y + input_delta(mode, Some(intent)).1
        },
        !movable(players[id]) ==> after_movement(players, mode, intent)[id] == players[id],
        input_delta(mode, None) == (0int, 0int),
        !(mode is Full) ==> input_delta(mode, Some(intent)) == (0int, 0int),
{
}

/// One step to the right moves a predicted entity by exactly one step along x
/// and not at all along y, wherever the step fits. The freshly spawned avatar
/// of any identity, which stands at the origin, always has room for it and
/// ends at `(MOVE_SPEED, 0)`.
pub proof fn law_step_to_the_right(
    players: Seq<Option<PlayerEntity>>,
    id: int,
    owner: PlayerId,
)
    requires
        0 <= id < players.len(),
        movable(players[id]),
    ensures
        MOVE_SPEED > 0,
        movement_fits(players[id]->0.position, step_right()) ==> {
            &&& after_movement(players, SyncMode::Full, step_right())[id] matches Some(moved)
            &&& moved.position.x == players[id]->0.position.x + MOVE_SPEED
            &&& moved.position.y == players[id]->0.position.y
            &&& moved.owner == players[id]->0.owner
            &&& moved.role == players[id]->0.role
        },
        players[id] == Some(fresh_player(owner)) ==> {
            &&& movement_fits(players[id]->0.position, step_right())
            &&& after_movement(players, SyncMode::Full, step_right())[id] == Some(
                placed(fresh_player(owner), PlayerPosition { x: MOVE_SPEED, y: 0 }),
            )
        },
{
}

/// The intent that holds the direction to the right and no other.
pub open spec fn step_right() -> Intent {
    Intent::Direction(Direction { up: false, down: false, left: false, right: true })
}

/// The world after `count` frames that each carry the same inputs to the spawn
/// handler.
pub open spec fn after_spawns(
    players: Seq<Option<PlayerEntity>>,
    identity: Option<PlayerId>,
    inputs: Seq<Option<Intent>>,
    count: nat,
) -> Seq<Option<PlayerEntity>>
    decreases count,
{
    if count == 0 {
        players
    } else {
        after_spawn(after_spawns(players, identity, inputs, (count - 1) as nat), identity, inputs)
    }
}

/// A spawn makes its owner the owner of a live entity.
pub proof fn law_spawn_creates_owned_entity(
    players: Seq<Option<PlayerEntity>>,
    owner: PlayerId,
    inputs: Seq<Option<Intent>>,
)
    requires
        spawn_due(players, Some(owner), inputs),
    ensures
        after_spawn(players, Some(owner), inputs) == players.push(Some(fresh_player(owner))),
        owns_player(after_spawn(players, Some(owner), inputs), owner),
{
    let after = after_spawn(players, Some(owner), inputs);
    assert(live_owned(after[players.len() as int], owner));
}

/// The spawn guard: for an identity that owns a live entity, or while the
/// identity is unknown, spawn inputs change nothing.
pub proof fn law_spawn_guard(
    players: Seq<Option<PlayerEntity>>,
    identity: Option<PlayerId>,
    inputs: Seq<Option<Intent>>,
)
    requires
        identity matches Some(owner) ==> owns_player(players, owner),
    ensures
        after_spawn(players, identity, inputs) == players,
{
}

/// Spawning is idempotent: an identity without an entity that asks for a spawn
/// once or many times, within one frame or over `count` frames in a row, ends up
/// with exactly one new entity, the one that the first request created.
pub proof fn law_spawn_once(
    players: Seq<Option<PlayerEntity>>,
    owner: PlayerId,
    inputs: Seq<Option<Intent>>,
    count: nat,
)
    requires
        !owns_player(players, owner),
        has_intent(inputs, Intent::Spawn),
        count >= 1,
    ensures
        after_spawns(players, Some(owner), inputs, count) == players.push(
            Some(fresh_player(owner)),
        ),
    decreases count,
{
    if count == 1 {
        assert(after_spawns(players, Some(owner), inputs, 0) == players);
    } else {
        law_spawn_once(players, owner, inputs, (count - 1) as nat);
        let once = players.push(Some(fresh_player(owner)));
        assert(live_owned(once[players.len() as int], owner));
        law_spawn_guard(once, Some(owner), inputs);
    }
}

/// No slot among the first `n` is a delete target of an owner without a live
/// entity.
proof fn lemma_no_entity_no_targets(players: Seq<Option<PlayerEntity>>, owner: PlayerId, n: nat)
    requires
        !owns_player(players, owner),
        n <= players.len(),
    ensures
        targets_upto(players, owner, n) == Seq::<EntityId>::empty(),
    decreases n,
{
    if n > 0 {
        lemma_no_entity_no_targets(players, owner, (n - 1) as nat);
        assert(!live_owned(players[n - 1], owner));
    }
}

/// The delete guard: a delete from an identity that owns no live entity, or
/// while the identity is unknown, changes nothing and requests no despawn.
pub proof fn law_delete_without_entity(
    players: Seq<Option<PlayerEntity>>,
    identity: Option<PlayerId>,
    inputs: Seq<Option<Intent>>,
    tick: Tick,
)
    requires
        identity matches Some(owner) ==> !owns_player(players, owner),
    ensures
        after_delete(players, identity, inputs, tick) == players,
        despawn_requests(players, identity, inputs) == Seq::<EntityId>::empty(),
{
    if delete_due(identity, inputs) {
        let owner = identity->0;
        lemma_no_entity_no_targets(players, owner, players.len());
        assert forall|i: int| 0 <= i < players.len() implies !despawn_target(
            #[trigger] players[i],
            owner,
        ) by {
            assert(!live_owned(players[i], owner));
        }
    }
}

/// Despawning has two phases. A delete at `tick` leaves its target in its slot,
/// with owner, role, position and colour as before and only the request noted.
/// A purge whose horizon has not passed `tick` leaves it there; a purge whose
/// horizon has passed `tick` empties the slot.
pub proof fn law_two_phase_despawn(
    players: Seq<Option<PlayerEntity>>,
    owner: PlayerId,
    inputs: Seq<Option<Intent>>,
    tick: Tick,
    horizon: Tick,
    id: int,
)
    requires
        has_intent(inputs, Intent::Delete),
        0 <= id < players.len(),
        despawn_target(players[id], owner),
    ensures
        after_delete(players, Some(owner), inputs, tick)[id] == Some(marked(players[id]->0, tick)),
        marked(players[id]->0, tick).position == players[id]->0.position,
        marked(players[id]->0, tick).owner == owner,
        marked(players[id]->0, tick).role == players[id]->0.role,
        marked(players[id]->0, tick).color == players[id]->0.color,
        horizon <= tick ==> after_purge(
            after_delete(players, Some(owner), inputs, tick),
            horizon,
        )[id] == Some(marked(players[id]->0, tick)),
        horizon > tick ==> after_purge(after_delete(players, Some(owner), inputs, tick), horizon)[id]
            is None,
{
}

/// The slot is empty, or its entity is pending removal since `tick`.
pub open spec fn gone_or_pending(slot: Option<PlayerEntity>, tick: Tick) -> bool {
    slot matches Some(entity) ==> entity.despawn_requested == Some(tick)
}

/// A despawn request is never withdrawn: whatever happens afterwards, an
/// entity pending removal since `tick` stays pending since `tick` until its
/// slot is emptied.
pub proof fn law_request_is_final(
    players: Seq<Option<PlayerEntity>>,
    id: int,
    tick: Tick,
    identity: Option<PlayerId>,
    inputs: Seq<Option<Intent>>,
    now: Tick,
    mode: SyncMode,
    intent: Intent,
    added: Seq<EntityId>,
    role: Role,
    horizon: Tick,
)
    requires
        0 <= id < players.len(),
        players[id] matches Some(entity) && entity.despawn_requested == Some(tick),
    ensures
        gone_or_pending(after_spawn(players, identity, inputs)[id], tick),
        gone_or_pending(after_delete(players, identity, inputs, now)[id], tick),
        gone_or_pending(after_movement(players, mode, intent)[id], tick),
        gone_or_pending(after_role_assigned(players, added, role)[id], tick),
        gone_or_pending(after_purge(players, horizon)[id], tick),
        after_delete(players, identity, inputs, now)[id] == players[id],
        after_movement(players, mode, intent)[id] == players[id],
{
}

/// A pending entity stays resimulable, and a purge takes nothing from a
/// resimulation that can still happen. After a delete at `tick`, a
/// resimulation of `tick` or of an earlier tick finds the target with the
/// position it had before the delete. And a purge up to `horizon` changes
/// nothing of what a resimulation of `horizon` or of a later tick finds, in any
/// slot.
pub proof fn law_resimulation_finds_pending(
    players: Seq<Option<PlayerEntity>>,
    owner: PlayerId,
    inputs: Seq<Option<Intent>>,
    tick: Tick,
    horizon: Tick,
    replayed: Tick,
    id: int,
)
    requires
        0 <= id < players.len(),
    ensures
        has_intent(inputs, Intent::Delete) && despawn_target(players[id], owner) && replayed
            <= tick ==> seen_at(after_delete(players, Some(owner), inputs, tick)[id], replayed)
            == Some(marked(players[id]->0, tick)),
        marked(players[id]->0, tick).position == players[id]->0.position,
        horizon <= replayed ==> seen_at(after_purge(players, horizon)[id], replayed) == seen_at(
            players[id],
            replayed,
        ),
{
}

/// No operation of the lifecycle gives a player a second live entity in one
/// role: a world in which roles are unique stays so through spawn, delete,
/// movement, presentation and purge.
pub proof fn law_roles_stay_unique(
    players: Seq<Option<PlayerEntity>>,
    identity: Option<PlayerId>,
    inputs: Seq<Option<Intent>>,
    tick: Tick,
    mode: SyncMode,
    intent: Intent,
    added: Seq<EntityId>,
    role: Role,
    horizon: Tick,
)
    requires
        roles_unique(players),
    ensures
        roles_unique(after_spawn(players, identity, inputs)),
        roles_unique(after_delete(players, identity, inputs, tick)),
        roles_unique(after_movement(players, mode, intent)),
        roles_unique(after_movements(players, mode, inputs)),
        roles_unique(after_role_assigned(players, added, role)),
        roles_unique(after_purge(players, horizon)),
{
    if spawn_due(players, identity, inputs) {
        lemma_unowned_has_no_role(players, identity->0, Role::PrePredicted);
        lemma_roles_unique_after_push(players, fresh_player(identity->0));
    }
    lemma_roles_stay_unique(players, after_delete(players, identity, inputs, tick));
    lemma_roles_stay_unique(players, after_movement(players, mode, intent));
    lemma_movements_keep_roles(players, mode, inputs);
    lemma_roles_stay_unique(players, after_role_assigned(players, added, role));
    lemma_roles_stay_unique(players, after_purge(players, horizon));
}

/// The presentation of a role is applied to an entity at most once: once an
/// entity has been presented, no further announcement, for the same role or
/// another, for the same entities or others, changes it again.
pub proof fn law_presentation_once(
    players: Seq<Option<PlayerEntity>>,
    added: Seq<EntityId>,
    role: Role,
    again: Seq<EntityId>,
    other: Role,
    id: int,
)
    requires
        0 <= id < players.len(),
        after_role_assigned(players, added, role)[id] matches Some(entity) && entity.presented,
    ensures
        after_role_assigned(after_role_assigned(players, added, role), again, other)[id]
            == after_role_assigned(players, added, role)[id],
{
}

/// Announcing the same entities in the same role a second time changes
/// nothing: the saturation is not reduced further.
pub proof fn law_presentation_idempotent(
    players: Seq<Option<PlayerEntity>>,
    added: Seq<EntityId>,
    role: Role,
)
    ensures
        after_role_assigned(after_role_assigned(players, added, role), added, role)
            == after_role_assigned(players, added, role),
{
}

/// Predicted copies are dimmed and interpolated copies are dimmed further;
/// no other role changes the colour.
pub proof fn law_role_levels(role: Role)
    ensures
        role_saturation(Role::Predicted) == Some(PREDICTED_SATURATION),
        role_saturation(Role::Interpolated) == Some(INTERPOLATED_SATURATION),
        INTERPOLATED_SATURATION < PREDICTED_SATURATION,
        role_saturation(role) is Some <==> role is Predicted || role is Interpolated,
{
}

/// The cursor mapping puts the origin at the centre of the window, exactly,
/// for every size: the pixel `(x, y)` of a window of `width` by `height` maps
/// to `(x - width / 2, -(y - height / 2))`, here doubled. A pointer inside the
/// window maps into `[-width / 2, width / 2]` by `[-height / 2, height / 2]`,
/// and pixels that mirror each other across the window map to opposite
/// positions.
pub proof fn law_cursor_mapping_is_centred(window: Window, pixel: Pixel)
    requires
        window.cursor_position == Some(pixel),
    ensures
        window_relative(window) matches Some(position) && {
            &&& position.twice_x == 2 * pixel.x - window.width
            &&& position.twice_y == -(2 * pixel.y - window.height)
            &&& 0 <= pixel.x <= window.width ==> -window.width <= position.twice_x
                <= window.width
            &&& 0 <= pixel.y <= window.height ==> -window.height <= position.twice_y
                <= window.height
            &&& centred_twice_x(window.width - pixel.x, window.width as int) == -position.twice_x
            &&& centred_twice_y(window.height - pixel.y, window.height as int)
                == -position.twice_y
        },
{
}

/// The local cursor takes the mapped position of the pointer whatever stands
/// before it in the row: the cursor of another owner, or a copy, neither stops
/// the update nor is touched by it.
pub proof fn law_own_cursor_follows_pointer(
    cursors: Seq<Cursor>,
    owner: PlayerId,
    window: Window,
    pixel: Pixel,
    id: int,
)
    requires
        0 <= id < cursors.len(),
        window.cursor_position == Some(pixel),
    ensures
        local_cursor_of(cursors[id], owner) ==> {
            &&& after_cursor_movement(cursors, Some(owner), Some(window))[id].position.twice_x == 2
                * pixel.x - window.width
            &&& after_cursor_movement(cursors, Some(owner), Some(window))[id].position.twice_y
                == -(2 * pixel.y - window.height)
        },
        !local_cursor_of(cursors[id], owner) ==> after_cursor_movement(
            cursors,
            Some(owner),
            Some(window),
        )[id] == cursors[id],
{
}

/// An identity gets one cursor: once its cursor exists, no further report that
/// the identity changed creates another.
pub proof fn law_cursor_once(cursors: Seq<Cursor>, owner: PlayerId, changed: bool)
    requires
        !has_local_cursor(cursors, owner),
    ensures
        after_spawn_cursor(cursors, true, Some(owner)) == cursors.push(fresh_cursor(owner)),
        after_spawn_cursor(after_spawn_cursor(cursors, true, Some(owner)), changed, Some(owner))
            == cursors.push(fresh_cursor(owner)),
{
    let once = cursors.push(fresh_cursor(owner));
    assert(local_cursor_of(once[cursors.len() as int], owner));
}

/// A cursor is written only when it changes: a frame that repeats the pointer
/// of the frame before writes nothing.
pub proof fn law_cursor_written_on_change(
    cursors: Seq<Cursor>,
    identity: Option<PlayerId>,
    window: Option<Window>,
    n: nat,
)
    requires
        n <= cursors.len(),
    ensures
        writes_upto(after_cursor_movement(cursors, identity, window), identity, window, n) == 0,
        after_cursor_movement(after_cursor_movement(cursors, identity, window), identity, window)
            == after_cursor_movement(cursors, identity, window),
    decreases n,
{
    if n > 0 {
        law_cursor_written_on_change(cursors, identity, window, (n - 1) as nat);
    }
}

/// A tick takes one intent: once `tick` is recorded, recording it again is
/// refused as already recorded and recording an earlier tick is refused as
/// past, while the intent recorded for `tick` is the one that was given and the
/// intents of the other ticks are as before.
pub proof fn law_one_intent_per_tick(
    entries: Seq<(Tick, Intent)>,
    tick: Tick,
    intent: Intent,
    other: Tick,
)
    requires
        strictly_increasing(entries),
        record_outcome(entries, tick) is Ok,
    ensures
        strictly_increasing(entries.push((tick, intent))),
        record_outcome(entries.push((tick, intent)), tick) == Err::<(), RecordError>(
            RecordError::AlreadyRecorded,
        ),
        other < tick ==> record_outcome(entries.push((tick, intent)), other) == Err::<
            (),
            RecordError,
        >(RecordError::PastTick),
        other > tick ==> record_outcome(entries.push((tick, intent)), other) is Ok,
        recorded_at(entries.push((tick, intent)), tick) == Some(intent),
        other != tick ==> recorded_at(entries.push((tick, intent)), other) == recorded_at(
            entries,
            other,
        ),
{
    let after = entries.push((tick, intent));
    assert(after.drop_last() =~= entries);
}

/// A tick that no entry carries has no recorded intent.
proof fn lemma_unrecorded(entries: Seq<(Tick, Intent)>, tick: Tick)
    requires
        forall|j: int| 0 <= j < entries.len() ==> (#[trigger] entries[j]).0 != tick,
    ensures
        recorded_at(entries, tick) is None,
    decreases entries.len(),
{
    if entries.len() > 0 {
        lemma_unrecorded(entries.drop_last(), tick);
    }
}

/// Dropping old entries that do not carry `tick` does not change what is
/// recorded for `tick`.
proof fn lemma_recorded_in_suffix(entries: Seq<(Tick, Intent)>, dropped: int, tick: Tick)
    requires
        0 <= dropped <= entries.len(),
        forall|j: int| 0 <= j < dropped ==> (#[trigger] entries[j]).0 != tick,
    ensures
        recorded_at(entries.skip(dropped), tick) == recorded_at(entries, tick),
    decreases entries.len(),
{
    let suffix = entries.skip(dropped);
    if entries.len() == dropped {
        lemma_unrecorded(entries, tick);
    } else if entries.last().0 != tick {
        assert(suffix.drop_last() =~= entries.drop_last().skip(dropped));
        lemma_recorded_in_suffix(entries.drop_last(), dropped, tick);
    }
}

/// Forgetting the ticks before `horizon` takes nothing that is still needed:
/// the buffer stays in order, it accepts and refuses the same ticks as before,
/// and the intent of every tick from `horizon` on is found as before.
pub proof fn law_forgetting_keeps_the_window(
    entries: Seq<(Tick, Intent)>,
    horizon: Tick,
    tick: Tick,
)
    requires
        strictly_increasing(entries),
    ensures
        strictly_increasing(retained(entries, horizon)),
        latest_tick(retained(entries, horizon)) == latest_tick(entries),
        record_outcome(retained(entries, horizon), tick) == record_outcome(entries, tick),
        tick >= horizon ==> recorded_at(retained(entries, horizon), tick) == recorded_at(
            entries,
            tick,
        ),
{
    lemma_stale_run(entries, horizon, 0);
    let dropped = stale_run(entries, horizon, 0) as int;
    if tick >= horizon {
        lemma_recorded_in_suffix(entries, dropped, tick);
    }
}

} // verus!
