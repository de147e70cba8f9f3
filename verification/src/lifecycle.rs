//! The lifecycle of player entities as mathematics: what each operation of
//! [`crate::world::World`] makes of a row of slots.
//!
//! A slot holds an entity or is empty. An entity is live until its removal is
//! requested; from then on it is pending, and keeps its slot and its state
//! until a purge empties the slot.

use vstd::prelude::*;
use crate::color::color_of;
use crate::color::role_saturation;
use crate::color::with_saturation;
use crate::color::PlayerColor;
use crate::entity::EntityId;
use crate::entity::PlayerEntity;
use crate::entity::PlayerId;
use crate::entity::Role;
use crate::entity::Tick;
use crate::intent::has_intent;
use crate::intent::Intent;
use crate::movement::moved;
use crate::movement::movement_fits;
use crate::movement::PlayerPosition;
use crate::movement::SyncMode;

verus! {

/// The slot holds a live entity of `owner`.
pub open spec fn live_owned(slot: Option<PlayerEntity>, owner: PlayerId) -> bool {
    slot matches Some(entity) && entity.is_live() && entity.owner == owner
}

/// The slot holds a live entity of `owner` in the role `role`.
pub open spec fn live_in_role(slot: Option<PlayerEntity>, owner: PlayerId, role: Role) -> bool {
    slot matches Some(entity) && entity.is_live() && entity.owner == owner && entity.role == role
}

/// Some live entity belongs to `owner`, in whatever role.
pub open spec fn owns_player(players: Seq<Option<PlayerEntity>>, owner: PlayerId) -> bool {
    exists|i: int| 0 <= i < players.len() && #[trigger] live_owned(players[i], owner)
}

/// Some live entity represents `owner` in the role `role`.
pub open spec fn role_taken(players: Seq<Option<PlayerEntity>>, owner: PlayerId, role: Role) -> bool {
    exists|i: int| 0 <= i < players.len() && #[trigger] live_in_role(players[i], owner, role)
}

/// No player has two live entities in the same role.
pub open spec fn roles_unique(players: Seq<Option<PlayerEntity>>) -> bool {
    forall|i: int, j: int, owner: PlayerId, role: Role|
        0 <= i < players.len() && 0 <= j < players.len() && #[trigger] live_in_role(
            players[i],
            owner,
            role,
        ) && #[trigger] live_in_role(players[j], owner, role) ==> i == j
}

/// The entity in slot `id`, if the slot exists and is not empty.
pub open spec fn entity_at(players: Seq<Option<PlayerEntity>>, id: EntityId) -> Option<PlayerEntity> {
    if id < players.len() {
        players[id as int]
    } else {
        None
    }
}

/// The avatar that a spawn creates for `owner`: not yet acknowledged, at the
/// origin, in the owner's colour.
pub open spec fn fresh_player(owner: PlayerId) -> PlayerEntity {
    PlayerEntity {
        owner,
        role: Role::PrePredicted,
        position: PlayerPosition { x: 0, y: 0 },
        color: color_of(owner),
        presented: false,
        despawn_requested: None,
    }
}

/// A replicated copy as it materialises: live, its presentation still to come.
pub open spec fn replica(
    owner: PlayerId,
    role: Role,
    position: PlayerPosition,
    color: PlayerColor,
) -> PlayerEntity {
    PlayerEntity { owner, role, position, color, presented: false, despawn_requested: None }
}

/// A spawn is due: the identity is known, it has no live entity yet, and one of
/// the inputs asks for a spawn.
pub open spec fn spawn_due(
    players: Seq<Option<PlayerEntity>>,
    identity: Option<PlayerId>,
    inputs: Seq<Option<Intent>>,
) -> bool {
    identity matches Some(owner) && !owns_player(players, owner) && has_intent(
        inputs,
        Intent::Spawn,
    )
}

/// The world after the spawn inputs of a frame: one new avatar where a spawn is
/// due, however many inputs ask for it, and no change otherwise.
pub open spec fn after_spawn(
    players: Seq<Option<PlayerEntity>>,
    identity: Option<PlayerId>,
    inputs: Seq<Option<Intent>>,
) -> Seq<Option<PlayerEntity>> {
    if spawn_due(players, identity, inputs) {
        players.push(Some(fresh_player(identity->0)))
    } else {
        players
    }
}

/// What a resimulation of `tick` finds in a slot: the entity, unless its
/// removal was requested in an earlier tick.
pub open spec fn seen_at(slot: Option<PlayerEntity>, tick: Tick) -> Option<PlayerEntity> {
    match slot {
        Some(entity) => match entity.despawn_requested {
            Some(requested) => if tick <= requested {
                slot
            } else {
                None
            },
            None => slot,
        },
        None => None,
    }
}

/// The slot holds an entity that a delete of `owner` retires: live, owned by
/// `owner`, and simulated by the client itself.
pub open spec fn despawn_target(slot: Option<PlayerEntity>, owner: PlayerId) -> bool {
    slot matches Some(entity) && entity.is_live() && entity.owner == owner
        && entity.role.is_predicted_capable()
}

/// The entity with its removal requested at `tick`; everything else is kept.
pub open spec fn marked(entity: PlayerEntity, tick: Tick) -> PlayerEntity {
    PlayerEntity {
        owner: entity.owner,
        role: entity.role,
        position: entity.position,
        color: entity.color,
        presented: entity.presented,
        despawn_requested: Some(tick),
    }
}

/// A delete is due: the identity is known and one of the inputs asks for it.
pub open spec fn delete_due(identity: Option<PlayerId>, inputs: Seq<Option<Intent>>) -> bool {
    identity is Some && has_intent(inputs, Intent::Delete)
}

/// What a delete at `tick` makes of one slot.
pub open spec fn slot_after_delete(
    slot: Option<PlayerEntity>,
    owner: PlayerId,
    tick: Tick,
) -> Option<PlayerEntity> {
    if despawn_target(slot, owner) {
        Some(marked(slot->0, tick))
    } else {
        slot
    }
}

/// The world after the delete inputs of a tick: where a delete is due, every
/// target is marked with the tick and stays in its slot.
pub open spec fn after_delete(
    players: Seq<Option<PlayerEntity>>,
    identity: Option<PlayerId>,
    inputs: Seq<Option<Intent>>,
    tick: Tick,
) -> Seq<Option<PlayerEntity>> {
    if delete_due(identity, inputs) {
        Seq::new(players.len(), |i: int| slot_after_delete(players[i], identity->0, tick))
    } else {
        players
    }
}

/// The handles of the delete targets among the first `n` slots, in rising order.
pub open spec fn targets_upto(players: Seq<Option<PlayerEntity>>, owner: PlayerId, n: nat) -> Seq<
    EntityId,
>
    decreases n,
{
    if n == 0 {
        Seq::empty()
    } else if despawn_target(players[n - 1], owner) {
        targets_upto(players, owner, (n - 1) as nat).push((n - 1) as usize)
    } else {
        targets_upto(players, owner, (n - 1) as nat)
    }
}

/// The despawn requests that the delete inputs of a tick give rise to.
pub open spec fn despawn_requests(
    players: Seq<Option<PlayerEntity>>,
    identity: Option<PlayerId>,
    inputs: Seq<Option<Intent>>,
) -> Seq<EntityId> {
    if delete_due(identity, inputs) {
        targets_upto(players, identity->0, players.len())
    } else {
        Seq::empty()
    }
}

/// The slot holds an entity whose removal was requested before `horizon`.
pub open spec fn expired(slot: Option<PlayerEntity>, horizon: Tick) -> bool {
    slot matches Some(entity) && entity.despawn_requested matches Some(tick) && tick < horizon
}

/// What a purge up to `horizon` makes of one slot.
pub open spec fn slot_after_purge(slot: Option<PlayerEntity>, horizon: Tick) -> Option<
    PlayerEntity,
> {
    if expired(slot, horizon) {
        None
    } else {
        slot
    }
}

/// The world after a purge: the expired entities are gone, every other slot is
/// as it was.
pub open spec fn after_purge(players: Seq<Option<PlayerEntity>>, horizon: Tick) -> Seq<
    Option<PlayerEntity>,
> {
    Seq::new(players.len(), |i: int| slot_after_purge(players[i], horizon))
}

/// The handles of the expired entities among the first `n` slots, in rising order.
pub open spec fn expired_upto(players: Seq<Option<PlayerEntity>>, horizon: Tick, n: nat) -> Seq<
    EntityId,
>
    decreases n,
{
    if n == 0 {
        Seq::empty()
    } else if expired(players[n - 1], horizon) {
        expired_upto(players, horizon, (n - 1) as nat).push((n - 1) as usize)
    } else {
        expired_upto(players, horizon, (n - 1) as nat)
    }
}

/// The slot holds an entity that the movement function may write: live and
/// simulated by the client itself.
pub open spec fn movable(slot: Option<PlayerEntity>) -> bool {
    slot matches Some(entity) && entity.is_live() && entity.role.is_predicted_capable()
}

/// The entity at another position; everything else is kept.
pub open spec fn placed(entity: PlayerEntity, position: PlayerPosition) -> PlayerEntity {
    PlayerEntity {
        owner: entity.owner,
        role: entity.role,
        position,
        color: entity.color,
        presented: entity.presented,
        despawn_requested: entity.despawn_requested,
    }
}

/// Every entity that the intent would move can take the step.
pub open spec fn world_movement_fits(players: Seq<Option<PlayerEntity>>, intent: Intent) -> bool {
    forall|i: int|
        0 <= i < players.len() && #[trigger] movable(players[i]) ==> movement_fits(
            players[i]->0.position,
            intent,
        )
}

/// What one tick of movement makes of one slot.
pub open spec fn slot_after_movement(slot: Option<PlayerEntity>, intent: Intent) -> Option<
    PlayerEntity,
> {
    if movable(slot) {
        Some(placed(slot->0, moved(slot->0.position, intent)))
    } else {
        slot
    }
}

/// The world after one tick of movement. Positions are written only in full
/// synchronisation mode, and only for movable entities.
pub open spec fn after_movement(
    players: Seq<Option<PlayerEntity>>,
    mode: SyncMode,
    intent: Intent,
) -> Seq<Option<PlayerEntity>> {
    if mode is Full {
        Seq::new(players.len(), |i: int| slot_after_movement(players[i], intent))
    } else {
        players
    }
}

/// The world after the inputs of a fixed step, taken in their order: each input
/// that carries an intent is one tick of movement on the world that the inputs
/// before it have left, and an input without an intent is passed over.
pub open spec fn after_movements(
    players: Seq<Option<PlayerEntity>>,
    mode: SyncMode,
    inputs: Seq<Option<Intent>>,
) -> Seq<Option<PlayerEntity>>
    decreases inputs.len(),
{
    if inputs.len() == 0 {
        players
    } else {
        let earlier = after_movements(players, mode, inputs.drop_last());
        match inputs.last() {
            Some(intent) => after_movement(earlier, mode, intent),
            None => earlier,
        }
    }
}

/// Every step of [`after_movements`] can be taken: whenever an input moves the
/// world that the inputs before it have left, every entity it moves stays in
/// the range of its coordinates.
pub open spec fn movements_fit(
    players: Seq<Option<PlayerEntity>>,
    mode: SyncMode,
    inputs: Seq<Option<Intent>>,
) -> bool
    decreases inputs.len(),
{
    if inputs.len() == 0 {
        true
    } else {
        &&& movements_fit(players, mode, inputs.drop_last())
        &&& (mode is Full && inputs.last() is Some) ==> world_movement_fits(
            after_movements(players, mode, inputs.drop_last()),
            inputs.last()->0,
        )
    }
}

/// The slot holds an entity of role `role` whose presentation is still to come.
pub open spec fn presentable(slot: Option<PlayerEntity>, role: Role) -> bool {
    slot matches Some(entity) && entity.role == role && !entity.presented
}

/// The entity with its role's presentation applied: the saturation is set and
/// the entity remembers it.
pub open spec fn presented_with(entity: PlayerEntity, saturation: u8) -> PlayerEntity {
    PlayerEntity {
        owner: entity.owner,
        role: entity.role,
        position: entity.position,
        color: with_saturation(entity.color, saturation),
        presented: true,
        despawn_requested: entity.despawn_requested,
    }
}

/// What the announcement that the entities `added` have taken `role` makes of
/// slot `id`.
pub open spec fn slot_after_role_assigned(
    slot: Option<PlayerEntity>,
    id: int,
    added: Seq<EntityId>,
    role: Role,
) -> Option<PlayerEntity> {
    if role_saturation(role) is Some && presentable(slot, role) && exists|k: int|
        0 <= k < added.len() && added[k] == id {
        Some(presented_with(slot->0, role_saturation(role)->0))
    } else {
        slot
    }
}

/// The world after the announcement that the entities `added` have taken `role`.
pub open spec fn after_role_assigned(
    players: Seq<Option<PlayerEntity>>,
    added: Seq<EntityId>,
    role: Role,
) -> Seq<Option<PlayerEntity>> {
    Seq::new(players.len(), |i: int| slot_after_role_assigned(players[i], i, added, role))
}

/// The entity in slot `id` can be acknowledged: it is live and pre-predicted,
/// and its owner has no live predicted entity yet.
pub open spec fn acknowledgeable(players: Seq<Option<PlayerEntity>>, id: EntityId) -> bool {
    &&& id < players.len()
    &&& players[id as int] matches Some(entity)
    &&& entity.is_live()
    &&& entity.role is PrePredicted
    &&& !role_taken(players, entity.owner, Role::Predicted)
}

/// The entity in another role; everything else is kept.
pub open spec fn in_role(entity: PlayerEntity, role: Role) -> PlayerEntity {
    PlayerEntity {
        owner: entity.owner,
        role,
        position: entity.position,
        color: entity.color,
        presented: entity.presented,
        despawn_requested: entity.despawn_requested,
    }
}

/// Roles stay unique when the slots stay in place and no slot gains a live
/// entity, or a live entity another owner or role.
pub proof fn lemma_roles_stay_unique(
    before: Seq<Option<PlayerEntity>>,
    after: Seq<Option<PlayerEntity>>,
)
    requires
        roles_unique(before),
        after.len() == before.len(),
        forall|i: int, owner: PlayerId, role: Role|
            0 <= i < after.len() && #[trigger] live_in_role(after[i], owner, role)
                ==> live_in_role(before[i], owner, role),
    ensures
        roles_unique(after),
{
}

/// Roles stay unique when a live entity takes a new slot at the end, as long as
/// its owner had no live entity in its role.
pub proof fn lemma_roles_unique_after_push(
    before: Seq<Option<PlayerEntity>>,
    entity: PlayerEntity,
)
    requires
        roles_unique(before),
        !role_taken(before, entity.owner, entity.role),
    ensures
        roles_unique(before.push(Some(entity))),
{
}

/// An owner without a live entity has no live entity in any role.
pub proof fn lemma_unowned_has_no_role(
    players: Seq<Option<PlayerEntity>>,
    owner: PlayerId,
    role: Role,
)
    requires
        !owns_player(players, owner),
    ensures
        !role_taken(players, owner, role),
{
    if role_taken(players, owner, role) {
        let i = choose|i: int| 0 <= i < players.len() && live_in_role(players[i], owner, role);
        assert(live_owned(players[i], owner));
    }
}

/// Outside full synchronisation mode no input moves anything, and every step
/// can be taken.
pub proof fn lemma_movements_without_full_mode(
    players: Seq<Option<PlayerEntity>>,
    mode: SyncMode,
    inputs: Seq<Option<Intent>>,
)
    requires
        !(mode is Full),
    ensures
        after_movements(players, mode, inputs) == players,
        movements_fit(players, mode, inputs),
    decreases inputs.len(),
{
    if inputs.len() > 0 {
        lemma_movements_without_full_mode(players, mode, inputs.drop_last());
    }
}

/// Where every step of the inputs can be taken, every step of their first `n`
/// can.
pub proof fn lemma_movements_fit_prefix(
    players: Seq<Option<PlayerEntity>>,
    mode: SyncMode,
    inputs: Seq<Option<Intent>>,
    n: int,
)
    requires
        movements_fit(players, mode, inputs),
        0 <= n <= inputs.len(),
    ensures
        movements_fit(players, mode, inputs.take(n)),
    decreases inputs.len(),
{
    if n == inputs.len() {
        assert(inputs.take(n) =~= inputs);
    } else {
        assert(inputs.drop_last().take(n) =~= inputs.take(n));
        lemma_movements_fit_prefix(players, mode, inputs.drop_last(), n);
    }
}

/// Movement keeps the slots in place and changes nothing but positions: no
/// slot gains a live entity, or a live entity another owner or role.
pub proof fn lemma_movements_keep_roles(
    players: Seq<Option<PlayerEntity>>,
    mode: SyncMode,
    inputs: Seq<Option<Intent>>,
)
    requires
        roles_unique(players),
    ensures
        after_movements(players, mode, inputs).len() == players.len(),
        roles_unique(after_movements(players, mode, inputs)),
    decreases inputs.len(),
{
    if inputs.len() > 0 {
        lemma_movements_keep_roles(players, mode, inputs.drop_last());
        let earlier = after_movements(players, mode, inputs.drop_last());
        if inputs.last() is Some {
            lemma_roles_stay_unique(earlier, after_movement(earlier, mode, inputs.last()->0));
        }
    }
}

} // verus!
