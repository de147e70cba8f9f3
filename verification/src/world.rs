//! The world of player entities and the operations of their lifecycle:
//! creating the local avatar, moving it, presenting it, and retiring it in two
//! phases.
//!
//! The world is a row of slots. A new entity takes a new slot at the end, and the
//! number of the slot is its handle for good. Retiring an entity first marks it
//! ([`World::delete_player`]); the marked entity keeps its slot and its state, so
//! that a resimulation of an earlier tick still finds it. Only
//! [`World::purge_despawned`], called once the rollback horizon has passed the
//! mark, empties the slot.
//!
//! What each operation makes of the slots is defined in [`crate::lifecycle`].

use vstd::prelude::*;
use crate::color::color_from_id;
use crate::color::role_saturation;
use crate::color::saturation_for;
use crate::color::PlayerColor;
use crate::entity::EntityId;
use crate::entity::PlayerEntity;
use crate::entity::PlayerId;
use crate::entity::Role;
use crate::entity::Tick;
use crate::intent::requested;
use crate::intent::Intent;
use crate::lifecycle::acknowledgeable;
use crate::lifecycle::after_delete;
use crate::lifecycle::after_movement;
use crate::lifecycle::after_movements;
use crate::lifecycle::after_purge;
use crate::lifecycle::after_role_assigned;
use crate::lifecycle::after_spawn;
use crate::lifecycle::despawn_requests;
use crate::lifecycle::entity_at;
use crate::lifecycle::expired_upto;
use crate::lifecycle::in_role;
use crate::lifecycle::lemma_movements_fit_prefix;
use crate::lifecycle::lemma_movements_without_full_mode;
use crate::lifecycle::lemma_roles_stay_unique;
use crate::lifecycle::lemma_roles_unique_after_push;
use crate::lifecycle::lemma_unowned_has_no_role;
use crate::lifecycle::live_in_role;
use crate::lifecycle::live_owned;
use crate::lifecycle::movable;
use crate::lifecycle::movements_fit;
use crate::lifecycle::owns_player;
use crate::lifecycle::replica;
use crate::lifecycle::role_taken;
use crate::lifecycle::roles_unique;
use crate::lifecycle::seen_at;
use crate::lifecycle::slot_after_delete;
use crate::lifecycle::slot_after_movement;
use crate::lifecycle::slot_after_purge;
use crate::lifecycle::slot_after_role_assigned;
use crate::lifecycle::spawn_due;
use crate::lifecycle::targets_upto;
use crate::lifecycle::world_movement_fits;
use crate::movement::apply_movement;
use crate::movement::can_move;
use crate::movement::movement_fits;
use crate::movement::PlayerPosition;
use crate::movement::SyncMode;

verus! {

/// The player entities of the client, one per slot. An empty slot is one whose
/// entity has been purged.
pub struct World {
    players: Vec<Option<PlayerEntity>>,
}

impl View for World {
    type V = Seq<Option<PlayerEntity>>;

    /// The slots in order; the index of a slot is the handle of its entity.
    closed spec fn view(&self) -> Seq<Option<PlayerEntity>> {
        self.players@
    }
}

impl World {
    /// No player has two live entities in the same role.
    pub open spec fn wf(&self) -> bool {
        roles_unique(self@)
    }

    /// A world without entities.
    pub fn new() -> (world: World)
        ensures
            world.wf(),
            world@ == Seq::<Option<PlayerEntity>>::empty(),
    {
        World { players: Vec::new() }
    }

    /// The number of slots, empty ones included.
    pub fn len(&self) -> (count: usize)
        ensures
            count == self@.len(),
    {
        self.players.len()
    }

    /// The entity with the handle `id`, as long as it has not been purged.
    pub fn get(&self, id: EntityId) -> (found: Option<PlayerEntity>)
        ensures
            found == entity_at(self@, id),
    {
        if id < self.players.len() {
            self.players[id]
        } else {
            None
        }
    }

    /// The entity `id` as a resimulation of `tick` finds it.
    ///
    /// An entity pending removal is still found, with the state it had when its
    /// removal was requested, by every resimulation of the tick of the request
    /// or an earlier one. It is not found for a later tick, nor once it has been
    /// purged.
    pub fn observe_at(&self, id: EntityId, tick: Tick) -> (found: Option<PlayerEntity>)
        ensures
            found == seen_at(entity_at(self@, id), tick),
    {
        match self.get(id) {
            Some(entity) => match entity.despawn_requested {
                Some(requested) => if tick <= requested {
                    Some(entity)
                } else {
                    None
                },
                None => Some(entity),
            },
            None => None,
        }
    }

    /// Whether `owner` has a live entity, in whatever role.
    pub fn owns_player(&self, owner: PlayerId) -> (owned: bool)
        ensures
            owned == owns_player(self@, owner),
    {
        let mut i: usize = 0;
        while i < self.players.len()
            invariant
                i <= self.players@.len(),
                forall|k: int| 0 <= k < i ==> !live_owned(self.players@[k], owner),
            decreases self.players@.len() - i,
        {
            match self.players[i] {
                Some(entity) => {
                    if entity.is_live() && entity.owner == owner {
                        assert(live_owned(self.players@[i as int], owner));
                        return true;
                    }
                },
                None => {},
            }
            i = i + 1;
        }
        false
    }

    /// Reacts to the spawn inputs of a frame.
    ///
    /// Creates the local avatar, and returns its handle, when the identity is
    /// known, it has no live entity yet, and an input asks for a spawn. Several
    /// spawn inputs create one avatar. In every other case the world is left as
    /// it was and nothing is returned.
    pub fn spawn_player(&mut self, identity: Option<PlayerId>, inputs: &Vec<Option<Intent>>) -> (created:
        Option<EntityId>)
        requires
            old(self).wf(),
        ensures
            final(self).wf(),
            final(self)@ == after_spawn(old(self)@, identity, inputs@),
            created == (if spawn_due(old(self)@, identity, inputs@) {
                Some(old(self)@.len() as usize)
            } else {
                None
            }),
    {
        let owner = match identity {
            Some(owner) => owner,
            None => {
                return None;
            },
        };
        if self.owns_player(owner) {
            return None;
        }
        if !requested(inputs, Intent::Spawn) {
            return None;
        }
        let id: EntityId = self.players.len();
        let avatar = PlayerEntity {
            owner,
            role: Role::PrePredicted,
            position: PlayerPosition::origin(),
            color: color_from_id(owner),
            presented: false,
            despawn_requested: None,
        };
        self.players.push(Some(avatar));
        proof {
            lemma_unowned_has_no_role(old(self)@, owner, Role::PrePredicted);
            lemma_roles_unique_after_push(old(self)@, avatar);
        }
        Some(id)
    }

    /// Reacts to the delete inputs of a tick.
    ///
    /// When the identity is known and an input asks for a delete, every live
    /// entity of that identity that the client simulates itself is marked as
    /// pending removal since `tick`, and its handle is returned as a despawn
    /// request. A marked entity keeps its slot and its state. With no such entity,
    /// or no such input, nothing changes and no request is made.
    pub fn delete_player(
        &mut self,
        identity: Option<PlayerId>,
        inputs: &Vec<Option<Intent>>,
        tick: Tick,
    ) -> (requests: Vec<EntityId>)
        requires
            old(self).wf(),
        ensures
            final(self).wf(),
            final(self)@ == after_delete(old(self)@, identity, inputs@, tick),
            requests@ == despawn_requests(old(self)@, identity, inputs@),
    {
        let mut requests: Vec<EntityId> = Vec::new();
        let owner = match identity {
            Some(owner) => owner,
            None => {
                return requests;
            },
        };
        if !requested(inputs, Intent::Delete) {
            return requests;
        }
        let count: usize = self.players.len();
        let mut i: usize = 0;
        while i < count
            invariant
                i <= count,
                count == old(self)@.len(),
                self.players@.len() == count,
                forall|k: int|
                    0 <= k < i ==> self.players@[k] == slot_after_delete(
                        #[trigger] old(self)@[k],
                        owner,
                        tick,
                    ),
                forall|k: int| i <= k < count ==> self.players@[k] == old(self)@[k],
                requests@ == targets_upto(old(self)@, owner, i as nat),
            decreases count - i,
        {
            match self.players[i] {
                Some(entity) => {
                    if entity.is_live() && entity.owner == owner
                        && entity.role.is_predicted_capable() {
                        self.players[i] = Some(
                            PlayerEntity {
                                owner: entity.owner,
                                role: entity.role,
                                position: entity.position,
                                color: entity.color,
                                presented: entity.presented,
                                despawn_requested: Some(tick),
                            },
                        );
                        requests.push(i);
                    }
                },
                None => {},
            }
            i = i + 1;
        }
        proof {
            lemma_roles_stay_unique(old(self)@, self.players@);
        }
        requests
    }

    /// Removes for good the entities whose removal was requested before `horizon`.
    ///
    /// To be called once no resimulation can start before `horizon` any more.
    /// Returns the handles of the entities removed; their slots stay, empty. An
    /// entity marked at `horizon` or later, and every entity not marked, is left
    /// as it was.
    pub fn purge_despawned(&mut self, horizon: Tick) -> (purged: Vec<EntityId>)
        requires
            old(self).wf(),
        ensures
            final(self).wf(),
            final(self)@ == after_purge(old(self)@, horizon),
            purged@ == expired_upto(old(self)@, horizon, old(self)@.len()),
    {
        let mut purged: Vec<EntityId> = Vec::new();
        let count: usize = self.players.len();
        let mut i: usize = 0;
        while i < count
            invariant
                i <= count,
                count == old(self)@.len(),
                self.players@.len() == count,
                forall|k: int|
                    0 <= k < i ==> self.players@[k] == slot_after_purge(
                        #[trigger] old(self)@[k],
                        horizon,
                    ),
                forall|k: int| i <= k < count ==> self.players@[k] == old(self)@[k],
                purged@ == expired_upto(old(self)@, horizon, i as nat),
            decreases count - i,
        {
            match self.players[i] {
                Some(entity) => {
                    match entity.despawn_requested {
                        Some(tick) => {
                            if tick < horizon {
                                self.players[i] = None;
                                purged.push(i);
                            }
                        },
                        None => {},
                    }
                },
                None => {},
            }
            i = i + 1;
        }
        proof {
            lemma_roles_stay_unique(old(self)@, self.players@);
        }
        purged
    }

    /// Whether every entity that `intent` would move can take the step without
    /// leaving the range of its coordinates.
    pub fn movement_fits(&self, intent: &Intent) -> (fits: bool)
        ensures
            fits == world_movement_fits(self@, *intent),
    {
        let mut i: usize = 0;
        while i < self.players.len()
            invariant
                i <= self.players@.len(),
                forall|k: int|
                    0 <= k < i && #[trigger] movable(self.players@[k]) ==> movement_fits(
                        self.players@[k]->0.position,
                        *intent,
                    ),
            decreases self.players@.len() - i,
        {
            match self.players[i] {
                Some(entity) => {
                    if entity.is_live() && entity.role.is_predicted_capable() && !can_move(
                        &entity.position,
                        intent,
                    ) {
                        assert(movable(self.players@[i as int]));
                        return false;
                    }
                },
                None => {},
            }
            i = i + 1;
        }
        true
    }

    /// Applies one intent to the positions that the client predicts.
    ///
    /// In full synchronisation mode every live entity that the client simulates
    /// itself is advanced by the movement function. Interpolated and confirmed
    /// copies, and entities pending removal, are never written. In any other
    /// mode nothing is written at all.
    ///
    /// Intents that would take a coordinate out of the range of `i64` are
    /// excluded; [`World::movement_fits`] tests for them.
    pub fn movement_step(&mut self, mode: SyncMode, intent: &Intent)
        requires
            old(self).wf(),
            mode is Full ==> world_movement_fits(old(self)@, *intent),
        ensures
            final(self).wf(),
            final(self)@ == after_movement(old(self)@, mode, *intent),
    {
        match mode {
            SyncMode::Full => {},
            _ => {
                return ;
            },
        }
        let count: usize = self.players.len();
        let mut i: usize = 0;
        while i < count
            invariant
                i <= count,
                count == old(self)@.len(),
                self.players@.len() == count,
                world_movement_fits(old(self)@, *intent),
                forall|k: int|
                    0 <= k < i ==> self.players@[k] == slot_after_movement(
                        #[trigger] old(self)@[k],
                        *intent,
                    ),
                forall|k: int| i <= k < count ==> self.players@[k] == old(self)@[k],
            decreases count - i,
        {
            match self.players[i] {
                Some(entity) => {
                    if entity.is_live() && entity.role.is_predicted_capable() {
                        assert(movable(old(self)@[i as int]));
                        let position = apply_movement(entity.position, intent);
                        self.players[i] = Some(
                            PlayerEntity {
                                owner: entity.owner,
                                role: entity.role,
                                position,
                                color: entity.color,
                                presented: entity.presented,
                                despawn_requested: entity.despawn_requested,
                            },
                        );
                    }
                },
                None => {},
            }
            i = i + 1;
        }
        proof {
            lemma_roles_stay_unique(old(self)@, self.players@);
        }
    }

    /// Whether every step of [`World::player_movement`] on these inputs can be
    /// taken without a coordinate leaving the range of `i64`.
    pub fn movements_fit(&self, mode: SyncMode, inputs: &Vec<Option<Intent>>) -> (fits: bool)
        requires
            self.wf(),
        ensures
            fits == movements_fit(self@, mode, inputs@),
    {
        match mode {
            SyncMode::Full => {},
            _ => {
                proof {
                    lemma_movements_without_full_mode(self@, mode, inputs@);
                }
                return true;
            },
        }
        let mut trial = World { players: Vec::new() };
        let mut k: usize = 0;
        while k < self.players.len()
            invariant
                k <= self.players@.len(),
                trial.players@ == self.players@.take(k as int),
            decreases self.players@.len() - k,
        {
            trial.players.push(self.players[k]);
            k = k + 1;
        }
        assert(trial.players@ =~= self.players@);
        let mut i: usize = 0;
        while i < inputs.len()
            invariant
                i <= inputs@.len(),
                mode is Full,
                trial.wf(),
                trial@ == after_movements(self@, mode, inputs@.take(i as int)),
                movements_fit(self@, mode, inputs@.take(i as int)),
            decreases inputs@.len() - i,
        {
            proof {
                assert(inputs@.take(i + 1).drop_last() =~= inputs@.take(i as int));
            }
            match inputs[i] {
                Some(intent) => {
                    if !trial.movement_fits(&intent) {
                        proof {
                            if movements_fit(self@, mode, inputs@) {
                                lemma_movements_fit_prefix(self@, mode, inputs@, i + 1);
                            }
                        }
                        return false;
                    }
                    trial.movement_step(mode, &intent);
                },
                None => {},
            }
            i = i + 1;
        }
        assert(inputs@.take(inputs@.len() as int) =~= inputs@);
        true
    }

    /// Applies the inputs of a fixed step to the positions that the client
    /// predicts.
    ///
    /// The inputs are taken in their order. Each input that carries an intent
    /// is applied once, as [`World::movement_step`] applies it, to the world
    /// that the inputs before it have left; an input without an intent is
    /// passed over.
    ///
    /// Inputs with a step that would take a coordinate out of the range of
    /// `i64` are excluded; [`World::movements_fit`] tests for them, and
    /// [`World::try_player_movement`] does so before it moves anything.
    pub fn player_movement(&mut self, mode: SyncMode, inputs: &Vec<Option<Intent>>)
        requires
            old(self).wf(),
            movements_fit(old(self)@, mode, inputs@),
        ensures
            final(self).wf(),
            final(self)@ == after_movements(old(self)@, mode, inputs@),
    {
        let mut i: usize = 0;
        while i < inputs.len()
            invariant
                i <= inputs@.len(),
                self.wf(),
                movements_fit(old(self)@, mode, inputs@),
                self@ == after_movements(old(self)@, mode, inputs@.take(i as int)),
            decreases inputs@.len() - i,
        {
            proof {
                assert(inputs@.take(i + 1).drop_last() =~= inputs@.take(i as int));
                lemma_movements_fit_prefix(old(self)@, mode, inputs@, i + 1);
            }
            match inputs[i] {
                Some(intent) => {
                    self.movement_step(mode, &intent);
                },
                None => {},
            }
            i = i + 1;
        }
        assert(inputs@.take(inputs@.len() as int) =~= inputs@);
    }

    /// Applies the inputs of a fixed step as [`World::player_movement`] does,
    /// where every step can be taken, and says whether it did.
    ///
    /// Where some step would take a coordinate out of the range of `i64`,
    /// nothing is moved at all and `false` is returned.
    pub fn try_player_movement(&mut self, mode: SyncMode, inputs: &Vec<Option<Intent>>) -> (moved:
        bool)
        requires
            old(self).wf(),
        ensures
            final(self).wf(),
            moved == movements_fit(old(self)@, mode, inputs@),
            moved ==> final(self)@ == after_movements(old(self)@, mode, inputs@),
            !moved ==> final(self)@ == old(self)@,
    {
        if self.movements_fit(mode, inputs) {
            self.player_movement(mode, inputs);
            true
        } else {
            false
        }
    }

    /// Applies the presentation of `role` to those of the entities `added` that
    /// bear the role and have not been presented yet.
    fn present_role(&mut self, added: &Vec<EntityId>, role: Role)
        requires
            old(self).wf(),
        ensures
            final(self).wf(),
            final(self)@ == after_role_assigned(old(self)@, added@, role),
    {
        let saturation = match saturation_for(role) {
            Some(saturation) => saturation,
            None => {
                return ;
            },
        };
        let count: usize = self.players.len();
        let mut n: usize = 0;
        while n < added.len()
            invariant
                n <= added@.len(),
                count == old(self)@.len(),
                self.players@.len() == count,
                role_saturation(role) == Some(saturation),
                forall|i: int|
                    0 <= i < count ==> self.players@[i] == slot_after_role_assigned(
                        #[trigger] old(self)@[i],
                        i,
                        added@.take(n as int),
                        role,
                    ),
            decreases added@.len() - n,
        {
            let id: EntityId = added[n];
            proof {
                assert(added@.take(n + 1)[n as int] == id);
            }
            if id < count {
                match self.players[id] {
                    Some(entity) => {
                        if entity.role == role && !entity.presented {
                            let mut color = entity.color;
                            color.set_saturation(saturation);
                            self.players[id] = Some(
                                PlayerEntity {
                                    owner: entity.owner,
                                    role: entity.role,
                                    position: entity.position,
                                    color,
                                    presented: true,
                                    despawn_requested: entity.despawn_requested,
                                },
                            );
                        }
                    },
                    None => {},
                }
            }
            n = n + 1;
        }
        proof {
            assert(added@.take(added@.len() as int) =~= added@);
            lemma_roles_stay_unique(old(self)@, self.players@);
        }
    }

    /// Reacts to the announcement that the entities `added` have become
    /// predicted: the saturation of each is set to the predicted level, once.
    ///
    /// An entity that is not predicted, has been purged, or has had a role's
    /// presentation applied before is left as it was.
    pub fn handle_predicted_spawn(&mut self, added: &Vec<EntityId>)
        requires
            old(self).wf(),
        ensures
            final(self).wf(),
            final(self)@ == after_role_assigned(old(self)@, added@, Role::Predicted),
    {
        self.present_role(added, Role::Predicted)
    }

    /// Reacts to the announcement that the entities `added` have become
    /// interpolated: the saturation of each is set to the interpolated level,
    /// once.
    ///
    /// An entity that is not interpolated, has been purged, or has had a role's
    /// presentation applied before is left as it was.
    pub fn handle_interpolated_spawn(&mut self, added: &Vec<EntityId>)
        requires
            old(self).wf(),
        ensures
            final(self).wf(),
            final(self)@ == after_role_assigned(old(self)@, added@, Role::Interpolated),
    {
        self.present_role(added, Role::Interpolated)
    }

    /// Whether `owner` has a live entity in the role `role`.
    pub fn role_taken(&self, owner: PlayerId, role: Role) -> (taken: bool)
        ensures
            taken == role_taken(self@, owner, role),
    {
        let mut i: usize = 0;
        while i < self.players.len()
            invariant
                i <= self.players@.len(),
                forall|k: int| 0 <= k < i ==> !live_in_role(self.players@[k], owner, role),
            decreases self.players@.len() - i,
        {
            match self.players[i] {
                Some(entity) => {
                    if entity.is_live() && entity.owner == owner && entity.role == role {
                        assert(live_in_role(self.players@[i as int], owner, role));
                        return true;
                    }
                },
                None => {},
            }
            i = i + 1;
        }
        false
    }

    /// Takes in an entity that replication has materialised for `owner` in the
    /// role `role`.
    ///
    /// The entity gets a new slot, whose handle is returned, unless `owner` has a
    /// live entity in that role already: then the world is left as it was and
    /// nothing is returned.
    pub fn materialize(
        &mut self,
        owner: PlayerId,
        role: Role,
        position: PlayerPosition,
        color: PlayerColor,
    ) -> (created: Option<EntityId>)
        requires
            old(self).wf(),
        ensures
            final(self).wf(),
            role_taken(old(self)@, owner, role) ==> created is None && final(self)@ == old(self)@,
            !role_taken(old(self)@, owner, role) ==> created == Some(old(self)@.len() as usize)
                && final(self)@ == old(self)@.push(Some(replica(owner, role, position, color))),
    {
        if self.role_taken(owner, role) {
            return None;
        }
        let id: EntityId = self.players.len();
        self.players.push(
            Some(
                PlayerEntity {
                    owner,
                    role,
                    position,
                    color,
                    presented: false,
                    despawn_requested: None,
                },
            ),
        );
        proof {
            lemma_roles_unique_after_push(old(self)@, replica(owner, role, position, color));
        }
        Some(id)
    }

    /// Takes note that the server has acknowledged the pre-predicted entity
    /// `id`: it becomes predicted.
    ///
    /// Returns whether it did. An entity that is not pre-predicted, is pending
    /// removal or purged, or whose owner has a live predicted entity already,
    /// is left as it was.
    pub fn acknowledge(&mut self, id: EntityId) -> (acknowledged: bool)
        requires
            old(self).wf(),
        ensures
            final(self).wf(),
            acknowledged == acknowledgeable(old(self)@, id),
            acknowledged ==> final(self)@ == old(self)@.update(
                id as int,
                Some(in_role(old(self)@[id as int]->0, Role::Predicted)),
            ),
            !acknowledged ==> final(self)@ == old(self)@,
    {
        if id >= self.players.len() {
            return false;
        }
        let entity = match self.players[id] {
            Some(entity) => entity,
            None => {
                return false;
            },
        };
        let pre_predicted = match entity.role {
            Role::PrePredicted => true,
            _ => false,
        };
        if !entity.is_live() || !pre_predicted {
            return false;
        }
        if self.role_taken(entity.owner, Role::Predicted) {
            return false;
        }
        self.players[id] = Some(
            PlayerEntity {
                owner: entity.owner,
                role: Role::Predicted,
                position: entity.position,
                color: entity.color,
                presented: entity.presented,
                despawn_requested: entity.despawn_requested,
            },
        );
        true
    }
}

} // verus!
