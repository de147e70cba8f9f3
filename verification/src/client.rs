//! The client as a whole: session, input buffer, world and cursors, driven in
//! the order that a tick and a frame require.
//!
//! Within one tick the intent is recorded first, then movement is applied, then
//! the avatar is retired or created. Movement therefore always consumes the
//! intent of its own tick, and an avatar created in a tick is first moved in the
//! next one.

use vstd::prelude::*;
use crate::cursor::after_cursor_movement;
use crate::cursor::after_spawn_cursor;
use crate::cursor::cursor_due;
use crate::cursor::writes_upto;
use crate::cursor::Cursor;
use crate::cursor::Cursors;
use crate::cursor::Window;
use crate::entity::EntityId;
use crate::entity::PlayerEntity;
use crate::entity::PlayerId;
use crate::entity::Tick;
use crate::input::record_keys;
use crate::intent::encode_intent;
use crate::intent::intent_of;
use crate::intent::Intent;
use crate::intent::Keypress;
use crate::lifecycle::after_delete;
use crate::lifecycle::after_movement;
use crate::lifecycle::after_purge;
use crate::lifecycle::after_spawn;
use crate::lifecycle::despawn_requests;
use crate::lifecycle::expired_upto;
use crate::lifecycle::spawn_due;
use crate::lifecycle::world_movement_fits;
use crate::movement::SyncMode;
use crate::session::Session;
use crate::tick_buffer::record_outcome;
use crate::tick_buffer::retained;
use crate::tick_buffer::InputTickBuffer;
use crate::tick_buffer::RecordError;
use crate::world::World;

verus! {

/// What a tick did, for the caller to pass on: the intent goes to the
/// transport, a created entity is announced as pre-predicted, and each despawn
/// request goes to the rollback mechanism.
pub struct TickOutcome {
    pub intent: Intent,
    pub created: Option<EntityId>,
    pub despawn_requests: Vec<EntityId>,
}

/// The state of one client.
pub struct Client {
    pub session: Session,
    pub buffer: InputTickBuffer,
    pub world: World,
    pub cursors: Cursors,
}

/// The inputs of a tick that carries `intent`.
pub open spec fn tick_inputs(intent: Intent) -> Seq<Option<Intent>> {
    seq![Some(intent)]
}

/// The world after movement and, on the moved world, the delete of a tick.
pub open spec fn world_after_retiring(
    players: Seq<Option<PlayerEntity>>,
    identity: Option<PlayerId>,
    intent: Intent,
    tick: Tick,
) -> Seq<Option<PlayerEntity>> {
    after_delete(
        after_movement(players, SyncMode::Full, intent),
        identity,
        tick_inputs(intent),
        tick,
    )
}

/// The world after a whole tick: movement, then delete, then spawn.
pub open spec fn world_after_tick(
    players: Seq<Option<PlayerEntity>>,
    identity: Option<PlayerId>,
    intent: Intent,
    tick: Tick,
) -> Seq<Option<PlayerEntity>> {
    after_spawn(world_after_retiring(players, identity, intent, tick), identity, tick_inputs(intent))
}

impl Client {
    /// Every part of the client is well formed.
    pub open spec fn wf(&self) -> bool {
        &&& self.buffer.wf()
        &&& self.world.wf()
        &&& self.cursors.wf()
    }

    /// A client that is not connected yet: no identity, nothing recorded, no
    /// entities and no cursors.
    pub fn new() -> (client: Client)
        ensures
            client.wf(),
            client.session@ is None,
            client.buffer@ == Seq::<(Tick, Intent)>::empty(),
            client.world@ == Seq::<Option<PlayerEntity>>::empty(),
            client.cursors@ == Seq::<Cursor>::empty(),
    {
        Client {
            session: Session::new(),
            buffer: InputTickBuffer::new(),
            world: World::new(),
            cursors: Cursors::new(),
        }
    }

    /// Takes the identity that the session layer assigns and, when this is the
    /// first one, creates the local cursor. Returns the index of the cursor
    /// created. A later assignment changes nothing.
    pub fn connect(&mut self, id: PlayerId) -> (created: Option<usize>)
        requires
            old(self).wf(),
        ensures
            final(self).wf(),
            final(self).session@ == (if old(self).session@ is None {
                Some(id)
            } else {
                old(self).session@
            }),
            final(self).cursors@ == after_spawn_cursor(
                old(self).cursors@,
                old(self).session@ is None,
                final(self).session@,
            ),
            created == (if cursor_due(
                old(self).cursors@,
                old(self).session@ is None,
                final(self).session@,
            ) {
                Some(old(self).cursors@.len() as usize)
            } else {
                None
            }),
            final(self).buffer@ == old(self).buffer@,
            final(self).world@ == old(self).world@,
    {
        let changed = self.session.assign(id);
        let identity = self.session.local_identity();
        self.cursors.spawn_cursor(changed, identity)
    }

    /// Whether `tick` can be run with these keys: the tick would be refused
    /// anyway, or every entity that its intent would move can take the step.
    pub fn can_tick(&self, tick: Tick, keys: &Keypress) -> (fits: bool)
        ensures
            fits == (record_outcome(self.buffer@, tick) is Ok ==> world_movement_fits(
                self.world@,
                intent_of(*keys),
            )),
    {
        let refused = match self.buffer.latest() {
            Some(latest) => tick <= latest,
            None => false,
        };
        if refused {
            return true;
        }
        let intent = encode_intent(keys);
        self.world.movement_fits(&intent)
    }

    /// Runs one fixed simulation tick.
    ///
    /// The held keys are encoded into the tick's intent and recorded. If the
    /// tick is refused, because it has its intent already or lies in the past,
    /// nothing else happens. Otherwise the intent is applied to the predicted
    /// positions, then a delete retires the avatar, then a spawn creates it.
    ///
    /// Ticks whose movement would take a coordinate out of the range of `i64`
    /// are excluded; [`Client::can_tick`] tests for them.
    pub fn fixed_tick(&mut self, tick: Tick, keys: &Keypress) -> (outcome: Result<
        TickOutcome,
        RecordError,
    >)
        requires
            old(self).wf(),
            record_outcome(old(self).buffer@, tick) is Ok ==> world_movement_fits(
                old(self).world@,
                intent_of(*keys),
            ),
        ensures
            final(self).wf(),
            final(self).session@ == old(self).session@,
            final(self).cursors@ == old(self).cursors@,
            match outcome {
                Ok(done) => {
                    &&& record_outcome(old(self).buffer@, tick) is Ok
                    &&& done.intent == intent_of(*keys)
                    &&& final(self).buffer@ == old(self).buffer@.push((tick, done.intent))
                    &&& final(self).world@ == world_after_tick(
                        old(self).world@,
                        old(self).session@,
                        done.intent,
                        tick,
                    )
                    &&& done.despawn_requests@ == despawn_requests(
                        after_movement(old(self).world@, SyncMode::Full, done.intent),
                        old(self).session@,
                        tick_inputs(done.intent),
                    )
                    &&& done.created == (if spawn_due(
                        world_after_retiring(
                            old(self).world@,
                            old(self).session@,
                            done.intent,
                            tick,
                        ),
                        old(self).session@,
                        tick_inputs(done.intent),
                    ) {
                        Some(old(self).world@.len() as usize)
                    } else {
                        None
                    })
                },
                Err(error) => {
                    &&& record_outcome(old(self).buffer@, tick) == Err::<(), RecordError>(error)
                    &&& final(self).buffer@ == old(self).buffer@
                    &&& final(self).world@ == old(self).world@
                },
            },
    {
        let intent = match record_keys(&mut self.buffer, tick, keys) {
            Ok(intent) => intent,
            Err(error) => {
                return Err(error);
            },
        };
        let identity = self.session.local_identity();
        let mut inputs: Vec<Option<Intent>> = Vec::new();
        inputs.push(Some(intent));
        self.world.movement_step(SyncMode::Full, &intent);
        let despawn_requests = self.world.delete_player(identity, &inputs, tick);
        let created = self.world.spawn_player(identity, &inputs);
        Ok(TickOutcome { intent, created, despawn_requests })
    }

    /// Runs the cursor's part of one frame: the local cursor follows the
    /// pointer. Returns the number of cursors written.
    pub fn frame(&mut self, window: Option<Window>) -> (writes: usize)
        requires
            old(self).wf(),
        ensures
            final(self).wf(),
            final(self).cursors@ == after_cursor_movement(
                old(self).cursors@,
                old(self).session@,
                window,
            ),
            writes == writes_upto(
                old(self).cursors@,
                old(self).session@,
                window,
                old(self).cursors@.len(),
            ),
            final(self).session@ == old(self).session@,
            final(self).buffer@ == old(self).buffer@,
            final(self).world@ == old(self).world@,
    {
        let identity = self.session.local_identity();
        self.cursors.cursor_movement(identity, window)
    }

    /// Takes note that no resimulation can start before `horizon` any more:
    /// removes the entities whose removal was requested before it, and forgets
    /// the intents of the ticks before it. Returns the handles of the entities
    /// removed.
    pub fn rollback_window_closed(&mut self, horizon: Tick) -> (purged: Vec<EntityId>)
        requires
            old(self).wf(),
        ensures
            final(self).wf(),
            final(self).world@ == after_purge(old(self).world@, horizon),
            purged@ == expired_upto(old(self).world@, horizon, old(self).world@.len()),
            final(self).buffer@ == retained(old(self).buffer@, horizon),
            final(self).session@ == old(self).session@,
            final(self).cursors@ == old(self).cursors@,
    {
        self.buffer.forget_before(horizon);
        self.world.purge_despawned(horizon)
    }
}

} // verus!
