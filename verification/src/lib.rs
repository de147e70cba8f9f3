//! Client-side core of a tick-synchronised networked simulation.
//!
//! Every fixed simulation tick the client turns the keys that are held down into
//! exactly one intent, records it for that tick, advances its avatar with a
//! deterministic movement function, and creates or retires the avatar.
//! Retiring is deferred: an entity stays in the world, with its state, until
//! the rollback horizon has passed it.
//!
//! - [`intent`]: keys, intents and the intent encoder.
//! - [`input`]: reading the keys from bevy's keyboard state and recording the
//!   intent of a tick.
//! - [`tick_buffer`]: the intents of the ticks so far, one per tick.
//! - [`clock`]: the endless count of ticks behind a clock that wraps around.
//! - [`movement`]: the movement function shared by prediction and replay.
//! - [`entity`], [`color`]: player entities, their roles and their colours.
//! - [`lifecycle`]: what each lifecycle operation makes of the world, as
//!   mathematics; [`world`]: the world and the operations themselves.
//! - [`cursor`]: the cursor that follows the local pointer.
//! - [`session`], [`config`], [`message`]: the client's identity, where it
//!   finds its server, and the message it broadcasts.
//! - [`client`]: all of it together, driven tick by tick and frame by frame.
//! - [`laws`]: what holds of every input and every world, proved.
//!
//! Everything is kept in whole numbers, so that every operation here is exact
//! and repeatable: player positions in simulation units, cursor positions in
//! half units, doubled, and colours in degrees and percent.

pub mod client;
pub mod clock;
pub mod color;
pub mod config;
pub mod cursor;
pub mod entity;
pub mod input;
pub mod intent;
pub mod laws;
pub mod lifecycle;
pub mod message;
pub mod movement;
pub mod session;
pub mod tick_buffer;
pub mod world;
