//! Player entities and the roles they appear in.

use vstd::prelude::*;
use crate::color::PlayerColor;
use crate::movement::PlayerPosition;

verus! {

/// The stable number that the session layer gives a player once it is connected.
pub type PlayerId = u64;

/// One fixed step of simulation time. Ticks only grow.
pub type Tick = u64;

/// The handle of a player entity: the slot of the world that it was created in.
/// A slot is never given out twice.
pub type EntityId = usize;

/// The form in which an entity represents its player.
#[derive(Clone, Copy, Debug, PartialEq, Eq, Structural)]
pub enum Role {
    /// Created locally, not yet acknowledged by the server.
    PrePredicted,
    /// Acknowledged by the server and simulated ahead locally.
    Predicted,
    /// A smoothed copy of a remote entity.
    Interpolated,
    /// The authoritative server state.
    Confirmed,
}

/// A player's avatar in one of its roles.
#[derive(Clone, Copy, Debug, PartialEq, Eq, Structural)]
pub struct PlayerEntity {
    pub owner: PlayerId,
    pub role: Role,
    pub position: PlayerPosition,
    pub color: PlayerColor,
    /// The presentation of the entity's role has been applied to its colour.
    pub presented: bool,
    /// The tick at which removal was requested, once it has been.
    pub despawn_requested: Option<Tick>,
}

/// The role that the markers on an entity stand for: confirmed before
/// interpolated before predicted, and pre-predicted without any of them.
pub open spec fn role_of_markers(confirmed: bool, interpolated: bool, predicted: bool) -> Role {
    if confirmed {
        Role::Confirmed
    } else if interpolated {
        Role::Interpolated
    } else if predicted {
        Role::Predicted
    } else {
        Role::PrePredicted
    }
}

impl Role {
    /// The role of an entity that carries the given markers. An entity of the
    /// client's own that is marked neither confirmed, nor interpolated, nor
    /// predicted is still waiting for the server: it is pre-predicted.
    pub fn of_markers(confirmed: bool, interpolated: bool, predicted: bool) -> (role: Role)
        ensures
            role == role_of_markers(confirmed, interpolated, predicted),
    {
        if confirmed {
            Role::Confirmed
        } else if interpolated {
            Role::Interpolated
        } else if predicted {
            Role::Predicted
        } else {
            Role::PrePredicted
        }
    }

    /// Roles that the client simulates itself and may therefore move and retire.
    pub open spec fn spec_is_predicted_capable(&self) -> bool {
        *self is PrePredicted || *self is Predicted
    }

    /// Whether the client simulates entities of this role itself.
    #[verifier::when_used_as_spec(spec_is_predicted_capable)]
    pub fn is_predicted_capable(&self) -> (capable: bool)
        ensures
            capable == self.spec_is_predicted_capable(),
    {
        match self {
            Role::PrePredicted => true,
            Role::Predicted => true,
            _ => false,
        }
    }
}

impl PlayerEntity {
    /// No removal has been requested for the entity.
    pub open spec fn spec_is_live(&self) -> bool {
        self.despawn_requested is None
    }

    /// Whether the entity takes part in the simulation: no removal is pending.
    #[verifier::when_used_as_spec(spec_is_live)]
    pub fn is_live(&self) -> (live: bool)
        ensures
            live == self.spec_is_live(),
    {
        self.despawn_requested.is_none()
    }
}

} // verus!
