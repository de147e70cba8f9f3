//! Player colours: derived from the player's identity, dimmed by role.

use vstd::prelude::*;
use crate::entity::PlayerId;
use crate::entity::Role;

verus! {

/// The saturation, in percent, of a colour fresh from [`color_from_id`].
pub const BASE_SATURATION: u8 = 80;

/// The lightness, in percent, of every player colour.
pub const BASE_LIGHTNESS: u8 = 50;

/// The saturation, in percent, that marks a predicted copy.
pub const PREDICTED_SATURATION: u8 = 40;

/// The saturation, in percent, that marks an interpolated copy.
pub const INTERPOLATED_SATURATION: u8 = 10;

/// A colour as hue in whole degrees, and saturation and lightness in percent.
#[derive(Clone, Copy, Debug, PartialEq, Eq, Structural)]
pub struct PlayerColor {
    pub hue: u16,
    pub saturation: u8,
    pub lightness: u8,
}

/// The hue of a player: thirty degrees per identity, around the colour wheel.
pub open spec fn hue_of(id: PlayerId) -> int {
    (id * 30) % 360
}

/// The colour every observer gives to the player with this identity.
pub open spec fn color_of(id: PlayerId) -> PlayerColor {
    PlayerColor {
        hue: hue_of(id) as u16,
        saturation: BASE_SATURATION,
        lightness: BASE_LIGHTNESS,
    }
}

/// The saturation that a role calls for, where it calls for one.
pub open spec fn role_saturation(role: Role) -> Option<u8> {
    match role {
        Role::Predicted => Some(PREDICTED_SATURATION),
        Role::Interpolated => Some(INTERPOLATED_SATURATION),
        _ => None,
    }
}

/// The colour with its saturation replaced.
pub open spec fn with_saturation(color: PlayerColor, saturation: u8) -> PlayerColor {
    PlayerColor { hue: color.hue, saturation, lightness: color.lightness }
}

/// Thirty times `id` leaves the same remainder as thirty times `id % 12`.
proof fn lemma_hue_period(id: int)
    requires
        0 <= id,
    ensures
        (id * 30) % 360 == (id % 12) * 30,
        0 <= (id % 12) * 30 < 360,
{
    let q = id / 12;
    let r = id % 12;
    assert(id * 30 == 360 * q + r * 30) by (nonlinear_arith)
        requires
            id == 12 * q + r,
    ;
    vstd::arithmetic::div_mod::lemma_fundamental_div_mod_converse(id * 30, 360, q, r * 30);
}

/// Derives a player's colour from its identity alone.
pub fn color_from_id(id: PlayerId) -> (color: PlayerColor)
    ensures
        color == color_of(id),
        color.hue == hue_of(id),
        color.hue < 360,
{
    proof {
        lemma_hue_period(id as int);
    }
    let sector: u64 = id % 12;
    let hue: u64 = sector * 30;
    PlayerColor { hue: hue as u16, saturation: BASE_SATURATION, lightness: BASE_LIGHTNESS }
}

/// The saturation level of a role's presentation: predicted copies are dimmed,
/// interpolated copies are dimmed further, other roles keep their colour.
pub fn saturation_for(role: Role) -> (level: Option<u8>)
    ensures
        level == role_saturation(role),
{
    match role {
        Role::Predicted => Some(PREDICTED_SATURATION),
        Role::Interpolated => Some(INTERPOLATED_SATURATION),
        _ => None,
    }
}

impl PlayerColor {
    /// Replaces the saturation and keeps hue and lightness.
    pub fn set_saturation(&mut self, saturation: u8)
        ensures
            *final(self) == with_saturation(*old(self), saturation),
    {
        self.saturation = saturation;
    }
}

} // verus!
