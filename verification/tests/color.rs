use client_core::color::color_from_id;
use client_core::color::saturation_for;
use client_core::color::PlayerColor;
use client_core::color::BASE_LIGHTNESS;
use client_core::color::BASE_SATURATION;
use client_core::color::INTERPOLATED_SATURATION;
use client_core::color::PREDICTED_SATURATION;
use client_core::entity::Role;

#[test]
fn the_color_of_an_identity() {
    assert_eq!(color_from_id(7), PlayerColor { hue: 210, saturation: 80, lightness: 50 });
    assert_eq!(color_from_id(0), PlayerColor { hue: 0, saturation: 80, lightness: 50 });
    assert_eq!(color_from_id(1), PlayerColor { hue: 30, saturation: 80, lightness: 50 });
    assert_eq!(color_from_id(11), PlayerColor { hue: 330, saturation: 80, lightness: 50 });
}

#[test]
fn the_hue_goes_round_the_wheel() {
    assert_eq!(color_from_id(12).hue, 0);
    assert_eq!(color_from_id(13).hue, 30);
    assert_eq!(color_from_id(1000).hue, 120);
    assert_eq!(color_from_id(u64::MAX).hue, 90);
}

#[test]
fn the_same_identity_has_the_same_color() {
    let mut id: u64 = 0;
    while id < 100 {
        assert_eq!(color_from_id(id), color_from_id(id));
        assert_eq!(u64::from(color_from_id(id).hue), (id * 30) % 360);
        id += 1;
    }
}

#[test]
fn the_levels_of_the_roles() {
    assert_eq!(BASE_SATURATION, 80);
    assert_eq!(BASE_LIGHTNESS, 50);
    assert_eq!(PREDICTED_SATURATION, 40);
    assert_eq!(INTERPOLATED_SATURATION, 10);
    assert!(INTERPOLATED_SATURATION < PREDICTED_SATURATION);
    assert_eq!(saturation_for(Role::Predicted), Some(40));
    assert_eq!(saturation_for(Role::Interpolated), Some(10));
    assert_eq!(saturation_for(Role::PrePredicted), None);
    assert_eq!(saturation_for(Role::Confirmed), None);
}

#[test]
fn set_saturation_keeps_hue_and_lightness() {
    let mut color = color_from_id(7);
    color.set_saturation(40);
    assert_eq!(color, PlayerColor { hue: 210, saturation: 40, lightness: 50 });
}

#[test]
fn the_roles_that_the_client_simulates() {
    assert!(Role::PrePredicted.is_predicted_capable());
    assert!(Role::Predicted.is_predicted_capable());
    assert!(!Role::Interpolated.is_predicted_capable());
    assert!(!Role::Confirmed.is_predicted_capable());
}
