use isokeys::points::BasisVector;
use isokeys::presets::{
    BasisSpec, ConfigError, Orientation, Preset, canonical_basis, orientation_from_rotation,
    parse_preset, preset_values, resolve_basis,
};

#[test]
fn preset_names_resolve_to_catalogue_entries() {
    assert_eq!(parse_preset("janko"), Some(Preset::Janko));
    assert_eq!(parse_preset("inverted_gerhard"), Some(Preset::InvertedGerhard));
    assert_eq!(parse_preset("gerhard"), Some(Preset::Gerhard));
    assert_eq!(parse_preset("tonnetz"), Some(Preset::Tonnetz));
    assert_eq!(parse_preset("guitar_a"), Some(Preset::GuitarA));
    assert_eq!(parse_preset("guitar_b"), Some(Preset::GuitarB));
    assert_eq!(parse_preset("park"), Some(Preset::Park));
    assert_eq!(parse_preset("wesley"), Some(Preset::Wesley));
    assert_eq!(parse_preset("fernandez"), Some(Preset::Fernandez));
    assert_eq!(parse_preset("wicki_hayden"), Some(Preset::WickiHayden));
    assert_eq!(parse_preset("b_system"), Some(Preset::BSystem));
    assert_eq!(parse_preset("c_system"), Some(Preset::CSystem));
    assert_eq!(parse_preset("bosanquet"), None);
    assert_eq!(parse_preset(""), None);
}

#[test]
fn catalogue_holds_the_fixed_table() {
    let tonnetz = preset_values(Preset::Tonnetz);
    assert_eq!((tonnetz.upper, tonnetz.lower), (4, -3));
    assert_eq!(tonnetz.orientation, Orientation::Horizontal);
    let janko = preset_values(Preset::Janko);
    assert_eq!((janko.upper, janko.lower), (-1, 1));
    assert_eq!(janko.orientation, Orientation::Vertical);
    let wicki = preset_values(Preset::WickiHayden);
    assert_eq!((wicki.upper, wicki.lower), (5, 7));
    assert_eq!(wicki.orientation, Orientation::Vertical);
}

#[test]
fn vertical_bases_pass_through_unchanged() {
    let b = canonical_basis(BasisSpec { upper: 4, lower: -3, orientation: Orientation::Vertical });
    assert_eq!(b, BasisVector(4, -3));
}

#[test]
fn horizontal_bases_are_rotated() {
    // (upper, lower) read horizontally becomes (upper - lower, upper).
    let b = canonical_basis(BasisSpec { upper: 4, lower: 3, orientation: Orientation::Horizontal });
    assert_eq!(b, BasisVector(1, 4));
}

#[test]
fn orientation_round_trip_matches_the_vertical_basis() {
    // The vertical basis (3, 4) re-expressed in the horizontal convention is
    // (4, 1); both normalize to the same canonical basis.
    let vertical = canonical_basis(BasisSpec {
        upper: 3,
        lower: 4,
        orientation: Orientation::Vertical,
    });
    let horizontal = canonical_basis(BasisSpec {
        upper: 4,
        lower: 1,
        orientation: Orientation::Horizontal,
    });
    assert_eq!(vertical, horizontal);
}

#[test]
fn rotation_values_map_to_orientations() {
    assert_eq!(orientation_from_rotation(-90), Ok(Orientation::Vertical));
    assert_eq!(orientation_from_rotation(0), Ok(Orientation::Horizontal));
    assert_eq!(orientation_from_rotation(45), Err(ConfigError::UnsupportedRotation));
    assert_eq!(orientation_from_rotation(90), Err(ConfigError::UnsupportedRotation));
}

#[test]
fn resolve_basis_prefers_the_preset() {
    // Tonnetz is (4, -3) horizontal, so its canonical basis is (7, 4).
    assert_eq!(resolve_basis(Some("tonnetz"), 0, 0, -90), Ok(BasisVector(7, 4)));
}

#[test]
fn resolve_basis_uses_the_literal_without_a_preset() {
    assert_eq!(resolve_basis(None, 4, -3, -90), Ok(BasisVector(4, -3)));
    assert_eq!(resolve_basis(None, 4, 3, 0), Ok(BasisVector(1, 4)));
}

#[test]
fn resolve_basis_rejects_unknown_presets() {
    assert_eq!(resolve_basis(Some("no_such_layout"), 4, -3, -90), Err(ConfigError::UnknownPreset));
}

#[test]
fn resolve_basis_rejects_unsupported_rotations() {
    assert_eq!(resolve_basis(None, 4, -3, 60), Err(ConfigError::UnsupportedRotation));
}
