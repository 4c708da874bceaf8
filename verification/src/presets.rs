//! The fixed catalogue of named layout presets and the normalization of the
//! two supported diagram orientations into one canonical basis vector.
//!
//! A preset gives `(upper, lower)` offsets together with the orientation its
//! diagram was drawn in.  A `Vertical` diagram already uses the coordinate
//! frame of `points::spec_offset`; a `Horizontal` diagram is re-expressed in
//! that frame by an algebraic 60-degree rotation, `(upper, lower)` becoming
//! `(upper - lower, upper)`.  Any other rotation is a configuration error.

use vstd::prelude::*;
use vstd::string::StrSliceExecFns;
use crate::points::BasisVector;

verus! {

/// The orientation a layout diagram was drawn in.  `Vertical` corresponds to
/// a rotation value of `-90`, `Horizontal` to `0`; no other rotation is
/// supported.
#[derive(Debug, Clone, Copy, PartialEq, Eq, Structural)]
pub enum Orientation {
    Vertical,
    Horizontal,
}

/// A named layout preset of the fixed catalogue.
#[derive(Debug, Clone, Copy, PartialEq, Eq, Structural)]
pub enum Preset {
    Janko,
    InvertedGerhard,
    Gerhard,
    Tonnetz,
    GuitarA,
    GuitarB,
    Park,
    Wesley,
    Fernandez,
    WickiHayden,
    BSystem,
    CSystem,
}

/// A basis as specified by configuration: two offsets plus the orientation
/// of the diagram they were read from.
#[derive(Debug, Clone, Copy, PartialEq, Eq, Structural)]
pub struct BasisSpec {
    pub upper: i8,
    pub lower: i8,
    pub orientation: Orientation,
}

/// A configuration error, rejected at startup.
#[derive(Debug, Clone, Copy, PartialEq, Eq, Structural)]
pub enum ConfigError {
    /// A preset name that is not in the catalogue.
    UnknownPreset,
    /// A rotation value other than `-90` (vertical) and `0` (horizontal).
    UnsupportedRotation,
}

/// The catalogue entry of a preset: a fixed table, pure data.
pub open spec fn spec_preset_values(p: Preset) -> BasisSpec {
    match p {
        Preset::Janko => BasisSpec { upper: -1i8, lower: 1i8, orientation: Orientation::Vertical },
        Preset::InvertedGerhard => BasisSpec {
            upper: 3i8,
            lower: 4i8,
            orientation: Orientation::Vertical,
        },
        Preset::Gerhard => BasisSpec {
            upper: 4i8,
            lower: 3i8,
            orientation: Orientation::Horizontal,
        },
        Preset::Tonnetz => BasisSpec {
            upper: 4i8,
            lower: -3i8,
            orientation: Orientation::Horizontal,
        },
        Preset::GuitarA => BasisSpec { upper: 4i8, lower: 5i8, orientation: Orientation::Vertical },
        Preset::GuitarB => BasisSpec { upper: 5i8, lower: 6i8, orientation: Orientation::Vertical },
        Preset::Park => BasisSpec { upper: 5i8, lower: 2i8, orientation: Orientation::Vertical },
        Preset::Wesley => BasisSpec {
            upper: 7i8,
            lower: -5i8,
            orientation: Orientation::Horizontal,
        },
        Preset::Fernandez => BasisSpec {
            upper: 6i8,
            lower: 7i8,
            orientation: Orientation::Vertical,
        },
        Preset::WickiHayden => BasisSpec {
            upper: 5i8,
            lower: 7i8,
            orientation: Orientation::Vertical,
        },
        Preset::BSystem => BasisSpec { upper: -1i8, lower: 2i8, orientation: Orientation::Vertical },
        Preset::CSystem => BasisSpec { upper: -2i8, lower: 1i8, orientation: Orientation::Vertical },
    }
}

/// Looks a preset up in the fixed catalogue.
pub fn preset_values(p: Preset) -> (r: BasisSpec)
    ensures
        r == spec_preset_values(p),
{
    match p {
        Preset::Janko => BasisSpec { upper: -1, lower: 1, orientation: Orientation::Vertical },
        Preset::InvertedGerhard => BasisSpec {
            upper: 3,
            lower: 4,
            orientation: Orientation::Vertical,
        },
        Preset::Gerhard => BasisSpec { upper: 4, lower: 3, orientation: Orientation::Horizontal },
        Preset::Tonnetz => BasisSpec { upper: 4, lower: -3, orientation: Orientation::Horizontal },
        Preset::GuitarA => BasisSpec { upper: 4, lower: 5, orientation: Orientation::Vertical },
        Preset::GuitarB => BasisSpec { upper: 5, lower: 6, orientation: Orientation::Vertical },
        Preset::Park => BasisSpec { upper: 5, lower: 2, orientation: Orientation::Vertical },
        Preset::Wesley => BasisSpec { upper: 7, lower: -5, orientation: Orientation::Horizontal },
        Preset::Fernandez => BasisSpec { upper: 6, lower: 7, orientation: Orientation::Vertical },
        Preset::WickiHayden => BasisSpec { upper: 5, lower: 7, orientation: Orientation::Vertical },
        Preset::BSystem => BasisSpec { upper: -1, lower: 2, orientation: Orientation::Vertical },
        Preset::CSystem => BasisSpec { upper: -2, lower: 1, orientation: Orientation::Vertical },
    }
}

/// The canonical basis of `(upper, lower)` read in orientation `o`, as a pair
/// of unbounded integers.
pub open spec fn spec_canonical(upper: int, lower: int, o: Orientation) -> (int, int) {
    match o {
        Orientation::Vertical => (upper, lower),
        Orientation::Horizontal => (upper - lower, upper),
    }
}

/// A vertical basis `(a, b)` and its re-expression in the horizontal
/// convention, `(b, b - a)`, normalize to the same canonical basis.
pub proof fn lemma_orientation_round_trip(a: int, b: int)
    ensures
        spec_canonical(b, b - a, Orientation::Horizontal) == spec_canonical(
            a,
            b,
            Orientation::Vertical,
        ),
{
}

/// Normalizes a basis specification into the canonical basis vector.
pub fn canonical_basis(spec: BasisSpec) -> (r: BasisVector)
    requires
        spec.orientation is Horizontal ==> -128 <= spec.upper - spec.lower <= 127,
    ensures
        r.0 == spec_canonical(spec.upper as int, spec.lower as int, spec.orientation).0,
        r.1 == spec_canonical(spec.upper as int, spec.lower as int, spec.orientation).1,
{
    match spec.orientation {
        Orientation::Vertical => BasisVector(spec.upper, spec.lower),
        Orientation::Horizontal => BasisVector(spec.upper - spec.lower, spec.upper),
    }
}

/// Maps a rotation value to its orientation: `-90` is vertical, `0` is
/// horizontal, anything else is rejected.
pub fn orientation_from_rotation(rotation: i8) -> (r: Result<Orientation, ConfigError>)
    ensures
        rotation == -90 ==> r == Ok::<Orientation, ConfigError>(Orientation::Vertical),
        rotation == 0 ==> r == Ok::<Orientation, ConfigError>(Orientation::Horizontal),
        rotation != -90 && rotation != 0 ==> r == Err::<Orientation, ConfigError>(
            ConfigError::UnsupportedRotation,
        ),
{
    if rotation == -90 {
        Ok(Orientation::Vertical)
    } else if rotation == 0 {
        Ok(Orientation::Horizontal)
    } else {
        Err(ConfigError::UnsupportedRotation)
    }
}

/// Whether two string slices hold the same characters.
fn str_eq(a: &str, b: &str) -> (r: bool)
    ensures
        r == (a@ == b@),
{
    let alen: usize = a.unicode_len();
    let blen: usize = b.unicode_len();
    if alen != blen {
        proof {
            assert(a@.len() != b@.len());
        }
        return false;
    }
    let mut i: usize = 0;
    while i < alen
        invariant
            i <= alen,
            alen == a@.len(),
            alen == b@.len(),
            forall|j: int| 0 <= j < i ==> a@[j] == b@[j],
        decreases alen - i,
    {
        if a.get_char(i) != b.get_char(i) {
            return false;
        }
        i = i + 1;
    }
    proof {
        assert(a@ =~= b@);
    }
    true
}

/// The preset, if any, that a name denotes.
pub open spec fn spec_parse_preset(s: Seq<char>) -> Option<Preset> {
    if s == "janko"@ {
        Some(Preset::Janko)
    } else if s == "inverted_gerhard"@ {
        Some(Preset::InvertedGerhard)
    } else if s == "gerhard"@ {
        Some(Preset::Gerhard)
    } else if s == "tonnetz"@ {
        Some(Preset::Tonnetz)
    } else if s == "guitar_a"@ {
        Some(Preset::GuitarA)
    } else if s == "guitar_b"@ {
        Some(Preset::GuitarB)
    } else if s == "park"@ {
        Some(Preset::Park)
    } else if s == "wesley"@ {
        Some(Preset::Wesley)
    } else if s == "fernandez"@ {
        Some(Preset::Fernandez)
    } else if s == "wicki_hayden"@ {
        Some(Preset::WickiHayden)
    } else if s == "b_system"@ {
        Some(Preset::BSystem)
    } else if s == "c_system"@ {
        Some(Preset::CSystem)
    } else {
        None
    }
}

/// Looks a preset name up in the catalogue.
pub fn parse_preset(name: &str) -> (r: Option<Preset>)
    ensures
        r == spec_parse_preset(name@),
{
    if str_eq(name, "janko") {
        Some(Preset::Janko)
    } else if str_eq(name, "inverted_gerhard") {
        Some(Preset::InvertedGerhard)
    } else if str_eq(name, "gerhard") {
        Some(Preset::Gerhard)
    } else if str_eq(name, "tonnetz") {
        Some(Preset::Tonnetz)
    } else if str_eq(name, "guitar_a") {
        Some(Preset::GuitarA)
    } else if str_eq(name, "guitar_b") {
        Some(Preset::GuitarB)
    } else if str_eq(name, "park") {
        Some(Preset::Park)
    } else if str_eq(name, "wesley") {
        Some(Preset::Wesley)
    } else if str_eq(name, "fernandez") {
        Some(Preset::Fernandez)
    } else if str_eq(name, "wicki_hayden") {
        Some(Preset::WickiHayden)
    } else if str_eq(name, "b_system") {
        Some(Preset::BSystem)
    } else if str_eq(name, "c_system") {
        Some(Preset::CSystem)
    } else {
        None
    }
}

/// Resolves the configured basis: a preset name if one was given, else the
/// literal `(upper, lower, rotation)` triple, normalized to canonical form.
/// An unknown preset name and an unsupported rotation are configuration
/// errors.
pub fn resolve_basis(name: Option<&str>, upper: i8, lower: i8, rotation: i8) -> (r: Result<
    BasisVector,
    ConfigError,
>)
    requires
        name is None && rotation == 0 ==> -128 <= upper - lower <= 127,
    ensures
        match name {
            Some(n) => match spec_parse_preset(n@) {
                Some(p) => {
                    let b = spec_preset_values(p);
                    &&& r is Ok
                    &&& r.unwrap().0 == spec_canonical(
                        b.upper as int,
                        b.lower as int,
                        b.orientation,
                    ).0
                    &&& r.unwrap().1 == spec_canonical(
                        b.upper as int,
                        b.lower as int,
                        b.orientation,
                    ).1
                },
                None => r == Err::<BasisVector, ConfigError>(ConfigError::UnknownPreset),
            },
            None => {
                &&& rotation == -90 ==> r == Ok::<BasisVector, ConfigError>(
                    BasisVector(upper, lower),
                )
                &&& rotation == 0 ==> r is Ok && r.unwrap().0 == upper - lower && r.unwrap().1
                    == upper
                &&& rotation != -90 && rotation != 0 ==> r == Err::<BasisVector, ConfigError>(
                    ConfigError::UnsupportedRotation,
                )
            },
        },
{
    match name {
        Some(n) => match parse_preset(n) {
            Some(p) => Ok(canonical_basis(preset_values(p))),
            None => Err(ConfigError::UnknownPreset),
        },
        None => match orientation_from_rotation(rotation) {
            Ok(o) => Ok(canonical_basis(BasisSpec { upper, lower, orientation: o })),
            Err(e) => Err(e),
        },
    }
}

} // verus!
