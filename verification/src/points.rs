//! Lattice geometry: points on the 2-D key lattice, basis vectors, and the
//! linear transform from lattice displacement to pitch offset.

use vstd::prelude::*;

verus! {

/// A position on the 2-D key lattice: `(u, v)` where `u` counts steps along a
/// row (to the right) and `v` counts rows (upward).
#[derive(Debug, Clone, Copy, PartialEq, Eq, Structural)]
pub struct Point(pub i8, pub i8);

/// A basis vector `(basis_up, basis_up_right)`: how many pitch-offset units a
/// unit move up, respectively up-and-right, is worth.
#[derive(Debug, Clone, Copy, PartialEq, Eq, Structural)]
pub struct BasisVector(pub i8, pub i8);

/// A pitch offset in semitones relative to a reference pitch.
#[derive(Debug, Clone, Copy, PartialEq, Eq, Structural)]
pub struct Interval(pub i8);

/// The pitch offset of the lattice displacement `(u, v)` under basis `b`:
/// the unique bilinear form worth `b.0` for a `(0, 1)` move and `b.1` for the
/// diagonal `(1, 1)` move, hence `b.1 - b.0` for a `(1, 0)` move.
pub open spec fn spec_offset(b: BasisVector, u: int, v: int) -> int {
    b.0 * v + (b.1 - b.0) * u
}

/// The pitch offset of the point `p` under basis `b`.
pub open spec fn spec_offset_point(b: BasisVector, p: Point) -> int {
    spec_offset(b, p.0 as int, p.1 as int)
}

/// Computes the pitch offset of `point` under `basis`.
pub fn point_to_interval(basis: &BasisVector, point: &Point) -> (r: Interval)
    requires
        -128 <= spec_offset_point(*basis, *point) <= 127,
    ensures
        r.0 == spec_offset_point(*basis, *point),
{
    let bu: i32 = basis.0 as i32;
    let bv: i32 = basis.1 as i32;
    let u: i32 = point.0 as i32;
    let v: i32 = point.1 as i32;
    proof {
        assert(-32768 <= bu * v <= 32768) by (nonlinear_arith)
            requires
                -128 <= bu <= 127,
                -128 <= v <= 127,
        ;
        assert(-65536 <= (bv - bu) * u <= 65536) by (nonlinear_arith)
            requires
                -256 <= bv - bu <= 256,
                -128 <= u <= 127,
        ;
    }
    let off: i32 = bu * v + (bv - bu) * u;
    Interval(off as i8)
}

/// The offset of the origin is zero under every basis.
pub proof fn lemma_offset_origin(b: BasisVector)
    ensures
        spec_offset(b, 0, 0) == 0,
{
}

/// Linearity: the offset of a sum of displacements is the sum of their
/// offsets, under every basis.
pub proof fn lemma_offset_linear(b: BasisVector, pu: int, pv: int, qu: int, qv: int)
    ensures
        spec_offset(b, pu + qu, pv + qv) == spec_offset(b, pu, pv) + spec_offset(b, qu, qv),
{
    assert(b.0 * (pv + qv) == b.0 * pv + b.0 * qv) by (nonlinear_arith);
    assert((b.1 - b.0) * (pu + qu) == (b.1 - b.0) * pu + (b.1 - b.0) * qu) by (nonlinear_arith);
}

/// Translation invariance: the offset change from moving by `(du, dv)` is the
/// same wherever the move starts.
pub proof fn lemma_offset_translation_invariant(b: BasisVector, u: int, v: int, du: int, dv: int)
    ensures
        spec_offset(b, u + du, v + dv) - spec_offset(b, u, v) == spec_offset(b, du, dv),
{
    lemma_offset_linear(b, u, v, du, dv);
}

} // verus!
