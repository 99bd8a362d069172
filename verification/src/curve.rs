use vstd::prelude::*;

use halo2curves::bn256::{Bn256, Fq, Fq2, Fr, G1Affine, G2Affine};
use halo2curves::ff::PrimeField;
use halo2curves::group::cofactor::CofactorCurveAffine;
use halo2curves::group::Curve;
use halo2curves::CurveAffine;
use halo2curves::pairing::Engine;

verus! {

use crate::field::Fe;
use crate::point::{DeciderKey, DeciderKeyV, G2V, Point, PointV};

/// What the proof curve's point addition returns.
pub uninterp spec fn g1_add_v(a: PointV, b: PointV) -> PointV;

/// What the proof curve's scalar multiplication returns.
pub uninterp spec fn g1_mul_v(p: PointV, k: nat) -> PointV;

/// The proof curve's base-field modulus.
pub open spec fn q_modulus() -> nat {
    ((0x30644e72e131a029b85045b68181585d_u128 as nat) * 0x100000000000000000000000000000000
        + 0x97816a916871ca8d3c208c16d87cfd47_u128) as nat
}

/// What the proof curve's point negation returns: the coordinates are
/// reduced and the second is replaced by its additive inverse.
pub open spec fn g1_neg_v(p: PointV) -> PointV {
    PointV {
        x: p.x % q_modulus(),
        y: if p.y % q_modulus() == 0 {
            0
        } else {
            (q_modulus() - p.y % q_modulus()) as nat
        },
    }
}

/// Whether a coordinate pair lies on the proof curve (the all-zero pair
/// standing for the group identity counts as on the curve).
pub uninterp spec fn g1_on_curve_v(p: PointV) -> bool;

/// Whether a coordinate quadruple lies on the pairing curve's twist.
pub uninterp spec fn g2_on_curve_v(p: G2V) -> bool;

/// Whether the deferred pairing check accepts an accumulator: the pairing
/// of the left point against the key's secret multiple equals the pairing
/// of the right point against the twist generator.
pub uninterp spec fn kzg_decides_v(lhs: PointV, rhs: PointV, dk: DeciderKeyV) -> bool;

/// Relies on the curve crate's point addition for the proof curve: the
/// result depends on the two points alone, and the curve group is closed
/// under addition.
#[verifier::external_body]
pub(crate) fn g1_add(a: &Point, b: &Point) -> (r: Point)
    ensures
        r@ == g1_add_v(a@, b@),
        g1_on_curve_v(a@) && g1_on_curve_v(b@) ==> g1_on_curve_v(r@),
{
    let q = |e: &Fe| Fq::from_raw(e.w);
    let back = |f: &Fq| {
        let r = f.to_repr();
        let mut w = [0u64; 4];
        for i in 0..4 {
            w[i] = u64::from_le_bytes(r.inner()[8 * i..8 * i + 8].try_into().unwrap());
        }
        Fe { w }
    };
    let p = G1Affine { x: q(&a.x), y: q(&a.y) };
    let p2 = G1Affine { x: q(&b.x), y: q(&b.y) };
    let s = (p.to_curve() + p2.to_curve()).to_affine();
    Point { x: back(&s.x), y: back(&s.y) }
}

/// Relies on the curve crate's scalar multiplication for the proof curve:
/// the result depends on the point and the scalar alone, and the curve
/// group is closed under scalar multiplication.
#[verifier::external_body]
pub(crate) fn g1_mul(p: &Point, k: &Fe) -> (r: Point)
    ensures
        r@ == g1_mul_v(p@, k@),
        g1_on_curve_v(p@) ==> g1_on_curve_v(r@),
{
    let q = |e: &Fe| Fq::from_raw(e.w);
    let back = |f: &Fq| {
        let r = f.to_repr();
        let mut w = [0u64; 4];
        for i in 0..4 {
            w[i] = u64::from_le_bytes(r.inner()[8 * i..8 * i + 8].try_into().unwrap());
        }
        Fe { w }
    };
    let b = G1Affine { x: q(&p.x), y: q(&p.y) };
    let s = (b.to_curve() * Fr::from_raw(k.w)).to_affine();
    Point { x: back(&s.x), y: back(&s.y) }
}

/// Relies on the curve crate's point negation for the proof curve: it
/// reduces the coordinates and negates the second in the base field, and
/// the curve is symmetric about that negation.
#[verifier::external_body]
pub(crate) fn g1_neg(p: &Point) -> (r: Point)
    ensures
        r@ == g1_neg_v(p@),
        g1_on_curve_v(p@) ==> g1_on_curve_v(r@),
{
    let q = |e: &Fe| Fq::from_raw(e.w);
    let back = |f: &Fq| {
        let r = f.to_repr();
        let mut w = [0u64; 4];
        for i in 0..4 {
            w[i] = u64::from_le_bytes(r.inner()[8 * i..8 * i + 8].try_into().unwrap());
        }
        Fe { w }
    };
    let b = G1Affine { x: q(&p.x), y: q(&p.y) };
    let s = -b;
    Point { x: back(&s.x), y: back(&s.y) }
}

/// Relies on the curve crate's pairing: compares the pairing of the left
/// point with the key's secret multiple against the pairing of the right
/// point with the twist generator. The outcome depends on the three
/// points alone. The source supports freedom from panics only for points
/// of the curve and its twist, so the domain is restricted to them.
#[verifier::external_body]
pub(crate) fn kzg_decide(lhs: &Point, rhs: &Point, dk: &DeciderKey) -> (r: bool)
    requires
        g1_on_curve_v(lhs@),
        g1_on_curve_v(rhs@),
        g2_on_curve_v(dk.g2@),
        g2_on_curve_v(dk.s_g2@),
    ensures
        r == kzg_decides_v(lhs@, rhs@, dk@),
{
    let q = |e: &Fe| Fq::from_raw(e.w);
    let t = |p: &crate::point::G2Repr| G2Affine {
        x: Fq2::new(q(&p.x[0]), q(&p.x[1])),
        y: Fq2::new(q(&p.y[0]), q(&p.y[1])),
    };
    let l = G1Affine { x: q(&lhs.x), y: q(&lhs.y) };
    let r = G1Affine { x: q(&rhs.x), y: q(&rhs.y) };
    Bn256::pairing(&l, &t(&dk.s_g2)) == Bn256::pairing(&r, &t(&dk.g2))
}

/// Relies on the curve crate's on-curve test for the proof curve: true
/// exactly for coordinate pairs on the curve, the all-zero identity
/// included; a function of the pair alone.
#[verifier::external_body]
pub(crate) fn g1_on_curve(p: &Point) -> (r: bool)
    ensures
        r == g1_on_curve_v(p@),
{
    let a = G1Affine { x: Fq::from_raw(p.x.w), y: Fq::from_raw(p.y.w) };
    bool::from(a.is_on_curve())
}

/// Relies on the curve crate's on-curve test for the twist: true exactly
/// for coordinate quadruples on the twist, identity included; a function
/// of the quadruple alone.
#[verifier::external_body]
pub(crate) fn g2_on_curve(p: &crate::point::G2Repr) -> (r: bool)
    ensures
        r == g2_on_curve_v(p@),
{
    let q = |e: &Fe| Fq::from_raw(e.w);
    let a = G2Affine {
        x: Fq2::new(q(&p.x[0]), q(&p.x[1])),
        y: Fq2::new(q(&p.y[0]), q(&p.y[1])),
    };
    bool::from(a.is_on_curve())
}

} // verus!
