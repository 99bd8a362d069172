use vstd::prelude::*;

verus! {

use crate::accum::{AccV, Accumulator, acc_on_curve};
use crate::curve::{g1_add, g1_add_v, g1_mul, g1_mul_v, g1_neg, g1_neg_v, g1_on_curve, g1_on_curve_v};
use crate::errors::Error;
use crate::field::{Fe, fe_val};
use crate::point::{Point, PointV};
use crate::protocol::Protocol;
use crate::transcript::{
    chain_digest, challenge_from_digest, digest_scalar, fe_to_bytes, keccak256, keccak_of,
    le_bytes32_of,
};

/// The mathematical content of a protocol descriptor.
pub ghost struct ProtocolV {
    pub num_public: nat,
    pub num_comms: nat,
    pub ic: Seq<PointV>,
    pub base: PointV,
}

impl View for Protocol {
    type V = ProtocolV;

    open spec fn view(&self) -> ProtocolV {
        ProtocolV {
            num_public: self.num_public as nat,
            num_comms: self.num_comms as nat,
            ic: self.ic@.map_values(|pt: Point| pt@),
            base: self.base@,
        }
    }
}

pub open spec fn sigs_v(s: Seq<Fe>) -> Seq<nat> {
    s.map_values(|f: Fe| fe_val(f))
}

/// A 256-bit value read from 32 little-endian bytes.
pub open spec fn value_of_le32(b: Seq<u8>) -> nat {
    (vstd::bytes::spec_u64_from_le_bytes(b.subrange(0, 8))
        + vstd::bytes::spec_u64_from_le_bytes(b.subrange(8, 16)) * 0x10000000000000000
        + vstd::bytes::spec_u64_from_le_bytes(b.subrange(16, 24))
        * 0x100000000000000000000000000000000 + vstd::bytes::spec_u64_from_le_bytes(
        b.subrange(24, 32),
    ) * 0x1000000000000000000000000000000000000000000000000) as nat
}

/// The point whose two coordinates sit at a byte offset of a proof.
pub open spec fn point_at(b: Seq<u8>, off: int) -> PointV {
    PointV { x: value_of_le32(b.subrange(off, off + 32)), y: value_of_le32(b.subrange(off + 32, off + 64)) }
}

/// The claimed evaluation at a byte offset of a proof.
pub open spec fn eval_at(b: Seq<u8>, off: int) -> nat {
    value_of_le32(b.subrange(off, off + 32))
}

/// The bytes the verifying transcript absorbs for the public signals.
pub open spec fn sigs_bytes_v(s: Seq<nat>) -> Seq<u8>
    decreases s.len(),
{
    if s.len() == 0 {
        Seq::empty()
    } else {
        le_bytes32_of(s[0]) + sigs_bytes_v(s.drop_first())
    }
}

proof fn lemma_sigs_bytes_push(s: Seq<nat>, v: nat)
    ensures
        sigs_bytes_v(s.push(v)) == sigs_bytes_v(s) + le_bytes32_of(v),
    decreases s.len(),
{
    if s.len() == 0 {
        assert(s.push(v).drop_first() =~= Seq::<nat>::empty());
        assert(s.push(v)[0] == v);
        assert(sigs_bytes_v(Seq::<nat>::empty()) =~= Seq::<u8>::empty());
        assert(sigs_bytes_v(s.push(v)) =~= le_bytes32_of(v));
        assert(sigs_bytes_v(s) + le_bytes32_of(v) =~= le_bytes32_of(v));
    } else {
        assert(s.push(v).drop_first() =~= s.drop_first().push(v));
        lemma_sigs_bytes_push(s.drop_first(), v);
        assert(sigs_bytes_v(s.push(v)) =~= sigs_bytes_v(s) + le_bytes32_of(v));
    }
}

/// Whether every point a proof carries — its commitments and its opening
/// point — lies on the curve.
pub open spec fn proof_points_ok(pv: ProtocolV, proofb: Seq<u8>) -> bool {
    &&& forall|k: int| 0 <= k < pv.num_comms ==> g1_on_curve_v(#[trigger] point_at(proofb, 64 * k))
    &&& g1_on_curve_v(point_at(proofb, 96 * pv.num_comms as int))
}

/// The transcript's opening digest for one proof: the hash of the public
/// signals followed by the proof bytes.
pub open spec fn sv_d0(sigs: Seq<nat>, proofb: Seq<u8>) -> Seq<u8> {
    keccak_of(sigs_bytes_v(sigs) + proofb)
}

/// The public-input combination: the base input commitment plus each
/// signal times its commitment point.
pub open spec fn vk_x_upto(ic: Seq<PointV>, sigs: Seq<nat>, k: nat) -> PointV
    decreases k,
{
    if k == 0 {
        ic[0]
    } else {
        g1_add_v(vk_x_upto(ic, sigs, (k - 1) as nat), g1_mul_v(ic[k as int], sigs[k - 1]))
    }
}

/// The right-hand accumulator point after the first `k` commitments: each
/// commitment enters scaled by its transcript challenge, and each claimed
/// evaluation leaves as a multiple of the base, scaled the same way.
pub open spec fn rhs_upto(pv: ProtocolV, sigs: Seq<nat>, proofb: Seq<u8>, d0: Seq<u8>, k: nat) -> PointV
    decreases k,
{
    if k == 0 {
        vk_x_upto(pv.ic, sigs, pv.num_public)
    } else {
        let u = digest_scalar(chain_digest(d0, (k - 1) as nat));
        g1_add_v(
            g1_add_v(
                rhs_upto(pv, sigs, proofb, d0, (k - 1) as nat),
                g1_mul_v(point_at(proofb, 64 * (k - 1)), u),
            ),
            g1_neg_v(
                g1_mul_v(
                    g1_mul_v(pv.base, eval_at(proofb, 64 * pv.num_comms + 32 * (k - 1))),
                    u,
                ),
            ),
        )
    }
}

/// The accumulator the succinct verifier outputs for a well-formed
/// proof: the deferred pairing check's two points.
pub open spec fn sv_acc_v(pv: ProtocolV, sigs: Seq<nat>, proofb: Seq<u8>) -> AccV {
    let d0 = sv_d0(sigs, proofb);
    let w = point_at(proofb, 96 * pv.num_comms as int);
    AccV {
        lhs: w,
        rhs: g1_add_v(
            rhs_upto(pv, sigs, proofb, d0, pv.num_comms),
            g1_mul_v(w, digest_scalar(chain_digest(d0, pv.num_comms))),
        ),
    }
}

/// Reads a 256-bit value from 32 little-endian bytes of a proof.
fn fe_from_le_bytes(b: &Vec<u8>, off: usize) -> (r: Fe)
    requires
        off + 32 <= b@.len(),
        b@.len() <= usize::MAX,
    ensures
        fe_val(r) == value_of_le32(b@.subrange(off as int, off as int + 32)),
{
    let w0 = vstd::bytes::u64_from_le_bytes(vstd::slice::slice_subrange(b.as_slice(), off, off + 8));
    let w1 = vstd::bytes::u64_from_le_bytes(
        vstd::slice::slice_subrange(b.as_slice(), off + 8, off + 16),
    );
    let w2 = vstd::bytes::u64_from_le_bytes(
        vstd::slice::slice_subrange(b.as_slice(), off + 16, off + 24),
    );
    let w3 = vstd::bytes::u64_from_le_bytes(
        vstd::slice::slice_subrange(b.as_slice(), off + 24, off + 32),
    );
    proof {
        let s = b@.subrange(off as int, off as int + 32);
        assert(s.subrange(0, 8) =~= b@.subrange(off as int, off as int + 8));
        assert(s.subrange(8, 16) =~= b@.subrange(off as int + 8, off as int + 16));
        assert(s.subrange(16, 24) =~= b@.subrange(off as int + 16, off as int + 24));
        assert(s.subrange(24, 32) =~= b@.subrange(off as int + 24, off as int + 32));
    }
    Fe { w: [w0, w1, w2, w3] }
}

/// Reads an affine point from 64 little-endian bytes of a proof.
fn point_from_bytes(b: &Vec<u8>, off: usize) -> (r: Point)
    requires
        off + 64 <= b@.len(),
        b@.len() <= usize::MAX,
    ensures
        r@ == point_at(b@, off as int),
{
    let x = fe_from_le_bytes(b, off);
    let y = fe_from_le_bytes(b, off + 32);
    Point { x, y }
}

/// Replays a proof's transcript against a protocol descriptor and emits
/// the deferred pairing check as an accumulator, without deciding it.
/// Succeeds exactly when the signal count matches the protocol, the
/// proof carries its declared commitments, evaluations and opening
/// point, and every point it encodes lies on the curve; any other byte
/// length or point encoding is a malformed proof.
pub fn succinct_verify(p: &Protocol, signals: &Vec<Fe>, proof: &Vec<u8>) -> (r: Result<
    Accumulator,
    Error,
>)
    requires
        p.wf(),
    ensures
        (signals@.len() == p.num_public && proof@.len() == 96 * p.num_comms + 64
            && proof_points_ok(p@, proof@)) <==> r is Ok,
        r matches Ok(a) ==> a@ == sv_acc_v(p@, sigs_v(signals@), proof@) && acc_on_curve(a@),
        r matches Err(e) ==> e == Error::MalformedProof,
{
    if signals.len() != p.num_public {
        return Err(Error::MalformedProof);
    }
    let expected: usize = 96 * p.num_comms + 64;
    if proof.len() != expected {
        return Err(Error::MalformedProof);
    }
    let ghost sigs = sigs_v(signals@);
    let mut tb: Vec<u8> = Vec::new();
    proof {
        assert(sigs.take(0) =~= Seq::<nat>::empty());
    }
    let mut i: usize = 0;
    while i < signals.len()
        invariant
            0 <= i <= signals@.len(),
            sigs == sigs_v(signals@),
            tb@ == sigs_bytes_v(sigs.take(i as int)),
        decreases signals@.len() - i,
    {
        let mut sb = fe_to_bytes(&signals[i]);
        tb.append(&mut sb);
        proof {
            lemma_sigs_bytes_push(sigs.take(i as int), sigs[i as int]);
            assert(sigs.take(i as int).push(sigs[i as int]) =~= sigs.take(i + 1));
        }
        i += 1;
    }
    proof {
        assert(sigs.take(signals@.len() as int) =~= sigs);
    }
    let mut j: usize = 0;
    while j < proof.len()
        invariant
            0 <= j <= proof@.len(),
            tb@ == sigs_bytes_v(sigs) + proof@.take(j as int),
        decreases proof@.len() - j,
    {
        tb.push(proof[j]);
        proof {
            assert(sigs_bytes_v(sigs) + proof@.take(j as int + 1) =~= (sigs_bytes_v(sigs)
                + proof@.take(j as int)).push(proof@[j as int]));
        }
        j += 1;
    }
    proof {
        assert(proof@.take(proof@.len() as int) =~= proof@);
        assert(tb@ == sigs_bytes_v(sigs) + proof@);
    }
    let d0 = keccak256(&tb);
    let ghost gd0 = d0@;
    proof {
        assert(gd0 == sv_d0(sigs, proof@));
    }
    let mut vkx: Point = p.ic[0];
    let mut s: usize = 0;
    while s < signals.len()
        invariant
            0 <= s <= signals@.len(),
            p.wf(),
            signals@.len() == p@.num_public,
            p@.ic.len() == p@.num_public + 1,
            sigs == sigs_v(signals@),
            vkx@ == vk_x_upto(p@.ic, sigs, s as nat),
            g1_on_curve_v(vkx@),
        decreases signals@.len() - s,
    {
        let scaled = g1_mul(&p.ic[s + 1], &signals[s]);
        vkx = g1_add(&vkx, &scaled);
        proof {
            assert(p@.ic[s + 1] == p.ic@[s as int + 1]@);
            assert(sigs[s as int] == fe_val(signals@[s as int]));
        }
        s += 1;
    }
    let mut rhs: Point = vkx;
    let mut d: Vec<u8> = d0;
    let mut k: usize = 0;
    while k < p.num_comms
        invariant
            0 <= k <= p@.num_comms,
            p.wf(),
            sigs == sigs_v(signals@),
            proof@.len() == 96 * p@.num_comms + 64,
            rhs@ == rhs_upto(p@, sigs, proof@, gd0, k as nat),
            g1_on_curve_v(rhs@),
            forall|t: int| 0 <= t < k ==> g1_on_curve_v(#[trigger] point_at(proof@, 64 * t)),
            d@ == chain_digest(gd0, k as nat),
            d@.len() == 32,
        decreases p@.num_comms - k,
    {
        let u = challenge_from_digest(&d);
        let cpt = point_from_bytes(proof, 64 * k);
        if !g1_on_curve(&cpt) {
            proof {
                assert(!g1_on_curve_v(point_at(proof@, 64 * (k as int))));
            }
            return Err(Error::MalformedProof);
        }
        let t1 = g1_mul(&cpt, &u);
        rhs = g1_add(&rhs, &t1);
        let ev = fe_from_le_bytes(proof, 64 * p.num_comms + 32 * k);
        let t2 = g1_mul(&p.base, &ev);
        let t3 = g1_neg(&g1_mul(&t2, &u));
        rhs = g1_add(&rhs, &t3);
        d = keccak256(&d);
        k += 1;
    }
    let z = challenge_from_digest(&d);
    let w = point_from_bytes(proof, 96 * p.num_comms);
    if !g1_on_curve(&w) {
        return Err(Error::MalformedProof);
    }
    let zw = g1_mul(&w, &z);
    let rhs_final = g1_add(&rhs, &zw);
    Ok(Accumulator { lhs: w, rhs: rhs_final })
}

} // verus!
