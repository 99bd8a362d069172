use vstd::prelude::*;

verus! {

use crate::accum::{AccV, AccumulationProof, Accumulator, acc_on_curve, create_fold, decide, fold_digest_v, folded_v, verify_fold, views_of};
use crate::curve::kzg_decides_v;
use crate::errors::Error;
use crate::field::{Fe, decompose, decompose_rec, fe_val, limb_seq};
use crate::point::{DeciderKey, Point};
use crate::protocol::{Protocol, VerifyingKey, compile, vk_consistent};
use crate::succinct::{ProtocolV, proof_points_ok, sigs_v, succinct_verify, sv_acc_v};

/// One witness slot of the aggregation circuit: a concrete value, or an
/// unknown used only to fix the circuit's shape.
#[derive(Clone, Debug)]
pub enum Wit<T> {
    Known(T),
    Unknown,
}

/// The mathematical content of a field-element witness slot.
pub ghost enum WitFeV {
    Known(nat),
    Unknown,
}

/// The mathematical content of a byte-string witness slot.
pub ghost enum WitBytesV {
    Known(Seq<u8>),
    Unknown,
}

pub open spec fn wit_fe_v(w: Wit<Fe>) -> WitFeV {
    match w {
        Wit::Known(f) => WitFeV::Known(fe_val(f)),
        Wit::Unknown => WitFeV::Unknown,
    }
}

pub open spec fn wit_bytes_v(w: Wit<Vec<u8>>) -> WitBytesV {
    match w {
        Wit::Known(b) => WitBytesV::Known(b@),
        Wit::Unknown => WitBytesV::Unknown,
    }
}

/// The circuit-internal form of one aggregated proof: its protocol, its
/// public signals as witness slots (one instance column per proof), and
/// its proof bytes as one witness slot.
pub struct SnarkWitness {
    pub protocol: Protocol,
    pub instances: Vec<Vec<Wit<Fe>>>,
    pub proof: Wit<Vec<u8>>,
}

/// The mathematical content of a snark witness.
pub ghost struct SnarkV {
    pub protocol: ProtocolV,
    pub instances: Seq<Seq<WitFeV>>,
    pub proof: WitBytesV,
}

impl View for SnarkWitness {
    type V = SnarkV;

    open spec fn view(&self) -> SnarkV {
        SnarkV {
            protocol: self.protocol@,
            instances: self.instances@.map_values(
                |col: Vec<Wit<Fe>>| col@.map_values(|w: Wit<Fe>| wit_fe_v(w)),
            ),
            proof: wit_bytes_v(self.proof),
        }
    }
}

/// The shape of a snark witness: everything about it that survives
/// blanking — its protocol and the length of each instance column.
pub ghost struct SnarkShapeV {
    pub protocol: ProtocolV,
    pub inst_lens: Seq<nat>,
}

pub open spec fn shape_of(v: SnarkV) -> SnarkShapeV {
    SnarkShapeV {
        protocol: v.protocol,
        inst_lens: v.instances.map_values(|col: Seq<WitFeV>| col.len()),
    }
}

/// Whether every witness slot of a snark is unknown.
pub open spec fn all_unknown(v: SnarkV) -> bool {
    &&& v.proof is Unknown
    &&& forall|i: int, j: int|
        0 <= i < v.instances.len() && 0 <= j < v.instances[i].len() ==> v.instances[i][j]
            is Unknown
}

/// Copies a protocol descriptor; the descriptor is immutable data shared
/// by every witness of one batch.
pub fn clone_protocol(p: &Protocol) -> (r: Protocol)
    ensures
        r@ == p@,
        r.num_public == p.num_public,
        r.num_comms == p.num_comms,
        r.ic@ == p.ic@,
        r.base == p.base,
{
    let mut ic: Vec<Point> = Vec::new();
    let mut i: usize = 0;
    while i < p.ic.len()
        invariant
            0 <= i <= p.ic@.len(),
            ic@ == p.ic@.take(i as int),
        decreases p.ic@.len() - i,
    {
        ic.push(p.ic[i]);
        proof {
            assert(p.ic@.take(i as int).push(p.ic@[i as int]) =~= p.ic@.take(i + 1));
        }
        i += 1;
    }
    proof {
        assert(p.ic@.take(p.ic@.len() as int) =~= p.ic@);
    }
    let r = Protocol { num_public: p.num_public, num_comms: p.num_comms, ic, base: p.base };
    proof {
        assert(r@.ic =~= p@.ic);
    }
    r
}

impl SnarkWitness {
    /// The snark with every witness slot blanked: only the shape
    /// remains, to fix the circuit layout for key generation.
    pub fn without_witnesses(&self) -> (r: SnarkWitness)
        ensures
            shape_of(r@) == shape_of(self@),
            all_unknown(r@),
    {
        let mut instances: Vec<Vec<Wit<Fe>>> = Vec::new();
        let mut i: usize = 0;
        while i < self.instances.len()
            invariant
                0 <= i <= self.instances@.len(),
                instances@.len() == i,
                forall|k: int|
                    0 <= k < i ==> instances@[k]@.len() == self.instances@[k]@.len(),
                forall|k: int, j: int|
                    0 <= k < i && 0 <= j < instances@[k]@.len() ==> instances@[k]@[j]
                        is Unknown,
            decreases self.instances@.len() - i,
        {
            let mut col: Vec<Wit<Fe>> = Vec::new();
            let mut j: usize = 0;
            let n = self.instances[i].len();
            while j < n
                invariant
                    0 <= j <= n,
                    col@.len() == j,
                    forall|t: int| 0 <= t < j ==> col@[t] is Unknown,
                decreases n - j,
            {
                col.push(Wit::Unknown);
                j += 1;
            }
            instances.push(col);
            i += 1;
        }
        let r = SnarkWitness {
            protocol: clone_protocol(&self.protocol),
            instances,
            proof: Wit::Unknown,
        };
        proof {
            assert(shape_of(r@).inst_lens =~= shape_of(self@).inst_lens);
        }
        r
    }

    /// The proof slot, as the circuit reads it.
    pub fn proof_slot(&self) -> (r: &Wit<Vec<u8>>)
        ensures
            r == self.proof,
    {
        &self.proof
    }
}

/// Structural shape invariance: two blanked snark witnesses of one shape
/// are one and the same circuit-facing content, whatever concrete
/// witness values each was blanked from.
pub proof fn lemma_structural_shape_invariance(a: SnarkV, b: SnarkV)
    requires
        shape_of(a) == shape_of(b),
        all_unknown(a),
        all_unknown(b),
    ensures
        a == b,
{
    assert(a.instances.map_values(|col: Seq<WitFeV>| col.len()) =~= b.instances.map_values(
        |col: Seq<WitFeV>| col.len(),
    ));
    assert(a.instances.len() == b.instances.len());
    assert forall|i: int| 0 <= i < a.instances.len() implies a.instances[i] =~= b.instances[i] by {
        assert(a.instances.map_values(|col: Seq<WitFeV>| col.len())[i] == a.instances[i].len());
        assert(b.instances.map_values(|col: Seq<WitFeV>| col.len())[i] == b.instances[i].len());
        assert forall|j: int| 0 <= j < a.instances[i].len() implies a.instances[i][j]
            == b.instances[i][j] by {
            assert(a.instances[i][j] is Unknown);
            assert(b.instances[i][j] is Unknown);
        }
    }
    assert(a.instances =~= b.instances);
}

/// The protocol descriptor a verifying key compiles to, as mathematical
/// content.
pub open spec fn vk_protocol_v(vk: &VerifyingKey) -> ProtocolV {
    ProtocolV {
        num_public: vk.num_public as nat,
        num_comms: vk.num_comms as nat,
        ic: vk.ic@.map_values(|pt: Point| pt@),
        base: vk.base@,
    }
}

/// One batch item is acceptable when its signal count matches the
/// protocol, its proof bytes carry the declared layout, and every point
/// it encodes lies on the curve.
pub open spec fn batch_ok(pv: ProtocolV, sigs: Seq<Seq<nat>>, proofs: Seq<Seq<u8>>) -> bool {
    forall|i: int|
        0 <= i < sigs.len() ==> sigs[i].len() == pv.num_public && proofs[i].len() == 96
            * pv.num_comms + 64 && proof_points_ok(pv, proofs[i])
}

/// The accumulator each proof of a batch succinctly verifies to.
pub open spec fn batch_accs(pv: ProtocolV, sigs: Seq<Seq<nat>>, proofs: Seq<Seq<u8>>) -> Seq<
    AccV,
> {
    Seq::new(sigs.len(), |i: int| sv_acc_v(pv, sigs[i], proofs[i]))
}

/// The batch's final accumulator: a single proof's accumulator passes
/// through; several fold.
pub open spec fn batch_folded(pv: ProtocolV, sigs: Seq<Seq<nat>>, proofs: Seq<Seq<u8>>) -> AccV {
    let vs = batch_accs(pv, sigs, proofs);
    if vs.len() == 1 {
        vs[0]
    } else {
        folded_v(vs)
    }
}

/// The circuit's public instance: the four coordinates of the final
/// accumulator, each in four limbs — sixteen values, whatever the batch
/// size.
pub open spec fn instance_limbs(a: AccV) -> Seq<nat> {
    decompose_rec(a.lhs.x, 4) + decompose_rec(a.lhs.y, 4) + decompose_rec(a.rhs.x, 4)
        + decompose_rec(a.rhs.y, 4)
}

/// The witness content a concrete batch item is stored as.
pub open spec fn known_snark_v(pv: ProtocolV, sig: Seq<nat>, proofb: Seq<u8>) -> SnarkV {
    SnarkV {
        protocol: pv,
        instances: seq![sig.map_values(|x: nat| WitFeV::Known(x))],
        proof: WitBytesV::Known(proofb),
    }
}

pub open spec fn sig_views(s: Seq<Vec<Fe>>) -> Seq<Seq<nat>> {
    s.map_values(|v: Vec<Fe>| sigs_v(v@))
}

pub open spec fn byte_views(s: Seq<Vec<u8>>) -> Seq<Seq<u8>> {
    s.map_values(|v: Vec<u8>| v@)
}

fn copy_bytes(v: &Vec<u8>) -> (r: Vec<u8>)
    ensures
        r@ == v@,
{
    let mut out: Vec<u8> = Vec::new();
    let mut i: usize = 0;
    while i < v.len()
        invariant
            0 <= i <= v@.len(),
            out@ == v@.take(i as int),
        decreases v@.len() - i,
    {
        out.push(v[i]);
        proof {
            assert(v@.take(i as int).push(v@[i as int]) =~= v@.take(i + 1));
        }
        i += 1;
    }
    proof {
        assert(v@.take(v@.len() as int) =~= v@);
    }
    out
}

/// The aggregation circuit's content: one witness per aggregated proof,
/// the accumulation proof slot, the decider key, and the public
/// instance the folded accumulator decomposes to.
pub struct Accumulation {
    pub snarks: Vec<SnarkWitness>,
    pub instances: Vec<u128>,
    pub dk: DeciderKey,
    pub as_proof: Wit<Vec<u8>>,
}

impl Accumulation {
    /// Builds the aggregation batch: compiles the key, succinctly
    /// verifies every proof, folds the accumulators, and refuses to
    /// build the instance unless the decider accepts the fold.
    #[verifier::loop_isolation(false)]
    pub fn new(vk: &VerifyingKey, public_signals: &Vec<Vec<Fe>>, proofs: &Vec<Vec<u8>>) -> (r:
        Result<Accumulation, Error>)
        requires
            public_signals@.len() == proofs@.len(),
            proofs@.len() >= 1,
        ensures
            ({
                let pv = vk_protocol_v(vk);
                let sigs = sig_views(public_signals@);
                let prfs = byte_views(proofs@);
                let folded = batch_folded(pv, sigs, prfs);
                &&& (r is Ok <==> vk_consistent(vk) && batch_ok(pv, sigs, prfs)
                    && kzg_decides_v(folded.lhs, folded.rhs, vk.dk@))
                &&& (r matches Err(e) ==> {
                    &&& (e == Error::MalformedKey <==> !vk_consistent(vk))
                    &&& (e == Error::MalformedProof <==> vk_consistent(vk) && !batch_ok(
                        pv,
                        sigs,
                        prfs,
                    ))
                    &&& (e == Error::AccumulatorInvalid <==> vk_consistent(vk) && batch_ok(
                        pv,
                        sigs,
                        prfs,
                    ) && !kzg_decides_v(folded.lhs, folded.rhs, vk.dk@))
                })
                &&& (r matches Ok(c) ==> {
                    &&& c.instances@.len() == 16
                    &&& limb_seq(c.instances@) == instance_limbs(folded)
                    &&& c.dk == vk.dk
                    &&& (proofs@.len() == 1 ==> wit_bytes_v(c.as_proof) is Unknown)
                    &&& (proofs@.len() > 1 ==> wit_bytes_v(c.as_proof) == WitBytesV::Known(
                        fold_digest_v(batch_accs(pv, sigs, prfs)),
                    ))
                    &&& c.snarks@.len() == proofs@.len()
                    &&& forall|i: int|
                        0 <= i < c.snarks@.len() ==> c.snarks@[i]@ == known_snark_v(
                            pv,
                            sigs[i],
                            prfs[i],
                        )
                })
            }),
    {
        let ghost pv = vk_protocol_v(vk);
        let ghost sigs = sig_views(public_signals@);
        let ghost prfs = byte_views(proofs@);
        let protocol = match compile(vk) {
            Ok(p) => p,
            Err(e) => {
                return Err(e);
            },
        };
        proof {
            assert(protocol@.ic =~= pv.ic);
        }
        let mut accs: Vec<Accumulator> = Vec::new();
        let mut i: usize = 0;
        while i < proofs.len()
            invariant
                0 <= i <= proofs@.len(),
                public_signals@.len() == proofs@.len(),
                protocol.wf(),
                protocol@ == pv,
                sigs == sig_views(public_signals@),
                prfs == byte_views(proofs@),
                accs@.len() == i,
                forall|k: int|
                    0 <= k < i ==> sigs[k].len() == pv.num_public && prfs[k].len() == 96
                        * pv.num_comms + 64 && proof_points_ok(pv, prfs[k]),
                forall|k: int| 0 <= k < i ==> accs@[k]@ == sv_acc_v(pv, sigs[k], prfs[k]),
                forall|k: int| 0 <= k < i ==> acc_on_curve(#[trigger] accs@[k]@),
            decreases proofs@.len() - i,
        {
            match succinct_verify(&protocol, &public_signals[i], &proofs[i]) {
                Ok(a) => {
                    accs.push(a);
                },
                Err(e) => {
                    proof {
                        assert(!(sigs[i as int].len() == pv.num_public && prfs[i as int].len()
                            == 96 * pv.num_comms + 64 && proof_points_ok(pv, prfs[i as int])));
                    }
                    return Err(e);
                },
            }
            i += 1;
        }
        proof {
            assert(views_of(accs@) =~= batch_accs(pv, sigs, prfs));
        }
        let (folded, as_proof_opt) = create_fold(&accs);
        proof {
            if accs@.len() == 1 {
                assert(folded@ == batch_folded(pv, sigs, prfs));
            }
        }
        proof {
            if accs@.len() == 1 {
                assert(folded@ == accs@[0]@);
            }
            assert(acc_on_curve(folded@));
        }
        if !decide(&folded, &vk.dk) {
            return Err(Error::AccumulatorInvalid);
        }
        let mut inst: Vec<u128> = decompose(&folded.lhs.x);
        let mut d1 = decompose(&folded.lhs.y);
        let mut d2 = decompose(&folded.rhs.x);
        let mut d3 = decompose(&folded.rhs.y);
        inst.append(&mut d1);
        inst.append(&mut d2);
        inst.append(&mut d3);
        proof {
            assert(limb_seq(inst@) =~= instance_limbs(folded@));
        }
        let mut snarks: Vec<SnarkWitness> = Vec::new();
        let mut s: usize = 0;
        while s < proofs.len()
            invariant
                0 <= s <= proofs@.len(),
                public_signals@.len() == proofs@.len(),
                protocol@ == pv,
                sigs == sig_views(public_signals@),
                prfs == byte_views(proofs@),
                snarks@.len() == s,
                forall|k: int|
                    0 <= k < s ==> snarks@[k]@ == known_snark_v(pv, sigs[k], prfs[k]),
            decreases proofs@.len() - s,
        {
            let mut col: Vec<Wit<Fe>> = Vec::new();
            let mut j: usize = 0;
            let siglen = public_signals[s].len();
            while j < siglen
                invariant
                    0 <= j <= siglen,
                    s < public_signals@.len(),
                    siglen == public_signals@[s as int]@.len(),
                    col@.len() == j,
                    forall|t: int|
                        0 <= t < j ==> col@[t] == Wit::<Fe>::Known(
                            public_signals@[s as int]@[t],
                        ),
                decreases siglen - j,
            {
                col.push(Wit::Known(public_signals[s][j]));
                j += 1;
            }
            let mut cols: Vec<Vec<Wit<Fe>>> = Vec::new();
            cols.push(col);
            let w = SnarkWitness {
                protocol: clone_protocol(&protocol),
                instances: cols,
                proof: Wit::Known(copy_bytes(&proofs[s])),
            };
            proof {
                assert(w@.instances =~~= known_snark_v(pv, sigs[s as int], prfs[s as int]).instances);
                assert(w@ == known_snark_v(pv, sigs[s as int], prfs[s as int]));
            }
            snarks.push(w);
            s += 1;
        }
        let as_proof = match as_proof_opt {
            Some(p) => Wit::Known(p.bytes),
            None => Wit::Unknown,
        };
        Ok(Accumulation { snarks, instances: inst, dk: vk.dk, as_proof })
    }

    /// The positions of the accumulator limbs inside the instance
    /// vector: the first sixteen cells of the single instance column.
    pub fn accumulator_indices() -> (r: Vec<(usize, usize)>)
        ensures
            r@.len() == 16,
            forall|i: int| 0 <= i < 16 ==> r@[i] == (0usize, i as usize),
    {
        let mut out: Vec<(usize, usize)> = Vec::new();
        let mut i: usize = 0;
        while i < 16
            invariant
                0 <= i <= 16,
                out@.len() == i,
                forall|k: int| 0 <= k < i ==> out@[k] == (0usize, k as usize),
            decreases 16 - i,
        {
            out.push((0, i));
            i += 1;
        }
        out
    }

    /// The instance-column widths of the aggregation circuit: one column
    /// of sixteen limbs, whatever the batch size.
    pub fn num_instance() -> (r: Vec<usize>)
        ensures
            r@ =~= seq![16usize],
    {
        let mut out: Vec<usize> = Vec::new();
        out.push(16);
        out
    }

    /// The public instance the circuit exposes: its single column.
    pub fn instances(&self) -> (r: Vec<Vec<u128>>)
        ensures
            r@.len() == 1,
            r@[0]@ == self.instances@,
    {
        let mut col: Vec<u128> = Vec::new();
        let mut i: usize = 0;
        while i < self.instances.len()
            invariant
                0 <= i <= self.instances@.len(),
                col@ == self.instances@.take(i as int),
            decreases self.instances@.len() - i,
        {
            col.push(self.instances[i]);
            proof {
                assert(self.instances@.take(i as int).push(self.instances@[i as int])
                    =~= self.instances@.take(i + 1));
            }
            i += 1;
        }
        proof {
            assert(self.instances@.take(self.instances@.len() as int) =~= self.instances@);
        }
        let mut out: Vec<Vec<u128>> = Vec::new();
        out.push(col);
        out
    }

    /// The accumulation-proof slot, as the circuit reads it.
    pub fn as_proof(&self) -> (r: &Wit<Vec<u8>>)
        ensures
            r == self.as_proof,
    {
        &self.as_proof
    }

    /// The circuit with every witness slot blanked: batch size, shapes
    /// and the instance stay; all values become unknown.
    pub fn without_witnesses(&self) -> (r: Accumulation)
        ensures
            r.snarks@.len() == self.snarks@.len(),
            forall|i: int|
                0 <= i < r.snarks@.len() ==> shape_of(r.snarks@[i]@) == shape_of(
                    self.snarks@[i]@,
                ) && all_unknown(r.snarks@[i]@),
            r.instances@ == self.instances@,
            wit_bytes_v(r.as_proof) is Unknown,
            r.dk == self.dk,
    {
        let mut snarks: Vec<SnarkWitness> = Vec::new();
        let mut i: usize = 0;
        while i < self.snarks.len()
            invariant
                0 <= i <= self.snarks@.len(),
                snarks@.len() == i,
                forall|k: int|
                    0 <= k < i ==> shape_of(snarks@[k]@) == shape_of(self.snarks@[k]@)
                        && all_unknown(snarks@[k]@),
            decreases self.snarks@.len() - i,
        {
            snarks.push(self.snarks[i].without_witnesses());
            i += 1;
        }
        let mut inst: Vec<u128> = Vec::new();
        let mut j: usize = 0;
        while j < self.instances.len()
            invariant
                0 <= j <= self.instances@.len(),
                inst@ == self.instances@.take(j as int),
            decreases self.instances@.len() - j,
        {
            inst.push(self.instances[j]);
            proof {
                assert(self.instances@.take(j as int).push(self.instances@[j as int])
                    =~= self.instances@.take(j + 1));
            }
            j += 1;
        }
        proof {
            assert(self.instances@.take(self.instances@.len() as int) =~= self.instances@);
        }
        Accumulation { snarks, instances: inst, dk: self.dk, as_proof: Wit::Unknown }
    }
}

/// Single-proof identity: a batch of exactly one proof folds to the
/// succinct verifier's direct output for that proof — no folding path is
/// exercised and no accumulation proof exists.
pub proof fn lemma_single_proof_identity(pv: ProtocolV, sigs: Seq<Seq<nat>>, prfs: Seq<Seq<u8>>)
    requires
        sigs.len() == 1,
        prfs.len() == 1,
    ensures
        batch_folded(pv, sigs, prfs) == sv_acc_v(pv, sigs[0], prfs[0]),
{
}

/// The signals a known snark witness carries in its single column.
pub open spec fn snark_sig_v(v: SnarkV) -> Seq<nat> {
    v.instances[0].map_values(|w: WitFeV| w->Known_0)
}

/// The proof bytes a known snark witness carries.
pub open spec fn snark_proof_v(v: SnarkV) -> Seq<u8> {
    v.proof->Known_0
}

/// Whether every slot of every snark is a concrete value, with the
/// single instance column the aggregation circuit expects.
pub open spec fn all_known(s: Seq<SnarkV>) -> bool {
    forall|i: int|
        0 <= i < s.len() ==> s[i].proof is Known && s[i].instances.len() == 1 && (forall|j: int|
            0 <= j < s[i].instances[0].len() ==> s[i].instances[0][j] is Known)
}

/// The accumulator each known snark witness succinctly verifies to.
pub open spec fn circuit_accs(s: Seq<SnarkV>) -> Seq<AccV> {
    Seq::new(s.len(), |i: int| sv_acc_v(s[i].protocol, snark_sig_v(s[i]), snark_proof_v(s[i])))
}

/// Whether every known snark witness parses against its own protocol,
/// its encoded points on the curve.
pub open spec fn circuit_ok(s: Seq<SnarkV>) -> bool {
    forall|i: int|
        0 <= i < s.len() ==> snark_sig_v(s[i]).len() == s[i].protocol.num_public
            && snark_proof_v(s[i]).len() == 96 * s[i].protocol.num_comms + 64 && proof_points_ok(
            s[i].protocol,
            snark_proof_v(s[i]),
        )
}

/// The in-circuit replay agrees with the native pipeline: over the
/// witnesses a built batch stores, the per-snark accumulators — and so
/// the fold — are exactly those the native succinct verifier produced,
/// and the replay parses successfully exactly when the batch did.
pub proof fn lemma_replay_matches_native(pv: ProtocolV, sigs: Seq<Seq<nat>>, prfs: Seq<Seq<u8>>)
    requires
        sigs.len() == prfs.len(),
    ensures
        circuit_accs(Seq::new(sigs.len(), |i: int| known_snark_v(pv, sigs[i], prfs[i])))
            == batch_accs(pv, sigs, prfs),
        circuit_ok(Seq::new(sigs.len(), |i: int| known_snark_v(pv, sigs[i], prfs[i])))
            <==> batch_ok(pv, sigs, prfs),
{
    let s = Seq::new(sigs.len(), |i: int| known_snark_v(pv, sigs[i], prfs[i]));
    assert forall|i: int| 0 <= i < s.len() implies snark_sig_v(s[i]) =~= sigs[i] && snark_proof_v(
        s[i],
    ) =~= prfs[i] by {
        assert(s[i].instances[0] =~= sigs[i].map_values(|x: nat| WitFeV::Known(x)));
    }
    assert(circuit_accs(s) =~= batch_accs(pv, sigs, prfs));
    assert forall|i: int| 0 <= i < s.len() implies (snark_sig_v(s[i]).len() == s[i].protocol.num_public
        && snark_proof_v(s[i]).len() == 96 * s[i].protocol.num_comms + 64) <==> (sigs[i].len()
        == pv.num_public && prfs[i].len() == 96 * pv.num_comms + 64) by {
        assert(snark_sig_v(s[i]) =~= sigs[i]);
        assert(snark_proof_v(s[i]) =~= prfs[i]);
    }
}

/// Replays, over the stored witnesses, what the aggregation circuit
/// proves: each snark is succinctly verified against its protocol, and
/// with more than one snark the claimed accumulation proof is checked
/// and the fold reconstructed from it.
#[verifier::loop_isolation(false)]
pub fn accumulate(snarks: &Vec<SnarkWitness>, as_proof: &Wit<Vec<u8>>) -> (r: Result<
    Accumulator,
    Error,
>)
    requires
        snarks@.len() >= 1,
        all_known(snarks@.map_values(|w: SnarkWitness| w@)),
        forall|i: int| 0 <= i < snarks@.len() ==> (#[trigger] snarks@[i]).protocol.wf(),
        snarks@.len() > 1 ==> wit_bytes_v(*as_proof) is Known,
    ensures
        ({
            let s = snarks@.map_values(|w: SnarkWitness| w@);
            let vs = circuit_accs(s);
            &&& (snarks@.len() == 1 ==> {
                &&& (r is Ok <==> circuit_ok(s))
                &&& (r matches Ok(a) ==> a@ == vs[0])
                &&& (r matches Err(e) ==> e == Error::MalformedProof)
            })
            &&& (snarks@.len() > 1 ==> {
                &&& (r is Ok <==> circuit_ok(s) && wit_bytes_v(*as_proof) == WitBytesV::Known(
                    fold_digest_v(vs),
                ))
                &&& (r matches Ok(a) ==> a@ == folded_v(vs))
                &&& (r matches Err(e) ==> if circuit_ok(s) {
                    e == Error::FoldingTranscriptError
                } else {
                    e == Error::MalformedProof
                })
            })
        }),
{
    let ghost s = snarks@.map_values(|w: SnarkWitness| w@);
    let ghost vs = circuit_accs(s);
    let mut accs: Vec<Accumulator> = Vec::new();
    let mut i: usize = 0;
    while i < snarks.len()
        invariant
            0 <= i <= snarks@.len(),
            accs@.len() == i,
            forall|k: int|
                0 <= k < i ==> snark_sig_v(s[k]).len() == s[k].protocol.num_public
                    && snark_proof_v(s[k]).len() == 96 * s[k].protocol.num_comms + 64
                    && proof_points_ok(s[k].protocol, snark_proof_v(s[k])),
            forall|k: int| 0 <= k < i ==> accs@[k]@ == vs[k],
        decreases snarks@.len() - i,
    {
        let snark = &snarks[i];
        proof {
            assert(s[i as int] == snarks@[i as int]@);
            assert(s[i as int].instances.len() == 1);
            assert(snark@.instances.len() == snark.instances@.len());
        }
        let mut sig: Vec<Fe> = Vec::new();
        let col = &snark.instances[0];
        proof {
            assert(snark@.instances[0] =~= col@.map_values(|w: Wit<Fe>| wit_fe_v(w)));
        }
        let mut j: usize = 0;
        while j < col.len()
            invariant
                0 <= j <= col@.len(),
                sig@.len() == j,
                forall|t: int|
                    0 <= t < j ==> (#[trigger] col@[t] matches Wit::Known(f) && sig@[t] == f),
            decreases col@.len() - j,
        {
            proof {
                assert(s[i as int].instances[0][j as int] is Known);
                assert(s[i as int].instances[0][j as int] == wit_fe_v(col@[j as int]));
            }
            match &col[j] {
                Wit::Known(f) => {
                    sig.push(*f);
                },
                Wit::Unknown => {
                    return Err(Error::MalformedProof);
                },
            }
            j += 1;
        }
        proof {
            assert(sigs_v(sig@) =~= snark_sig_v(s[i as int]));
        }
        let pb: &Vec<u8>;
        let slot = &snark.proof;
        proof {
            assert(s[i as int].proof is Known);
            assert(s[i as int].proof == wit_bytes_v(*slot));
        }
        match slot {
            Wit::Known(b) => {
                pb = b;
            },
            Wit::Unknown => {
                return Err(Error::MalformedProof);
            },
        }
        match succinct_verify(&snark.protocol, &sig, pb) {
            Ok(a) => {
                accs.push(a);
            },
            Err(e) => {
                proof {
                    assert(!circuit_ok(s));
                }
                return Err(e);
            },
        }
        i += 1;
    }
    if snarks.len() == 1 {
        proof {
            assert(accs@[0]@ == vs[0]);
        }
        return Ok(accs[0]);
    }
    let pb = match as_proof {
        Wit::Known(b) => b,
        Wit::Unknown => {
            return Err(Error::FoldingTranscriptError);
        },
    };
    proof {
        assert(views_of(accs@) =~= vs);
    }
    let claimed = AccumulationProof { bytes: copy_bytes(pb) };
    verify_fold(&accs, &claimed)
}

} // verus!
