use vstd::prelude::*;

verus! {

use crate::curve::{
    g1_add, g1_add_v, g1_mul, g1_mul_v, g1_on_curve_v, g2_on_curve_v, kzg_decide, kzg_decides_v,
};
use crate::errors::Error;
use crate::point::{DeciderKey, Point, PointV};
use crate::transcript::{
    chain_digest, challenge_from_digest, digest_scalar, fe_to_bytes, keccak256, keccak_of,
    le_bytes32_of,
};

/// A partial or complete verification result: two curve points standing
/// for one deferred pairing check.
#[derive(Clone, Copy, Debug)]
pub struct Accumulator {
    pub lhs: Point,
    pub rhs: Point,
}

pub ghost struct AccV {
    pub lhs: PointV,
    pub rhs: PointV,
}

impl View for Accumulator {
    type V = AccV;

    open spec fn view(&self) -> AccV {
        AccV { lhs: self.lhs@, rhs: self.rhs@ }
    }
}

/// Proof that folding more than one accumulator was done honestly: the
/// opening digest of the folding transcript's challenge stream.
#[derive(Clone, Debug)]
pub struct AccumulationProof {
    pub bytes: Vec<u8>,
}

impl View for AccumulationProof {
    type V = Seq<u8>;

    open spec fn view(&self) -> Seq<u8> {
        self.bytes@
    }
}

pub open spec fn views_of(s: Seq<Accumulator>) -> Seq<AccV> {
    s.map_values(|a: Accumulator| a@)
}

/// Whether both points of an accumulator lie on the proof curve: the
/// validity every accumulator of the pipeline carries, established when
/// a proof is parsed and preserved by folding.
pub open spec fn acc_on_curve(a: AccV) -> bool {
    g1_on_curve_v(a.lhs) && g1_on_curve_v(a.rhs)
}

/// The bytes the folding transcript absorbs for one accumulator: its four
/// coordinates, serialized little-endian.
pub open spec fn acc_bytes_v(a: AccV) -> Seq<u8> {
    le_bytes32_of(a.lhs.x) + le_bytes32_of(a.lhs.y) + le_bytes32_of(a.rhs.x) + le_bytes32_of(
        a.rhs.y,
    )
}

pub open spec fn accs_bytes_v(s: Seq<AccV>) -> Seq<u8>
    decreases s.len(),
{
    if s.len() == 0 {
        Seq::empty()
    } else {
        acc_bytes_v(s[0]) + accs_bytes_v(s.drop_first())
    }
}

proof fn lemma_accs_bytes_push(s: Seq<AccV>, a: AccV)
    ensures
        accs_bytes_v(s.push(a)) == accs_bytes_v(s) + acc_bytes_v(a),
    decreases s.len(),
{
    if s.len() == 0 {
        assert(s.push(a).drop_first() =~= Seq::<AccV>::empty());
        assert(s.push(a)[0] == a);
        assert(accs_bytes_v(Seq::<AccV>::empty()) =~= Seq::<u8>::empty());
        assert(accs_bytes_v(s.push(a)) =~= acc_bytes_v(a));
        assert(accs_bytes_v(s) + acc_bytes_v(a) =~= acc_bytes_v(a));
    } else {
        assert(s.push(a).drop_first() =~= s.drop_first().push(a));
        lemma_accs_bytes_push(s.drop_first(), a);
        assert(accs_bytes_v(s.push(a)) =~= accs_bytes_v(s) + acc_bytes_v(a));
    }
}

/// Serializes an accumulator sequence into the folding transcript's
/// input bytes.
pub fn transcript_bytes(accs: &Vec<Accumulator>) -> (out: Vec<u8>)
    ensures
        out@ == accs_bytes_v(views_of(accs@)),
{
    let mut out: Vec<u8> = Vec::new();
    proof {
        assert(views_of(accs@).take(0) =~= Seq::<AccV>::empty());
    }
    let mut i: usize = 0;
    while i < accs.len()
        invariant
            0 <= i <= accs@.len(),
            out@ == accs_bytes_v(views_of(accs@).take(i as int)),
        decreases accs@.len() - i,
    {
        let mut b0 = fe_to_bytes(&accs[i].lhs.x);
        let mut b1 = fe_to_bytes(&accs[i].lhs.y);
        let mut b2 = fe_to_bytes(&accs[i].rhs.x);
        let mut b3 = fe_to_bytes(&accs[i].rhs.y);
        out.append(&mut b0);
        out.append(&mut b1);
        out.append(&mut b2);
        out.append(&mut b3);
        proof {
            let vs = views_of(accs@);
            lemma_accs_bytes_push(vs.take(i as int), vs[i as int]);
            assert(vs.take(i as int).push(vs[i as int]) =~= vs.take(i + 1));
            assert(out@ =~= accs_bytes_v(vs.take(i + 1)));
        }
        i += 1;
    }
    proof {
        assert(views_of(accs@).take(accs@.len() as int) =~= views_of(accs@));
    }
    out
}

/// The elementwise sum of two accumulators.
pub open spec fn combine_v(a: AccV, b: AccV) -> AccV {
    AccV { lhs: g1_add_v(a.lhs, b.lhs), rhs: g1_add_v(a.rhs, b.rhs) }
}

/// An accumulator scaled by a folding challenge.
pub open spec fn scale_v(k: nat, a: AccV) -> AccV {
    AccV { lhs: g1_mul_v(a.lhs, k), rhs: g1_mul_v(a.rhs, k) }
}

/// The fold of the first `k` accumulators: the first one plus each later
/// one scaled by the challenge the transcript yields for it.
pub open spec fn fold_upto(vs: Seq<AccV>, d0: Seq<u8>, k: nat) -> AccV
    decreases k,
{
    if k <= 1 {
        vs[0]
    } else {
        combine_v(
            fold_upto(vs, d0, (k - 1) as nat),
            scale_v(digest_scalar(chain_digest(d0, (k - 2) as nat)), vs[k - 1]),
        )
    }
}

/// The opening digest of the folding transcript over an accumulator
/// sequence; the accumulation proof carries exactly these bytes.
pub open spec fn fold_digest_v(vs: Seq<AccV>) -> Seq<u8> {
    keccak_of(accs_bytes_v(vs))
}

/// The accumulator that folding a whole sequence yields.
pub open spec fn folded_v(vs: Seq<AccV>) -> AccV {
    fold_upto(vs, fold_digest_v(vs), vs.len())
}

/// What verification of a fold returns: the folded accumulator when the
/// claimed proof matches the transcript the accumulators induce, and a
/// transcript failure otherwise.
pub open spec fn verify_fold_v(vs: Seq<AccV>, proof: Seq<u8>) -> Option<AccV> {
    if proof == fold_digest_v(vs) {
        Some(folded_v(vs))
    } else {
        None
    }
}

fn fold_with_digest(accs: &Vec<Accumulator>, d0: &Vec<u8>) -> (r: Accumulator)
    requires
        accs@.len() >= 2,
        d0@.len() == 32,
    ensures
        r@ == fold_upto(views_of(accs@), d0@, accs@.len() as nat),
        (forall|i: int| 0 <= i < accs@.len() ==> acc_on_curve(#[trigger] accs@[i]@)) ==> acc_on_curve(
            r@,
        ),
{
    let ghost vs = views_of(accs@);
    let ghost all_valid = forall|i: int| 0 <= i < accs@.len() ==> acc_on_curve(#[trigger] accs@[i]@);
    let mut cur: Accumulator = accs[0];
    let mut d_prev: Vec<u8> = d0.clone();
    proof {
        assert(chain_digest(d0@, 0) == d0@);
    }
    let mut i: usize = 1;
    while i < accs.len()
        invariant
            1 <= i <= accs@.len(),
            accs@.len() >= 2,
            vs == views_of(accs@),
            cur@ == fold_upto(vs, d0@, i as nat),
            all_valid == (forall|k: int| 0 <= k < accs@.len() ==> acc_on_curve(#[trigger] accs@[k]@)),
            all_valid ==> acc_on_curve(cur@),
            d_prev@ == chain_digest(d0@, (i - 1) as nat),
            d_prev@.len() == 32,
        decreases accs@.len() - i,
    {
        let c = challenge_from_digest(&d_prev);
        let scaled = Accumulator {
            lhs: g1_mul(&accs[i].lhs, &c),
            rhs: g1_mul(&accs[i].rhs, &c),
        };
        cur = Accumulator { lhs: g1_add(&cur.lhs, &scaled.lhs), rhs: g1_add(&cur.rhs, &scaled.rhs) };
        d_prev = keccak256(&d_prev);
        proof {
            assert(vs[i as int] == accs@[i as int]@);
            assert(fold_upto(vs, d0@, (i + 1) as nat) == combine_v(
                fold_upto(vs, d0@, i as nat),
                scale_v(digest_scalar(chain_digest(d0@, (i - 1) as nat)), vs[i as int]),
            ));
        }
        i += 1;
    }
    cur
}

/// Folds an ordered sequence of accumulators into one. One accumulator
/// passes through unchanged with no proof emitted; more than one are
/// folded over the transcript they induce, and the proof records the
/// transcript's opening digest. The folding coefficients come from the
/// transcript alone, so no key material beyond it is needed: the
/// reference string's part ends at the decider key.
pub fn create_fold(accs: &Vec<Accumulator>) -> (r: (Accumulator, Option<AccumulationProof>))
    requires
        accs@.len() >= 1,
    ensures
        accs@.len() == 1 ==> r.0 == accs@[0] && r.1 is None,
        accs@.len() > 1 ==> r.0@ == folded_v(views_of(accs@)) && (r.1 matches Some(p) && p@
            == fold_digest_v(views_of(accs@))),
        (forall|i: int| 0 <= i < accs@.len() ==> acc_on_curve(#[trigger] accs@[i]@)) ==> acc_on_curve(
            r.0@,
        ),
{
    if accs.len() == 1 {
        return (accs[0], None);
    }
    let tb = transcript_bytes(accs);
    let d0 = keccak256(&tb);
    let folded = fold_with_digest(accs, &d0);
    (folded, Some(AccumulationProof { bytes: d0 }))
}

fn bytes_eq(a: &Vec<u8>, b: &Vec<u8>) -> (r: bool)
    ensures
        r <==> a@ == b@,
{
    if a.len() != b.len() {
        proof {
            assert(a@.len() != b@.len());
        }
        return false;
    }
    let mut i: usize = 0;
    while i < a.len()
        invariant
            0 <= i <= a@.len(),
            a@.len() == b@.len(),
            forall|j: int| 0 <= j < i ==> a@[j] == b@[j],
        decreases a@.len() - i,
    {
        if a[i] != b[i] {
            proof {
                assert(a@[i as int] != b@[i as int]);
            }
            return false;
        }
        i += 1;
    }
    proof {
        assert(a@ =~= b@);
    }
    true
}

/// Re-derives a fold from the accumulators and a claimed accumulation
/// proof. The fold succeeds exactly when the proof matches the
/// transcript the accumulators themselves induce, and then reconstructs
/// the identical folded accumulator.
pub fn verify_fold(accs: &Vec<Accumulator>, proof: &AccumulationProof) -> (r: Result<
    Accumulator,
    Error,
>)
    requires
        accs@.len() >= 2,
    ensures
        verify_fold_v(views_of(accs@), proof@) matches Some(a) ==> (r matches Ok(x) && x@ == a),
        verify_fold_v(views_of(accs@), proof@) is None ==> (r matches Err(e) && e
            == Error::FoldingTranscriptError),
        (forall|i: int| 0 <= i < accs@.len() ==> acc_on_curve(#[trigger] accs@[i]@)) ==> (r
            matches Ok(x) ==> acc_on_curve(x@)),
{
    let tb = transcript_bytes(accs);
    let d0 = keccak256(&tb);
    if !bytes_eq(&proof.bytes, &d0) {
        return Err(Error::FoldingTranscriptError);
    }
    let folded = fold_with_digest(accs, &d0);
    Ok(folded)
}

/// Fold-then-verify consistency: for any accumulator sequence of more
/// than one element, verifying the fold against the proof that creating
/// the fold emits reconstructs exactly the accumulator that creating the
/// fold returned.
pub proof fn lemma_fold_then_verify(vs: Seq<AccV>)
    requires
        vs.len() > 1,
    ensures
        verify_fold_v(vs, fold_digest_v(vs)) == Some(folded_v(vs)),
{
}

/// The decider: performs the one deferred pairing check on a folded
/// accumulator. The pairing's panic freedom is supported only for points
/// of the curve and its twist, so the check demands them; the pipeline
/// establishes both when it parses proofs and compiles the key.
pub fn decide(acc: &Accumulator, dk: &DeciderKey) -> (r: bool)
    requires
        acc_on_curve(acc@),
        g2_on_curve_v(dk.g2@),
        g2_on_curve_v(dk.s_g2@),
    ensures
        r == kzg_decides_v(acc@.lhs, acc@.rhs, dk@),
{
    kzg_decide(&acc.lhs, &acc.rhs, dk)
}

} // verus!
