use vstd::prelude::*;

verus! {

use crate::field::{Fe, fe_from_u128, fe_val};

/// What the transcript hash returns: a Keccak-256 digest, a function of
/// the input bytes alone.
pub uninterp spec fn keccak_of(data: Seq<u8>) -> Seq<u8>;

/// Relies on the hash crate's Keccak-256: a 32-byte digest that depends
/// on the input bytes alone.
#[verifier::external_body]
pub(crate) fn keccak256(data: &Vec<u8>) -> (r: Vec<u8>)
    ensures
        r@ == keccak_of(data@),
        r@.len() == 32,
{
    let d = <sha3::Keccak256 as sha3::Digest>::digest(data.as_slice());
    d.as_slice().to_vec()
}

/// The digest after `i` further rounds of hashing: the transcript's
/// challenge stream.
pub open spec fn chain_digest(d0: Seq<u8>, i: nat) -> Seq<u8>
    decreases i,
{
    if i == 0 {
        d0
    } else {
        keccak_of(chain_digest(d0, (i - 1) as nat))
    }
}

/// The challenge a digest induces: its low sixteen bytes read as a
/// little-endian integer.
pub open spec fn digest_scalar(d: Seq<u8>) -> nat {
    vstd::bytes::spec_u128_from_le_bytes(d.subrange(0, 16)) as nat
}

pub fn challenge_from_digest(d: &Vec<u8>) -> (c: Fe)
    requires
        d@.len() >= 16,
    ensures
        fe_val(c) == digest_scalar(d@),
{
    let s = vstd::slice::slice_subrange(d.as_slice(), 0, 16);
    let k = vstd::bytes::u128_from_le_bytes(s);
    fe_from_u128(k)
}

/// The 32-byte little-endian serialization of a 256-bit value, as the
/// transcript absorbs coordinates.
pub open spec fn le_bytes32_of(v: nat) -> Seq<u8> {
    vstd::bytes::spec_u64_to_le_bytes((v % 0x10000000000000000) as u64)
        + vstd::bytes::spec_u64_to_le_bytes(((v / 0x10000000000000000) % 0x10000000000000000) as u64)
        + vstd::bytes::spec_u64_to_le_bytes(
        ((v / (0x10000000000000000 * 0x10000000000000000)) % 0x10000000000000000) as u64,
    ) + vstd::bytes::spec_u64_to_le_bytes(
        ((v / (0x10000000000000000 * 0x10000000000000000 * 0x10000000000000000))
            % 0x10000000000000000) as u64,
    )
}

/// Each word of a four-word value is the matching base-2^64 digit of the
/// value it stands for.
pub proof fn lemma_fe_words(e: Fe)
    ensures
        e.w[0] == fe_val(e) % 0x10000000000000000,
        e.w[1] == (fe_val(e) / 0x10000000000000000) % 0x10000000000000000,
        e.w[2] == (fe_val(e) / (0x10000000000000000 * 0x10000000000000000))
            % 0x10000000000000000,
        e.w[3] == (fe_val(e) / (0x10000000000000000 * 0x10000000000000000
            * 0x10000000000000000)) % 0x10000000000000000,
{
    let p: int = 0x10000000000000000;
    let v = fe_val(e) as int;
    let w0 = e.w[0] as int;
    let w1 = e.w[1] as int;
    let w2 = e.w[2] as int;
    let w3 = e.w[3] as int;
    assert(v == w0 + w1 * p + w2 * (p * p) + w3 * (p * p * p)) by (nonlinear_arith)
        requires
            v == w0 + w1 * 0x10000000000000000 + w2 * 0x100000000000000000000000000000000 + w3
                * 0x1000000000000000000000000000000000000000000000000,
            p == 0x10000000000000000,
    ;
    assert(v == (w1 + p * (w2 + p * w3)) * p + w0) by (nonlinear_arith)
        requires
            v == w0 + w1 * p + w2 * (p * p) + w3 * (p * p * p),
    ;
    vstd::arithmetic::div_mod::lemma_fundamental_div_mod_converse(
        v,
        p,
        w1 + p * (w2 + p * w3),
        w0,
    );
    let q1 = w1 + p * (w2 + p * w3);
    assert(q1 == (w2 + p * w3) * p + w1) by (nonlinear_arith)
        requires
            q1 == w1 + p * (w2 + p * w3),
    ;
    vstd::arithmetic::div_mod::lemma_fundamental_div_mod_converse(q1, p, w2 + p * w3, w1);
    let q2 = w2 + p * w3;
    assert(q2 == w3 * p + w2) by (nonlinear_arith)
        requires
            q2 == w2 + p * w3,
    ;
    vstd::arithmetic::div_mod::lemma_fundamental_div_mod_converse(q2, p, w3, w2);
    vstd::arithmetic::div_mod::lemma_fundamental_div_mod_converse(w3, p, 0, w3);
    assert(v / p == q1);
    assert(q1 / p == q2);
    assert(q2 / p == w3);
    vstd::arithmetic::div_mod::lemma_div_denominator(v, p, p);
    assert(v / (p * p) == q2);
    vstd::arithmetic::div_mod::lemma_div_denominator(v, p * p, p);
    assert((p * p) * p == p * p * p) by (nonlinear_arith);
    assert(v / (p * p * p) == w3);
}

/// Serializes a 256-bit value into 32 little-endian bytes.
pub fn fe_to_bytes(e: &Fe) -> (b: Vec<u8>)
    ensures
        b@ == le_bytes32_of(fe_val(*e)),
        b@.len() == 32,
{
    let mut out = vstd::bytes::u64_to_le_bytes(e.w[0]);
    let mut b1 = vstd::bytes::u64_to_le_bytes(e.w[1]);
    let mut b2 = vstd::bytes::u64_to_le_bytes(e.w[2]);
    let mut b3 = vstd::bytes::u64_to_le_bytes(e.w[3]);
    out.append(&mut b1);
    out.append(&mut b2);
    out.append(&mut b3);
    proof {
        lemma_fe_words(*e);
        vstd::bytes::lemma_auto_spec_u64_to_from_le_bytes();
        assert(out@ =~= le_bytes32_of(fe_val(*e)));
    }
    out
}

} // verus!
