use vstd::prelude::*;

verus! {

/// A 256-bit value carried as four little-endian 64-bit words: the form in
/// which base-field coordinates and scalars travel through the pipeline.
#[derive(Clone, Copy, Debug)]
pub struct Fe {
    pub w: [u64; 4],
}

/// The integer a four-word value stands for.
pub open spec fn fe_val(e: Fe) -> nat {
    (e.w[0] + e.w[1] * 0x10000000000000000 + e.w[2] * 0x100000000000000000000000000000000
        + e.w[3] * 0x1000000000000000000000000000000000000000000000000) as nat
}

impl View for Fe {
    type V = nat;

    open spec fn view(&self) -> nat {
        fe_val(*self)
    }
}

/// Base of one limb of the foreign-field representation: two to the 68.
pub open spec fn limb_base() -> nat {
    0x100000000000000000
}

pub fn fe_from_u128(k: u128) -> (r: Fe)
    ensures
        fe_val(r) == k,
{
    let lo: u64 = k as u64;
    let hi: u64 = (k >> 64) as u64;
    proof {
        assert(k == (k as u64) + ((k >> 64) as u64) * 0x10000000000000000) by (bit_vector);
    }
    Fe { w: [lo, hi, 0, 0] }
}

/// The integer a little-endian sequence of limbs stands for, base two to
/// the 68.
pub open spec fn limbs_value(s: Seq<nat>) -> nat
    decreases s.len(),
{
    if s.len() == 0 {
        0
    } else {
        s[0] + limbs_value(s.drop_first()) * limb_base()
    }
}

/// The first `n` base-2^68 limbs of `v`, least significant first.
pub open spec fn decompose_rec(v: nat, n: nat) -> Seq<nat>
    decreases n,
{
    if n == 0 {
        Seq::empty()
    } else {
        seq![v % limb_base()].add(decompose_rec(v / limb_base(), (n - 1) as nat))
    }
}

/// `limb_base()` to the `n`: the count of values `n` limbs can carry.
pub open spec fn pow_b(n: nat) -> nat
    decreases n,
{
    if n == 0 {
        1
    } else {
        limb_base() * pow_b((n - 1) as nat)
    }
}

pub open spec fn limbs_in_range(s: Seq<nat>) -> bool {
    forall|i: int| 0 <= i < s.len() ==> s[i] < limb_base()
}

/// The limbs of the decomposition, as unsigned 128-bit values.
pub open spec fn limb_seq(s: Seq<u128>) -> Seq<nat> {
    s.map_values(|l: u128| l as nat)
}

/// Limb round trip, one half: the decomposition of any value that `n`
/// limbs can carry recomposes to that value.
pub proof fn lemma_limb_round_trip(v: nat, n: nat)
    requires
        v < pow_b(n),
    ensures
        decompose_rec(v, n).len() == n,
        limbs_in_range(decompose_rec(v, n)),
        limbs_value(decompose_rec(v, n)) == v,
    decreases n,
{
    if n == 0 {
        assert(decompose_rec(v, 0) =~= Seq::<nat>::empty());
    } else {
        let b = limb_base() as int;
        vstd::arithmetic::div_mod::lemma_fundamental_div_mod(v as int, b);
        vstd::arithmetic::div_mod::lemma_div_is_ordered_by_denominator(v as int, 1, b);
        assert(v / limb_base() < pow_b((n - 1) as nat)) by {
            vstd::arithmetic::div_mod::lemma_multiply_divide_lt(
                v as int,
                b,
                pow_b((n - 1) as nat) as int,
            );
        }
        lemma_limb_round_trip(v / limb_base(), (n - 1) as nat);
        let s = decompose_rec(v, n);
        assert(s.drop_first() =~= decompose_rec(v / limb_base(), (n - 1) as nat));
        assert(s[0] == v % limb_base());
        vstd::arithmetic::div_mod::lemma_mod_bound(v as int, b);
    }
}

/// Limb round trip, the other half: two in-range limb sequences of one
/// length with one recomposed value are the same sequence, so
/// decomposition is canonical.
pub proof fn lemma_limbs_value_unique(s: Seq<nat>, t: Seq<nat>)
    requires
        s.len() == t.len(),
        limbs_in_range(s),
        limbs_in_range(t),
        limbs_value(s) == limbs_value(t),
    ensures
        s == t,
    decreases s.len(),
{
    if s.len() == 0 {
        assert(s =~= t);
    } else {
        let b = limb_base() as int;
        let x = limbs_value(s) as int;
        vstd::arithmetic::div_mod::lemma_fundamental_div_mod_converse(
            x,
            b,
            limbs_value(s.drop_first()) as int,
            s[0] as int,
        );
        vstd::arithmetic::div_mod::lemma_fundamental_div_mod_converse(
            x,
            b,
            limbs_value(t.drop_first()) as int,
            t[0] as int,
        );
        assert(limbs_in_range(s.drop_first()));
        assert(limbs_in_range(t.drop_first()));
        lemma_limbs_value_unique(s.drop_first(), t.drop_first());
        assert(s[0] == t[0]);
        assert forall|i: int| 0 <= i < s.len() implies s[i] == t[i] by {
            if i > 0 {
                assert(s[i] == s.drop_first()[i - 1]);
                assert(t[i] == t.drop_first()[i - 1]);
            }
        }
        assert(s =~= t);
    }
}

proof fn lemma_value4(a: nat, b: nat, c: nat, d: nat)
    ensures
        limbs_value(seq![a, b, c, d]) == a + b * limb_base() + c * (limb_base() * limb_base())
            + d * (limb_base() * limb_base() * limb_base()),
{
    reveal_with_fuel(limbs_value, 5);
    let s = seq![a, b, c, d];
    assert(limbs_value(Seq::<nat>::empty()) == 0);
    assert(s.drop_first() =~= seq![b, c, d]);
    assert(seq![b, c, d].drop_first() =~= seq![c, d]);
    assert(seq![c, d].drop_first() =~= seq![d]);
    assert(seq![d].drop_first() =~= Seq::<nat>::empty());
    assert(limbs_value(seq![d]) == d);
    assert(limbs_value(seq![c, d]) == c + d * limb_base());
    assert(limbs_value(seq![b, c, d]) == b + (c + d * limb_base()) * limb_base());
    assert(limbs_value(s) == a + (b + (c + d * limb_base()) * limb_base()) * limb_base());
    assert(a + (b + (c + d * limb_base()) * limb_base()) * limb_base() == a + b * limb_base() + c
        * (limb_base() * limb_base()) + d * (limb_base() * limb_base() * limb_base()))
        by (nonlinear_arith);
}

proof fn lemma_regroup(w0: nat, a1: nat, h1: nat, a2: nat, h2: nat, a3: nat, h3: nat)
    ensures
        (w0 + a1 * 0x10000000000000000) + (h1 + a2 * 0x1000000000000000) * limb_base() + (h2 + a3
            * 0x100000000000000) * (limb_base() * limb_base()) + h3 * (limb_base() * limb_base()
            * limb_base()) == w0 + (a1 + h1 * 0x10) * 0x10000000000000000 + (a2 + h2 * 0x100)
            * 0x100000000000000000000000000000000 + (a3 + h3 * 0x1000)
            * 0x1000000000000000000000000000000000000000000000000,
{
    assert((w0 + a1 * 0x10000000000000000) + (h1 + a2 * 0x1000000000000000) * 0x100000000000000000
        + (h2 + a3 * 0x100000000000000) * (0x100000000000000000 * 0x100000000000000000) + h3 * (
    0x100000000000000000 * 0x100000000000000000 * 0x100000000000000000) == w0 + (a1 + h1 * 0x10)
        * 0x10000000000000000 + (a2 + h2 * 0x100) * 0x100000000000000000000000000000000 + (a3 + h3
        * 0x1000) * 0x1000000000000000000000000000000000000000000000000) by (nonlinear_arith);
}

/// Splits a 256-bit value into the four 68-bit limbs of the foreign-field
/// representation.
pub fn decompose(fe: &Fe) -> (limbs: Vec<u128>)
    ensures
        limbs@.len() == 4,
        limbs_in_range(limb_seq(limbs@)),
        limbs_value(limb_seq(limbs@)) == fe_val(*fe),
        limb_seq(limbs@) == decompose_rec(fe_val(*fe), 4),
{
    let w0: u64 = fe.w[0];
    let w1: u64 = fe.w[1];
    let w2: u64 = fe.w[2];
    let w3: u64 = fe.w[3];
    let l0: u128 = (w0 as u128) | (((w1 & 0xF) as u128) << 64);
    let l1: u128 = ((w1 >> 4) as u128) | (((w2 & 0xFF) as u128) << 60);
    let l2: u128 = ((w2 >> 8) as u128) | (((w3 & 0xFFF) as u128) << 56);
    let l3: u128 = (w3 >> 12) as u128;
    let mut limbs: Vec<u128> = Vec::new();
    limbs.push(l0);
    limbs.push(l1);
    limbs.push(l2);
    limbs.push(l3);
    proof {
        assert((w0 as u128) | (((w1 & 0xF) as u128) << 64) == (w0 as u128) + ((w1 & 0xF) as u128)
            * 0x10000000000000000) by (bit_vector);
        assert(((w1 >> 4) as u128) | (((w2 & 0xFF) as u128) << 60) == ((w1 >> 4) as u128) + ((w2
            & 0xFF) as u128) * 0x1000000000000000) by (bit_vector);
        assert(((w2 >> 8) as u128) | (((w3 & 0xFFF) as u128) << 56) == ((w2 >> 8) as u128) + ((w3
            & 0xFFF) as u128) * 0x100000000000000) by (bit_vector);
        assert(w1 == (w1 & 0xF) + (w1 >> 4) * 0x10) by (bit_vector);
        assert(w2 == (w2 & 0xFF) + (w2 >> 8) * 0x100) by (bit_vector);
        assert(w3 == (w3 & 0xFFF) + (w3 >> 12) * 0x1000) by (bit_vector);
        assert((w0 as u128) | (((w1 & 0xF) as u128) << 64) < 0x100000000000000000) by (bit_vector);
        assert(((w1 >> 4) as u128) | (((w2 & 0xFF) as u128) << 60) < 0x100000000000000000)
            by (bit_vector);
        assert(((w2 >> 8) as u128) | (((w3 & 0xFFF) as u128) << 56) < 0x100000000000000000)
            by (bit_vector);
        assert(((w3 >> 12) as u128) < 0x10000000000000) by (bit_vector);
        assert(limb_seq(limbs@) =~= seq![l0 as nat, l1 as nat, l2 as nat, l3 as nat]);
        lemma_value4(l0 as nat, l1 as nat, l2 as nat, l3 as nat);
        lemma_regroup(
            w0 as nat,
            (w1 & 0xF) as nat,
            (w1 >> 4) as nat,
            (w2 & 0xFF) as nat,
            (w2 >> 8) as nat,
            (w3 & 0xFFF) as nat,
            (w3 >> 12) as nat,
        );
        assert(limbs_value(limb_seq(limbs@)) == fe_val(*fe));
        assert(fe_val(*fe) < pow_b(4)) by {
            reveal_with_fuel(pow_b, 5);
        }
        lemma_limb_round_trip(fe_val(*fe), 4);
        lemma_limbs_value_unique(limb_seq(limbs@), decompose_rec(fe_val(*fe), 4));
    }
    limbs
}

/// Packs four 68-bit limbs back into a four-word value; the inverse of
/// `decompose`. The last limb must leave room for the words: four limbs
/// of 68 bits carry up to 272 bits, the words only 256.
pub fn recompose(limbs: &Vec<u128>) -> (fe: Fe)
    requires
        limbs@.len() == 4,
        limbs_in_range(limb_seq(limbs@)),
        limbs@[3] < 0x10000000000000,
    ensures
        fe_val(fe) == limbs_value(limb_seq(limbs@)),
{
    let l0: u128 = limbs[0];
    let l1: u128 = limbs[1];
    let l2: u128 = limbs[2];
    let l3: u128 = limbs[3];
    let w0: u64 = l0 as u64;
    let w1: u64 = ((l0 >> 64) as u64) | (((l1 as u64) & 0xFFFFFFFFFFFFFFF) << 4);
    let w2: u64 = ((l1 >> 60) as u64) | (((l2 as u64) & 0xFFFFFFFFFFFFFF) << 8);
    let w3: u64 = ((l2 >> 56) as u64) | ((l3 as u64) << 12);
    proof {
        assert(limb_seq(limbs@) =~= seq![l0 as nat, l1 as nat, l2 as nat, l3 as nat]);
        lemma_value4(l0 as nat, l1 as nat, l2 as nat, l3 as nat);
        assert(l0 < 0x100000000000000000 && l1 < 0x100000000000000000 && l2
            < 0x100000000000000000 && l3 < 0x10000000000000);
        assert(l0 < 0x100000000000000000 ==> l0 == (l0 as u64) + (((l0 >> 64) as u64) as u128)
            * 0x10000000000000000) by (bit_vector);
        assert(l1 < 0x100000000000000000 ==> l1 == ((l1 as u64) & 0xFFFFFFFFFFFFFFF) + (((l1
            >> 60) as u64) as u128) * 0x1000000000000000) by (bit_vector);
        assert(l2 < 0x100000000000000000 ==> l2 == ((l2 as u64) & 0xFFFFFFFFFFFFFF) + (((l2
            >> 56) as u64) as u128) * 0x100000000000000) by (bit_vector);
        assert(l0 < 0x100000000000000000 ==> ((l0 >> 64) as u64) | (((l1 as u64)
            & 0xFFFFFFFFFFFFFFF) << 4) == ((l0 >> 64) as u64) + ((l1 as u64) & 0xFFFFFFFFFFFFFFF)
            * 0x10) by (bit_vector);
        assert(l1 < 0x100000000000000000 ==> ((l1 >> 60) as u64) | (((l2 as u64)
            & 0xFFFFFFFFFFFFFF) << 8) == ((l1 >> 60) as u64) + ((l2 as u64) & 0xFFFFFFFFFFFFFF)
            * 0x100) by (bit_vector);
        assert((l2 < 0x100000000000000000 && l3 < 0x10000000000000) ==> ((l2 >> 56) as u64) | ((
        l3 as u64) << 12) == ((l2 >> 56) as u64) + (l3 as u64) * 0x1000) by (bit_vector);
        assert(l3 < 0x10000000000000 ==> l3 == ((l3 as u64) as u128)) by (bit_vector);
        lemma_regroup(
            (l0 as u64) as nat,
            ((l0 >> 64) as u64) as nat,
            ((l1 as u64) & 0xFFFFFFFFFFFFFFF) as nat,
            ((l1 >> 60) as u64) as nat,
            ((l2 as u64) & 0xFFFFFFFFFFFFFF) as nat,
            ((l2 >> 56) as u64) as nat,
            l3 as nat,
        );
    }
    Fe { w: [w0, w1, w2, w3] }
}

} // verus!
