use vstd::prelude::*;

verus! {

/// One calldata word: a limb's sixteen little-endian bytes, padded to
/// the 32-byte cell the compiled verifier reads.
pub open spec fn word_of_limb(l: u128) -> Seq<u8> {
    vstd::bytes::spec_u128_to_le_bytes(l) + Seq::new(16, |i: int| 0u8)
}

pub open spec fn words_v(ls: Seq<u128>) -> Seq<u8>
    decreases ls.len(),
{
    if ls.len() == 0 {
        Seq::empty()
    } else {
        word_of_limb(ls[0]) + words_v(ls.drop_first())
    }
}

/// The byte layout the compiled on-chain verifier decodes: every
/// instance limb as one 32-byte word, then the proof bytes verbatim.
pub open spec fn calldata_v(ls: Seq<u128>, proof: Seq<u8>) -> Seq<u8> {
    words_v(ls) + proof
}

proof fn lemma_words_push(s: Seq<u128>, x: u128)
    ensures
        words_v(s.push(x)) == words_v(s) + word_of_limb(x),
    decreases s.len(),
{
    if s.len() == 0 {
        assert(s.push(x).drop_first() =~= Seq::<u128>::empty());
        assert(s.push(x)[0] == x);
        assert(words_v(Seq::<u128>::empty()) =~= Seq::<u8>::empty());
        assert(words_v(s.push(x)) =~= word_of_limb(x));
        assert(words_v(s) + word_of_limb(x) =~= word_of_limb(x));
    } else {
        assert(s.push(x).drop_first() =~= s.drop_first().push(x));
        lemma_words_push(s.drop_first(), x);
        assert(words_v(s.push(x)) =~= words_v(s) + word_of_limb(x));
    }
}

/// Serializes instance limbs and proof bytes into exactly the layout
/// the compiled verifier expects.
#[verifier::loop_isolation(false)]
pub fn encode_calldata(instances: &Vec<u128>, proof: &Vec<u8>) -> (r: Vec<u8>)
    ensures
        r@ == calldata_v(instances@, proof@),
{
    let mut out: Vec<u8> = Vec::new();
    proof {
        assert(instances@.take(0) =~= Seq::<u128>::empty());
        assert(out@ =~= words_v(instances@.take(0)));
    }
    let mut i: usize = 0;
    while i < instances.len()
        invariant
            0 <= i <= instances@.len(),
            out@ == words_v(instances@.take(i as int)),
        decreases instances@.len() - i,
    {
        let mut wb = vstd::bytes::u128_to_le_bytes(instances[i]);
        out.append(&mut wb);
        let mut z: usize = 0;
        while z < 16
            invariant
                0 <= z <= 16,
                out@ == words_v(instances@.take(i as int)) + vstd::bytes::spec_u128_to_le_bytes(
                    instances@[i as int],
                ) + Seq::new(z as nat, |t: int| 0u8),
            decreases 16 - z,
        {
            out.push(0);
            proof {
                assert(Seq::new((z + 1) as nat, |t: int| 0u8) =~= Seq::new(
                    z as nat,
                    |t: int| 0u8,
                ).push(0u8));
                assert(out@ =~= words_v(instances@.take(i as int))
                    + vstd::bytes::spec_u128_to_le_bytes(instances@[i as int]) + Seq::new(
                    (z + 1) as nat,
                    |t: int| 0u8,
                ));
            }
            z += 1;
        }
        proof {
            lemma_words_push(instances@.take(i as int), instances@[i as int]);
            assert(instances@.take(i as int).push(instances@[i as int]) =~= instances@.take(
                i + 1,
            ));
            assert(out@ =~= words_v(instances@.take(i + 1)));
        }
        i += 1;
    }
    proof {
        assert(instances@.take(instances@.len() as int) =~= instances@);
    }
    let mut j: usize = 0;
    while j < proof.len()
        invariant
            0 <= j <= proof@.len(),
            out@ == words_v(instances@) + proof@.take(j as int),
        decreases proof@.len() - j,
    {
        out.push(proof[j]);
        proof {
            assert(words_v(instances@) + proof@.take(j + 1) =~= (words_v(instances@)
                + proof@.take(j as int)).push(proof@[j as int]));
        }
        j += 1;
    }
    proof {
        assert(proof@.take(proof@.len() as int) =~= proof@);
    }
    out
}

} // verus!
