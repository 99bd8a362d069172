use vstd::prelude::*;

verus! {

use crate::circuit::{Accumulation, SnarkShapeV, SnarkV, shape_of};
use crate::errors::Error;

/// The structured reference string, as the pipeline reads it: the number
/// of circuit rows its degree bound supports.
pub struct Srs {
    pub rows: u64,
}

/// Keys for the aggregation circuit, derived from the reference string
/// and the circuit's shape alone: no witness value enters them.
#[derive(Clone, Copy, Debug, PartialEq, Eq, Structural)]
pub struct ProvingKey {
    /// The row capacity the reference string granted.
    pub rows: u64,
    /// The row count the generating circuit's shape requires.
    pub cells: u64,
}

#[derive(Clone, Copy, Debug, PartialEq, Eq, Structural)]
pub struct AggVerifyingKey {
    pub rows: u64,
    pub cells: u64,
}

/// The rows one aggregated snark contributes: its public inputs plus the
/// cells its proof bytes occupy.
pub open spec fn snark_cells_v(sh: SnarkShapeV) -> nat {
    sh.protocol.num_public + 96 * sh.protocol.num_comms + 64
}

/// The rows an aggregation circuit needs: its sixteen instance cells
/// plus each snark's contribution. A function of the shape alone.
pub open spec fn required_cells_v(shapes: Seq<SnarkShapeV>) -> nat
    decreases shapes.len(),
{
    if shapes.len() == 0 {
        16
    } else {
        snark_cells_v(shapes[0]) + required_cells_v(shapes.drop_first())
    }
}

pub open spec fn circuit_shapes(s: Seq<SnarkV>) -> Seq<SnarkShapeV> {
    s.map_values(|v: SnarkV| shape_of(v))
}

proof fn lemma_cells_push(s: Seq<SnarkShapeV>, x: SnarkShapeV)
    ensures
        required_cells_v(s.push(x)) == required_cells_v(s) + snark_cells_v(x),
    decreases s.len(),
{
    if s.len() == 0 {
        assert(s.push(x).drop_first() =~= Seq::<SnarkShapeV>::empty());
        assert(s.push(x)[0] == x);
        assert(required_cells_v(Seq::<SnarkShapeV>::empty()) == 16);
    } else {
        assert(s.push(x).drop_first() =~= s.drop_first().push(x));
        lemma_cells_push(s.drop_first(), x);
    }
}

/// The rows this circuit needs, measured from its shape.
#[verifier::loop_isolation(false)]
pub fn required_cells(circuit: &Accumulation) -> (r: u64)
    requires
        circuit.snarks@.len() <= 0x10000,
        forall|i: int|
            0 <= i < circuit.snarks@.len() ==> (#[trigger] circuit.snarks@[i]).protocol.wf(),
    ensures
        r == required_cells_v(circuit_shapes(circuit.snarks@.map_values(|w: crate::circuit::SnarkWitness| w@))),
{
    let ghost shapes = circuit_shapes(circuit.snarks@.map_values(|w: crate::circuit::SnarkWitness| w@));
    let mut total: u64 = 16;
    proof {
        assert(shapes.take(0) =~= Seq::<SnarkShapeV>::empty());
    }
    let mut i: usize = 0;
    while i < circuit.snarks.len()
        invariant
            0 <= i <= circuit.snarks@.len(),
            total == required_cells_v(shapes.take(i as int)),
            total <= 16 + i * 0x8000000,
        decreases circuit.snarks@.len() - i,
    {
        let p = &circuit.snarks[i].protocol;
        let cells: u64 = (p.num_public as u64) + 96 * (p.num_comms as u64) + 64;
        total = total + cells;
        proof {
            lemma_cells_push(shapes.take(i as int), shapes[i as int]);
            assert(shapes.take(i as int).push(shapes[i as int]) =~= shapes.take(i + 1));
            assert(shapes[i as int] == shape_of(circuit.snarks@[i as int]@));
            assert(cells == snark_cells_v(shapes[i as int]));
        }
        i += 1;
    }
    proof {
        assert(shapes.take(shapes.len() as int) =~= shapes);
    }
    total
}

/// Derives proving and verifying keys for the aggregation circuit.
/// Generation looks only at the circuit's shape — the concrete witness
/// values play no part in either key — and fails exactly when the
/// reference string's degree bound is below the circuit's required row
/// count.
pub fn gen_keys(srs: &Srs, circuit: &Accumulation) -> (r: Result<
    (ProvingKey, AggVerifyingKey),
    Error,
>)
    requires
        circuit.snarks@.len() <= 0x10000,
        forall|i: int|
            0 <= i < circuit.snarks@.len() ==> (#[trigger] circuit.snarks@[i]).protocol.wf(),
    ensures
        r is Ok <==> required_cells_v(circuit_shapes(circuit.snarks@.map_values(|w: crate::circuit::SnarkWitness| w@)))
            <= srs.rows,
        r matches Err(e) ==> e == Error::InsufficientSrsDegree,
        r matches Ok(k) ==> {
            &&& k.0.rows == srs.rows
            &&& k.0.cells == required_cells_v(
                circuit_shapes(circuit.snarks@.map_values(|w: crate::circuit::SnarkWitness| w@)),
            )
            &&& k.1.rows == srs.rows
            &&& k.1.cells == k.0.cells
        },
{
    let req = required_cells(circuit);
    if req > srs.rows {
        return Err(Error::InsufficientSrsDegree);
    }
    Ok((ProvingKey { rows: srs.rows, cells: req }, AggVerifyingKey { rows: srs.rows, cells: req }))
}

/// Admits a concrete circuit to proving under an existing key: the key
/// fits exactly when its row capacity covers the circuit's shape.
pub fn prepare_proving(pk: &ProvingKey, circuit: &Accumulation) -> (r: Result<(), Error>)
    requires
        circuit.snarks@.len() <= 0x10000,
        forall|i: int|
            0 <= i < circuit.snarks@.len() ==> (#[trigger] circuit.snarks@[i]).protocol.wf(),
    ensures
        r is Ok <==> required_cells_v(circuit_shapes(circuit.snarks@.map_values(|w: crate::circuit::SnarkWitness| w@)))
            <= pk.rows,
        r matches Err(e) ==> e == Error::InsufficientSrsDegree,
{
    let req = required_cells(circuit);
    if req > pk.rows {
        return Err(Error::InsufficientSrsDegree);
    }
    Ok(())
}

/// Key reusability: a key generated for one shape admits every concrete
/// circuit of that same shape — the admission test reads nothing but
/// the shape, so no regeneration is ever needed.
pub proof fn lemma_key_reusability(structural: Seq<SnarkV>, concrete: Seq<SnarkV>, rows: nat)
    requires
        circuit_shapes(structural) == circuit_shapes(concrete),
        required_cells_v(circuit_shapes(structural)) <= rows,
    ensures
        required_cells_v(circuit_shapes(concrete)) <= rows,
{
}

/// Key generation depends on the circuit's shape alone: under one
/// reference string, two circuits of one shape — a blanked one and a
/// concrete one alike — receive identical keys, whatever witness values
/// each carries.
pub proof fn lemma_keys_shape_only(
    k1: ProvingKey,
    k2: ProvingKey,
    rows: u64,
    s1: Seq<SnarkV>,
    s2: Seq<SnarkV>,
)
    requires
        circuit_shapes(s1) == circuit_shapes(s2),
        k1.rows == rows,
        k2.rows == rows,
        k1.cells == required_cells_v(circuit_shapes(s1)),
        k2.cells == required_cells_v(circuit_shapes(s2)),
    ensures
        k1 == k2,
{
}

/// The cheap structural satisfaction check run before expensive proving:
/// the claimed instance must be exactly the circuit's single column.
pub fn check_instances(circuit: &Accumulation, claimed: &Vec<Vec<u128>>) -> (r: Result<(), Error>)
    ensures
        r is Ok <==> claimed@.len() == 1 && claimed@[0]@ == circuit.instances@,
        r matches Err(e) ==> e == Error::UnsatisfiedCircuit,
{
    if claimed.len() != 1 {
        return Err(Error::UnsatisfiedCircuit);
    }
    let col = &claimed[0];
    if col.len() != circuit.instances.len() {
        proof {
            assert(claimed@[0]@.len() != circuit.instances@.len());
        }
        return Err(Error::UnsatisfiedCircuit);
    }
    let mut i: usize = 0;
    while i < col.len()
        invariant
            0 <= i <= col@.len(),
            col@.len() == circuit.instances@.len(),
            col == claimed@[0],
            forall|j: int| 0 <= j < i ==> col@[j] == circuit.instances@[j],
        decreases col@.len() - i,
    {
        if col[i] != circuit.instances[i] {
            proof {
                assert(col@[i as int] != circuit.instances@[i as int]);
            }
            return Err(Error::UnsatisfiedCircuit);
        }
        i += 1;
    }
    proof {
        assert(claimed@[0]@ =~= circuit.instances@);
    }
    Ok(())
}

/// Accepts a freshly created proof only when its immediate
/// self-verification passed: an unaccepted proof is a hard error and is
/// never published.
pub fn finish_proving(proof_bytes: Vec<u8>, accepted: bool) -> (r: Result<Vec<u8>, Error>)
    ensures
        accepted <==> r is Ok,
        r matches Ok(b) ==> b@ == proof_bytes@,
        r matches Err(e) ==> e == Error::ProofRejected,
{
    if accepted {
        Ok(proof_bytes)
    } else {
        Err(Error::ProofRejected)
    }
}

} // verus!
