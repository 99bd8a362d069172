use vstd::prelude::*;

verus! {

use crate::curve::{g1_on_curve, g1_on_curve_v, g2_on_curve, g2_on_curve_v};
use crate::errors::Error;
use crate::point::{DeciderKey, Point};

/// An externally produced verifying key: the commitment points of the
/// original circuit, the base the proof's evaluations are committed
/// against, the twist points of the decider, and the declared layout.
pub struct VerifyingKey {
    /// Declared number of public inputs of the original circuit.
    pub num_public: usize,
    /// Number of commitments each proof for this key carries.
    pub num_comms: usize,
    /// Public-input commitment points: one base point plus one per input.
    pub ic: Vec<Point>,
    /// The succinct-verify key: the commitment base point.
    pub base: Point,
    /// The decider key.
    pub dk: DeciderKey,
}

/// The compiled, circuit-agnostic descriptor that drives succinct
/// verification.
pub struct Protocol {
    pub num_public: usize,
    pub num_comms: usize,
    pub ic: Vec<Point>,
    pub base: Point,
}

impl Protocol {
    /// A protocol the succinct verifier can run: the input commitments
    /// cover every public input and lie on the curve with the base, at
    /// least one commitment is opened, and the counts keep every proof
    /// byte offset within address range.
    pub open spec fn wf(&self) -> bool {
        &&& self.ic@.len() == self.num_public + 1
        &&& 1 <= self.num_comms <= 0x100000
        &&& self.num_public <= 0x100000
        &&& forall|i: int| 0 <= i < self.ic@.len() ==> g1_on_curve_v(#[trigger] self.ic@[i]@)
        &&& g1_on_curve_v(self.base@)
    }
}

/// Whether a verifying key is consistent with the expected circuit
/// family: its commitment count must match its public-input layout, its
/// counts must stay within the supported range, and every point it
/// carries must lie on its curve.
pub open spec fn vk_consistent(vk: &VerifyingKey) -> bool {
    &&& vk.ic@.len() == vk.num_public + 1
    &&& 1 <= vk.num_comms <= 0x100000
    &&& vk.num_public <= 0x100000
    &&& forall|i: int| 0 <= i < vk.ic@.len() ==> g1_on_curve_v(#[trigger] vk.ic@[i]@)
    &&& g1_on_curve_v(vk.base@)
    &&& g2_on_curve_v(vk.dk.g2@)
    &&& g2_on_curve_v(vk.dk.s_g2@)
}

/// Compiles a verifying key into a protocol descriptor: a pure,
/// deterministic translation that fails exactly on an inconsistent key.
pub fn compile(vk: &VerifyingKey) -> (r: Result<Protocol, Error>)
    ensures
        vk_consistent(vk) <==> r is Ok,
        r matches Ok(p) ==> {
            &&& p.wf()
            &&& p.num_public == vk.num_public
            &&& p.num_comms == vk.num_comms
            &&& p.ic@ == vk.ic@
            &&& p.base == vk.base
        },
        r matches Err(e) ==> e == Error::MalformedKey,
{
    if vk.num_comms < 1 || vk.num_comms > 0x100000 || vk.num_public > 0x100000 {
        return Err(Error::MalformedKey);
    }
    if vk.ic.len() != vk.num_public + 1 {
        return Err(Error::MalformedKey);
    }
    if !g1_on_curve(&vk.base) || !g2_on_curve(&vk.dk.g2) || !g2_on_curve(&vk.dk.s_g2) {
        return Err(Error::MalformedKey);
    }
    let mut ic: Vec<Point> = Vec::new();
    let mut i: usize = 0;
    while i < vk.ic.len()
        invariant
            0 <= i <= vk.ic@.len(),
            ic@ == vk.ic@.take(i as int),
            forall|k: int| 0 <= k < i ==> g1_on_curve_v(#[trigger] vk.ic@[k]@),
        decreases vk.ic@.len() - i,
    {
        if !g1_on_curve(&vk.ic[i]) {
            return Err(Error::MalformedKey);
        }
        ic.push(vk.ic[i]);
        proof {
            assert(vk.ic@.take(i as int).push(vk.ic@[i as int]) =~= vk.ic@.take(i + 1));
        }
        i += 1;
    }
    proof {
        assert(vk.ic@.take(vk.ic@.len() as int) =~= vk.ic@);
    }
    Ok(Protocol { num_public: vk.num_public, num_comms: vk.num_comms, ic, base: vk.base })
}

} // verus!
