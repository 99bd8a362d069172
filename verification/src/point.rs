use vstd::prelude::*;

verus! {

use crate::field::{Fe, fe_val};

/// A point of the proof curve in affine coordinates, carried as plain
/// 256-bit coordinate values.
#[derive(Clone, Copy, Debug)]
pub struct Point {
    pub x: Fe,
    pub y: Fe,
}

/// The mathematical content of a `Point`: its two coordinates as integers.
pub ghost struct PointV {
    pub x: nat,
    pub y: nat,
}

impl View for Point {
    type V = PointV;

    open spec fn view(&self) -> PointV {
        PointV { x: fe_val(self.x), y: fe_val(self.y) }
    }
}

/// A point of the pairing curve's twist: each coordinate is a degree-two
/// extension-field element, so two 256-bit values per coordinate.
#[derive(Clone, Copy, Debug)]
pub struct G2Repr {
    pub x: [Fe; 2],
    pub y: [Fe; 2],
}

pub ghost struct G2V {
    pub x0: nat,
    pub x1: nat,
    pub y0: nat,
    pub y1: nat,
}

impl View for G2Repr {
    type V = G2V;

    open spec fn view(&self) -> G2V {
        G2V {
            x0: fe_val(self.x[0]),
            x1: fe_val(self.x[1]),
            y0: fe_val(self.y[0]),
            y1: fe_val(self.y[1]),
        }
    }
}

/// The decider's key: the twist generator and its multiple by the
/// reference string's secret, the two points the final pairing check
/// pairs against.
#[derive(Clone, Copy, Debug)]
pub struct DeciderKey {
    pub g2: G2Repr,
    pub s_g2: G2Repr,
}

pub ghost struct DeciderKeyV {
    pub g2: G2V,
    pub s_g2: G2V,
}

impl View for DeciderKey {
    type V = DeciderKeyV;

    open spec fn view(&self) -> DeciderKeyV {
        DeciderKeyV { g2: self.g2@, s_g2: self.s_g2@ }
    }
}

} // verus!
