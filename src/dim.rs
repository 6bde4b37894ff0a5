//! The three coordinate axes.

use vstd::prelude::*;

verus! {

/// An axis of 3-space, used to index the components of a 3-vector.
#[derive(Clone, Copy, Debug, PartialEq, Eq, Structural)]
pub enum Dim {
    X,
    Y,
    Z,
}

impl Dim {
    /// The position of the axis among `(x, y, z)`.
    pub open spec fn index_spec(self) -> usize {
        match self {
            Dim::X => 0,
            Dim::Y => 1,
            Dim::Z => 2,
        }
    }

    pub fn index(self) -> (r: usize)
        ensures
            r == self.index_spec(),
            r < 3,
    {
        match self {
            Dim::X => 0,
            Dim::Y => 1,
            Dim::Z => 2,
        }
    }
}

} // verus!
