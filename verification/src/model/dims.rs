//! Dimensions of entrypoints and of vectors.

use vstd::prelude::*;
use crate::syntax::declaration::EntrypointDeclDims;

verus! {

/// The number of dimensions of the index space of an entrypoint.
#[derive(Debug, Clone, Copy, PartialEq, Eq, Hash, Structural)]
pub enum EntrypointDims {
    D1,
    D2,
    D3,
}

impl EntrypointDims {
    /// The dimensions as mathematics: 1, 2 or 3.
    pub open spec fn count(self) -> nat {
        match self {
            EntrypointDims::D1 => 1,
            EntrypointDims::D2 => 2,
            EntrypointDims::D3 => 3,
        }
    }

    /// The dimensions that a declaration writes.
    pub open spec fn spec_from_decl_dims(decl_dims: EntrypointDeclDims) -> EntrypointDims {
        match decl_dims {
            EntrypointDeclDims::D1 => EntrypointDims::D1,
            EntrypointDeclDims::D2 => EntrypointDims::D2,
            EntrypointDeclDims::D3 => EntrypointDims::D3,
        }
    }

    /// The dimensions that a declaration writes.
    pub fn from_decl_dims(decl_dims: EntrypointDeclDims) -> (r: Self)
        ensures
            r == Self::spec_from_decl_dims(decl_dims),
            r.count() == decl_dims.count(),
    {
        match decl_dims {
            EntrypointDeclDims::D1 => Self::D1,
            EntrypointDeclDims::D2 => Self::D2,
            EntrypointDeclDims::D3 => Self::D3,
        }
    }
}

/// The number of components of a vector.
#[derive(Debug, Clone, Copy, PartialEq, Eq, Hash, Structural)]
pub enum VecDims {
    Vec2,
    Vec3,
    Vec4,
}

} // verus!
