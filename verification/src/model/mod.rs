//! The semantic model: values that are interned in a model space and
//! shared through handles.

pub mod dims;
pub mod model_handle;
pub mod model_space;
pub mod name_model;
pub mod shader_file_model;
pub mod string_model;
pub mod type_model;

use vstd::prelude::*;
pub use crate::model::dims::{EntrypointDims, VecDims};
pub use crate::model::model_handle::ModelHandle;
pub use crate::model::model_space::ModelSpace;
pub use crate::model::name_model::{
    NameModel, NameModelHandle, NamePathModel, NamePathModelHandle,
};
pub use crate::model::shader_file_model::{ShaderFileModel, ShaderFileModelHandle};
pub use crate::model::string_model::{StringModel, StringModelHandle};
pub use crate::model::type_model::{
    ScalarNumericTypeModel, ScalarSymbolicTypeModel, ScalarTypeModel, StructFieldModel,
    StructTypeModel, TypeKey, TypeModel, TypeModelHandle, VectorTypeModel,
};

verus! {

/// A value of the model. It never changes once made, and two of them are
/// the same model exactly when their keys are equal.
pub trait Model: Sized {
    /// What tells two models of this type apart.
    type Key;

    spec fn key(&self) -> Self::Key;

    /// True when the two are the same model.
    fn same(&self, other: &Self) -> (r: bool)
        ensures
            r == (self.key() == other.key()),
    ;
}

/// True when the two byte strings are equal.
pub fn bytes_eq(a: &[u8], b: &[u8]) -> (r: bool)
    ensures
        r == (a@ == b@),
{
    if a.len() != b.len() {
        return false;
    }
    let mut i: usize = 0;
    while i < a.len()
        invariant
            a.len() == b.len(),
            i <= a.len(),
            a@.subrange(0, i as int) == b@.subrange(0, i as int),
        decreases a.len() - i,
    {
        if a[i] != b[i] {
            return false;
        }
        proof {
            assert(a@.subrange(0, i + 1) =~= a@.subrange(0, i as int).push(a@[i as int]));
            assert(b@.subrange(0, i + 1) =~= b@.subrange(0, i as int).push(b@[i as int]));
        }
        i = i + 1;
    }
    proof {
        assert(a@ =~= a@.subrange(0, a.len() as int));
        assert(b@ =~= b@.subrange(0, b.len() as int));
    }
    true
}

} // verus!
