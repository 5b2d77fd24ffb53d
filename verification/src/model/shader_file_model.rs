//! Shader files of the model.

use vstd::prelude::*;
use crate::model::{Model, ModelHandle, StringModel};

verus! {

/// A shader file of the model. Its key is the key of its path.
#[derive(Debug, Clone)]
pub struct ShaderFileModel {
    pub path: ModelHandle<StringModel>,
}

impl ShaderFileModel {
    /// The shader file at `path`.
    pub fn new(path: ModelHandle<StringModel>) -> (r: ShaderFileModel)
        ensures
            r.path == path,
    {
        ShaderFileModel { path }
    }
}

impl Model for ShaderFileModel {
    type Key = Seq<u8>;

    open spec fn key(&self) -> Seq<u8> {
        self.path@
    }

    fn same(&self, other: &Self) -> (r: bool) {
        self.path.borrow().same(other.path.borrow())
    }
}

/// A handle to a shader file.
pub type ShaderFileModelHandle = ModelHandle<ShaderFileModel>;

} // verus!
