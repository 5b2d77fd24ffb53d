//! Handles to models.

use std::sync::Arc;
use vstd::prelude::*;
use crate::model::Model;

verus! {

/// A handle to a model: a reference that can be shared. Two handles are
/// equal when the models they refer to are the same model.
#[derive(Debug)]
pub struct ModelHandle<M>(pub Arc<M>);

impl<M: Model> View for ModelHandle<M> {
    type V = M::Key;

    /// The key of the model that the handle refers to.
    open spec fn view(&self) -> M::Key {
        self.0.key()
    }
}

impl<M: Model> ModelHandle<M> {
    /// The model that the handle refers to.
    pub open spec fn model(&self) -> M {
        *self.0
    }

    /// A handle to `model`.
    pub fn new(model: M) -> (h: ModelHandle<M>)
        ensures
            h.model() == model,
    {
        ModelHandle(Arc::new(model))
    }

    /// The model that the handle refers to.
    pub fn borrow(&self) -> (m: &M)
        ensures
            *m == self.model(),
    {
        &*self.0
    }
}

impl<M: Model> Clone for ModelHandle<M> {
    /// Another handle to the same model.
    fn clone(&self) -> (r: Self)
        ensures
            r == *self,
    {
        ModelHandle(self.0.clone())
    }
}

impl<M: Model> PartialEq for ModelHandle<M> {
    fn eq(&self, other: &Self) -> (r: bool) {
        self.borrow().same(other.borrow())
    }
}

impl<M: Model> vstd::std_specs::cmp::PartialEqSpecImpl for ModelHandle<M> {
    open spec fn obeys_eq_spec() -> bool {
        true
    }

    open spec fn eq_spec(&self, other: &Self) -> bool {
        self@ == other@
    }
}

} // verus!
