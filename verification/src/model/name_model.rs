//! Interned names and paths of names.

use vstd::prelude::*;
use vstd::string::*;
use vstd::utf8::*;
use crate::model::{bytes_eq, Model, ModelHandle};

verus! {

/// An identifier of the model. Its key is its text as bytes. A name and a
/// string of the same text are different things.
#[derive(Debug, Clone)]
pub struct NameModel {
    pub name: String,
}

impl NameModel {
    /// The name of text `name`.
    pub fn new(name: String) -> (r: NameModel)
        ensures
            r.name == name,
    {
        NameModel { name }
    }

    /// True when the text of the name is `text`.
    pub fn has_text(&self, text: &str) -> (r: bool)
        ensures
            r == (self.key() == text.spec_bytes()),
    {
        bytes_eq(self.name.as_str().as_bytes(), text.as_bytes())
    }

    /// The text of the name.
    pub fn as_str(&self) -> (r: &str)
        ensures
            r.spec_bytes() == self.key(),
    {
        self.name.as_str()
    }
}

impl Model for NameModel {
    type Key = Seq<u8>;

    open spec fn key(&self) -> Seq<u8> {
        encode_utf8(self.name@)
    }

    fn same(&self, other: &Self) -> (r: bool) {
        bytes_eq(self.name.as_str().as_bytes(), other.name.as_str().as_bytes())
    }
}

/// A handle to a name.
pub type NameModelHandle = ModelHandle<NameModel>;

/// The keys of a list of name handles, in order.
pub open spec fn name_keys(path: Seq<NameModelHandle>) -> Seq<Seq<u8>> {
    Seq::new(path.len(), |i: int| path[i]@)
}

/// True when the two lists of names hold the same names in the same order.
pub fn same_names(a: &[NameModelHandle], b: &[NameModelHandle]) -> (r: bool)
    ensures
        r == (name_keys(a@) == name_keys(b@)),
{
    if a.len() != b.len() {
        proof {
            assert(name_keys(a@).len() != name_keys(b@).len());
        }
        return false;
    }
    let mut i: usize = 0;
    while i < a.len()
        invariant
            a.len() == b.len(),
            i <= a.len(),
            forall|k: int| 0 <= k < i ==> (#[trigger] a@[k])@ == b@[k]@,
        decreases a.len() - i,
    {
        if !a[i].borrow().same(b[i].borrow()) {
            proof {
                assert(name_keys(a@)[i as int] == a@[i as int]@);
                assert(name_keys(b@)[i as int] == b@[i as int]@);
            }
            return false;
        }
        i = i + 1;
    }
    proof {
        assert(name_keys(a@) =~= name_keys(b@));
    }
    true
}

/// A path of names of the model. Its key is the keys of its names, in
/// order.
#[derive(Debug, Clone)]
pub struct NamePathModel {
    pub path: Vec<NameModelHandle>,
}

impl NamePathModel {
    /// The path made of the names `path`, in order.
    pub fn new(path: Vec<NameModelHandle>) -> (r: NamePathModel)
        ensures
            r.path == path,
    {
        NamePathModel { path }
    }

    /// True when the path is made of `names`, in order.
    pub fn has_names(&self, names: &[NameModelHandle]) -> (r: bool)
        ensures
            r == (self.key() == name_keys(names@)),
    {
        same_names(self.path.as_slice(), names)
    }

    /// The names of the path.
    pub fn as_slice(&self) -> (r: &[NameModelHandle])
        ensures
            r@ == self.path@,
    {
        self.path.as_slice()
    }
}

impl Model for NamePathModel {
    type Key = Seq<Seq<u8>>;

    open spec fn key(&self) -> Seq<Seq<u8>> {
        name_keys(self.path@)
    }

    fn same(&self, other: &Self) -> (r: bool) {
        same_names(self.path.as_slice(), other.path.as_slice())
    }
}

/// A handle to a path of names.
pub type NamePathModelHandle = ModelHandle<NamePathModel>;

} // verus!
