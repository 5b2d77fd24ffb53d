//! Interned strings.

use vstd::prelude::*;
use vstd::string::*;
use vstd::utf8::*;
use crate::model::{bytes_eq, Model, ModelHandle};

verus! {

/// A string of the model, such as the path of a file. Its key is its text
/// as bytes.
#[derive(Debug, Clone)]
pub struct StringModel {
    pub name: String,
}

impl StringModel {
    /// The string of text `name`.
    pub fn new(name: String) -> (r: StringModel)
        ensures
            r.name == name,
    {
        StringModel { name }
    }

    /// True when the text of the string is `text`.
    pub fn has_text(&self, text: &str) -> (r: bool)
        ensures
            r == (self.key() == text.spec_bytes()),
    {
        bytes_eq(self.name.as_str().as_bytes(), text.as_bytes())
    }

    /// The text of the string.
    pub fn as_str(&self) -> (r: &str)
        ensures
            r.spec_bytes() == self.key(),
    {
        self.name.as_str()
    }
}

impl Model for StringModel {
    type Key = Seq<u8>;

    open spec fn key(&self) -> Seq<u8> {
        encode_utf8(self.name@)
    }

    fn same(&self, other: &Self) -> (r: bool) {
        bytes_eq(self.name.as_str().as_bytes(), other.name.as_str().as_bytes())
    }
}

/// A handle to a string.
pub type StringModelHandle = ModelHandle<StringModel>;

} // verus!
