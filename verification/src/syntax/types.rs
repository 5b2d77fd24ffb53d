//! Names of types.

use vstd::prelude::*;
use vstd::string::*;
use crate::syntax::name::{spec_name_path, NamePath};
use crate::syntax::util::parsed_view;

verus! {

/// The name of a type, as written. What type it names is settled later.
#[derive(Debug)]
pub struct TypeName<'a> {
    pub name: NamePath<'a>,
}

impl<'a> View for TypeName<'a> {
    type V = Seq<Seq<u8>>;

    open spec fn view(&self) -> Seq<Seq<u8>> {
        self.name@
    }
}

/// The name of a type at `p`: a path.
pub open spec fn spec_type_name(s: Seq<u8>, p: int) -> Option<(Seq<Seq<u8>>, int)> {
    spec_name_path(s, p)
}

impl<'a> TypeName<'a> {
    /// The name of a type at `pos`.
    pub fn parser(src: &'a str, pos: usize) -> (r: Option<(TypeName<'a>, usize)>)
        ensures
            parsed_view(r) == spec_type_name(src.spec_bytes(), pos as int),
            r matches Some((ty, end)) ==> pos < end <= src.len() && ty.name.parts@.len() > 0,
    {
        match NamePath::parser(src, pos) {
            Some((name, end)) => Some((TypeName { name }, end)),
            None => None,
        }
    }
}

} // verus!
