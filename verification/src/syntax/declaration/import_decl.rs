//! The `import` declaration.

use vstd::prelude::*;
use vstd::string::*;
use crate::syntax::declaration::{decl_view, DeclView, Declaration};
use crate::syntax::declaration::grammar::spec_import_decl;
use crate::syntax::name::{Name, NamePath};
use crate::syntax::util::{
    keyword_then_whitespace, padded_keyword, parsed_view, terminal_semicolon_parser,
};

verus! {

/// Brings what a path names into the file, under its last segment or
/// under an alias.
#[derive(Debug)]
pub struct ImportDecl<'a> {
    pub name_path: NamePath<'a>,
    pub maybe_alias: Option<Name<'a>>,
}

impl<'a> ImportDecl<'a> {
    /// The declaration has a name to stand under: its alias, or the last
    /// segment of its path. True of what the parser gives.
    pub open spec fn well_formed(&self) -> bool {
        self.maybe_alias is Some || self.name_path.parts@.len() > 0
    }
}

impl<'a> View for ImportDecl<'a> {
    type V = DeclView;

    open spec fn view(&self) -> DeclView {
        decl_view(Declaration::Import(*self))
    }
}

/// `import path;` or `import path as alias;` at `pos`.
pub fn import_decl_parser<'a>(src: &'a str, pos: usize) -> (r: Option<(ImportDecl<'a>, usize)>)
    ensures
        parsed_view(r) == spec_import_decl(src.spec_bytes(), pos as int),
        r matches Some((d, end)) ==> pos < end <= src.len() && d.well_formed(),
{
    proof {
        reveal(spec_import_decl);
    }
    let q = match keyword_then_whitespace(src, pos, "import") {
        Some(q) => q,
        None => { return None; },
    };
    let (name_path, r) = match NamePath::parser(src, q) {
        Some(found) => found,
        None => { return None; },
    };
    let (maybe_alias, t) = match padded_keyword(src, r, "as") {
        Some(at) => match Name::parser(src, at) {
            Some((alias, t)) => (Some(alias), t),
            None => (None, r),
        },
        None => (None, r),
    };
    match terminal_semicolon_parser(src, t) {
        Some(end) => Some((ImportDecl { name_path, maybe_alias }, end)),
        None => None,
    }
}

} // verus!
