//! The `entrypoint` declaration.

use vstd::prelude::*;
use vstd::string::*;
use crate::syntax::declaration::{decl_view, DeclView, Declaration};
use crate::syntax::declaration::grammar::{
    spec_entrypoint_arg, spec_entrypoint_decl, spec_entrypoint_dims,
};
use crate::syntax::name::Name;
use crate::syntax::statement::StatementBlock;
use crate::syntax::util::{just, keyword_then_whitespace, padded_byte, parsed, parsed_view};

verus! {

/// A kernel that can be run over an index space of one, two or three
/// dimensions: its name, the dimensions, the name of its one argument,
/// and its body.
#[derive(Debug)]
pub struct EntrypointDecl<'a> {
    pub name: Name<'a>,
    pub dims: EntrypointDeclDims,
    pub arg_name: Name<'a>,
    pub body: StatementBlock<'a>,
}

/// The number of dimensions that an entrypoint is written with.
#[derive(Debug, Clone, Copy, PartialEq, Eq, Structural)]
pub enum EntrypointDeclDims {
    D1,
    D2,
    D3,
}

impl EntrypointDeclDims {
    /// The dimensions as mathematics: 1, 2 or 3.
    pub open spec fn count(self) -> nat {
        match self {
            EntrypointDeclDims::D1 => 1,
            EntrypointDeclDims::D2 => 2,
            EntrypointDeclDims::D3 => 3,
        }
    }
}

impl<'a> View for EntrypointDecl<'a> {
    type V = DeclView;

    open spec fn view(&self) -> DeclView {
        decl_view(Declaration::Entrypoint(*self))
    }
}

/// The dimensions of an entrypoint in their parentheses, at `pos`: `(1d)`,
/// `(2d)` or `(3d)`.
pub fn entrypoint_dims_parser(src: &str, pos: usize) -> (r: Option<(EntrypointDeclDims, usize)>)
    ensures
        parsed(r) == spec_entrypoint_dims(src.spec_bytes(), pos as int),
        r matches Some((_, end)) ==> pos < end <= src.len(),
{
    let q = match padded_byte(src, pos, '(' as u8) {
        Some(q) => q,
        None => { return None; },
    };
    let (dims, r) = match just(src, q, "1d") {
        Some(r) => (EntrypointDeclDims::D1, r),
        None => match just(src, q, "2d") {
            Some(r) => (EntrypointDeclDims::D2, r),
            None => match just(src, q, "3d") {
                Some(r) => (EntrypointDeclDims::D3, r),
                None => { return None; },
            },
        },
    };
    match padded_byte(src, r, ')' as u8) {
        Some(end) => Some((dims, end)),
        None => None,
    }
}

/// The one argument of an entrypoint in its parentheses, at `pos`.
pub fn entrypoint_arg_parser<'a>(src: &'a str, pos: usize) -> (r: Option<(Name<'a>, usize)>)
    ensures
        parsed_view(r) == spec_entrypoint_arg(src.spec_bytes(), pos as int),
        r matches Some((_, end)) ==> pos < end <= src.len(),
{
    let q = match padded_byte(src, pos, '(' as u8) {
        Some(q) => q,
        None => { return None; },
    };
    let (arg_name, r) = match Name::parser(src, q) {
        Some(found) => found,
        None => { return None; },
    };
    match padded_byte(src, r, ')' as u8) {
        Some(end) => Some((arg_name, end)),
        None => None,
    }
}

/// `entrypoint(dims) name(arg) { ... }` at `pos`.
pub fn entrypoint_decl_parser<'a>(src: &'a str, pos: usize) -> (r: Option<
    (EntrypointDecl<'a>, usize),
>)
    ensures
        parsed_view(r) == spec_entrypoint_decl(src.spec_bytes(), pos as int),
        r matches Some((_, end)) ==> pos < end <= src.len(),
{
    proof {
        reveal(spec_entrypoint_decl);
    }
    let q = match keyword_then_whitespace(src, pos, "entrypoint") {
        Some(q) => q,
        None => { return None; },
    };
    let (dims, r) = match entrypoint_dims_parser(src, q) {
        Some(found) => found,
        None => { return None; },
    };
    let (name, t) = match Name::parser(src, r) {
        Some(found) => found,
        None => { return None; },
    };
    let (arg_name, u) = match entrypoint_arg_parser(src, t) {
        Some(found) => found,
        None => { return None; },
    };
    match StatementBlock::parser(src, u) {
        Some((body, end)) => Some((EntrypointDecl { name, dims, arg_name, body }, end)),
        None => None,
    }
}

} // verus!
