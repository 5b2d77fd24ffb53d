//! The `buffer` declaration.

use vstd::prelude::*;
use vstd::string::*;
use crate::syntax::declaration::{decl_view, DeclView, Declaration};
use crate::syntax::declaration::func_decl::typed_name_parser;
use crate::syntax::declaration::grammar::{spec_buffer_decl, spec_buffer_mode};
use crate::syntax::name::Name;
use crate::syntax::types::TypeName;
use crate::syntax::util::{
    just, keyword, padded_byte, parsed, parsed_view, terminal_semicolon_parser,
    whitespace_parser,
};

verus! {

/// A buffer: its name, how it may be accessed, and the name of its type.
#[derive(Debug)]
pub struct BufferDecl<'a> {
    pub name: Name<'a>,
    pub mode: BufferDeclMode,
    pub ty: TypeName<'a>,
}

/// How a buffer may be accessed.
#[derive(Debug, Clone, Copy, PartialEq, Eq, Structural)]
pub enum BufferDeclMode {
    Read,
    Write,
    ReadWrite,
}

impl<'a> View for BufferDecl<'a> {
    type V = DeclView;

    open spec fn view(&self) -> DeclView {
        decl_view(Declaration::Buffer(*self))
    }
}

/// The mode of a buffer in its parentheses, at `pos`: `(rw)`, `(r)` or
/// `(w)`.
pub fn buffer_mode_parser(src: &str, pos: usize) -> (r: Option<(BufferDeclMode, usize)>)
    ensures
        parsed(r) == spec_buffer_mode(src.spec_bytes(), pos as int),
        r matches Some((_, end)) ==> pos < end <= src.len(),
{
    let q = match padded_byte(src, pos, '(' as u8) {
        Some(q) => q,
        None => { return None; },
    };
    let (mode, r) = match just(src, q, "rw") {
        Some(r) => (BufferDeclMode::ReadWrite, r),
        None => match just(src, q, "r") {
            Some(r) => (BufferDeclMode::Read, r),
            None => match just(src, q, "w") {
                Some(r) => (BufferDeclMode::Write, r),
                None => { return None; },
            },
        },
    };
    match padded_byte(src, r, ')' as u8) {
        Some(end) => Some((mode, end)),
        None => None,
    }
}

/// `buffer(mode) name: Type;` at `pos`.
pub fn buffer_decl_parser<'a>(src: &'a str, pos: usize) -> (r: Option<(BufferDecl<'a>, usize)>)
    ensures
        parsed_view(r) == spec_buffer_decl(src.spec_bytes(), pos as int),
        r matches Some((_, end)) ==> pos < end <= src.len(),
{
    proof {
        reveal(spec_buffer_decl);
    }
    let q = match keyword(src, pos, "buffer") {
        Some(q) => q,
        None => { return None; },
    };
    let (mode, r) = match buffer_mode_parser(src, q) {
        Some(found) => found,
        None => { return None; },
    };
    let at = whitespace_parser(src, r);
    let (name, ty, t) = match typed_name_parser(src, at) {
        Some(found) => found,
        None => { return None; },
    };
    match terminal_semicolon_parser(src, t) {
        Some(end) => Some((BufferDecl { name, mode, ty }, end)),
        None => None,
    }
}

} // verus!
