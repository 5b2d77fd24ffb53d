//! The `struct` declaration.

use vstd::prelude::*;
use vstd::string::*;
use crate::syntax::declaration::{decl_view, DeclView, Declaration};
use crate::syntax::declaration::func_decl::typed_name_parser;
use crate::syntax::declaration::grammar::{spec_struct_decl, spec_typed_name};
use crate::syntax::name::Name;
use crate::syntax::types::TypeName;
use crate::syntax::util::{
    keyword_then_whitespace, padded_byte, parsed_view, spec_delimited_list, spec_list,
    spec_list_rest, spec_padded_byte,
};

verus! {

/// A struct: its name and its fields, in the order written.
#[derive(Debug)]
pub struct StructDecl<'a> {
    pub name: Name<'a>,
    pub fields: Vec<StructDeclField<'a>>,
}

/// A field of a struct: its name and the name of its type.
#[derive(Debug)]
pub struct StructDeclField<'a> {
    pub name: Name<'a>,
    pub ty: TypeName<'a>,
}

impl<'a> View for StructDeclField<'a> {
    type V = (Seq<u8>, Seq<Seq<u8>>);

    open spec fn view(&self) -> (Seq<u8>, Seq<Seq<u8>>) {
        (self.name@, self.ty@)
    }
}

impl<'a> View for StructDecl<'a> {
    type V = DeclView;

    open spec fn view(&self) -> DeclView {
        decl_view(Declaration::Struct(*self))
    }
}

/// The views of a list of fields, in order.
pub open spec fn field_views(list: Seq<StructDeclField>) -> Seq<(Seq<u8>, Seq<Seq<u8>>)> {
    Seq::new(list.len(), |i: int| list[i]@)
}

/// A field of a struct at `pos`: `name: Type`.
pub fn struct_decl_field_parser<'a>(src: &'a str, pos: usize) -> (r: Option<
    (StructDeclField<'a>, usize),
>)
    ensures
        parsed_view(r) == spec_typed_name(src.spec_bytes(), pos as int),
        r matches Some((_, end)) ==> pos < end <= src.len(),
{
    match typed_name_parser(src, pos) {
        Some((name, ty, end)) => Some((StructDeclField { name, ty }, end)),
        None => None,
    }
}

/// The fields of a struct in their braces, at `pos`.
pub fn struct_decl_fields_parser<'a>(src: &'a str, pos: usize) -> (r: Option<
    (Vec<StructDeclField<'a>>, usize),
>)
    ensures
        match r {
            Some((fields, end)) => spec_delimited_list(
                src.spec_bytes(),
                pos as int,
                '{' as u8,
                |at: int| spec_typed_name(src.spec_bytes(), at),
                '}' as u8,
            ) == Some((field_views(fields@), end as int)) && pos < end <= src.len(),
            None => spec_delimited_list(
                src.spec_bytes(),
                pos as int,
                '{' as u8,
                |at: int| spec_typed_name(src.spec_bytes(), at),
                '}' as u8,
            ) is None,
        },
{
    let ghost item = |at: int| spec_typed_name(src.spec_bytes(), at);
    let start = match padded_byte(src, pos, '{' as u8) {
        Some(q) => q,
        None => { return None; },
    };
    let mut fields: Vec<StructDeclField<'a>> = Vec::new();
    let mut end: usize = start;
    match struct_decl_field_parser(src, start) {
        Some((first, next)) => {
            fields.push(first);
            end = next;
            proof {
                assert(field_views(fields@) =~= seq![first@]);
            }
            let mut done = false;
            while !done
                invariant
                    pos < start < end <= src.len(),
                    spec_padded_byte(src.spec_bytes(), pos as int, '{' as u8) == Some(start as int),
                    item == (|at: int| spec_typed_name(src.spec_bytes(), at)),
                    spec_list(src.spec_bytes(), start as int, item) == spec_list_rest(
                        src.spec_bytes(),
                        end as int,
                        item,
                        field_views(fields@),
                    ),
                    done ==> spec_list_rest(src.spec_bytes(), end as int, item, field_views(fields@))
                        == (field_views(fields@), end as int),
                decreases src.len() - end, if done { 0int } else { 1int },
            {
                let ghost acc = field_views(fields@);
                match padded_byte(src, end, ',' as u8) {
                    Some(at) => match struct_decl_field_parser(src, at) {
                        Some((field, next)) => {
                            fields.push(field);
                            proof {
                                assert(field_views(fields@) =~= acc.push(field@));
                            }
                            end = next;
                        },
                        None => {
                            proof {
                                assert(spec_list(src.spec_bytes(), start as int, item) == (
                                    acc,
                                    at as int,
                                ));
                            }
                            return match padded_byte(src, at, '}' as u8) {
                                Some(close) => Some((fields, close)),
                                None => None,
                            };
                        },
                    },
                    None => {
                        done = true;
                    },
                }
            }
        },
        None => {
            proof {
                assert(field_views(fields@) =~= seq![]);
            }
        },
    }
    match padded_byte(src, end, '}' as u8) {
        Some(close) => Some((fields, close)),
        None => None,
    }
}

/// `struct name { field: Type, ... }` at `pos`.
pub fn struct_decl_parser<'a>(src: &'a str, pos: usize) -> (r: Option<(StructDecl<'a>, usize)>)
    ensures
        parsed_view(r) == spec_struct_decl(src.spec_bytes(), pos as int),
        r matches Some((_, end)) ==> pos < end <= src.len(),
{
    proof {
        reveal(spec_struct_decl);
    }
    let q = match keyword_then_whitespace(src, pos, "struct") {
        Some(q) => q,
        None => { return None; },
    };
    let (name, r) = match Name::parser(src, q) {
        Some(found) => found,
        None => { return None; },
    };
    match struct_decl_fields_parser(src, r) {
        Some((fields, end)) => {
            let d = StructDecl { name, fields };
            proof {
                assert(d@ matches DeclView::Struct { fields: list, .. } && list =~= field_views(
                    fields@,
                ));
            }
            Some((d, end))
        },
        None => None,
    }
}

} // verus!
