//! The `instance` declaration.

use vstd::prelude::*;
use vstd::string::*;
use crate::syntax::declaration::{decl_view, DeclView, Declaration};
use crate::syntax::declaration::grammar::spec_instance_decl;
use crate::syntax::name::{Name, NamePath};
use crate::syntax::types::{spec_type_name, TypeName};
use crate::syntax::util::{
    keyword_then_whitespace, padded_byte, parsed_view, spec_delimited_list, spec_list,
    spec_list_rest, spec_padded_byte, terminal_semicolon_parser,
};

verus! {

/// An instance of a module: its name, the path of the module, and the
/// names of the types that the module is given.
#[derive(Debug)]
pub struct InstanceDecl<'a> {
    pub name: Name<'a>,
    pub module_name: NamePath<'a>,
    pub module_params: Vec<TypeName<'a>>,
}

impl<'a> View for InstanceDecl<'a> {
    type V = DeclView;

    open spec fn view(&self) -> DeclView {
        decl_view(Declaration::Instance(*self))
    }
}

/// The views of a list of type names, in order.
pub open spec fn type_name_views(list: Seq<TypeName>) -> Seq<Seq<Seq<u8>>> {
    Seq::new(list.len(), |i: int| list[i]@)
}

/// The types that a module is given, in their parentheses, at `pos`.
pub fn instance_params_parser<'a>(src: &'a str, pos: usize) -> (r: Option<
    (Vec<TypeName<'a>>, usize),
>)
    ensures
        match r {
            Some((params, end)) => spec_delimited_list(
                src.spec_bytes(),
                pos as int,
                '(' as u8,
                |at: int| spec_type_name(src.spec_bytes(), at),
                ')' as u8,
            ) == Some((type_name_views(params@), end as int)) && pos < end <= src.len(),
            None => spec_delimited_list(
                src.spec_bytes(),
                pos as int,
                '(' as u8,
                |at: int| spec_type_name(src.spec_bytes(), at),
                ')' as u8,
            ) is None,
        },
{
    let ghost item = |at: int| spec_type_name(src.spec_bytes(), at);
    let start = match padded_byte(src, pos, '(' as u8) {
        Some(q) => q,
        None => { return None; },
    };
    let mut params: Vec<TypeName<'a>> = Vec::new();
    let mut end: usize = start;
    match TypeName::parser(src, start) {
        Some((first, next)) => {
            params.push(first);
            end = next;
            proof {
                assert(type_name_views(params@) =~= seq![first@]);
            }
            let mut done = false;
            while !done
                invariant
                    pos < start < end <= src.len(),
                    spec_padded_byte(src.spec_bytes(), pos as int, '(' as u8) == Some(start as int),
                    item == (|at: int| spec_type_name(src.spec_bytes(), at)),
                    spec_list(src.spec_bytes(), start as int, item) == spec_list_rest(
                        src.spec_bytes(),
                        end as int,
                        item,
                        type_name_views(params@),
                    ),
                    done ==> spec_list_rest(
                        src.spec_bytes(),
                        end as int,
                        item,
                        type_name_views(params@),
                    ) == (type_name_views(params@), end as int),
                decreases src.len() - end, if done { 0int } else { 1int },
            {
                let ghost acc = type_name_views(params@);
                match padded_byte(src, end, ',' as u8) {
                    Some(at) => match TypeName::parser(src, at) {
                        Some((param, next)) => {
                            params.push(param);
                            proof {
                                assert(type_name_views(params@) =~= acc.push(param@));
                            }
                            end = next;
                        },
                        None => {
                            proof {
                                assert(spec_list(src.spec_bytes(), start as int, item) == (
                                    acc,
                                    at as int,
                                ));
                            }
                            return match padded_byte(src, at, ')' as u8) {
                                Some(close) => Some((params, close)),
                                None => None,
                            };
                        },
                    },
                    None => {
                        done = true;
                    },
                }
            }
        },
        None => {
            proof {
                assert(type_name_views(params@) =~= seq![]);
            }
        },
    }
    match padded_byte(src, end, ')' as u8) {
        Some(close) => Some((params, close)),
        None => None,
    }
}

/// `instance name = module::path(Type, ...);` at `pos`.
pub fn instance_decl_parser<'a>(src: &'a str, pos: usize) -> (r: Option<(InstanceDecl<'a>, usize)>)
    ensures
        parsed_view(r) == spec_instance_decl(src.spec_bytes(), pos as int),
        r matches Some((_, end)) ==> pos < end <= src.len(),
{
    proof {
        reveal(spec_instance_decl);
    }
    let q = match keyword_then_whitespace(src, pos, "instance") {
        Some(q) => q,
        None => { return None; },
    };
    let (name, r) = match Name::parser(src, q) {
        Some(found) => found,
        None => { return None; },
    };
    let t = match padded_byte(src, r, '=' as u8) {
        Some(t) => t,
        None => { return None; },
    };
    let (module_name, u) = match NamePath::parser(src, t) {
        Some(found) => found,
        None => { return None; },
    };
    let (module_params, v) = match instance_params_parser(src, u) {
        Some(found) => found,
        None => { return None; },
    };
    match terminal_semicolon_parser(src, v) {
        Some(end) => {
            let d = InstanceDecl { name, module_name, module_params };
            proof {
                assert(d@ matches DeclView::Instance { module_params: list, .. } && list
                    =~= type_name_views(module_params@));
            }
            Some((d, end))
        },
        None => None,
    }
}

} // verus!
