//! The `func` declaration.

use vstd::prelude::*;
use vstd::string::*;
use crate::syntax::declaration::{decl_view, DeclView, Declaration};
use crate::syntax::declaration::grammar::{spec_func_decl, spec_typed_name};
use crate::syntax::name::Name;
use crate::syntax::statement::StatementBlock;
use crate::syntax::types::TypeName;
use crate::syntax::util::{
    keyword_then_whitespace, padded, padded_byte, parsed_view, spec_delimited_list, spec_list,
    spec_list_rest, spec_padded_byte,
};

verus! {

/// A function: its name, its arguments, its return type or none, and its
/// body.
#[derive(Debug)]
pub struct FuncDecl<'a> {
    pub name: Name<'a>,
    pub arguments: Vec<FuncDeclArgument<'a>>,
    pub return_ty: Option<TypeName<'a>>,
    pub body: StatementBlock<'a>,
}

/// An argument of a function: its name and the name of its type.
#[derive(Debug)]
pub struct FuncDeclArgument<'a> {
    pub name: Name<'a>,
    pub ty: TypeName<'a>,
}

impl<'a> View for FuncDeclArgument<'a> {
    type V = (Seq<u8>, Seq<Seq<u8>>);

    open spec fn view(&self) -> (Seq<u8>, Seq<Seq<u8>>) {
        (self.name@, self.ty@)
    }
}

impl<'a> View for FuncDecl<'a> {
    type V = DeclView;

    open spec fn view(&self) -> DeclView {
        decl_view(Declaration::Func(*self))
    }
}

/// The views of a list of arguments, in order.
pub open spec fn argument_views(list: Seq<FuncDeclArgument>) -> Seq<(Seq<u8>, Seq<Seq<u8>>)> {
    Seq::new(list.len(), |i: int| list[i]@)
}

/// A name, a colon and the name of a type, at `pos`.
pub fn typed_name_parser<'a>(src: &'a str, pos: usize) -> (r: Option<
    (Name<'a>, TypeName<'a>, usize),
>)
    ensures
        match r {
            Some((name, ty, end)) => spec_typed_name(src.spec_bytes(), pos as int) == Some(
                ((name@, ty@), end as int),
            ) && pos < end <= src.len(),
            None => spec_typed_name(src.spec_bytes(), pos as int) is None,
        },
{
    let (name, q) = match Name::parser(src, pos) {
        Some(found) => found,
        None => { return None; },
    };
    let r = match padded_byte(src, q, ':' as u8) {
        Some(r) => r,
        None => { return None; },
    };
    match TypeName::parser(src, r) {
        Some((ty, end)) => Some((name, ty, end)),
        None => None,
    }
}

/// An argument of a function at `pos`: `name: Type`.
pub fn func_decl_argument_parser<'a>(src: &'a str, pos: usize) -> (r: Option<
    (FuncDeclArgument<'a>, usize),
>)
    ensures
        parsed_view(r) == spec_typed_name(src.spec_bytes(), pos as int),
        r matches Some((_, end)) ==> pos < end <= src.len(),
{
    match typed_name_parser(src, pos) {
        Some((name, ty, end)) => Some((FuncDeclArgument { name, ty }, end)),
        None => None,
    }
}

/// The arguments of a function in their parentheses, at `pos`.
pub fn func_decl_arguments_parser<'a>(src: &'a str, pos: usize) -> (r: Option<
    (Vec<FuncDeclArgument<'a>>, usize),
>)
    ensures
        match r {
            Some((args, end)) => spec_delimited_list(
                src.spec_bytes(),
                pos as int,
                '(' as u8,
                |at: int| spec_typed_name(src.spec_bytes(), at),
                ')' as u8,
            ) == Some((argument_views(args@), end as int)) && pos < end <= src.len(),
            None => spec_delimited_list(
                src.spec_bytes(),
                pos as int,
                '(' as u8,
                |at: int| spec_typed_name(src.spec_bytes(), at),
                ')' as u8,
            ) is None,
        },
{
    let ghost item = |at: int| spec_typed_name(src.spec_bytes(), at);
    let start = match padded_byte(src, pos, '(' as u8) {
        Some(q) => q,
        None => { return None; },
    };
    let mut args: Vec<FuncDeclArgument<'a>> = Vec::new();
    let mut end: usize = start;
    match func_decl_argument_parser(src, start) {
        Some((first, next)) => {
            args.push(first);
            end = next;
            proof {
                assert(argument_views(args@) =~= seq![first@]);
            }
            let mut done = false;
            while !done
                invariant
                    pos < start < end <= src.len(),
                    spec_padded_byte(src.spec_bytes(), pos as int, '(' as u8) == Some(start as int),
                    item == (|at: int| spec_typed_name(src.spec_bytes(), at)),
                    spec_list(src.spec_bytes(), start as int, item) == spec_list_rest(
                        src.spec_bytes(),
                        end as int,
                        item,
                        argument_views(args@),
                    ),
                    done ==> spec_list_rest(
                        src.spec_bytes(),
                        end as int,
                        item,
                        argument_views(args@),
                    ) == (argument_views(args@), end as int),
                decreases src.len() - end, if done { 0int } else { 1int },
            {
                let ghost acc = argument_views(args@);
                match padded_byte(src, end, ',' as u8) {
                    Some(at) => match func_decl_argument_parser(src, at) {
                        Some((arg, next)) => {
                            args.push(arg);
                            proof {
                                assert(argument_views(args@) =~= acc.push(arg@));
                            }
                            end = next;
                        },
                        None => {
                            proof {
                                assert(spec_list(src.spec_bytes(), start as int, item) == (
                                    acc,
                                    at as int,
                                ));
                            }
                            return match padded_byte(src, at, ')' as u8) {
                                Some(close) => Some((args, close)),
                                None => None,
                            };
                        },
                    },
                    None => {
                        done = true;
                    },
                }
            }
        },
        None => {
            proof {
                assert(argument_views(args@) =~= seq![]);
            }
        },
    }
    match padded_byte(src, end, ')' as u8) {
        Some(close) => Some((args, close)),
        None => None,
    }
}

/// `func name(arg: Type, ...) -> Type { ... }` at `pos`. The return type
/// may be left out.
pub fn func_decl_parser<'a>(src: &'a str, pos: usize) -> (r: Option<(FuncDecl<'a>, usize)>)
    ensures
        parsed_view(r) == spec_func_decl(src.spec_bytes(), pos as int),
        r matches Some((_, end)) ==> pos < end <= src.len(),
{
    proof {
        reveal(spec_func_decl);
    }
    let q = match keyword_then_whitespace(src, pos, "func") {
        Some(q) => q,
        None => { return None; },
    };
    let (name, r) = match Name::parser(src, q) {
        Some(found) => found,
        None => { return None; },
    };
    let (arguments, t) = match func_decl_arguments_parser(src, r) {
        Some(found) => found,
        None => { return None; },
    };
    let (return_ty, u) = match padded(src, t, "->") {
        Some(at) => match TypeName::parser(src, at) {
            Some((ty, u)) => (Some(ty), u),
            None => (None, t),
        },
        None => (None, t),
    };
    match StatementBlock::parser(src, u) {
        Some((body, end)) => {
            let d = FuncDecl { name, arguments, return_ty, body };
            proof {
                assert(d@ matches DeclView::Func { arguments: list, .. } && list =~= argument_views(
                    arguments@,
                ));
            }
            Some((d, end))
        },
        None => None,
    }
}

} // verus!
