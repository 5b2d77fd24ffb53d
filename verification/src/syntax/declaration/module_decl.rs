//! The `module` declaration.

use vstd::prelude::*;
use vstd::string::*;
use crate::syntax::declaration::{
    decl_view, DeclView, Declaration, DeclarationBlock, ModuleParamView,
};
use crate::syntax::declaration::buffer_decl::{buffer_mode_parser, BufferDeclMode};
use crate::syntax::declaration::func_decl::typed_name_parser;
use crate::syntax::declaration::grammar::{
    param_mode, spec_module_decl, spec_module_head, spec_module_param, DeclarationGrammar,
};
use crate::syntax::name::Name;
use crate::syntax::types::TypeName;
use crate::syntax::util::{
    keyword, keyword_then_whitespace, padded_byte, parsed_view, spec_delimited_list, spec_list,
    spec_list_rest, spec_padded_byte,
};

verus! {

/// A module: its name, its parameters, and the declarations in its body.
#[derive(Debug)]
pub struct ModuleDecl<'a> {
    pub name: Name<'a>,
    pub params: Vec<ModuleDeclParam<'a>>,
    pub body: DeclarationBlock<'a>,
}

/// A parameter of a module.
#[derive(Debug)]
pub enum ModuleDeclParam<'a> {
    Buffer(ModuleDeclBufferParam<'a>),
}

/// How a buffer that a module takes may be accessed.
#[derive(Debug, Clone, Copy, PartialEq, Eq, Structural)]
pub enum BufferParamMode {
    Read,
    Write,
    ReadWrite,
}

/// A buffer that a module takes: how it may be accessed, its name, and the
/// name of its type.
#[derive(Debug)]
pub struct ModuleDeclBufferParam<'a> {
    pub mode: BufferParamMode,
    pub name: Name<'a>,
    pub ty: TypeName<'a>,
}

/// A type that a module takes.
#[derive(Debug)]
pub struct ModuleDeclTypeParam<'a> {
    pub name: Name<'a>,
}

impl<'a> View for ModuleDeclBufferParam<'a> {
    type V = ModuleParamView;

    open spec fn view(&self) -> ModuleParamView {
        ModuleParamView::Buffer { mode: self.mode, name: self.name@, ty: self.ty@ }
    }
}

impl<'a> View for ModuleDeclParam<'a> {
    type V = ModuleParamView;

    open spec fn view(&self) -> ModuleParamView {
        match self {
            ModuleDeclParam::Buffer(b) => b@,
        }
    }
}

impl<'a> View for ModuleDeclTypeParam<'a> {
    type V = Seq<u8>;

    open spec fn view(&self) -> Seq<u8> {
        self.name@
    }
}

impl<'a> View for ModuleDecl<'a> {
    type V = DeclView;

    open spec fn view(&self) -> DeclView {
        decl_view(Declaration::Module(*self))
    }
}

/// The views of a list of parameters, in order.
pub open spec fn param_views(list: Seq<ModuleDeclParam>) -> Seq<ModuleParamView> {
    Seq::new(list.len(), |i: int| list[i]@)
}

impl BufferParamMode {
    /// The mode of a parameter from the mode as a buffer declaration
    /// writes it.
    pub fn from_decl_mode(mode: BufferDeclMode) -> (r: BufferParamMode)
        ensures
            r == param_mode(mode),
    {
        match mode {
            BufferDeclMode::Read => BufferParamMode::Read,
            BufferDeclMode::Write => BufferParamMode::Write,
            BufferDeclMode::ReadWrite => BufferParamMode::ReadWrite,
        }
    }
}

/// A buffer parameter of a module at `pos`: `buffer(mode) name: Type`.
pub fn module_decl_buffer_param_parser<'a>(src: &'a str, pos: usize) -> (r: Option<
    (ModuleDeclBufferParam<'a>, usize),
>)
    ensures
        parsed_view(r) == spec_module_param(src.spec_bytes(), pos as int),
        r matches Some((_, end)) ==> pos < end <= src.len(),
{
    let q = match keyword(src, pos, "buffer") {
        Some(q) => q,
        None => { return None; },
    };
    let (mode, r) = match buffer_mode_parser(src, q) {
        Some(found) => found,
        None => { return None; },
    };
    match typed_name_parser(src, r) {
        Some((name, ty, end)) => Some(
            (ModuleDeclBufferParam { mode: BufferParamMode::from_decl_mode(mode), name, ty }, end),
        ),
        None => None,
    }
}

/// A parameter of a module at `pos`.
pub fn module_decl_param_parser<'a>(src: &'a str, pos: usize) -> (r: Option<
    (ModuleDeclParam<'a>, usize),
>)
    ensures
        parsed_view(r) == spec_module_param(src.spec_bytes(), pos as int),
        r matches Some((_, end)) ==> pos < end <= src.len(),
{
    match module_decl_buffer_param_parser(src, pos) {
        Some((param, end)) => Some((ModuleDeclParam::Buffer(param), end)),
        None => None,
    }
}

/// The parameters of a module in their parentheses, at `pos`.
pub fn module_decl_params_parser<'a>(src: &'a str, pos: usize) -> (r: Option<
    (Vec<ModuleDeclParam<'a>>, usize),
>)
    ensures
        match r {
            Some((params, end)) => spec_delimited_list(
                src.spec_bytes(),
                pos as int,
                '(' as u8,
                |at: int| spec_module_param(src.spec_bytes(), at),
                ')' as u8,
            ) == Some((param_views(params@), end as int)) && pos < end <= src.len(),
            None => spec_delimited_list(
                src.spec_bytes(),
                pos as int,
                '(' as u8,
                |at: int| spec_module_param(src.spec_bytes(), at),
                ')' as u8,
            ) is None,
        },
{
    let ghost item = |at: int| spec_module_param(src.spec_bytes(), at);
    let start = match padded_byte(src, pos, '(' as u8) {
        Some(q) => q,
        None => { return None; },
    };
    let mut params: Vec<ModuleDeclParam<'a>> = Vec::new();
    let mut end: usize = start;
    match module_decl_param_parser(src, start) {
        Some((first, next)) => {
            params.push(first);
            end = next;
            proof {
                assert(param_views(params@) =~= seq![first@]);
            }
            let mut done = false;
            while !done
                invariant
                    pos < start < end <= src.len(),
                    spec_padded_byte(src.spec_bytes(), pos as int, '(' as u8) == Some(start as int),
                    item == (|at: int| spec_module_param(src.spec_bytes(), at)),
                    spec_list(src.spec_bytes(), start as int, item) == spec_list_rest(
                        src.spec_bytes(),
                        end as int,
                        item,
                        param_views(params@),
                    ),
                    done ==> spec_list_rest(src.spec_bytes(), end as int, item, param_views(params@))
                        == (param_views(params@), end as int),
                decreases src.len() - end, if done { 0int } else { 1int },
            {
                let ghost acc = param_views(params@);
                match padded_byte(src, end, ',' as u8) {
                    Some(at) => match module_decl_param_parser(src, at) {
                        Some((param, next)) => {
                            params.push(param);
                            proof {
                                assert(param_views(params@) =~= acc.push(param@));
                            }
                            end = next;
                        },
                        None => {
                            proof {
                                assert(spec_list(src.spec_bytes(), start as int, item) == (
                                    acc,
                                    at as int,
                                ));
                            }
                            return match padded_byte(src, at, ')' as u8) {
                                Some(close) => Some((params, close)),
                                None => None,
                            };
                        },
                    },
                    None => {
                        done = true;
                    },
                }
            }
        },
        None => {
            proof {
                assert(param_views(params@) =~= seq![]);
            }
        },
    }
    match padded_byte(src, end, ')' as u8) {
        Some(close) => Some((params, close)),
        None => None,
    }
}

/// The name and the parameters of a module, at `pos`:
/// `module name(param, ...)`.
pub fn module_head_parser<'a>(src: &'a str, pos: usize) -> (r: Option<
    (Name<'a>, Vec<ModuleDeclParam<'a>>, usize),
>)
    ensures
        match r {
            Some((name, params, end)) => spec_module_head(src.spec_bytes(), pos as int) == Some(
                ((name@, param_views(params@)), end as int),
            ) && pos < end <= src.len(),
            None => spec_module_head(src.spec_bytes(), pos as int) is None,
        },
{
    proof {
        reveal(spec_module_head);
    }
    let q = match keyword_then_whitespace(src, pos, "module") {
        Some(q) => q,
        None => { return None; },
    };
    let (name, r) = match Name::parser(src, q) {
        Some(found) => found,
        None => { return None; },
    };
    match module_decl_params_parser(src, r) {
        Some((params, end)) => Some((name, params, end)),
        None => None,
    }
}

/// `module name(param, ...) { ... }` at `pos`. The declarations in its
/// body are those that `body` admits.
pub fn module_decl_parser<'a>(body: DeclarationGrammar, src: &'a str, pos: usize) -> (r: Option<
    (ModuleDecl<'a>, usize),
>)
    ensures
        parsed_view(r) == spec_module_decl(src.spec_bytes(), pos as int, body),
        r matches Some((_, end)) ==> pos < end <= src.len(),
    decreases src.len() - pos, 2int,
{
    let (name, params, q) = match module_head_parser(src, pos) {
        Some(found) => found,
        None => { return None; },
    };
    match DeclarationBlock::parser(body, src, q) {
        Some((block, end)) => {
            let d = ModuleDecl { name, params, body: block };
            proof {
                assert(d@ matches DeclView::Module { params: list, .. } && list =~= param_views(
                    params@,
                ));
            }
            Some((d, end))
        },
        None => None,
    }
}

} // verus!
