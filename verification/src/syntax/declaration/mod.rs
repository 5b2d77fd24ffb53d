//! Declarations and blocks of declarations.

pub mod buffer_decl;
pub mod entrypoint_decl;
pub mod func_decl;
pub mod import_decl;
pub mod instance_decl;
pub mod module_decl;
pub mod struct_decl;
pub mod grammar;

use vstd::prelude::*;
use vstd::string::*;
use crate::syntax::declaration::buffer_decl::buffer_decl_parser;
use crate::syntax::declaration::entrypoint_decl::entrypoint_decl_parser;
use crate::syntax::declaration::func_decl::{argument_views, func_decl_parser};
use crate::syntax::declaration::grammar::{
    spec_declaration, spec_declaration_block, spec_declarations, spec_padded_declaration,
};
use crate::syntax::declaration::import_decl::import_decl_parser;
use crate::syntax::declaration::instance_decl::instance_decl_parser;
use crate::syntax::declaration::module_decl::module_decl_parser;
use crate::syntax::declaration::struct_decl::struct_decl_parser;
use crate::syntax::error::{complete, result_view, spec_complete, ParseError};
use crate::syntax::statement::StmtView;
use crate::syntax::util::{padded_byte, parsed_view, whitespace_parser};
pub use crate::syntax::declaration::buffer_decl::{BufferDecl, BufferDeclMode};
pub use crate::syntax::declaration::entrypoint_decl::{EntrypointDecl, EntrypointDeclDims};
pub use crate::syntax::declaration::func_decl::{FuncDecl, FuncDeclArgument};
pub use crate::syntax::declaration::grammar::DeclarationGrammar;
pub use crate::syntax::declaration::import_decl::ImportDecl;
pub use crate::syntax::declaration::instance_decl::InstanceDecl;
pub use crate::syntax::declaration::module_decl::{
    BufferParamMode, ModuleDecl, ModuleDeclBufferParam, ModuleDeclParam, ModuleDeclTypeParam,
};
pub use crate::syntax::declaration::struct_decl::{StructDecl, StructDeclField};

verus! {

/// A declaration of the language.
#[derive(Debug)]
pub enum Declaration<'a> {
    Buffer(BufferDecl<'a>),
    Entrypoint(EntrypointDecl<'a>),
    Import(ImportDecl<'a>),
    Instance(InstanceDecl<'a>),
    Func(FuncDecl<'a>),
    Module(ModuleDecl<'a>),
    Struct(StructDecl<'a>),
}

/// A sequence of declarations between braces.
#[derive(Debug)]
pub struct DeclarationBlock<'a> {
    pub statements: Vec<Declaration<'a>>,
}

/// What a parameter of a module is, as mathematics.
pub enum ModuleParamView {
    Buffer { mode: BufferParamMode, name: Seq<u8>, ty: Seq<Seq<u8>> },
}

/// What a declaration is, as mathematics.
pub enum DeclView {
    Buffer { name: Seq<u8>, mode: BufferDeclMode, ty: Seq<Seq<u8>> },
    Entrypoint { name: Seq<u8>, dims: EntrypointDeclDims, arg_name: Seq<u8>, body: Seq<StmtView> },
    Import { path: Seq<Seq<u8>>, alias: Option<Seq<u8>> },
    Instance { name: Seq<u8>, module_name: Seq<Seq<u8>>, module_params: Seq<Seq<Seq<u8>>> },
    Func {
        name: Seq<u8>,
        arguments: Seq<(Seq<u8>, Seq<Seq<u8>>)>,
        return_ty: Option<Seq<Seq<u8>>>,
        body: Seq<StmtView>,
    },
    Module { name: Seq<u8>, params: Seq<ModuleParamView>, body: Seq<DeclView> },
    Struct { name: Seq<u8>, fields: Seq<(Seq<u8>, Seq<Seq<u8>>)> },
}

/// The view of a declaration, by recursion on the tree.
pub open spec fn decl_view(d: Declaration) -> DeclView
    decreases d,
{
    match d {
        Declaration::Buffer(b) => DeclView::Buffer { name: b.name@, mode: b.mode, ty: b.ty@ },
        Declaration::Entrypoint(e) => DeclView::Entrypoint {
            name: e.name@,
            dims: e.dims,
            arg_name: e.arg_name@,
            body: e.body@,
        },
        Declaration::Import(i) => DeclView::Import {
            path: i.name_path@,
            alias: match i.maybe_alias {
                Some(a) => Some(a@),
                None => None,
            },
        },
        Declaration::Instance(i) => DeclView::Instance {
            name: i.name@,
            module_name: i.module_name@,
            module_params: Seq::new(i.module_params@.len(), |k: int| i.module_params@[k]@),
        },
        Declaration::Func(f) => DeclView::Func {
            name: f.name@,
            arguments: argument_views(f.arguments@),
            return_ty: match f.return_ty {
                Some(ty) => Some(ty@),
                None => None,
            },
            body: f.body@,
        },
        Declaration::Module(m) => DeclView::Module {
            name: m.name@,
            params: Seq::new(m.params@.len(), |k: int| m.params@[k]@),
            body: decl_block_view(m.body),
        },
        Declaration::Struct(st) => DeclView::Struct {
            name: st.name@,
            fields: Seq::new(st.fields@.len(), |k: int| st.fields@[k]@),
        },
    }
}

/// The views of the declarations of a block, in order.
pub open spec fn decl_block_view(b: DeclarationBlock) -> Seq<DeclView>
    decreases b,
{
    Seq::new(
        b.statements@.len(),
        |i: int|
            if 0 <= i < b.statements@.len() {
                decl_view(b.statements@[i])
            } else {
                arbitrary()
            },
    )
}

impl<'a> View for Declaration<'a> {
    type V = DeclView;

    open spec fn view(&self) -> DeclView {
        decl_view(*self)
    }
}

impl<'a> View for DeclarationBlock<'a> {
    type V = Seq<DeclView>;

    open spec fn view(&self) -> Seq<DeclView> {
        decl_block_view(*self)
    }
}

/// The views of a list of declarations, in order.
pub open spec fn decl_views(list: Seq<Declaration>) -> Seq<DeclView> {
    Seq::new(list.len(), |i: int| list[i]@)
}

/// The view of a block is the views of its declarations.
pub proof fn lemma_decl_block_view(statements: Vec<Declaration>)
    ensures
        (DeclarationBlock { statements })@ == decl_views(statements@),
{
    assert((DeclarationBlock { statements })@ =~= decl_views(statements@));
}

impl DeclarationGrammar {
    /// The declarations that may stand in the body of a module that stands
    /// where this grammar rules.
    pub fn module_body(self) -> (r: DeclarationGrammar)
        ensures
            r == self.spec_module_body(),
    {
        match self {
            DeclarationGrammar::Full => DeclarationGrammar::Full,
            _ => DeclarationGrammar::ModuleBody,
        }
    }

    /// A declaration at `pos`: the first of the kinds that this grammar
    /// admits that stands there.
    pub fn parser<'a>(self, src: &'a str, pos: usize) -> (r: Option<(Declaration<'a>, usize)>)
        ensures
            parsed_view(r) == spec_declaration(src.spec_bytes(), pos as int, self),
            r matches Some((d, end)) ==> pos < end <= src.len() && d.well_formed(),
        decreases src.len() - pos, 3int,
    {
        let every = match self {
            DeclarationGrammar::Full => true,
            DeclarationGrammar::ShaderFile => true,
            _ => false,
        };
        let top = match self {
            DeclarationGrammar::ModuleBody => false,
            _ => true,
        };
        if every {
            match entrypoint_decl_parser(src, pos) {
                Some((d, end)) => { return Some((Declaration::Entrypoint(d), end)); },
                None => {},
            }
            match buffer_decl_parser(src, pos) {
                Some((d, end)) => { return Some((Declaration::Buffer(d), end)); },
                None => {},
            }
        }
        if top {
            match import_decl_parser(src, pos) {
                Some((d, end)) => { return Some((Declaration::Import(d), end)); },
                None => {},
            }
        }
        if every {
            match instance_decl_parser(src, pos) {
                Some((d, end)) => { return Some((Declaration::Instance(d), end)); },
                None => {},
            }
        }
        match func_decl_parser(src, pos) {
            Some((d, end)) => { return Some((Declaration::Func(d), end)); },
            None => {},
        }
        if top {
            match module_decl_parser(self.module_body(), src, pos) {
                Some((d, end)) => { return Some((Declaration::Module(d), end)); },
                None => {},
            }
            match struct_decl_parser(src, pos) {
                Some((d, end)) => { return Some((Declaration::Struct(d), end)); },
                None => {},
            }
        }
        None
    }

    /// A declaration with any whitespace around it, at `pos`.
    pub fn padded_parser<'a>(self, src: &'a str, pos: usize) -> (r: Option<
        (Declaration<'a>, usize),
    >)
        ensures
            parsed_view(r) == spec_padded_declaration(src.spec_bytes(), pos as int, self),
            r matches Some((_, end)) ==> pos < end <= src.len(),
        decreases src.len() - pos, 4int,
    {
        if pos > src.as_bytes().len() {
            return None;
        }
        let q = whitespace_parser(src, pos);
        let (d, r) = match self.parser(src, q) {
            Some(found) => found,
            None => { return None; },
        };
        let end = whitespace_parser(src, r);
        Some((d, end))
    }
}

impl<'a> Declaration<'a> {
    /// An import has a name to stand under. True of what the parser
    /// gives.
    pub open spec fn well_formed(&self) -> bool {
        self matches Declaration::Import(d) ==> d.well_formed()
    }

    /// The declaration in a box.
    pub fn boxed(self) -> (r: Box<Self>)
        ensures
            *r == self,
    {
        Box::new(self)
    }

    /// A declaration of any kind at `pos`, with any whitespace around it.
    /// The body of a module holds declarations of any kind again.
    pub fn parser(src: &'a str, pos: usize) -> (r: Option<(Declaration<'a>, usize)>)
        ensures
            parsed_view(r) == spec_padded_declaration(
                src.spec_bytes(),
                pos as int,
                DeclarationGrammar::Full,
            ),
            r matches Some((_, end)) ==> pos < end <= src.len(),
    {
        DeclarationGrammar::Full.padded_parser(src, pos)
    }

    /// A declaration that may stand in the body of a module of a file, at
    /// `pos`, with any whitespace around it: a function.
    pub fn parser_for_module(src: &'a str, pos: usize) -> (r: Option<(Declaration<'a>, usize)>)
        ensures
            parsed_view(r) == spec_padded_declaration(
                src.spec_bytes(),
                pos as int,
                DeclarationGrammar::ModuleBody,
            ),
            r matches Some((_, end)) ==> pos < end <= src.len(),
    {
        DeclarationGrammar::ModuleBody.padded_parser(src, pos)
    }

    /// The whole of `src` as one declaration of any kind.
    pub fn parse(src: &'a str) -> (r: Result<Declaration<'a>, ParseError>)
        ensures
            result_view(r) == spec_complete(
                spec_padded_declaration(src.spec_bytes(), 0, DeclarationGrammar::Full),
                src.spec_bytes().len() as int,
            ),
    {
        complete(Declaration::parser(src, 0), src.as_bytes().len())
    }
}

impl<'a> DeclarationBlock<'a> {
    /// A block of declarations at `pos`: declarations of the kinds that
    /// `grammar` admits, between braces.
    pub fn parser(grammar: DeclarationGrammar, src: &'a str, pos: usize) -> (r: Option<
        (DeclarationBlock<'a>, usize),
    >)
        ensures
            parsed_view(r) == spec_declaration_block(src.spec_bytes(), pos as int, grammar),
            r matches Some((_, end)) ==> pos < end <= src.len(),
        decreases src.len() - pos, 1int,
    {
        let start = match padded_byte(src, pos, '{' as u8) {
            Some(q) => q,
            None => { return None; },
        };
        let mut statements: Vec<Declaration<'a>> = Vec::new();
        let mut end: usize = start;
        let mut done = false;
        proof {
            assert(decl_views(statements@) =~= seq![]);
        }
        while !done
            invariant
                pos < start <= end <= src.len(),
                spec_declarations(src.spec_bytes(), start as int, grammar, seq![])
                    == spec_declarations(
                    src.spec_bytes(),
                    end as int,
                    grammar,
                    decl_views(statements@),
                ),
                done ==> spec_declarations(
                    src.spec_bytes(),
                    end as int,
                    grammar,
                    decl_views(statements@),
                ) == (decl_views(statements@), end as int),
            decreases src.len() - end, if done { 0int } else { 1int },
        {
            let ghost acc = decl_views(statements@);
            match grammar.padded_parser(src, end) {
                Some((d, next)) => {
                    statements.push(d);
                    proof {
                        assert(decl_views(statements@) =~= acc.push(d@));
                    }
                    end = next;
                },
                None => {
                    done = true;
                },
            }
        }
        match padded_byte(src, end, '}' as u8) {
            Some(close) => {
                proof {
                    lemma_decl_block_view(statements);
                }
                Some((DeclarationBlock { statements }, close))
            },
            None => None,
        }
    }
}

} // verus!
