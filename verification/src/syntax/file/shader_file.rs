//! Shader files.

use vstd::prelude::*;
use vstd::string::*;
use crate::syntax::declaration::{
    BufferDecl, DeclView, Declaration, DeclarationGrammar, EntrypointDecl, FuncDecl, ImportDecl,
    InstanceDecl, ModuleDecl, StructDecl,
};
use crate::syntax::declaration::grammar::{spec_declaration, spec_file, spec_file_rest};
use crate::syntax::error::{complete, result_view, spec_complete, ParseError};
use crate::syntax::util::{parsed_view, whitespace_parser};

verus! {

/// A shader file: declarations of every kind.
#[derive(Debug)]
pub struct ShaderFile<'a> {
    pub declarations: Vec<ShaderFileDeclaration<'a>>,
}

/// A declaration at the top of a shader file.
#[derive(Debug)]
pub enum ShaderFileDeclaration<'a> {
    Entrypoint(EntrypointDecl<'a>),
    Buffer(BufferDecl<'a>),
    Import(ImportDecl<'a>),
    Instance(InstanceDecl<'a>),
    Func(FuncDecl<'a>),
    Module(ModuleDecl<'a>),
    Struct(StructDecl<'a>),
}

impl<'a> View for ShaderFileDeclaration<'a> {
    type V = DeclView;

    open spec fn view(&self) -> DeclView {
        match self {
            ShaderFileDeclaration::Entrypoint(d) => d@,
            ShaderFileDeclaration::Buffer(d) => d@,
            ShaderFileDeclaration::Import(d) => d@,
            ShaderFileDeclaration::Instance(d) => d@,
            ShaderFileDeclaration::Func(d) => d@,
            ShaderFileDeclaration::Module(d) => d@,
            ShaderFileDeclaration::Struct(d) => d@,
        }
    }
}

/// The views of the declarations of a shader file, in order.
pub open spec fn shader_decl_views(list: Seq<ShaderFileDeclaration>) -> Seq<DeclView> {
    Seq::new(list.len(), |i: int| list[i]@)
}

impl<'a> View for ShaderFile<'a> {
    type V = Seq<DeclView>;

    open spec fn view(&self) -> Seq<DeclView> {
        shader_decl_views(self.declarations@)
    }
}

impl<'a> ShaderFileDeclaration<'a> {
    /// An import has a name to stand under. True of what the parser
    /// gives.
    pub open spec fn well_formed(&self) -> bool {
        self matches ShaderFileDeclaration::Import(d) ==> d.well_formed()
    }

    /// A declaration of a kind that may stand at the top of a shader file,
    /// at `pos`. In the body of a module only functions may stand.
    pub fn parser(src: &'a str, pos: usize) -> (r: Option<(ShaderFileDeclaration<'a>, usize)>)
        ensures
            parsed_view(r) == spec_declaration(
                src.spec_bytes(),
                pos as int,
                DeclarationGrammar::ShaderFile,
            ),
            r matches Some((d, end)) ==> pos < end <= src.len() && d.well_formed(),
    {
        match DeclarationGrammar::ShaderFile.parser(src, pos) {
            Some((d, end)) => Some(
                (
                    match d {
                        Declaration::Entrypoint(d) => ShaderFileDeclaration::Entrypoint(d),
                        Declaration::Buffer(d) => ShaderFileDeclaration::Buffer(d),
                        Declaration::Import(d) => ShaderFileDeclaration::Import(d),
                        Declaration::Instance(d) => ShaderFileDeclaration::Instance(d),
                        Declaration::Func(d) => ShaderFileDeclaration::Func(d),
                        Declaration::Module(d) => ShaderFileDeclaration::Module(d),
                        Declaration::Struct(d) => ShaderFileDeclaration::Struct(d),
                    },
                    end,
                ),
            ),
            None => None,
        }
    }
}

impl<'a> ShaderFile<'a> {
    /// A shader file from `pos`: any whitespace, and as many declarations
    /// as follow. Gives the file and the offset where the declarations
    /// end.
    pub fn parser(src: &'a str, pos: usize) -> (r: (ShaderFile<'a>, usize))
        ensures
            (r.0@, r.1 as int) == spec_file(
                src.spec_bytes(),
                pos as int,
                DeclarationGrammar::ShaderFile,
            ),
            pos <= r.1,
            pos <= src.len() ==> r.1 <= src.len(),
            forall|i: int|
                0 <= i < r.0.declarations@.len() ==> (#[trigger] r.0.declarations@[i]).well_formed(),
    {
        let start = whitespace_parser(src, pos);
        let mut declarations: Vec<ShaderFileDeclaration<'a>> = Vec::new();
        let mut end: usize = start;
        match ShaderFileDeclaration::parser(src, start) {
            Some((first, next)) => {
                declarations.push(first);
                end = next;
                let mut done = false;
                proof {
                    assert(shader_decl_views(declarations@) =~= seq![
                        first@,
                    ]);
                }
                while !done
                    invariant
                        pos <= start < end <= src.len(),
                        forall|i: int|
                            0 <= i < declarations@.len() ==> (
                            #[trigger] declarations@[i]).well_formed(),
                        spec_file(src.spec_bytes(), pos as int, DeclarationGrammar::ShaderFile)
                            == spec_file_rest(
                            src.spec_bytes(),
                            end as int,
                            DeclarationGrammar::ShaderFile,
                            shader_decl_views(declarations@),
                        ),
                        done ==> spec_file_rest(
                            src.spec_bytes(),
                            end as int,
                            DeclarationGrammar::ShaderFile,
                            shader_decl_views(declarations@),
                        ) == (
                            shader_decl_views(declarations@),
                            end as int,
                        ),
                    decreases src.len() - end, if done { 0int } else { 1int },
                {
                    let ghost acc = shader_decl_views(declarations@);
                    let at = whitespace_parser(src, end);
                    match ShaderFileDeclaration::parser(src, at) {
                        Some((d, next)) => {
                            declarations.push(d);
                            proof {
                                assert(shader_decl_views(declarations@)
                                    =~= acc.push(d@));
                            }
                            end = next;
                        },
                        None => {
                            done = true;
                        },
                    }
                }
            },
            None => {
                proof {
                    assert(shader_decl_views(declarations@) =~= seq![]);
                }
            },
        }
        (ShaderFile { declarations }, end)
    }

    /// The whole of `src` as a shader file. Where it fails, the offset is
    /// that of the first text that is no declaration.
    pub fn parse(src: &'a str) -> (r: Result<ShaderFile<'a>, ParseError>)
        ensures
            result_view(r) == spec_complete(
                Some(spec_file(src.spec_bytes(), 0, DeclarationGrammar::ShaderFile)),
                src.spec_bytes().len() as int,
            ),
            r matches Ok(file) ==> forall|i: int|
                0 <= i < file.declarations@.len() ==> (
                #[trigger] file.declarations@[i]).well_formed(),
    {
        complete(Some(ShaderFile::parser(src, 0)), src.as_bytes().len())
    }
}

} // verus!
