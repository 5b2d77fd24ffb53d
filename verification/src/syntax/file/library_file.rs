//! Library files.

use vstd::prelude::*;
use vstd::string::*;
use crate::syntax::declaration::{
    DeclView, DeclarationGrammar, FuncDecl, ImportDecl, ModuleDecl, StructDecl,
};
use crate::syntax::declaration::func_decl::func_decl_parser;
use crate::syntax::declaration::import_decl::import_decl_parser;
use crate::syntax::declaration::module_decl::module_decl_parser;
use crate::syntax::declaration::struct_decl::struct_decl_parser;
use crate::syntax::declaration::grammar::{spec_declaration, spec_file, spec_file_rest};
use crate::syntax::error::{complete, result_view, spec_complete, ParseError};
use crate::syntax::util::{parsed_view, whitespace_parser};

verus! {

/// A library file: imports, functions, modules and structs.
#[derive(Debug)]
pub struct LibraryFile<'a> {
    pub declarations: Vec<LibraryFileDeclaration<'a>>,
}

/// A declaration at the top of a library file.
#[derive(Debug)]
pub enum LibraryFileDeclaration<'a> {
    Import(ImportDecl<'a>),
    Func(FuncDecl<'a>),
    Module(ModuleDecl<'a>),
    Struct(StructDecl<'a>),
}

impl<'a> View for LibraryFileDeclaration<'a> {
    type V = DeclView;

    open spec fn view(&self) -> DeclView {
        match self {
            LibraryFileDeclaration::Import(d) => d@,
            LibraryFileDeclaration::Func(d) => d@,
            LibraryFileDeclaration::Module(d) => d@,
            LibraryFileDeclaration::Struct(d) => d@,
        }
    }
}

/// The views of the declarations of a library file, in order.
pub open spec fn library_decl_views(list: Seq<LibraryFileDeclaration>) -> Seq<DeclView> {
    Seq::new(list.len(), |i: int| list[i]@)
}

impl<'a> View for LibraryFile<'a> {
    type V = Seq<DeclView>;

    open spec fn view(&self) -> Seq<DeclView> {
        library_decl_views(self.declarations@)
    }
}

impl<'a> LibraryFileDeclaration<'a> {
    /// A declaration of a kind that may stand at the top of a library file,
    /// at `pos`: an import, a function, a module or a struct. In the body of a
    /// module only functions may stand.
    pub fn parser(src: &'a str, pos: usize) -> (r: Option<(LibraryFileDeclaration<'a>, usize)>)
        ensures
            parsed_view(r) == spec_declaration(
                src.spec_bytes(),
                pos as int,
                DeclarationGrammar::LibraryFile,
            ),
            r matches Some((d, end)) ==> pos < end <= src.len(),
    {
        match import_decl_parser(src, pos) {
            Some((d, end)) => { return Some((LibraryFileDeclaration::Import(d), end)); },
            None => {},
        }
        match func_decl_parser(src, pos) {
            Some((d, end)) => { return Some((LibraryFileDeclaration::Func(d), end)); },
            None => {},
        }
        match module_decl_parser(DeclarationGrammar::ModuleBody, src, pos) {
            Some((d, end)) => { return Some((LibraryFileDeclaration::Module(d), end)); },
            None => {},
        }
        match struct_decl_parser(src, pos) {
            Some((d, end)) => Some((LibraryFileDeclaration::Struct(d), end)),
            None => None,
        }
    }
}

impl<'a> LibraryFile<'a> {
    /// A library file from `pos`: any whitespace, and as many declarations
    /// as follow. Gives the file and the offset where the declarations
    /// end.
    pub fn parser(src: &'a str, pos: usize) -> (r: (LibraryFile<'a>, usize))
        ensures
            (r.0@, r.1 as int) == spec_file(
                src.spec_bytes(),
                pos as int,
                DeclarationGrammar::LibraryFile,
            ),
            pos <= r.1,
            pos <= src.len() ==> r.1 <= src.len(),
    {
        let start = whitespace_parser(src, pos);
        let mut declarations: Vec<LibraryFileDeclaration<'a>> = Vec::new();
        let mut end: usize = start;
        match LibraryFileDeclaration::parser(src, start) {
            Some((first, next)) => {
                declarations.push(first);
                end = next;
                let mut done = false;
                proof {
                    assert(library_decl_views(declarations@) =~= seq![
                        first@,
                    ]);
                }
                while !done
                    invariant
                        pos <= start < end <= src.len(),
                        spec_file(src.spec_bytes(), pos as int, DeclarationGrammar::LibraryFile)
                            == spec_file_rest(
                            src.spec_bytes(),
                            end as int,
                            DeclarationGrammar::LibraryFile,
                            library_decl_views(declarations@),
                        ),
                        done ==> spec_file_rest(
                            src.spec_bytes(),
                            end as int,
                            DeclarationGrammar::LibraryFile,
                            library_decl_views(declarations@),
                        ) == (
                            library_decl_views(declarations@),
                            end as int,
                        ),
                    decreases src.len() - end, if done { 0int } else { 1int },
                {
                    let ghost acc = library_decl_views(declarations@);
                    let at = whitespace_parser(src, end);
                    match LibraryFileDeclaration::parser(src, at) {
                        Some((d, next)) => {
                            declarations.push(d);
                            proof {
                                assert(library_decl_views(declarations@)
                                    =~= acc.push(d@));
                            }
                            end = next;
                        },
                        None => {
                            done = true;
                        },
                    }
                }
            },
            None => {
                proof {
                    assert(library_decl_views(declarations@) =~= seq![]);
                }
            },
        }
        (LibraryFile { declarations }, end)
    }

    /// The whole of `src` as a library file. Where it fails, the offset is
    /// that of the first text that is no declaration.
    pub fn parse(src: &'a str) -> (r: Result<LibraryFile<'a>, ParseError>)
        ensures
            result_view(r) == spec_complete(
                Some(spec_file(src.spec_bytes(), 0, DeclarationGrammar::LibraryFile)),
                src.spec_bytes().len() as int,
            ),
    {
        complete(Some(LibraryFile::parser(src, 0)), src.as_bytes().len())
    }
}

} // verus!
