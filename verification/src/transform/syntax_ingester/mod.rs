//! The syntax ingester: one pass over the declarations of a parsed shader
//! file, which interns their names and gives their partials.

pub mod declaration_partials;
pub mod shader_file_partial;
pub mod type_partials;

use vstd::prelude::*;
use vstd::string::*;
use vstd::utf8::*;
use crate::model::{
    EntrypointDims, ModelSpace, NameModelHandle, ShaderFileModel, ShaderFileModelHandle,
    StringModelHandle,
};
use crate::model::model_space::ModelSpaceView;
use crate::syntax::declaration::{
    BufferDecl, DeclView, DeclarationGrammar, EntrypointDecl, FuncDecl, ImportDecl, InstanceDecl,
    ModuleDecl, StructDecl,
};
use crate::syntax::declaration::func_decl::argument_views;
use crate::syntax::declaration::grammar::spec_file;
use crate::syntax::error::{spec_complete, ParseError, ParseErrorView};
use crate::syntax::file::{ShaderFile, ShaderFileDeclaration};
use crate::syntax::file::shader_file::shader_decl_views;
use crate::syntax::types::TypeName;
use crate::transform::session_config::SessionConfig;
use crate::transform::syntax_ingester::declaration_partials::arg_partial_views;
use crate::transform::syntax_ingester::type_partials::spec_type_ref;
pub use crate::transform::syntax_ingester::declaration_partials::{
    BufferDeclPartial, EntrypointDeclPartial, FuncDeclArgPartial, FuncDeclPartial,
    ImportDeclPartial, InstanceDeclPartial, ModuleDeclPartial, PartialView, StatementBodyPartial,
    StructDeclPartial, UniformsDeclPartial,
};
use crate::transform::syntax_ingester::shader_file_partial::lemma_add_keeps_names_apart;
pub use crate::transform::syntax_ingester::shader_file_partial::{
    ShaderFileDeclarationPartial, ShaderFilePartial, ShaderFilePartialView,
};
pub use crate::transform::syntax_ingester::type_partials::{
    primitive_type, TypeRefPartial, TypeRefView,
};

verus! {

/// Why a shader file could not be ingested.
#[derive(Debug, Clone, PartialEq, Eq)]
pub enum SyntaxIngestionCause {
    /// The text is no shader file.
    Parse(ParseError),
    /// The file declares this name twice.
    DuplicateDeclaration(String),
    /// A shader file is registered under the path already.
    DuplicateShaderFile,
}

/// A shader file that could not be ingested: its path and the reason.
#[derive(Debug, Clone, PartialEq, Eq)]
pub struct SyntaxIngestionError {
    pub path: String,
    pub cause: SyntaxIngestionCause,
}

/// A `SyntaxIngestionCause` as mathematics.
pub enum IngestionCauseView {
    Parse(ParseErrorView),
    DuplicateDeclaration(Seq<u8>),
    DuplicateShaderFile,
}

/// A `SyntaxIngestionError` as mathematics.
pub struct IngestionErrorView {
    pub path: Seq<u8>,
    pub cause: IngestionCauseView,
}

impl View for SyntaxIngestionCause {
    type V = IngestionCauseView;

    open spec fn view(&self) -> IngestionCauseView {
        match self {
            SyntaxIngestionCause::Parse(e) => IngestionCauseView::Parse(e@),
            SyntaxIngestionCause::DuplicateDeclaration(name) => IngestionCauseView::DuplicateDeclaration(
                encode_utf8(name@),
            ),
            SyntaxIngestionCause::DuplicateShaderFile => IngestionCauseView::DuplicateShaderFile,
        }
    }
}

impl View for SyntaxIngestionError {
    type V = IngestionErrorView;

    open spec fn view(&self) -> IngestionErrorView {
        IngestionErrorView { path: encode_utf8(self.path@), cause: self.cause@ }
    }
}

/// The name under which a file declares `d`: that of the declaration; for
/// an import its alias, or without one the last segment of its path.
pub open spec fn spec_declared_name(d: DeclView) -> Seq<u8> {
    match d {
        DeclView::Buffer { name, .. } => name,
        DeclView::Entrypoint { name, .. } => name,
        DeclView::Import { path, alias } => match alias {
            Some(alias) => alias,
            None => path.last(),
        },
        DeclView::Instance { name, .. } => name,
        DeclView::Func { name, .. } => name,
        DeclView::Module { name, .. } => name,
        DeclView::Struct { name, .. } => name,
    }
}

/// The arguments of a function with the types that their type names
/// refer to.
pub open spec fn spec_arg_partials(arguments: Seq<(Seq<u8>, Seq<Seq<u8>>)>) -> Seq<
    (Seq<u8>, TypeRefView),
> {
    Seq::new(arguments.len(), |i: int| (arguments[i].0, spec_type_ref(arguments[i].1)))
}

/// What one pass over the declaration `d` gives. Bodies are left out;
/// instances, modules and structs keep their syntax.
pub open spec fn spec_partial(d: DeclView) -> PartialView {
    match d {
        DeclView::Buffer { name, ty, .. } => PartialView::Buffer { name, ty: spec_type_ref(ty) },
        DeclView::Entrypoint { name, dims, arg_name, .. } => PartialView::Entrypoint {
            name,
            dims: EntrypointDims::spec_from_decl_dims(dims),
            arg_name,
        },
        DeclView::Import { path, .. } => PartialView::Import { name: spec_declared_name(d), path },
        DeclView::Instance { name, .. } => PartialView::Instance { name, decl: d },
        DeclView::Func { name, arguments, return_ty, .. } => PartialView::Func {
            name,
            return_ty: match return_ty {
                Some(ty) => Some(spec_type_ref(ty)),
                None => None,
            },
            args: spec_arg_partials(arguments),
        },
        DeclView::Module { name, .. } => PartialView::Module { name, decl: d },
        DeclView::Struct { name, .. } => PartialView::Struct { name, decl: d },
    }
}

/// The names of the arguments of a function, in order.
pub open spec fn spec_arg_names(arguments: Seq<(Seq<u8>, Seq<Seq<u8>>)>) -> Seq<Seq<u8>> {
    Seq::new(arguments.len(), |i: int| arguments[i].0)
}

/// The names that the pass over the declaration `d` interns, in the order
/// in which it interns them.
pub open spec fn spec_interned_names(d: DeclView) -> Seq<Seq<u8>> {
    match d {
        DeclView::Entrypoint { name, arg_name, .. } => seq![name, arg_name],
        DeclView::Func { name, arguments, .. } => seq![name] + spec_arg_names(arguments),
        _ => seq![spec_declared_name(d)],
    }
}

/// The model space after `names` have been interned in it as names, one
/// after the other.
pub open spec fn intern_names(space: ModelSpaceView, names: Seq<Seq<u8>>) -> ModelSpaceView
    decreases names.len(),
{
    if names.len() == 0 {
        space
    } else {
        intern_names(space, names.drop_last()).intern_name(names.last())
    }
}

/// The error for a second declaration of `name` in the file at `path`.
pub open spec fn duplicate_error(path: Seq<u8>, name: Seq<u8>) -> IngestionErrorView {
    IngestionErrorView { path, cause: IngestionCauseView::DuplicateDeclaration(name) }
}

/// The partial of a file after the pass over one more declaration `d`: the
/// partial with what the pass gives for `d`, or the error that names `d`
/// where the file declares its name already.
pub open spec fn spec_ingest_declaration(file: ShaderFilePartialView, d: DeclView) -> Result<
    ShaderFilePartialView,
    IngestionErrorView,
> {
    if file.declares(spec_declared_name(d)) {
        Err(duplicate_error(file.path, spec_declared_name(d)))
    } else {
        Ok(file.add(spec_partial(d)))
    }
}

/// Where a pass over a file stands: the model space, and the partial of
/// the file or the error that stopped the pass.
pub struct IngestState {
    pub space: ModelSpaceView,
    pub file: Result<ShaderFilePartialView, IngestionErrorView>,
}

/// Where a pass stands before a declaration: it has not failed.
pub open spec fn state_before(space: ModelSpaceView, file: ShaderFilePartialView) -> IngestState {
    IngestState { space, file: Ok(file) }
}

/// Where a pass stands after a declaration, from what the pass gave.
pub open spec fn state_after(
    space: ModelSpaceView,
    file: ShaderFilePartialView,
    r: Result<(), SyntaxIngestionError>,
) -> IngestState {
    IngestState {
        space,
        file: match r {
            Ok(()) => Ok(file),
            Err(e) => Err(e@),
        },
    }
}

/// Where the pass stands after one more declaration `d`. After an error
/// nothing changes any more.
#[verifier::opaque]
pub open spec fn spec_ingest_step(state: IngestState, d: DeclView) -> IngestState {
    match state.file {
        Ok(file) => IngestState {
            space: intern_names(state.space, spec_interned_names(d)),
            file: spec_ingest_declaration(file, d),
        },
        Err(_) => state,
    }
}

/// Where the pass stands after the declarations `decls`, taken in order.
#[verifier::opaque]
pub open spec fn spec_ingest_declarations(state: IngestState, decls: Seq<DeclView>) -> IngestState
    decreases decls.len(),
{
    if decls.len() == 0 {
        state
    } else {
        spec_ingest_step(spec_ingest_declarations(state, decls.drop_last()), decls.last())
    }
}

/// What the ingestion of the text `text` as the shader file at `path`
/// does to the model space `space`, and whether it succeeds. A text that
/// is no shader file changes nothing. Else the names of the declarations
/// are interned, in order, up to the first that is declared twice. Where
/// none is, the file is registered under its path, unless one is
/// registered there already.
pub open spec fn spec_ingest_contents(space: ModelSpaceView, path: Seq<u8>, text: Seq<u8>) -> (
    ModelSpaceView,
    Result<(), IngestionErrorView>,
) {
    match spec_complete(
        Some(spec_file(text, 0, DeclarationGrammar::ShaderFile)),
        text.len() as int,
    ) {
        Err(e) => (space, Err(IngestionErrorView { path, cause: IngestionCauseView::Parse(e) })),
        Ok(decls) => {
            let start = state_before(space, ShaderFilePartialView { path, declarations: seq![] });
            let end = spec_ingest_declarations(start, decls);
            match end.file {
                Err(e) => (end.space, Err(e)),
                Ok(_) => if end.space.has_shader_file(path) {
                    (
                        end.space,
                        Err(
                            IngestionErrorView {
                                path,
                                cause: IngestionCauseView::DuplicateShaderFile,
                            },
                        ),
                    )
                } else {
                    (end.space.add_shader_file(path), Ok(()))
                },
            }
        },
    }
}

/// The result of an ingestion, as mathematics.
pub open spec fn ingestion_view<T>(r: Result<T, SyntaxIngestionError>) -> Result<
    (),
    IngestionErrorView,
> {
    match r {
        Ok(_) => Ok(()),
        Err(e) => Err(e@),
    }
}

/// Interning one more name after others is interning them all.
pub proof fn lemma_intern_names_push(space: ModelSpaceView, names: Seq<Seq<u8>>, name: Seq<u8>)
    ensures
        intern_names(space, names.push(name)) == intern_names(space, names).intern_name(name),
{
    assert(names.push(name).drop_last() =~= names);
}

/// The same list, with what was moved out of it in reverse order.
fn reversed<T>(list: Vec<T>) -> (r: Vec<T>)
    ensures
        r@.len() == list@.len(),
        forall|i: int| 0 <= i < r@.len() ==> r@[i] == list@[list@.len() - 1 - i],
{
    let mut from = list;
    let mut to: Vec<T> = Vec::new();
    while from.len() > 0
        invariant
            from@.len() + to@.len() == list@.len(),
            forall|i: int| 0 <= i < from@.len() ==> from@[i] == list@[i],
            forall|i: int| 0 <= i < to@.len() ==> to@[i] == list@[list@.len() - 1 - i],
        decreases from@.len(),
    {
        let item = from.pop().unwrap();
        to.push(item);
    }
    to
}

/// Ingests the syntax tree of a shader file: interns the names of its
/// declarations in a model space, and gives their partials.
pub struct SyntaxIngester<'a> {
    session_config: &'a SessionConfig,
    model_space: ModelSpace,
}

impl<'a> SyntaxIngester<'a> {
    /// The model space in which the ingester interns.
    pub closed spec fn space(&self) -> ModelSpace {
        self.model_space
    }

    /// The configuration of the session.
    pub closed spec fn config(&self) -> &'a SessionConfig {
        self.session_config
    }

    /// An ingester with a model space of its own, in which nothing is
    /// interned yet.
    pub fn new(session_config: &'a SessionConfig) -> (r: Self)
        ensures
            r.space()@ == ModelSpaceView::empty(),
            r.space()@.well_formed(),
            r.config() == session_config,
    {
        SyntaxIngester { session_config, model_space: ModelSpace::new() }
    }

    /// The model space in which the ingester interns.
    pub fn model_space(&self) -> (r: &ModelSpace)
        ensures
            *r == self.space(),
    {
        &self.model_space
    }

    /// Ingests the text `contents` as the shader file at `sub_path`, in a
    /// model space of its own, and gives the handle to the model of the
    /// file. Fails where the text is no shader file, and where the file
    /// declares a name twice.
    pub fn parse_shader_file(session_config: &SessionConfig, sub_path: &str, contents: &str) -> (r:
        Result<ShaderFileModelHandle, SyntaxIngestionError>)
        ensures
            ingestion_view(r) == spec_ingest_contents(
                ModelSpaceView::empty().intern_string(sub_path.spec_bytes()),
                sub_path.spec_bytes(),
                contents.spec_bytes(),
            ).1,
            r matches Ok(h) ==> h@ == sub_path.spec_bytes(),
    {
        let mut ingester = SyntaxIngester::new(session_config);
        let sub_path = ingester.model_space.intern_string(sub_path);
        ingester.ingest_shader_file_contents(sub_path, contents)
    }

    /// Ingests the text `file_contents` as the shader file at `sub_path`:
    /// parses it, passes over its declarations, and registers the file in
    /// the model space.
    pub fn ingest_shader_file_contents(
        &mut self,
        sub_path: StringModelHandle,
        file_contents: &str,
    ) -> (r: Result<ShaderFileModelHandle, SyntaxIngestionError>)
        requires
            old(self).space()@.well_formed(),
        ensures
            (final(self).space()@, ingestion_view(r)) == spec_ingest_contents(
                old(self).space()@,
                sub_path@,
                file_contents.spec_bytes(),
            ),
            final(self).space()@.well_formed(),
            final(self).config() == old(self).config(),
            r matches Ok(h) ==> h.model().path == sub_path,
    {
        let shader_file = match ShaderFile::parse(file_contents) {
            Ok(file) => file,
            Err(e) => {
                return Err(
                    SyntaxIngestionError {
                        path: sub_path.borrow().name.clone(),
                        cause: SyntaxIngestionCause::Parse(e),
                    },
                );
            },
        };
        let ghost decls = shader_file@;
        let mut shader_file_partial = ShaderFilePartial::new(sub_path.clone());
        let ghost start = state_before(self.space()@, shader_file_partial@);
        proof {
            assert(shader_file_partial@ == ShaderFilePartialView {
                path: sub_path@,
                declarations: seq![],
            });
        }
        let passed = self.ingest_shader_file_declarations(
            &mut shader_file_partial,
            shader_file.declarations,
        );
        proof {
            assert(state_after(self.space()@, shader_file_partial@, passed)
                == spec_ingest_declarations(start, decls));
        }
        match passed {
            Ok(()) => {},
            Err(e) => { return Err(e); },
        }
        if self.model_space.has_shader_file_model(sub_path.borrow().as_str()) {
            return Err(
                SyntaxIngestionError {
                    path: sub_path.borrow().name.clone(),
                    cause: SyntaxIngestionCause::DuplicateShaderFile,
                },
            );
        }
        Ok(self.model_space.add_shader_file_model(ShaderFileModel::new(sub_path)))
    }

    /// Passes over the declarations of a shader file, in order, up to the
    /// first that is declared twice.
    pub fn ingest_shader_file_declarations<'s>(
        &mut self,
        partial: &mut ShaderFilePartial<'s>,
        declarations: Vec<ShaderFileDeclaration<'s>>,
    ) -> (r: Result<(), SyntaxIngestionError>)
        requires
            old(self).space()@.well_formed(),
            old(partial)@.well_formed(),
            forall|i: int|
                0 <= i < declarations@.len() ==> (#[trigger] declarations@[i]).well_formed(),
        ensures
            state_after(final(self).space()@, final(partial)@, r) == spec_ingest_declarations(
                state_before(old(self).space()@, old(partial)@),
                shader_decl_views(declarations@),
            ),
            final(self).space()@.well_formed(),
            final(self).config() == old(self).config(),
            final(partial)@.well_formed(),
            final(partial).path == old(partial).path,
    {
        let ghost decls = shader_decl_views(declarations@);
        let ghost start = state_before(self.space()@, partial@);
        let n = declarations.len();
        let mut stack = reversed(declarations);
        let mut done: usize = 0;
        proof {
            lemma_ingest_none(start, decls);
        }
        while done < n
            invariant
                done <= n,
                n == decls.len(),
                n == declarations@.len(),
                stack@.len() == n - done,
                forall|i: int| 0 <= i < stack@.len() ==> stack@[i] == declarations@[n - 1 - i],
                forall|i: int|
                    0 <= i < declarations@.len() ==> (#[trigger] declarations@[i]).well_formed(),
                decls == shader_decl_views(declarations@),
                start == state_before(old(self).space()@, old(partial)@),
                self.space()@.well_formed(),
                self.config() == old(self).config(),
                partial@.well_formed(),
                partial.path == old(partial).path,
                state_before(self.space()@, partial@) == spec_ingest_declarations(
                    start,
                    decls.subrange(0, done as int),
                ),
            decreases n - done,
        {
            let decl = stack.pop().unwrap();
            proof {
                assert(decl == declarations@[done as int]);
                assert(decls[done as int] == decl@);
                lemma_ingest_next(start, decls, done as int);
            }
            let ghost space_before = self.space()@;
            let ghost file_before = partial@;
            match self.ingest_shader_file_declaration(partial, decl) {
                Ok(()) => {},
                Err(e) => {
                    proof {
                        let reached = spec_ingest_declarations(start, decls.subrange(0, done + 1));
                        assert(state_after(self.space()@, partial@, Err(e)) == spec_ingest_step(
                            state_before(space_before, file_before),
                            decls[done as int],
                        ));
                        assert(reached == state_after(self.space()@, partial@, Err(e)));
                        assert(reached.file is Err);
                        lemma_ingest_stops(start, decls, done + 1);
                    }
                    return Err(e);
                },
            }
            done = done + 1;
        }
        proof {
            assert(decls.subrange(0, n as int) =~= decls);
        }
        Ok(())
    }

    /// Passes over one declaration of a shader file: interns its names
    /// and adds its partial to the partial of the file. Fails where the
    /// file declares the name already, whatever the kinds of the two
    /// declarations.
    pub fn ingest_shader_file_declaration<'s>(
        &mut self,
        partial: &mut ShaderFilePartial<'s>,
        decl: ShaderFileDeclaration<'s>,
    ) -> (r: Result<(), SyntaxIngestionError>)
        requires
            old(self).space()@.well_formed(),
            old(partial)@.well_formed(),
            decl.well_formed(),
        ensures
            ingested(*old(self), *old(partial), decl@, *final(self), *final(partial), r),
    {
        match decl {
            ShaderFileDeclaration::Entrypoint(entrypoint_decl) => self.ingest_entrypoint_decl(
                partial,
                entrypoint_decl,
            ),
            ShaderFileDeclaration::Buffer(buffer_decl) => self.ingest_buffer_decl(
                partial,
                buffer_decl,
            ),
            ShaderFileDeclaration::Import(import_decl) => self.ingest_import_decl(
                partial,
                import_decl,
            ),
            ShaderFileDeclaration::Instance(instance_decl) => self.ingest_instance_decl(
                partial,
                instance_decl,
            ),
            ShaderFileDeclaration::Func(func_decl) => self.ingest_func_decl(partial, func_decl),
            ShaderFileDeclaration::Module(module_decl) => self.ingest_module_decl(
                partial,
                module_decl,
            ),
            ShaderFileDeclaration::Struct(struct_decl) => self.ingest_struct_decl(
                partial,
                struct_decl,
            ),
        }
    }

    /// The error for a second declaration of the name that `name` refers
    /// to, in the file of `partial`.
    pub fn duplicate_declaration(partial: &ShaderFilePartial, name: &NameModelHandle) -> (e:
        SyntaxIngestionError)
        ensures
            e@ == duplicate_error(partial@.path, name@),
    {
        SyntaxIngestionError {
            path: partial.path.borrow().name.clone(),
            cause: SyntaxIngestionCause::DuplicateDeclaration(name.borrow().name.clone()),
        }
    }

    /// Passes over an entrypoint: interns its name and the name of its
    /// argument. Its body is left empty.
    pub fn ingest_entrypoint_decl<'s>(
        &mut self,
        partial: &mut ShaderFilePartial<'s>,
        entrypoint_decl: EntrypointDecl<'s>,
    ) -> (r: Result<(), SyntaxIngestionError>)
        requires
            old(self).space()@.well_formed(),
            old(partial)@.well_formed(),
        ensures
            ingested(*old(self), *old(partial), entrypoint_decl@, *final(self), *final(partial), r),
    {
        proof {
            reveal(spec_ingest_step);
        }
        let ghost names = spec_interned_names(entrypoint_decl@);
        let name = self.model_space.intern_name(entrypoint_decl.name.contents);
        let arg_name = self.model_space.intern_name(entrypoint_decl.arg_name.contents);
        proof {
            crate::model::model_space::lemma_interned(old(self).space()@.names, name@);
            assert(names.drop_last() =~= seq![name@]);
            assert(names.drop_last().drop_last() =~= Seq::<Seq<u8>>::empty());
            reveal_with_fuel(intern_names, 3);
        }
        let dims = EntrypointDims::from_decl_dims(entrypoint_decl.dims);
        let body = Vec::new();
        if partial.declares(&name) {
            return Err(Self::duplicate_declaration(partial, &name));
        }
        partial.add_entrypoint_decl(EntrypointDeclPartial { name, dims, arg_name, body });
        Ok(())
    }

    /// Passes over a buffer: interns its name and settles its type as far
    /// as one pass can.
    pub fn ingest_buffer_decl<'s>(
        &mut self,
        partial: &mut ShaderFilePartial<'s>,
        buffer_decl: BufferDecl<'s>,
    ) -> (r: Result<(), SyntaxIngestionError>)
        requires
            old(self).space()@.well_formed(),
            old(partial)@.well_formed(),
        ensures
            ingested(*old(self), *old(partial), buffer_decl@, *final(self), *final(partial), r),
    {
        proof {
            reveal(spec_ingest_step);
        }
        let name = self.model_space.intern_name(buffer_decl.name.contents);
        proof {
            lemma_intern_one(old(self).space()@, name@);
        }
        let ty = self.inflate_type_reference(partial, &buffer_decl.ty);
        if partial.declares(&name) {
            return Err(Self::duplicate_declaration(partial, &name));
        }
        partial.add_buffer_decl(BufferDeclPartial { name, ty });
        Ok(())
    }

    /// Passes over an import: interns the name that it stands under, its
    /// alias or the last segment of its path.
    pub fn ingest_import_decl<'s>(
        &mut self,
        partial: &mut ShaderFilePartial<'s>,
        import_decl: ImportDecl<'s>,
    ) -> (r: Result<(), SyntaxIngestionError>)
        requires
            old(self).space()@.well_formed(),
            old(partial)@.well_formed(),
            import_decl.well_formed(),
        ensures
            ingested(*old(self), *old(partial), import_decl@, *final(self), *final(partial), r),
    {
        proof {
            reveal(spec_ingest_step);
        }
        let path = import_decl.name_path;
        let name = match import_decl.maybe_alias {
            Some(alias) => self.model_space.intern_name(alias.contents),
            None => {
                proof {
                    assert(path@.last() == path.parts@[path.parts@.len() - 1]@);
                }
                self.model_space.intern_name(path.parts[path.parts.len() - 1].contents)
            },
        };
        proof {
            lemma_intern_one(old(self).space()@, name@);
        }
        if partial.declares(&name) {
            return Err(Self::duplicate_declaration(partial, &name));
        }
        partial.add_import_decl(ImportDeclPartial { name, path });
        Ok(())
    }

    /// Passes over an instance: interns its name and keeps its syntax.
    pub fn ingest_instance_decl<'s>(
        &mut self,
        partial: &mut ShaderFilePartial<'s>,
        instance_decl: InstanceDecl<'s>,
    ) -> (r: Result<(), SyntaxIngestionError>)
        requires
            old(self).space()@.well_formed(),
            old(partial)@.well_formed(),
        ensures
            ingested(*old(self), *old(partial), instance_decl@, *final(self), *final(partial), r),
    {
        proof {
            reveal(spec_ingest_step);
        }
        let name = self.model_space.intern_name(instance_decl.name.contents);
        proof {
            lemma_intern_one(old(self).space()@, name@);
        }
        if partial.declares(&name) {
            return Err(Self::duplicate_declaration(partial, &name));
        }
        partial.add_instance_decl(InstanceDeclPartial { name, syntax_decl: instance_decl });
        Ok(())
    }

    /// Passes over a function: interns its name and the names of its
    /// arguments, and settles their types and the return type as far as
    /// one pass can. Its body is left empty.
    pub fn ingest_func_decl<'s>(
        &mut self,
        partial: &mut ShaderFilePartial<'s>,
        func_decl: FuncDecl<'s>,
    ) -> (r: Result<(), SyntaxIngestionError>)
        requires
            old(self).space()@.well_formed(),
            old(partial)@.well_formed(),
        ensures
            ingested(*old(self), *old(partial), func_decl@, *final(self), *final(partial), r),
    {
        proof {
            reveal(spec_ingest_step);
        }
        let ghost arguments = argument_views(func_decl.arguments@);
        let name = self.model_space.intern_name(func_decl.name.contents);
        proof {
            lemma_intern_one(old(self).space()@, name@);
        }
        let return_ty = match &func_decl.return_ty {
            Some(ty) => Some(self.inflate_type_reference(partial, ty)),
            None => None,
        };
        let mut args: Vec<FuncDeclArgPartial<'s>> = Vec::new();
        let mut i: usize = 0;
        proof {
            assert(arg_partial_views(args@) =~= spec_arg_partials(arguments).subrange(0, 0));
            assert(seq![name@] + spec_arg_names(arguments).subrange(0, 0) =~= seq![name@]);
        }
        while i < func_decl.arguments.len()
            invariant
                i <= func_decl.arguments@.len(),
                arguments == argument_views(func_decl.arguments@),
                self.space()@.well_formed(),
                self.config() == old(self).config(),
                *partial == *old(partial),
                self.space().holds_name(name),
                forall|k: int| 0 <= k < args@.len() ==> self.space().holds_name(
                    (#[trigger] args@[k]).name,
                ),
                arg_partial_views(args@) == spec_arg_partials(arguments).subrange(0, i as int),
                self.space()@ == intern_names(
                    old(self).space()@,
                    seq![name@] + spec_arg_names(arguments).subrange(0, i as int),
                ),
            decreases func_decl.arguments@.len() - i,
        {
            let ghost before = arg_partial_views(args@);
            let ghost names = seq![name@] + spec_arg_names(arguments).subrange(0, i as int);
            let ghost held = self.space().name_handles();
            let ghost args_before = args@;
            let arg_name = self.model_space.intern_name(func_decl.arguments[i].name.contents);
            let ty = self.inflate_type_reference(partial, &func_decl.arguments[i].ty);
            args.push(FuncDeclArgPartial { name: arg_name, ty });
            proof {
                let now = self.space().name_handles();
                crate::model::model_space::lemma_held_stays(held, now, name);
                assert forall|k: int| 0 <= k < args@.len() implies self.space().holds_name(
                    (#[trigger] args@[k]).name,
                ) by {
                    if k < args_before.len() {
                        assert(args@[k] == args_before[k]);
                        crate::model::model_space::lemma_held_stays(held, now, args_before[k].name);
                    }
                }
                assert(arguments[i as int] == func_decl.arguments@[i as int]@);
                assert(arg_partial_views(args@) =~= before.push(
                    spec_arg_partials(arguments)[i as int],
                ));
                assert(before.push(spec_arg_partials(arguments)[i as int]) =~= spec_arg_partials(
                    arguments,
                ).subrange(0, i + 1));
                lemma_intern_names_push(old(self).space()@, names, arg_name@);
                assert(names.push(arg_name@) =~= seq![name@] + spec_arg_names(arguments).subrange(
                    0,
                    i + 1,
                ));
            }
            i = i + 1;
        }
        proof {
            assert(spec_arg_partials(arguments).subrange(0, i as int) =~= spec_arg_partials(
                arguments,
            ));
            assert(spec_arg_names(arguments).subrange(0, i as int) =~= spec_arg_names(arguments));
        }
        let body = Vec::new();
        if partial.declares(&name) {
            return Err(Self::duplicate_declaration(partial, &name));
        }
        let func_partial = FuncDeclPartial { name, return_ty, args, body };
        proof {
            let added = ShaderFileDeclarationPartial::Func(func_partial);
            assert forall|k: int| 0 <= k < added.name_handles().len() implies self.space().holds_name(
                #[trigger] added.name_handles()[k],
            ) by {
                if k > 0 {
                    assert(added.name_handles()[k] == args@[k - 1].name);
                }
            }
        }
        partial.add_func_decl(func_partial);
        Ok(())
    }

    /// Passes over a module: interns its name and keeps its syntax.
    pub fn ingest_module_decl<'s>(
        &mut self,
        partial: &mut ShaderFilePartial<'s>,
        module_decl: ModuleDecl<'s>,
    ) -> (r: Result<(), SyntaxIngestionError>)
        requires
            old(self).space()@.well_formed(),
            old(partial)@.well_formed(),
        ensures
            ingested(*old(self), *old(partial), module_decl@, *final(self), *final(partial), r),
    {
        proof {
            reveal(spec_ingest_step);
        }
        let name = self.model_space.intern_name(module_decl.name.contents);
        proof {
            lemma_intern_one(old(self).space()@, name@);
        }
        if partial.declares(&name) {
            return Err(Self::duplicate_declaration(partial, &name));
        }
        partial.add_module_decl(ModuleDeclPartial { name, syntax_decl: module_decl });
        Ok(())
    }

    /// Passes over a struct: interns its name and keeps its syntax.
    pub fn ingest_struct_decl<'s>(
        &mut self,
        partial: &mut ShaderFilePartial<'s>,
        struct_decl: StructDecl<'s>,
    ) -> (r: Result<(), SyntaxIngestionError>)
        requires
            old(self).space()@.well_formed(),
            old(partial)@.well_formed(),
        ensures
            ingested(*old(self), *old(partial), struct_decl@, *final(self), *final(partial), r),
    {
        proof {
            reveal(spec_ingest_step);
        }
        let name = self.model_space.intern_name(struct_decl.name.contents);
        proof {
            lemma_intern_one(old(self).space()@, name@);
        }
        if partial.declares(&name) {
            return Err(Self::duplicate_declaration(partial, &name));
        }
        partial.add_struct_decl(StructDeclPartial { name, syntax_decl: struct_decl });
        Ok(())
    }

    /// What the name `ty` of a type refers to, as far as one pass can
    /// tell.
    pub fn inflate_type_reference<'s>(
        &mut self,
        partial: &ShaderFilePartial,
        ty: &TypeName<'s>,
    ) -> (r: TypeRefPartial<'s>)
        ensures
            r@ == spec_type_ref(ty@),
            *final(self) == *old(self),
    {
        TypeRefPartial::from_type_name(ty)
    }
}

/// What a pass over the declaration `d` does: the names of `d` are
/// interned, in order; the partial of `d` is added to the partial of the
/// file, unless the file declares the name of `d` already, which is the
/// error. The handles to names in the partial are handles that the model
/// space holds.
pub open spec fn ingested(
    before: SyntaxIngester,
    file_before: ShaderFilePartial,
    d: DeclView,
    after: SyntaxIngester,
    file_after: ShaderFilePartial,
    r: Result<(), SyntaxIngestionError>,
) -> bool {
    &&& state_after(after.space()@, file_after@, r) == spec_ingest_step(
        state_before(before.space()@, file_before@),
        d,
    )
    &&& after.space()@.well_formed()
    &&& after.config() == before.config()
    &&& file_after@.well_formed()
    &&& file_after.path == file_before.path
    &&& r is Err ==> file_after@ == file_before@
    &&& r is Ok ==> file_after.declarations@.len() > 0 && forall|i: int|
        0 <= i < file_after.declarations@.last().name_handles().len() ==> after.space().holds_name(
            #[trigger] file_after.declarations@.last().name_handles()[i],
        )
}

/// Interning one name is interning the list of that one name.
pub proof fn lemma_intern_one(space: ModelSpaceView, name: Seq<u8>)
    ensures
        intern_names(space, seq![name]) == space.intern_name(name),
{
    assert(seq![name].drop_last() =~= Seq::<Seq<u8>>::empty());
    reveal_with_fuel(intern_names, 2);
}

/// A pass over no declaration changes nothing.
pub proof fn lemma_ingest_none(start: IngestState, decls: Seq<DeclView>)
    ensures
        spec_ingest_declarations(start, decls.subrange(0, 0)) == start,
{
    reveal_with_fuel(spec_ingest_declarations, 1);
    assert(decls.subrange(0, 0) =~= seq![]);
}

/// A pass over one more declaration is one more step.
pub proof fn lemma_ingest_next(start: IngestState, decls: Seq<DeclView>, at: int)
    requires
        0 <= at < decls.len(),
    ensures
        spec_ingest_declarations(start, decls.subrange(0, at + 1)) == spec_ingest_step(
            spec_ingest_declarations(start, decls.subrange(0, at)),
            decls[at],
        ),
{
    reveal_with_fuel(spec_ingest_declarations, 1);
    assert(decls.subrange(0, at + 1).drop_last() =~= decls.subrange(0, at));
    assert(decls.subrange(0, at + 1).last() == decls[at]);
}

/// The names under which a file declares `decls`, in order.
pub open spec fn spec_declared_names(decls: Seq<DeclView>) -> Seq<Seq<u8>> {
    Seq::new(decls.len(), |i: int| spec_declared_name(decls[i]))
}

/// The partials of `decls`, in order.
pub open spec fn spec_partials(decls: Seq<DeclView>) -> Seq<PartialView> {
    Seq::new(decls.len(), |i: int| spec_partial(decls[i]))
}

/// A pass over declarations succeeds exactly when no name is declared
/// twice, among the declarations and those that the file held before,
/// whatever their kinds. It then gives the partials of the declarations,
/// in order, after those that the file held.
pub proof fn law_ingest_fails_on_duplicates(
    space: ModelSpaceView,
    file: ShaderFilePartialView,
    decls: Seq<DeclView>,
)
    requires
        file.well_formed(),
    ensures
        spec_ingest_declarations(state_before(space, file), decls).file is Ok <==> (
        file.declared_names() + spec_declared_names(decls)).no_duplicates(),
        spec_ingest_declarations(state_before(space, file), decls).file matches Ok(after)
            ==> after.path == file.path && after.declarations == file.declarations + spec_partials(
            decls,
        ),
        spec_ingest_declarations(state_before(space, file), decls).file matches Err(e) ==> e.path
            == file.path && e.cause is DuplicateDeclaration,
    decreases decls.len(),
{
    reveal_with_fuel(spec_ingest_declarations, 1);
    reveal(spec_ingest_step);
    let start = state_before(space, file);
    let names = file.declared_names() + spec_declared_names(decls);
    if decls.len() == 0 {
        assert(names =~= file.declared_names());
        assert(file.declarations + spec_partials(decls) =~= file.declarations);
    } else {
        let prefix = decls.drop_last();
        let last = decls.last();
        law_ingest_fails_on_duplicates(space, file, prefix);
        let before = file.declared_names() + spec_declared_names(prefix);
        assert(names =~= before.push(spec_declared_name(last)));
        let reached = spec_ingest_declarations(start, prefix);
        match reached.file {
            Ok(mid) => {
                assert(mid.declared_names() =~= before) by {
                    assert forall|i: int| 0 <= i < before.len() implies mid.declared_names()[i]
                        == before[i] by {
                        if i < file.declarations.len() {
                            assert(before[i] == file.declared_names()[i]);
                        } else {
                            assert(before[i] == spec_declared_names(prefix)[i
                                - file.declarations.len()]);
                        }
                    }
                }
                if mid.declares(spec_declared_name(last)) {
                    let i = choose|i: int|
                        0 <= i < before.len() && before[i] == spec_declared_name(last);
                    assert(names[i] == names[before.len() as int]);
                } else {
                    lemma_add_keeps_names_apart(mid, spec_partial(last));
                    assert(file.declarations + spec_partials(decls) =~= (file.declarations
                        + spec_partials(prefix)).push(spec_partial(last)));
                }
            },
            Err(_) => {
                if names.no_duplicates() {
                    assert forall|i: int, j: int|
                        0 <= i < before.len() && 0 <= j < before.len() && i != j implies before[i]
                        != before[j] by {
                        assert(names[i] == before[i] && names[j] == before[j]);
                    }
                }
            },
        }
    }
}

/// A file that declares one name twice is not ingested: a function and a
/// struct of one name are a duplicate, not an overload.
pub proof fn law_duplicate_name_fails(
    space: ModelSpaceView,
    file: ShaderFilePartialView,
    decls: Seq<DeclView>,
    i: int,
    j: int,
)
    requires
        file.well_formed(),
        0 <= i < j < decls.len(),
        spec_declared_name(decls[i]) == spec_declared_name(decls[j]),
    ensures
        spec_ingest_declarations(state_before(space, file), decls).file is Err,
{
    law_ingest_fails_on_duplicates(space, file, decls);
    let names = file.declared_names() + spec_declared_names(decls);
    let n = file.declared_names().len() as int;
    assert(names[n + i] == spec_declared_names(decls)[i]);
    assert(names[n + j] == spec_declared_names(decls)[j]);
}

/// A text is ingested as a shader file exactly when it is one, no name is
/// declared twice in it, and no shader file is registered under its path
/// yet.
pub proof fn law_ingest_contents(space: ModelSpaceView, path: Seq<u8>, text: Seq<u8>)
    ensures
        spec_ingest_contents(space, path, text).1 is Ok <==> {
            &&& spec_file(text, 0, DeclarationGrammar::ShaderFile).1 == text.len()
            &&& spec_declared_names(
                spec_file(text, 0, DeclarationGrammar::ShaderFile).0,
            ).no_duplicates()
            &&& !space.has_shader_file(path)
        },
{
    let (decls, end) = spec_file(text, 0, DeclarationGrammar::ShaderFile);
    if end == text.len() {
        let file = ShaderFilePartialView { path, declarations: seq![] };
        assert(file.declared_names() =~= Seq::<Seq<u8>>::empty());
        law_ingest_fails_on_duplicates(space, file, decls);
        law_ingest_registers_nothing(state_before(space, file), decls);
        assert(file.declared_names() + spec_declared_names(decls) =~= spec_declared_names(decls));
    }
}

/// To intern names registers no shader file and interns no string, path
/// or type.
pub proof fn law_intern_names_only(space: ModelSpaceView, names: Seq<Seq<u8>>)
    ensures
        intern_names(space, names).shader_files == space.shader_files,
        intern_names(space, names).strings == space.strings,
        intern_names(space, names).name_paths == space.name_paths,
        intern_names(space, names).type_models == space.type_models,
    decreases names.len(),
{
    if names.len() > 0 {
        law_intern_names_only(space, names.drop_last());
    }
}

/// A pass over declarations registers no shader file.
pub proof fn law_ingest_registers_nothing(start: IngestState, decls: Seq<DeclView>)
    ensures
        spec_ingest_declarations(start, decls).space.shader_files == start.space.shader_files,
    decreases decls.len(),
{
    reveal_with_fuel(spec_ingest_declarations, 1);
    reveal(spec_ingest_step);
    if decls.len() > 0 {
        law_ingest_registers_nothing(start, decls.drop_last());
        law_intern_names_only(
            spec_ingest_declarations(start, decls.drop_last()).space,
            spec_interned_names(decls.last()),
        );
    }
}

/// Once a pass has stopped at an error, the declarations that follow
/// change nothing.
pub proof fn lemma_ingest_stops(start: IngestState, decls: Seq<DeclView>, at: int)
    requires
        0 <= at <= decls.len(),
        spec_ingest_declarations(start, decls.subrange(0, at)).file is Err,
    ensures
        spec_ingest_declarations(start, decls) == spec_ingest_declarations(
            start,
            decls.subrange(0, at),
        ),
    decreases decls.len() - at,
{
    reveal(spec_ingest_step);
    if at == decls.len() {
        assert(decls.subrange(0, at) =~= decls);
    } else {
        lemma_ingest_next(start, decls, at);
        lemma_ingest_stops(start, decls, at + 1);
    }
}

} // verus!
