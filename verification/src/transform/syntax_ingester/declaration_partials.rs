//! What one pass over a declaration gives: its name interned, and the
//! rest as far as it can be settled without the other declarations.

use vstd::prelude::*;
use crate::model::{EntrypointDims, NameModelHandle};
use crate::syntax::declaration::{DeclView, InstanceDecl, ModuleDecl, StructDecl};
use crate::syntax::name::NamePath;
use crate::transform::syntax_ingester::type_partials::{TypeRefPartial, TypeRefView};

verus! {

/// What one pass over a declaration gives, as mathematics. Every kind has
/// the name under which the file declares it.
pub enum PartialView {
    Entrypoint { name: Seq<u8>, dims: EntrypointDims, arg_name: Seq<u8> },
    Buffer { name: Seq<u8>, ty: TypeRefView },
    Import { name: Seq<u8>, path: Seq<Seq<u8>> },
    Instance { name: Seq<u8>, decl: DeclView },
    Func { name: Seq<u8>, return_ty: Option<TypeRefView>, args: Seq<(Seq<u8>, TypeRefView)> },
    Module { name: Seq<u8>, decl: DeclView },
    Struct { name: Seq<u8>, decl: DeclView },
}

impl PartialView {
    /// The name under which the file declares it.
    pub open spec fn declared_name(self) -> Seq<u8> {
        match self {
            PartialView::Entrypoint { name, .. } => name,
            PartialView::Buffer { name, .. } => name,
            PartialView::Import { name, .. } => name,
            PartialView::Instance { name, .. } => name,
            PartialView::Func { name, .. } => name,
            PartialView::Module { name, .. } => name,
            PartialView::Struct { name, .. } => name,
        }
    }
}

/// The body of a function or of an entrypoint. It is left empty: the
/// statements are lowered later.
#[derive(Debug)]
pub struct StatementBodyPartial {}

/// What one pass over an entrypoint gives.
#[derive(Debug)]
pub struct EntrypointDeclPartial {
    pub name: NameModelHandle,
    pub dims: EntrypointDims,
    pub arg_name: NameModelHandle,
    pub body: Vec<StatementBodyPartial>,
}

/// What one pass over a buffer gives.
#[derive(Debug)]
pub struct BufferDeclPartial<'a> {
    pub name: NameModelHandle,
    pub ty: TypeRefPartial<'a>,
}

/// What one pass over an import gives.
#[derive(Debug)]
pub struct ImportDeclPartial<'a> {
    pub name: NameModelHandle,
    pub path: NamePath<'a>,
}

/// What one pass over an instance gives.
#[derive(Debug)]
pub struct InstanceDeclPartial<'a> {
    pub name: NameModelHandle,
    pub syntax_decl: InstanceDecl<'a>,
}

/// What one pass over a function gives.
#[derive(Debug)]
pub struct FuncDeclPartial<'a> {
    pub name: NameModelHandle,
    pub return_ty: Option<TypeRefPartial<'a>>,
    pub args: Vec<FuncDeclArgPartial<'a>>,
    pub body: Vec<StatementBodyPartial>,
}

/// What one pass over a module gives.
#[derive(Debug)]
pub struct ModuleDeclPartial<'a> {
    pub name: NameModelHandle,
    pub syntax_decl: ModuleDecl<'a>,
}

/// What one pass over a struct gives.
#[derive(Debug)]
pub struct StructDeclPartial<'a> {
    pub name: NameModelHandle,
    pub syntax_decl: StructDecl<'a>,
}

/// The uniforms of a shader file, written as the fields of a struct.
#[derive(Debug)]
pub struct UniformsDeclPartial<'a> {
    pub syntax_decl: StructDecl<'a>,
}

/// What one pass over an argument of a function gives.
#[derive(Debug)]
pub struct FuncDeclArgPartial<'a> {
    pub name: NameModelHandle,
    pub ty: TypeRefPartial<'a>,
}

impl View for EntrypointDeclPartial {
    type V = PartialView;

    open spec fn view(&self) -> PartialView {
        PartialView::Entrypoint { name: self.name@, dims: self.dims, arg_name: self.arg_name@ }
    }
}

impl<'a> View for BufferDeclPartial<'a> {
    type V = PartialView;

    open spec fn view(&self) -> PartialView {
        PartialView::Buffer { name: self.name@, ty: self.ty@ }
    }
}

impl<'a> View for ImportDeclPartial<'a> {
    type V = PartialView;

    open spec fn view(&self) -> PartialView {
        PartialView::Import { name: self.name@, path: self.path@ }
    }
}

impl<'a> View for InstanceDeclPartial<'a> {
    type V = PartialView;

    open spec fn view(&self) -> PartialView {
        PartialView::Instance { name: self.name@, decl: self.syntax_decl@ }
    }
}

impl<'a> View for FuncDeclArgPartial<'a> {
    type V = (Seq<u8>, TypeRefView);

    open spec fn view(&self) -> (Seq<u8>, TypeRefView) {
        (self.name@, self.ty@)
    }
}

/// The views of a list of arguments, in order.
pub open spec fn arg_partial_views(list: Seq<FuncDeclArgPartial>) -> Seq<(Seq<u8>, TypeRefView)> {
    Seq::new(list.len(), |i: int| list[i]@)
}

impl<'a> View for FuncDeclPartial<'a> {
    type V = PartialView;

    open spec fn view(&self) -> PartialView {
        PartialView::Func {
            name: self.name@,
            return_ty: match self.return_ty {
                Some(ty) => Some(ty@),
                None => None,
            },
            args: arg_partial_views(self.args@),
        }
    }
}

impl<'a> View for ModuleDeclPartial<'a> {
    type V = PartialView;

    open spec fn view(&self) -> PartialView {
        PartialView::Module { name: self.name@, decl: self.syntax_decl@ }
    }
}

impl<'a> View for StructDeclPartial<'a> {
    type V = PartialView;

    open spec fn view(&self) -> PartialView {
        PartialView::Struct { name: self.name@, decl: self.syntax_decl@ }
    }
}

} // verus!
