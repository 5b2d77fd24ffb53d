//! What one pass over a shader file gives.

use vstd::prelude::*;
use crate::model::{NameModelHandle, StringModelHandle};
use crate::transform::syntax_ingester::declaration_partials::{
    BufferDeclPartial, EntrypointDeclPartial, FuncDeclPartial, ImportDeclPartial,
    InstanceDeclPartial, ModuleDeclPartial, PartialView, StructDeclPartial, UniformsDeclPartial,
};

verus! {

/// What one pass over a declaration of a shader file gives.
#[derive(Debug)]
pub enum ShaderFileDeclarationPartial<'a> {
    Entrypoint(EntrypointDeclPartial),
    Buffer(BufferDeclPartial<'a>),
    Import(ImportDeclPartial<'a>),
    Instance(InstanceDeclPartial<'a>),
    Func(FuncDeclPartial<'a>),
    Module(ModuleDeclPartial<'a>),
    Struct(StructDeclPartial<'a>),
}

impl<'a> View for ShaderFileDeclarationPartial<'a> {
    type V = PartialView;

    open spec fn view(&self) -> PartialView {
        match self {
            ShaderFileDeclarationPartial::Entrypoint(d) => d@,
            ShaderFileDeclarationPartial::Buffer(d) => d@,
            ShaderFileDeclarationPartial::Import(d) => d@,
            ShaderFileDeclarationPartial::Instance(d) => d@,
            ShaderFileDeclarationPartial::Func(d) => d@,
            ShaderFileDeclarationPartial::Module(d) => d@,
            ShaderFileDeclarationPartial::Struct(d) => d@,
        }
    }
}

impl<'a> ShaderFileDeclarationPartial<'a> {
    /// The handles to names that the partial holds: that of the
    /// declaration, and those of the arguments of a function or of an
    /// entrypoint.
    pub open spec fn name_handles(&self) -> Seq<NameModelHandle> {
        match self {
            ShaderFileDeclarationPartial::Entrypoint(d) => seq![d.name, d.arg_name],
            ShaderFileDeclarationPartial::Buffer(d) => seq![d.name],
            ShaderFileDeclarationPartial::Import(d) => seq![d.name],
            ShaderFileDeclarationPartial::Instance(d) => seq![d.name],
            ShaderFileDeclarationPartial::Func(d) => seq![d.name] + Seq::new(
                d.args@.len(),
                |i: int| d.args@[i].name,
            ),
            ShaderFileDeclarationPartial::Module(d) => seq![d.name],
            ShaderFileDeclarationPartial::Struct(d) => seq![d.name],
        }
    }

    /// The handle to the name under which the file declares it.
    pub fn name(&self) -> (r: &NameModelHandle)
        ensures
            r@ == self@.declared_name(),
            *r == self.name_handles()[0],
    {
        match self {
            ShaderFileDeclarationPartial::Entrypoint(d) => &d.name,
            ShaderFileDeclarationPartial::Buffer(d) => &d.name,
            ShaderFileDeclarationPartial::Import(d) => &d.name,
            ShaderFileDeclarationPartial::Instance(d) => &d.name,
            ShaderFileDeclarationPartial::Func(d) => &d.name,
            ShaderFileDeclarationPartial::Module(d) => &d.name,
            ShaderFileDeclarationPartial::Struct(d) => &d.name,
        }
    }
}

/// What one pass over a shader file gives, as mathematics: the path of
/// the file, and what the pass gave for each declaration, in the order of
/// the file.
pub struct ShaderFilePartialView {
    pub path: Seq<u8>,
    pub declarations: Seq<PartialView>,
}

impl ShaderFilePartialView {
    /// The names that the file declares, in order.
    pub open spec fn declared_names(self) -> Seq<Seq<u8>> {
        Seq::new(self.declarations.len(), |i: int| self.declarations[i].declared_name())
    }

    /// True when the file declares `name`.
    pub open spec fn declares(self, name: Seq<u8>) -> bool {
        self.declared_names().contains(name)
    }

    /// No name is declared twice, whatever the kinds of the declarations.
    pub open spec fn well_formed(self) -> bool {
        self.declared_names().no_duplicates()
    }

    /// The file with one more declaration.
    pub open spec fn add(self, decl: PartialView) -> ShaderFilePartialView {
        ShaderFilePartialView { path: self.path, declarations: self.declarations.push(decl) }
    }
}

/// Adding a declaration of a name that is not declared yet keeps the
/// names apart.
pub proof fn lemma_add_keeps_names_apart(file: ShaderFilePartialView, decl: PartialView)
    requires
        file.well_formed(),
        !file.declares(decl.declared_name()),
    ensures
        file.add(decl).well_formed(),
        file.add(decl).declares(decl.declared_name()),
        file.add(decl).declared_names() == file.declared_names().push(decl.declared_name()),
{
    let before = file.declared_names();
    let after = file.add(decl).declared_names();
    assert(after =~= before.push(decl.declared_name()));
    assert(after[before.len() as int] == decl.declared_name());
    assert forall|i: int, j: int|
        0 <= i < after.len() && 0 <= j < after.len() && i != j implies after[i] != after[j] by {
        if i < before.len() && j < before.len() {
            assert(before[i] != before[j]);
        } else if i < before.len() {
            assert(before.contains(before[i]));
        } else {
            assert(before.contains(before[j]));
        }
    }
}

/// What one pass over a shader file gives: for each name that the file
/// declares, what the pass gave for the declaration. A name is declared
/// once at most, whatever the kind of the declaration.
#[derive(Debug)]
pub struct ShaderFilePartial<'a> {
    pub path: StringModelHandle,
    pub uniforms: Option<UniformsDeclPartial<'a>>,
    pub declarations: Vec<ShaderFileDeclarationPartial<'a>>,
}

impl<'a> View for ShaderFilePartial<'a> {
    type V = ShaderFilePartialView;

    open spec fn view(&self) -> ShaderFilePartialView {
        ShaderFilePartialView {
            path: self.path@,
            declarations: Seq::new(self.declarations@.len(), |i: int| self.declarations@[i]@),
        }
    }
}

impl<'a> ShaderFilePartial<'a> {
    /// The partial of the file at `path`, with no declaration yet.
    pub fn new(path: StringModelHandle) -> (r: ShaderFilePartial<'a>)
        ensures
            r.path == path,
            r.uniforms is None,
            r@.declarations == Seq::<PartialView>::empty(),
            r@.well_formed(),
    {
        let r = ShaderFilePartial { path, uniforms: None, declarations: Vec::new() };
        proof {
            assert(r@.declarations =~= Seq::<PartialView>::empty());
        }
        r
    }

    /// True when the file declares the name that `name` refers to.
    pub fn declares(&self, name: &NameModelHandle) -> (r: bool)
        ensures
            r == self@.declares(name@),
    {
        let mut i: usize = 0;
        while i < self.declarations.len()
            invariant
                i <= self.declarations@.len(),
                forall|k: int| 0 <= k < i ==> self@.declared_names()[k] != name@,
            decreases self.declarations@.len() - i,
        {
            proof {
                assert(self@.declared_names()[i as int]
                    == self.declarations@[i as int]@.declared_name());
            }
            if *self.declarations[i].name() == *name {
                return true;
            }
            i = i + 1;
        }
        false
    }

    /// What the file declares under the name that `name` refers to, if
    /// it declares that name.
    pub fn get(&self, name: &NameModelHandle) -> (r: Option<&ShaderFileDeclarationPartial<'a>>)
        ensures
            r is Some <==> self@.declares(name@),
            r matches Some(decl) ==> decl@.declared_name() == name@ && self.declarations@.contains(
                *decl,
            ),
    {
        let mut i: usize = 0;
        while i < self.declarations.len()
            invariant
                i <= self.declarations@.len(),
                forall|k: int| 0 <= k < i ==> self@.declared_names()[k] != name@,
            decreases self.declarations@.len() - i,
        {
            proof {
                assert(self@.declared_names()[i as int]
                    == self.declarations@[i as int]@.declared_name());
            }
            if *self.declarations[i].name() == *name {
                return Some(&self.declarations[i]);
            }
            i = i + 1;
        }
        None
    }

    /// Adds the declaration `decl` under the name `name`, which is its
    /// own. The file must not declare that name yet: test with `declares`.
    pub fn add(&mut self, name: NameModelHandle, decl: ShaderFileDeclarationPartial<'a>)
        requires
            old(self)@.well_formed(),
            name@ == decl@.declared_name(),
            !old(self)@.declares(name@),
        ensures
            final(self)@ == old(self)@.add(decl@),
            final(self)@.well_formed(),
            final(self).path == old(self).path,
            final(self).uniforms == old(self).uniforms,
            final(self).declarations@ == old(self).declarations@.push(decl),
    {
        proof {
            lemma_add_keeps_names_apart(self@, decl@);
        }
        self.declarations.push(decl);
        proof {
            assert(self@.declarations =~= old(self)@.declarations.push(decl@));
        }
    }

    /// Adds an entrypoint. The file must not declare its name yet.
    pub fn add_entrypoint_decl(&mut self, entrypoint_decl: EntrypointDeclPartial)
        requires
            old(self)@.well_formed(),
            !old(self)@.declares(entrypoint_decl.name@),
        ensures
            final(self)@ == old(self)@.add(entrypoint_decl@),
            final(self)@.well_formed(),
            final(self).path == old(self).path,
            final(self).declarations@ == old(self).declarations@.push(
                ShaderFileDeclarationPartial::Entrypoint(entrypoint_decl),
            ),
    {
        self.add(
            entrypoint_decl.name.clone(),
            ShaderFileDeclarationPartial::Entrypoint(entrypoint_decl),
        );
    }

    /// Adds a buffer. The file must not declare its name yet.
    pub fn add_buffer_decl(&mut self, buffer_decl: BufferDeclPartial<'a>)
        requires
            old(self)@.well_formed(),
            !old(self)@.declares(buffer_decl.name@),
        ensures
            final(self)@ == old(self)@.add(buffer_decl@),
            final(self)@.well_formed(),
            final(self).path == old(self).path,
            final(self).declarations@ == old(self).declarations@.push(
                ShaderFileDeclarationPartial::Buffer(buffer_decl),
            ),
    {
        self.add(buffer_decl.name.clone(), ShaderFileDeclarationPartial::Buffer(buffer_decl));
    }

    /// Adds an import. The file must not declare its name yet.
    pub fn add_import_decl(&mut self, import_decl: ImportDeclPartial<'a>)
        requires
            old(self)@.well_formed(),
            !old(self)@.declares(import_decl.name@),
        ensures
            final(self)@ == old(self)@.add(import_decl@),
            final(self)@.well_formed(),
            final(self).path == old(self).path,
            final(self).declarations@ == old(self).declarations@.push(
                ShaderFileDeclarationPartial::Import(import_decl),
            ),
    {
        self.add(import_decl.name.clone(), ShaderFileDeclarationPartial::Import(import_decl));
    }

    /// Adds an instance. The file must not declare its name yet.
    pub fn add_instance_decl(&mut self, instance_decl: InstanceDeclPartial<'a>)
        requires
            old(self)@.well_formed(),
            !old(self)@.declares(instance_decl.name@),
        ensures
            final(self)@ == old(self)@.add(instance_decl@),
            final(self)@.well_formed(),
            final(self).path == old(self).path,
            final(self).declarations@ == old(self).declarations@.push(
                ShaderFileDeclarationPartial::Instance(instance_decl),
            ),
    {
        self.add(instance_decl.name.clone(), ShaderFileDeclarationPartial::Instance(instance_decl));
    }

    /// Adds a function. The file must not declare its name yet.
    pub fn add_func_decl(&mut self, func_decl: FuncDeclPartial<'a>)
        requires
            old(self)@.well_formed(),
            !old(self)@.declares(func_decl.name@),
        ensures
            final(self)@ == old(self)@.add(func_decl@),
            final(self)@.well_formed(),
            final(self).path == old(self).path,
            final(self).declarations@ == old(self).declarations@.push(
                ShaderFileDeclarationPartial::Func(func_decl),
            ),
    {
        self.add(func_decl.name.clone(), ShaderFileDeclarationPartial::Func(func_decl));
    }

    /// Adds a module. The file must not declare its name yet.
    pub fn add_module_decl(&mut self, module_decl: ModuleDeclPartial<'a>)
        requires
            old(self)@.well_formed(),
            !old(self)@.declares(module_decl.name@),
        ensures
            final(self)@ == old(self)@.add(module_decl@),
            final(self)@.well_formed(),
            final(self).path == old(self).path,
            final(self).declarations@ == old(self).declarations@.push(
                ShaderFileDeclarationPartial::Module(module_decl),
            ),
    {
        self.add(module_decl.name.clone(), ShaderFileDeclarationPartial::Module(module_decl));
    }

    /// Adds a struct. The file must not declare its name yet.
    pub fn add_struct_decl(&mut self, struct_decl: StructDeclPartial<'a>)
        requires
            old(self)@.well_formed(),
            !old(self)@.declares(struct_decl.name@),
        ensures
            final(self)@ == old(self)@.add(struct_decl@),
            final(self)@.well_formed(),
            final(self).path == old(self).path,
            final(self).declarations@ == old(self).declarations@.push(
                ShaderFileDeclarationPartial::Struct(struct_decl),
            ),
    {
        self.add(struct_decl.name.clone(), ShaderFileDeclarationPartial::Struct(struct_decl));
    }

    /// Sets the uniforms of the file, in place of those set before.
    pub fn add_uniforms_decl(&mut self, uniforms_decl: UniformsDeclPartial<'a>)
        ensures
            final(self).uniforms == Some(uniforms_decl),
            final(self).path == old(self).path,
            final(self).declarations == old(self).declarations,
    {
        self.uniforms = Some(uniforms_decl);
    }
}

} // verus!
