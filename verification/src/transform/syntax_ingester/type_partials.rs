//! References to types, as far as one pass can settle them.

use vstd::prelude::*;
use vstd::string::*;
use crate::model::{
    bytes_eq, Model, ScalarNumericTypeModel, ScalarSymbolicTypeModel, ScalarTypeModel, TypeKey,
    TypeModel, VecDims, VectorTypeModel,
};
use crate::syntax::name::NamePath;
use crate::syntax::types::TypeName;

verus! {

/// A reference to a type: the type itself where the name is that of a
/// primitive type, else the path as written, to be settled later.
#[derive(Debug)]
pub enum TypeRefPartial<'a> {
    Model(TypeModel),
    Path(NamePath<'a>),
}

/// A `TypeRefPartial` as mathematics.
pub enum TypeRefView {
    Model(TypeKey),
    Path(Seq<Seq<u8>>),
}

impl<'a> View for TypeRefPartial<'a> {
    type V = TypeRefView;

    open spec fn view(&self) -> TypeRefView {
        match self {
            TypeRefPartial::Model(model) => TypeRefView::Model(model.key()),
            TypeRefPartial::Path(path) => TypeRefView::Path(path@),
        }
    }
}

/// The vector type of `dims` components of type `scalar`.
pub open spec fn spec_vector(scalar: ScalarNumericTypeModel, dims: VecDims) -> TypeModel {
    TypeModel::Vector(VectorTypeModel { scalar, dims })
}

/// The vector type that `name` names, where it is `vec`, a number of
/// components from 2 to 4, `x`, and a numeric scalar type.
pub open spec fn spec_vector_type(name: Seq<u8>) -> Option<TypeModel> {
    if name == "vec2xi32".spec_bytes() {
        Some(spec_vector(ScalarNumericTypeModel::I32, VecDims::Vec2))
    } else if name == "vec2xu32".spec_bytes() {
        Some(spec_vector(ScalarNumericTypeModel::U32, VecDims::Vec2))
    } else if name == "vec2xf32".spec_bytes() {
        Some(spec_vector(ScalarNumericTypeModel::F32, VecDims::Vec2))
    } else if name == "vec3xi32".spec_bytes() {
        Some(spec_vector(ScalarNumericTypeModel::I32, VecDims::Vec3))
    } else if name == "vec3xu32".spec_bytes() {
        Some(spec_vector(ScalarNumericTypeModel::U32, VecDims::Vec3))
    } else if name == "vec3xf32".spec_bytes() {
        Some(spec_vector(ScalarNumericTypeModel::F32, VecDims::Vec3))
    } else if name == "vec4xi32".spec_bytes() {
        Some(spec_vector(ScalarNumericTypeModel::I32, VecDims::Vec4))
    } else if name == "vec4xu32".spec_bytes() {
        Some(spec_vector(ScalarNumericTypeModel::U32, VecDims::Vec4))
    } else if name == "vec4xf32".spec_bytes() {
        Some(spec_vector(ScalarNumericTypeModel::F32, VecDims::Vec4))
    } else {
        None
    }
}

/// The primitive type that `name` names, where it names one: `i32`,
/// `u32`, `f32`, `bool`, `void`, or a vector type.
pub open spec fn spec_primitive_type(name: Seq<u8>) -> Option<TypeModel> {
    if name == "i32".spec_bytes() {
        Some(TypeModel::Scalar(ScalarTypeModel::Numeric(ScalarNumericTypeModel::I32)))
    } else if name == "u32".spec_bytes() {
        Some(TypeModel::Scalar(ScalarTypeModel::Numeric(ScalarNumericTypeModel::U32)))
    } else if name == "f32".spec_bytes() {
        Some(TypeModel::Scalar(ScalarTypeModel::Numeric(ScalarNumericTypeModel::F32)))
    } else if name == "bool".spec_bytes() {
        Some(TypeModel::Scalar(ScalarTypeModel::Symbolic(ScalarSymbolicTypeModel::Bool)))
    } else if name == "void".spec_bytes() {
        Some(TypeModel::Scalar(ScalarTypeModel::Symbolic(ScalarSymbolicTypeModel::Void)))
    } else {
        spec_vector_type(name)
    }
}

/// What the name of a type refers to, as far as one pass can tell: the
/// primitive type that its last segment names, else the path itself.
pub open spec fn spec_type_ref(ty: Seq<Seq<u8>>) -> TypeRefView {
    if ty.len() > 0 {
        match spec_primitive_type(ty.last()) {
            Some(model) => TypeRefView::Model(model.key()),
            None => TypeRefView::Path(ty),
        }
    } else {
        TypeRefView::Path(ty)
    }
}

/// The vector type that `name` names, where it names one.
pub fn vector_type(name: &str) -> (r: Option<TypeModel>)
    ensures
        r == spec_vector_type(name.spec_bytes()),
{
    let text = name.as_bytes();
    if bytes_eq(text, "vec2xi32".as_bytes()) {
        Some(TypeModel::new_vector(ScalarNumericTypeModel::I32, VecDims::Vec2))
    } else if bytes_eq(text, "vec2xu32".as_bytes()) {
        Some(TypeModel::new_vector(ScalarNumericTypeModel::U32, VecDims::Vec2))
    } else if bytes_eq(text, "vec2xf32".as_bytes()) {
        Some(TypeModel::new_vector(ScalarNumericTypeModel::F32, VecDims::Vec2))
    } else if bytes_eq(text, "vec3xi32".as_bytes()) {
        Some(TypeModel::new_vector(ScalarNumericTypeModel::I32, VecDims::Vec3))
    } else if bytes_eq(text, "vec3xu32".as_bytes()) {
        Some(TypeModel::new_vector(ScalarNumericTypeModel::U32, VecDims::Vec3))
    } else if bytes_eq(text, "vec3xf32".as_bytes()) {
        Some(TypeModel::new_vector(ScalarNumericTypeModel::F32, VecDims::Vec3))
    } else if bytes_eq(text, "vec4xi32".as_bytes()) {
        Some(TypeModel::new_vector(ScalarNumericTypeModel::I32, VecDims::Vec4))
    } else if bytes_eq(text, "vec4xu32".as_bytes()) {
        Some(TypeModel::new_vector(ScalarNumericTypeModel::U32, VecDims::Vec4))
    } else if bytes_eq(text, "vec4xf32".as_bytes()) {
        Some(TypeModel::new_vector(ScalarNumericTypeModel::F32, VecDims::Vec4))
    } else {
        None
    }
}

/// The primitive type that `name` names, where it names one.
pub fn primitive_type(name: &str) -> (r: Option<TypeModel>)
    ensures
        r == spec_primitive_type(name.spec_bytes()),
{
    let text = name.as_bytes();
    if bytes_eq(text, "i32".as_bytes()) {
        Some(TypeModel::new_i32())
    } else if bytes_eq(text, "u32".as_bytes()) {
        Some(TypeModel::new_u32())
    } else if bytes_eq(text, "f32".as_bytes()) {
        Some(TypeModel::new_f32())
    } else if bytes_eq(text, "bool".as_bytes()) {
        Some(TypeModel::new_bool())
    } else if bytes_eq(text, "void".as_bytes()) {
        Some(TypeModel::new_void())
    } else {
        vector_type(name)
    }
}

impl<'a> TypeRefPartial<'a> {
    /// What the name `s` of a type refers to, as far as one pass can tell:
    /// the primitive type that its last segment names, else the path
    /// itself, to be settled later.
    pub fn from_type_name(s: &TypeName<'a>) -> (r: TypeRefPartial<'a>)
        ensures
            r@ == spec_type_ref(s@),
    {
        let n = s.name.parts.len();
        if n > 0 {
            proof {
                assert(s@.last() == s.name.parts@[n - 1]@);
            }
            match primitive_type(s.name.parts[n - 1].contents) {
                Some(model) => TypeRefPartial::Model(model),
                None => TypeRefPartial::Path(s.name.clone()),
            }
        } else {
            TypeRefPartial::Path(s.name.clone())
        }
    }
}

} // verus!
