//! Types of the model.

use vstd::prelude::*;
use crate::model::{Model, ModelHandle, NameModel, NamePathModel, VecDims};

verus! {

/// A type of the model: a scalar, a vector of numbers, or a struct.
#[derive(Debug, Clone)]
pub enum TypeModel {
    Scalar(ScalarTypeModel),
    Vector(VectorTypeModel),
    Struct(StructTypeModel),
}

/// A scalar type.
#[derive(Debug, Clone, Copy, PartialEq, Eq, Hash, Structural)]
pub enum ScalarTypeModel {
    Symbolic(ScalarSymbolicTypeModel),
    Numeric(ScalarNumericTypeModel),
}

/// The scalar types that are no numbers.
#[derive(Debug, Clone, Copy, PartialEq, Eq, Hash, Structural)]
pub enum ScalarSymbolicTypeModel {
    Bool,
    Void,
}

/// The scalar types that are numbers.
#[derive(Debug, Clone, Copy, PartialEq, Eq, Hash, Structural)]
pub enum ScalarNumericTypeModel {
    I32,
    U32,
    F32,
}

/// A vector: the type of its components and their number.
#[derive(Debug, Clone, Copy, PartialEq, Eq, Hash, Structural)]
pub struct VectorTypeModel {
    pub scalar: ScalarNumericTypeModel,
    pub dims: VecDims,
}

/// A struct. A struct is known by its name: two structs of one name are
/// the same type, whatever their fields.
#[derive(Debug, Clone)]
pub struct StructTypeModel {
    pub name: NamePathModel,
    pub fields: Vec<StructFieldModel>,
}

/// A field of a struct.
#[derive(Debug, Clone)]
pub struct StructFieldModel {
    pub name: NameModel,
    pub ty: TypeModelHandle,
}

/// A handle to a type.
pub type TypeModelHandle = ModelHandle<TypeModel>;

/// What tells two types apart: the scalar; the component type and the
/// number of components of a vector; the name of a struct.
pub enum TypeKey {
    Scalar(ScalarTypeModel),
    Vector(VectorTypeModel),
    Struct(Seq<Seq<u8>>),
}

impl TypeModel {
    /// The type of signed 32-bit integers.
    pub fn new_i32() -> (r: TypeModel)
        ensures
            r == TypeModel::Scalar(ScalarTypeModel::Numeric(ScalarNumericTypeModel::I32)),
    {
        TypeModel::Scalar(ScalarTypeModel::Numeric(ScalarNumericTypeModel::I32))
    }

    /// The type of unsigned 32-bit integers.
    pub fn new_u32() -> (r: TypeModel)
        ensures
            r == TypeModel::Scalar(ScalarTypeModel::Numeric(ScalarNumericTypeModel::U32)),
    {
        TypeModel::Scalar(ScalarTypeModel::Numeric(ScalarNumericTypeModel::U32))
    }

    /// The type of 32-bit floating-point numbers.
    pub fn new_f32() -> (r: TypeModel)
        ensures
            r == TypeModel::Scalar(ScalarTypeModel::Numeric(ScalarNumericTypeModel::F32)),
    {
        TypeModel::Scalar(ScalarTypeModel::Numeric(ScalarNumericTypeModel::F32))
    }

    /// The type of truth values.
    pub fn new_bool() -> (r: TypeModel)
        ensures
            r == TypeModel::Scalar(ScalarTypeModel::Symbolic(ScalarSymbolicTypeModel::Bool)),
    {
        TypeModel::Scalar(ScalarTypeModel::Symbolic(ScalarSymbolicTypeModel::Bool))
    }

    /// The type of no value.
    pub fn new_void() -> (r: TypeModel)
        ensures
            r == TypeModel::Scalar(ScalarTypeModel::Symbolic(ScalarSymbolicTypeModel::Void)),
    {
        TypeModel::Scalar(ScalarTypeModel::Symbolic(ScalarSymbolicTypeModel::Void))
    }

    /// The type of vectors of `dims` components of type `scalar`.
    pub fn new_vector(scalar: ScalarNumericTypeModel, dims: VecDims) -> (r: TypeModel)
        ensures
            r == TypeModel::Vector(VectorTypeModel { scalar, dims }),
    {
        TypeModel::Vector(VectorTypeModel { scalar, dims })
    }
}

impl Model for TypeModel {
    type Key = TypeKey;

    open spec fn key(&self) -> TypeKey {
        match self {
            TypeModel::Scalar(s) => TypeKey::Scalar(*s),
            TypeModel::Vector(v) => TypeKey::Vector(*v),
            TypeModel::Struct(s) => TypeKey::Struct(s.name.key()),
        }
    }

    fn same(&self, other: &Self) -> (r: bool) {
        match (self, other) {
            (TypeModel::Scalar(a), TypeModel::Scalar(b)) => *a == *b,
            (TypeModel::Vector(a), TypeModel::Vector(b)) => a.scalar == b.scalar && a.dims
                == b.dims,
            (TypeModel::Struct(a), TypeModel::Struct(b)) => a.name.same(&b.name),
            _ => false,
        }
    }
}

} // verus!
