use std::sync::Arc;
use dubgsl::model::{
    bytes_eq, EntrypointDims, Model, ModelHandle, ModelSpace, NameModel, NamePathModel,
    ScalarNumericTypeModel, ScalarSymbolicTypeModel, ScalarTypeModel, ShaderFileModel,
    StringModel, StructFieldModel, StructTypeModel, TypeModel, VecDims, VectorTypeModel,
};
use dubgsl::syntax::declaration::EntrypointDeclDims;

#[test]
fn test_intern_string_twice() {
    let mut space = ModelSpace::new();
    let a = space.intern_string("shaders/a.shader");
    let b = space.intern_string("shaders/a.shader");
    assert!(a == b);
    assert!(Arc::ptr_eq(&a.0, &b.0));
    assert_eq!(a.borrow().as_str(), "shaders/a.shader");
    let c = space.intern_string("shaders/b.shader");
    assert!(a != c);
    assert!(!Arc::ptr_eq(&a.0, &c.0));
    let d = space.intern_string("shaders/a.shader");
    assert!(Arc::ptr_eq(&a.0, &d.0));
    assert!(space.intern_string("") == space.intern_string(""));
    assert!(space.intern_string("") != a);
}

#[test]
fn test_intern_name_twice() {
    let mut space = ModelSpace::new();
    let a = space.intern_name("foo");
    let b = space.intern_name("bar");
    let c = space.intern_name("foo");
    assert!(a == c);
    assert!(Arc::ptr_eq(&a.0, &c.0));
    assert!(a != b);
    assert_eq!(b.borrow().as_str(), "bar");
    assert!(a.borrow().has_text("foo"));
    assert!(!a.borrow().has_text("fo"));
}

#[test]
fn test_names_and_strings_are_apart() {
    let mut space = ModelSpace::new();
    let name = space.intern_name("same");
    let string = space.intern_string("same");
    assert_eq!(name.borrow().as_str(), string.borrow().as_str());
    // Each stays the one instance of its own set.
    assert!(Arc::ptr_eq(&name.0, &space.intern_name("same").0));
    assert!(Arc::ptr_eq(&string.0, &space.intern_string("same").0));
    assert_eq!(Arc::strong_count(&name.0), 2);
    assert_eq!(Arc::strong_count(&string.0), 2);
}

#[test]
fn test_intern_name_path_twice() {
    let mut space = ModelSpace::new();
    let foo = space.intern_name("foo");
    let bar = space.intern_name("bar");
    let a = space.intern_name_path(vec![foo.clone(), bar.clone()]);
    let b = space.intern_name_path(vec![foo.clone(), bar.clone()]);
    assert!(a == b);
    assert!(Arc::ptr_eq(&a.0, &b.0));
    let c = space.intern_name_path(vec![bar.clone(), foo.clone()]);
    assert!(a != c);
    let d = space.intern_name_path(vec![foo.clone()]);
    assert!(a != d);
    let e = space.intern_name_path(Vec::new());
    assert!(e != d);
    assert!(Arc::ptr_eq(&e.0, &space.intern_name_path(Vec::new()).0));
    assert_eq!(a.borrow().as_slice().len(), 2);
    assert!(a.borrow().has_names(&[foo.clone(), bar.clone()]));
    assert!(!a.borrow().has_names(&[foo]));
}

#[test]
fn test_intern_type_twice() {
    let mut space = ModelSpace::new();
    let a = space.intern_type(TypeModel::new_i32());
    let b = space.intern_type(TypeModel::new_i32());
    assert!(a == b);
    assert!(Arc::ptr_eq(&a.0, &b.0));
    let c = space.intern_type(TypeModel::new_u32());
    assert!(a != c);
    let v = space.intern_type(TypeModel::new_vector(ScalarNumericTypeModel::F32, VecDims::Vec3));
    let w = space.intern_type(TypeModel::new_vector(ScalarNumericTypeModel::F32, VecDims::Vec3));
    let x = space.intern_type(TypeModel::new_vector(ScalarNumericTypeModel::F32, VecDims::Vec4));
    let y = space.intern_type(TypeModel::new_vector(ScalarNumericTypeModel::I32, VecDims::Vec3));
    assert!(Arc::ptr_eq(&v.0, &w.0));
    assert!(v != x);
    assert!(v != y);
    assert!(v != a);
}

fn struct_type(space: &mut ModelSpace, name: &str, fields: &[&str]) -> TypeModel {
    let int = space.intern_type(TypeModel::new_i32());
    let name = space.intern_name(name);
    TypeModel::Struct(StructTypeModel {
        name: NamePathModel::new(vec![name]),
        fields: fields
            .iter()
            .map(|f| StructFieldModel { name: NameModel::new(f.to_string()), ty: int.clone() })
            .collect(),
    })
}

#[test]
fn test_struct_types_are_known_by_name() {
    let mut space = ModelSpace::new();
    let one = struct_type(&mut space, "Position", &["x", "y"]);
    let other = struct_type(&mut space, "Position", &["r", "g", "b"]);
    let third = struct_type(&mut space, "Color", &["x", "y"]);
    assert!(one.same(&other));
    assert!(!one.same(&third));
    let a = space.intern_type(one);
    let b = space.intern_type(other);
    let c = space.intern_type(third);
    assert!(Arc::ptr_eq(&a.0, &b.0));
    // The first that was interned under the name stays.
    match a.borrow() {
        TypeModel::Struct(s) => assert_eq!(s.fields.len(), 2),
        other => panic!("Expected a struct, got {:?}", other),
    }
    assert!(a != c);
    assert!(a != space.intern_type(TypeModel::new_bool()));
}

#[test]
fn test_type_constructors() {
    assert!(matches!(
        TypeModel::new_i32(),
        TypeModel::Scalar(ScalarTypeModel::Numeric(ScalarNumericTypeModel::I32))
    ));
    assert!(matches!(
        TypeModel::new_u32(),
        TypeModel::Scalar(ScalarTypeModel::Numeric(ScalarNumericTypeModel::U32))
    ));
    assert!(matches!(
        TypeModel::new_f32(),
        TypeModel::Scalar(ScalarTypeModel::Numeric(ScalarNumericTypeModel::F32))
    ));
    assert!(matches!(
        TypeModel::new_bool(),
        TypeModel::Scalar(ScalarTypeModel::Symbolic(ScalarSymbolicTypeModel::Bool))
    ));
    assert!(matches!(
        TypeModel::new_void(),
        TypeModel::Scalar(ScalarTypeModel::Symbolic(ScalarSymbolicTypeModel::Void))
    ));
    assert!(matches!(
        TypeModel::new_vector(ScalarNumericTypeModel::U32, VecDims::Vec2),
        TypeModel::Vector(VectorTypeModel { scalar: ScalarNumericTypeModel::U32, dims: VecDims::Vec2 })
    ));
    assert!(TypeModel::new_i32().same(&TypeModel::new_i32()));
    assert!(!TypeModel::new_i32().same(&TypeModel::new_u32()));
    assert!(!TypeModel::new_bool().same(&TypeModel::new_void()));
    assert!(!TypeModel::new_f32()
        .same(&TypeModel::new_vector(ScalarNumericTypeModel::F32, VecDims::Vec2)));
}

#[test]
fn test_shader_file_registered_once() {
    let mut space = ModelSpace::new();
    assert!(!space.has_shader_file_model("a.shader"));
    let path = space.intern_string("a.shader");
    let file = space.add_shader_file_model(ShaderFileModel::new(path.clone()));
    assert!(Arc::ptr_eq(&file.borrow().path.0, &path.0));
    // The path is taken: a second registration under it is not allowed.
    assert!(space.has_shader_file_model("a.shader"));
    assert!(!space.has_shader_file_model("b.shader"));
    assert!(!space.has_shader_file_model("a.shade"));
    let other = space.intern_string("b.shader");
    let second = space.add_shader_file_model(ShaderFileModel::new(other));
    assert!(space.has_shader_file_model("a.shader"));
    assert!(space.has_shader_file_model("b.shader"));
    assert!(file != second);
    assert!(file == file.clone());
}

#[test]
fn test_handles_compare_by_value() {
    let a = ModelHandle::new(StringModel::new("x".to_string()));
    let b = ModelHandle::new(StringModel::new("x".to_string()));
    let c = ModelHandle::new(StringModel::new("y".to_string()));
    assert!(!Arc::ptr_eq(&a.0, &b.0));
    assert!(a == b);
    assert!(a != c);
    let d = a.clone();
    assert!(Arc::ptr_eq(&a.0, &d.0));
    assert_eq!(a.borrow().name, "x");
    assert!(a.borrow().same(b.borrow()));
    assert!(a.borrow().has_text("x"));
    assert!(!a.borrow().has_text("y"));
}

#[test]
fn test_bytes_eq() {
    assert!(bytes_eq(b"", b""));
    assert!(bytes_eq(b"abc", b"abc"));
    assert!(!bytes_eq(b"abc", b"abd"));
    assert!(!bytes_eq(b"abc", b"ab"));
    assert!(!bytes_eq(b"", b"a"));
}

#[test]
fn test_entrypoint_dims() {
    assert_eq!(EntrypointDims::from_decl_dims(EntrypointDeclDims::D1), EntrypointDims::D1);
    assert_eq!(EntrypointDims::from_decl_dims(EntrypointDeclDims::D2), EntrypointDims::D2);
    assert_eq!(EntrypointDims::from_decl_dims(EntrypointDeclDims::D3), EntrypointDims::D3);
}
