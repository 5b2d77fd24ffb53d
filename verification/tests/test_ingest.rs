use std::path::PathBuf;
use dubgsl::model::{
    EntrypointDims, ModelHandle, ScalarNumericTypeModel, ScalarSymbolicTypeModel,
    ScalarTypeModel, StringModel, TypeModel, VecDims, VectorTypeModel,
};
use dubgsl::syntax::error::{ParseError, ParseErrorKind};
use dubgsl::syntax::file::ShaderFile;
use dubgsl::syntax::types::TypeName;
use dubgsl::transform::{
    SessionConfig, SessionConfigBuilder, SyntaxIngester, SyntaxIngestionCause,
    SyntaxIngestionError,
};
use dubgsl::transform::syntax_ingester::{
    primitive_type, ShaderFileDeclarationPartial, ShaderFilePartial, TypeRefPartial,
};

fn config() -> SessionConfig {
    SessionConfigBuilder::new().project_root(PathBuf::from("/test")).build()
}

fn ingest(contents: &str) -> Result<(), SyntaxIngestionError> {
    SyntaxIngester::parse_shader_file(&config(), "foo.dubgsl.shader", contents).map(|_| ())
}

#[test]
fn test_session_config_builder() {
    let builder = SessionConfigBuilder::new();
    assert!(!builder.is_complete());
    let builder = builder.project_root(PathBuf::from("/a"));
    assert!(builder.is_complete());
    let builder = builder.project_root(PathBuf::from("/b"));
    assert_eq!(builder.build().project_root, PathBuf::from("/b"));
}

#[test]
fn test_func_and_struct_of_one_name_collide() {
    match ingest("func foo(){} struct foo{}") {
        Err(SyntaxIngestionError {
            path,
            cause: SyntaxIngestionCause::DuplicateDeclaration(name),
        }) => {
            assert_eq!(path, "foo.dubgsl.shader");
            assert_eq!(name, "foo");
        },
        other => panic!("Expected a duplicate declaration, got {:?}", other),
    }
}

#[test]
fn test_duplicates_of_every_kind() {
    let duplicate = |contents: &str, expected: &str| match ingest(contents) {
        Err(SyntaxIngestionError {
            cause: SyntaxIngestionCause::DuplicateDeclaration(name),
            ..
        }) => assert_eq!(name, expected),
        other => panic!("Expected a duplicate in {}, got {:?}", contents, other),
    };
    duplicate("struct a {} struct b {} struct a {}", "a");
    duplicate("buffer(r) x: int; entrypoint(1d) x(i) {}", "x");
    duplicate("import a::b::c; func c() {}", "c");
    duplicate("import a::b::c as d; instance d = M();", "d");
    duplicate("module m() {} import x::m;", "m");
    duplicate("instance i = M(); instance j = M(); buffer(w) j: int; struct i {}", "j");
    // The names of arguments and of fields are no declarations of the file.
    assert!(ingest("func f(g: int) {} func g(f: int) {} struct h { f: int, g: int }").is_ok());
    assert!(ingest("entrypoint(1d) e(i) {} func i() {}").is_ok());
    // Nor is the path of an import that has an alias.
    assert!(ingest("import a::b as c; func b() {}").is_ok());
    assert!(ingest("").is_ok());
}

#[test]
fn test_text_that_is_no_shader_file() {
    match ingest("struct a {} let x = 1;") {
        Err(SyntaxIngestionError { path, cause: SyntaxIngestionCause::Parse(e) }) => {
            assert_eq!(path, "foo.dubgsl.shader");
            assert_eq!(e, ParseError { position: 12, kind: ParseErrorKind::TrailingInput });
        },
        other => panic!("Expected a parse error, got {:?}", other),
    }
    // A parse error comes before any duplicate.
    assert!(matches!(
        ingest("struct a {} struct a {} ?"),
        Err(SyntaxIngestionError { cause: SyntaxIngestionCause::Parse(_), .. })
    ));
}

#[test]
fn test_shader_file_of_one_path_is_ingested_once() {
    let config = config();
    let mut ingester = SyntaxIngester::new(&config);
    let path = ModelHandle::new(StringModel::new("a.shader".to_string()));
    assert!(!ingester.model_space().has_shader_file_model("a.shader"));
    let first = ingester.ingest_shader_file_contents(path.clone(), "struct a {}");
    match first {
        Ok(handle) => assert_eq!(handle.borrow().path.borrow().as_str(), "a.shader"),
        Err(e) => panic!("Failed to ingest: {:?}", e),
    }
    assert!(ingester.model_space().has_shader_file_model("a.shader"));
    match ingester.ingest_shader_file_contents(path.clone(), "struct b {}") {
        Err(SyntaxIngestionError { path, cause: SyntaxIngestionCause::DuplicateShaderFile }) => {
            assert_eq!(path, "a.shader")
        },
        other => panic!("Expected a duplicate shader file, got {:?}", other),
    }
    let other = ModelHandle::new(StringModel::new("b.shader".to_string()));
    assert!(ingester.ingest_shader_file_contents(other, "struct a {}").is_ok());
    // A file that fails is not registered.
    let bad = ModelHandle::new(StringModel::new("c.shader".to_string()));
    assert!(ingester.ingest_shader_file_contents(bad, "struct a {} struct a {}").is_err());
    assert!(!ingester.model_space().has_shader_file_model("c.shader"));
}

#[test]
fn test_partials_of_a_file() {
    let config = config();
    let mut ingester = SyntaxIngester::new(&config);
    let path = ModelHandle::new(StringModel::new("a.shader".to_string()));
    let mut partial = ShaderFilePartial::new(path);
    let file = ShaderFile::parse(
        "
    entrypoint(3d) main(idx) { ret; }
    buffer(rw) out: vec4xf32;
    import lib::math;
    import lib::noise as n;
    instance inst = lib::Mod(A, B);
    func f(a: i32, b: Custom, c: x::bool) -> void { ret; }
    module m() {}
    struct s { a: i32 }
    ",
    )
    .unwrap();
    let passed = ingester.ingest_shader_file_declarations(&mut partial, file.declarations);
    assert!(passed.is_ok());
    assert!(partial.uniforms.is_none());
    let names: Vec<&str> = partial.declarations.iter().map(|d| d.name().borrow().as_str()).collect();
    assert_eq!(names, vec!["main", "out", "math", "n", "inst", "f", "m", "s"]);
    match &partial.declarations[0] {
        ShaderFileDeclarationPartial::Entrypoint(d) => {
            assert_eq!(d.dims, EntrypointDims::D3);
            assert_eq!(d.arg_name.borrow().as_str(), "idx");
            assert!(d.body.is_empty());
        },
        other => panic!("Expected an entrypoint, got {:?}", other),
    }
    match &partial.declarations[1] {
        ShaderFileDeclarationPartial::Buffer(d) => assert!(matches!(
            d.ty,
            TypeRefPartial::Model(TypeModel::Vector(VectorTypeModel {
                scalar: ScalarNumericTypeModel::F32,
                dims: VecDims::Vec4,
            }))
        )),
        other => panic!("Expected a buffer, got {:?}", other),
    }
    match &partial.declarations[2] {
        ShaderFileDeclarationPartial::Import(d) => assert_eq!(d.path.parts.len(), 2),
        other => panic!("Expected an import, got {:?}", other),
    }
    match &partial.declarations[4] {
        ShaderFileDeclarationPartial::Instance(d) => {
            assert_eq!(d.syntax_decl.module_params.len(), 2)
        },
        other => panic!("Expected an instance, got {:?}", other),
    }
    match &partial.declarations[5] {
        ShaderFileDeclarationPartial::Func(d) => {
            assert!(d.body.is_empty());
            assert!(matches!(
                d.return_ty,
                Some(TypeRefPartial::Model(TypeModel::Scalar(ScalarTypeModel::Symbolic(
                    ScalarSymbolicTypeModel::Void
                ))))
            ));
            let args: Vec<&str> = d.args.iter().map(|a| a.name.borrow().as_str()).collect();
            assert_eq!(args, vec!["a", "b", "c"]);
            assert!(matches!(
                d.args[0].ty,
                TypeRefPartial::Model(TypeModel::Scalar(ScalarTypeModel::Numeric(
                    ScalarNumericTypeModel::I32
                )))
            ));
            match &d.args[1].ty {
                TypeRefPartial::Path(p) => assert_eq!(p.parts[0].contents, "Custom"),
                other => panic!("Expected a path, got {:?}", other),
            }
            // The last segment decides.
            assert!(matches!(
                d.args[2].ty,
                TypeRefPartial::Model(TypeModel::Scalar(ScalarTypeModel::Symbolic(
                    ScalarSymbolicTypeModel::Bool
                )))
            ));
        },
        other => panic!("Expected a function, got {:?}", other),
    }
    assert!(matches!(partial.declarations[6], ShaderFileDeclarationPartial::Module(_)));
    let held = partial.declarations[5].name().clone();
    assert!(matches!(partial.get(&held), Some(ShaderFileDeclarationPartial::Func(_))));
    assert!(partial.declares(&held));
    let absent = ModelHandle::new(dubgsl::model::NameModel::new("absent".to_string()));
    assert!(partial.get(&absent).is_none());
    assert!(!partial.declares(&absent));
    match &partial.declarations[7] {
        ShaderFileDeclarationPartial::Struct(d) => assert_eq!(d.syntax_decl.fields.len(), 1),
        other => panic!("Expected a struct, got {:?}", other),
    }
    // A second pass over the same names fails at the first of them, and
    // leaves the partial as it was.
    let again = ShaderFile::parse("struct t {} func out() {} struct u {}").unwrap();
    let failed = ingester.ingest_shader_file_declarations(&mut partial, again.declarations);
    assert!(matches!(
        failed,
        Err(SyntaxIngestionError { cause: SyntaxIngestionCause::DuplicateDeclaration(ref n), .. })
            if n == "out"
    ));
    assert_eq!(partial.declarations.len(), 9);
}

fn type_ref(text: &str) -> Option<TypeModel> {
    let (ty, _) = TypeName::parser(text, 0).unwrap();
    match TypeRefPartial::from_type_name(&ty) {
        TypeRefPartial::Model(model) => Some(model),
        TypeRefPartial::Path(path) => {
            assert_eq!(path, ty.name);
            None
        },
    }
}

#[test]
fn test_primitive_type_names() {
    let scalar = |n| TypeModel::Scalar(ScalarTypeModel::Numeric(n));
    let vector = |scalar, dims| TypeModel::Vector(VectorTypeModel { scalar, dims });
    let same = |text: &str, expected: TypeModel| match type_ref(text) {
        Some(model) => {
            assert!(dubgsl::model::Model::same(&model, &expected), "{} gave {:?}", text, model)
        },
        None => panic!("Expected a primitive type for {}", text),
    };
    same("i32", scalar(ScalarNumericTypeModel::I32));
    same("u32", scalar(ScalarNumericTypeModel::U32));
    same("f32", scalar(ScalarNumericTypeModel::F32));
    same("bool", TypeModel::new_bool());
    same("void", TypeModel::new_void());
    same("vec2xi32", vector(ScalarNumericTypeModel::I32, VecDims::Vec2));
    same("vec2xu32", vector(ScalarNumericTypeModel::U32, VecDims::Vec2));
    same("vec2xf32", vector(ScalarNumericTypeModel::F32, VecDims::Vec2));
    same("vec3xi32", vector(ScalarNumericTypeModel::I32, VecDims::Vec3));
    same("vec3xu32", vector(ScalarNumericTypeModel::U32, VecDims::Vec3));
    same("vec3xf32", vector(ScalarNumericTypeModel::F32, VecDims::Vec3));
    same("vec4xi32", vector(ScalarNumericTypeModel::I32, VecDims::Vec4));
    same("vec4xu32", vector(ScalarNumericTypeModel::U32, VecDims::Vec4));
    same("vec4xf32", vector(ScalarNumericTypeModel::F32, VecDims::Vec4));
    same("std::types::i32", scalar(ScalarNumericTypeModel::I32));
    assert!(type_ref("int").is_none());
    assert!(type_ref("i64").is_none());
    assert!(type_ref("vec5xf32").is_none());
    assert!(type_ref("vec2xbool").is_none());
    assert!(type_ref("i32::x").is_none());
    assert!(type_ref("I32").is_none());
    assert!(primitive_type("").is_none());
    assert!(primitive_type("i3").is_none());
    assert!(primitive_type("i322").is_none());
}
