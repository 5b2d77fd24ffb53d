use dubgsl::syntax::declaration::{
    BufferDeclMode, BufferParamMode, Declaration, DeclarationBlock, DeclarationGrammar,
    EntrypointDeclDims, ModuleDeclParam,
};
use dubgsl::syntax::error::{ParseError, ParseErrorKind};
use dubgsl::syntax::expression::Expression;
use dubgsl::syntax::file::{LibraryFile, LibraryFileDeclaration, ShaderFile, ShaderFileDeclaration};
use dubgsl::syntax::name::NamePath;
use dubgsl::syntax::statement::{Statement, StatementBlock};
use dubgsl::syntax::types::TypeName;

fn path(p: &NamePath) -> String {
    let parts: Vec<&str> = p.parts.iter().map(|n| n.contents).collect();
    parts.join("::")
}

fn declaration(text: &str) -> Declaration<'_> {
    match Declaration::parse(text) {
        Ok(d) => d,
        Err(e) => panic!("Failed to parse: {} - {:?}", text, e),
    }
}

fn statement(text: &str) -> Statement<'_> {
    match Statement::parse(text) {
        Ok(s) => s,
        Err(e) => panic!("Failed to parse: {} - {:?}", text, e),
    }
}

#[test]
fn test_import_with_alias() {
    match declaration("import foo::bar::bang as baz;") {
        Declaration::Import(d) => {
            assert_eq!(d.name_path.parts.len(), 3);
            assert_eq!(path(&d.name_path), "foo::bar::bang");
            assert_eq!(d.maybe_alias.map(|a| a.contents), Some("baz"));
        },
        other => panic!("Expected an import, got {:?}", other),
    }
    match declaration("import foo::bar::bang ;") {
        Declaration::Import(d) => {
            assert_eq!(path(&d.name_path), "foo::bar::bang");
            assert_eq!(d.maybe_alias, None);
        },
        other => panic!("Expected an import, got {:?}", other),
    }
    // `as` must be a word of its own.
    assert!(Declaration::parse("import foo asbar;").is_err());
    assert!(Declaration::parse("importfoo;").is_err());
    assert!(Declaration::parse("import foo").is_err());
}

#[test]
fn test_struct_fields_in_order() {
    match declaration("struct Foo { a: int, b: bool }") {
        Declaration::Struct(d) => {
            assert_eq!(d.name.contents, "Foo");
            let fields: Vec<(&str, String)> =
                d.fields.iter().map(|f| (f.name.contents, path(&f.ty.name))).collect();
            assert_eq!(fields, vec![("a", "int".to_string()), ("b", "bool".to_string())]);
        },
        other => panic!("Expected a struct, got {:?}", other),
    }
    match declaration("struct Empty {}") {
        Declaration::Struct(d) => assert_eq!(d.fields.len(), 0),
        other => panic!("Expected a struct, got {:?}", other),
    }
    match declaration("struct T { a: x::Y , }") {
        Declaration::Struct(d) => {
            assert_eq!(d.fields.len(), 1);
            assert_eq!(path(&d.fields[0].ty.name), "x::Y");
        },
        other => panic!("Expected a struct, got {:?}", other),
    }
    assert!(Declaration::parse("struct T { , }").is_err());
    assert!(Declaration::parse("struct T { a: int b: int }").is_err());
    assert!(Declaration::parse("structT {}").is_err());
}

#[test]
fn test_entrypoint_with_if() {
    match declaration("entrypoint(2d) gen(i) { if i >= 10 { ret; } }") {
        Declaration::Entrypoint(d) => {
            assert_eq!(d.dims, EntrypointDeclDims::D2);
            assert_eq!(d.name.contents, "gen");
            assert_eq!(d.arg_name.contents, "i");
            assert_eq!(d.body.statements.len(), 1);
            match &d.body.statements[0] {
                Statement::If(stmt) => {
                    assert!(matches!(*stmt.cond, Expression::Relational(_)));
                    assert_eq!(stmt.if_block.statements.len(), 1);
                    match &stmt.if_block.statements[0] {
                        Statement::Ret(ret) => assert!(ret.value.is_none()),
                        other => panic!("Expected a ret, got {:?}", other),
                    }
                    assert!(stmt.else_block.is_none());
                },
                other => panic!("Expected an if, got {:?}", other),
            }
        },
        other => panic!("Expected an entrypoint, got {:?}", other),
    }
    match declaration("entrypoint ( 1d ) a ( b ) { }") {
        Declaration::Entrypoint(d) => assert_eq!(d.dims, EntrypointDeclDims::D1),
        other => panic!("Expected an entrypoint, got {:?}", other),
    }
    match declaration("entrypoint(3d) a(b) {}") {
        Declaration::Entrypoint(d) => assert_eq!(d.dims, EntrypointDeclDims::D3),
        other => panic!("Expected an entrypoint, got {:?}", other),
    }
    assert!(Declaration::parse("entrypoint(4d) a(b) {}").is_err());
    assert!(Declaration::parse("entrypoint(2d) a() {}").is_err());
    assert!(Declaration::parse("entrypoint(2d) a(b, c) {}").is_err());
}

#[test]
fn test_buffer_modes() {
    match declaration("buffer(rw) B: int;") {
        Declaration::Buffer(d) => {
            assert_eq!(d.mode, BufferDeclMode::ReadWrite);
            assert_eq!(d.name.contents, "B");
            assert_eq!(path(&d.ty.name), "int");
        },
        other => panic!("Expected a buffer, got {:?}", other),
    }
    match declaration("buffer(r) B: int;") {
        Declaration::Buffer(d) => assert_eq!(d.mode, BufferDeclMode::Read),
        other => panic!("Expected a buffer, got {:?}", other),
    }
    match declaration("buffer ( w ) elevations : Terrain::Elevations ;") {
        Declaration::Buffer(d) => {
            assert_eq!(d.mode, BufferDeclMode::Write);
            assert_eq!(path(&d.ty.name), "Terrain::Elevations");
        },
        other => panic!("Expected a buffer, got {:?}", other),
    }
    assert!(Declaration::parse("buffer(wr) B: int;").is_err());
    assert!(Declaration::parse("buffer() B: int;").is_err());
    assert!(Declaration::parse("buffer(r) B: int").is_err());
    assert!(Declaration::parse("buffers(r) B: int;").is_err());
}

#[test]
fn test_func_declaration() {
    match declaration("func bar(a: int, b: Thing::Zing,) -> A::B { ret a + b; }") {
        Declaration::Func(d) => {
            assert_eq!(d.name.contents, "bar");
            let args: Vec<(&str, String)> =
                d.arguments.iter().map(|a| (a.name.contents, path(&a.ty.name))).collect();
            assert_eq!(args, vec![("a", "int".to_string()), ("b", "Thing::Zing".to_string())]);
            assert_eq!(d.return_ty.as_ref().map(|t| path(&t.name)), Some("A::B".to_string()));
            assert_eq!(d.body.statements.len(), 1);
        },
        other => panic!("Expected a function, got {:?}", other),
    }
    match declaration("func f() {}") {
        Declaration::Func(d) => {
            assert_eq!(d.arguments.len(), 0);
            assert!(d.return_ty.is_none());
            assert_eq!(d.body.statements.len(), 0);
        },
        other => panic!("Expected a function, got {:?}", other),
    }
    assert!(Declaration::parse("func f() -> {}").is_err());
    assert!(Declaration::parse("func f(a) {}").is_err());
    assert!(Declaration::parse("func f() { ret 1 }").is_err());
}

#[test]
fn test_instance_declaration() {
    match declaration("instance T = Foo::Bar(terrain_buffer, Terrain::Elevation);") {
        Declaration::Instance(d) => {
            assert_eq!(d.name.contents, "T");
            assert_eq!(path(&d.module_name), "Foo::Bar");
            let params: Vec<String> = d.module_params.iter().map(|t| path(&t.name)).collect();
            assert_eq!(params, vec!["terrain_buffer", "Terrain::Elevation"]);
        },
        other => panic!("Expected an instance, got {:?}", other),
    }
    match declaration("instance T = M();") {
        Declaration::Instance(d) => assert_eq!(d.module_params.len(), 0),
        other => panic!("Expected an instance, got {:?}", other),
    }
    assert!(Declaration::parse("instance T = M;").is_err());
    assert!(Declaration::parse("instance T M();").is_err());
}

#[test]
fn test_module_declaration() {
    let text = "module Foo(
    buffer(r) terrain: Terrain::Elevations,
    buffer(rw) out: Out
  ) {
    func bar() -> int {
      ret 9;
    }
    struct Inner { a: int }
  }";
    match declaration(text) {
        Declaration::Module(d) => {
            assert_eq!(d.name.contents, "Foo");
            assert_eq!(d.params.len(), 2);
            match &d.params[0] {
                ModuleDeclParam::Buffer(p) => {
                    assert_eq!(p.mode, BufferParamMode::Read);
                    assert_eq!(p.name.contents, "terrain");
                    assert_eq!(path(&p.ty.name), "Terrain::Elevations");
                },
            }
            match &d.params[1] {
                ModuleDeclParam::Buffer(p) => assert_eq!(p.mode, BufferParamMode::ReadWrite),
            }
            assert_eq!(d.body.statements.len(), 2);
            assert!(matches!(d.body.statements[0], Declaration::Func(_)));
            assert!(matches!(d.body.statements[1], Declaration::Struct(_)));
        },
        other => panic!("Expected a module, got {:?}", other),
    }
    // In a file the body of a module holds functions only.
    assert!(ShaderFile::parse(text).is_err());
    assert!(Declaration::parser_for_module(" func f() {} ", 0).is_some());
    assert!(Declaration::parser_for_module("struct S {}", 0).is_none());
    assert!(
        DeclarationBlock::parser(DeclarationGrammar::ModuleBody, "{ func f() {} func g() {} }", 0)
            .is_some()
    );
    assert!(
        DeclarationBlock::parser(DeclarationGrammar::ModuleBody, "{ struct S {} }", 0).is_none()
    );
    assert_eq!(DeclarationGrammar::ShaderFile.module_body(), DeclarationGrammar::ModuleBody);
    assert_eq!(DeclarationGrammar::Full.module_body(), DeclarationGrammar::Full);
}

#[test]
fn test_declaration_errors() {
    assert_eq!(
        Declaration::parse("").err(),
        Some(ParseError { position: 0, kind: ParseErrorKind::NoMatch }),
    );
    assert_eq!(
        Declaration::parse("  func f() {}  x").err(),
        Some(ParseError { position: 15, kind: ParseErrorKind::TrailingInput }),
    );
    assert_eq!(
        Declaration::parse("let x = 1;").err(),
        Some(ParseError { position: 0, kind: ParseErrorKind::NoMatch }),
    );
}

#[test]
fn test_library_file_takes_four_kinds() {
    let file = LibraryFile::parse(
        "
    import hello;
    struct MyStruct { a: i32, }
    module M() { func f() {} }
    func my_func() { ret 5; }
    ",
    )
    .unwrap();
    assert_eq!(file.declarations.len(), 4);
    assert!(matches!(file.declarations[0], LibraryFileDeclaration::Import(_)));
    assert!(matches!(file.declarations[1], LibraryFileDeclaration::Struct(_)));
    assert!(matches!(file.declarations[2], LibraryFileDeclaration::Module(_)));
    assert!(matches!(file.declarations[3], LibraryFileDeclaration::Func(_)));
    assert_eq!(
        LibraryFile::parse("import a;\nbuffer(r) B: int;").err(),
        Some(ParseError { position: 10, kind: ParseErrorKind::TrailingInput }),
    );
    assert!(LibraryFile::parse("entrypoint(1d) e(i) {}").is_err());
    assert!(LibraryFile::parse("instance T = M();").is_err());
    assert!(LibraryFileDeclaration::parser("buffer(r) B: int;", 0).is_none());
    assert!(LibraryFileDeclaration::parser("import a;", 0).is_some());
    assert_eq!(LibraryFile::parse("").unwrap().declarations.len(), 0);
    assert_eq!(LibraryFile::parse(" \n\t ").unwrap().declarations.len(), 0);
}

#[test]
fn test_shader_file_takes_every_kind() {
    let file = ShaderFile::parse(
        "
    import hello;
    struct MyStruct { a: i32, }
    buffer(w) out: MyStruct;
    module M() { func f() {} }
    instance m = M();
    func my_func() { ret 5; }
    entrypoint(1d) main(i) { exec my_func(); }
    ",
    )
    .unwrap();
    assert_eq!(file.declarations.len(), 7);
    assert!(matches!(file.declarations[0], ShaderFileDeclaration::Import(_)));
    assert!(matches!(file.declarations[1], ShaderFileDeclaration::Struct(_)));
    assert!(matches!(file.declarations[2], ShaderFileDeclaration::Buffer(_)));
    assert!(matches!(file.declarations[3], ShaderFileDeclaration::Module(_)));
    assert!(matches!(file.declarations[4], ShaderFileDeclaration::Instance(_)));
    assert!(matches!(file.declarations[5], ShaderFileDeclaration::Func(_)));
    assert!(matches!(file.declarations[6], ShaderFileDeclaration::Entrypoint(_)));
    assert_eq!(
        ShaderFile::parse("import a;\n  let x = 1;").err(),
        Some(ParseError { position: 12, kind: ParseErrorKind::TrailingInput }),
    );
    assert_eq!(
        ShaderFile::parse("  ?").err(),
        Some(ParseError { position: 2, kind: ParseErrorKind::TrailingInput }),
    );
    let (file, end) = ShaderFile::parser("import a; import b; x", 0);
    assert_eq!((file.declarations.len(), end), (2, 20));
}

#[test]
fn test_let_and_var() {
    match statement("let x = 3, y = x + 1 ;") {
        Statement::Let(s) => {
            assert_eq!(s.pieces.len(), 2);
            assert_eq!(s.pieces[0].name.contents, "x");
            assert!(matches!(s.pieces[0].value, Expression::IntLiteral(_)));
            assert_eq!(s.pieces[1].name.contents, "y");
            assert!(matches!(s.pieces[1].value, Expression::Add(_)));
        },
        other => panic!("Expected a let, got {:?}", other),
    }
    match statement("var q = zang.trib(33), nn, z = 1;") {
        Statement::Var(s) => {
            assert_eq!(s.pieces.len(), 3);
            assert!(matches!(s.pieces[0].value, Some(Expression::Call(_))));
            assert_eq!(s.pieces[1].name.contents, "nn");
            assert!(s.pieces[1].value.is_none());
            assert!(s.pieces[2].value.is_some());
        },
        other => panic!("Expected a var, got {:?}", other),
    }
    assert!(Statement::parse("let ;").is_err());
    assert!(Statement::parse("var ;").is_err());
    assert!(Statement::parse("let x;").is_err());
    assert!(Statement::parse("let x = 1,;").is_err());
    assert!(Statement::parse("letx = 1;").is_err());
    assert!(Statement::parse("var x = ;").is_err());
    assert!(Statement::parse("let x = a & b | c;").is_err());
}

#[test]
fn test_mutate_exec_ret() {
    match statement("mutate birds(i).position.x = 0;") {
        Statement::Mutate(s) => {
            assert!(matches!(*s.lvalue, Expression::Dot(_)));
            assert!(matches!(*s.expr, Expression::IntLiteral(_)));
        },
        other => panic!("Expected a mutate, got {:?}", other),
    }
    assert!(Statement::parse("mutate -a = 0;").is_err());
    assert!(Statement::parse("mutate a + b = 0;").is_err());
    match statement("exec doThing(a + 2);") {
        Statement::Exec(s) => assert!(matches!(*s.expr, Expression::Call(_))),
        other => panic!("Expected an exec, got {:?}", other),
    }
    assert!(Statement::parse("exec ;").is_err());
    match statement("ret a << 9   ;") {
        Statement::Ret(s) => assert!(matches!(s.value.as_deref(), Some(Expression::Shift(_)))),
        other => panic!("Expected a ret, got {:?}", other),
    }
    match statement("ret;") {
        Statement::Ret(s) => assert!(s.value.is_none()),
        other => panic!("Expected a ret, got {:?}", other),
    }
    assert!(Statement::parse("retx;").is_err());
    assert!(Statement::parse("ret 1").is_err());
}

#[test]
fn test_if_and_loop() {
    match statement("if 3 { let x = 3; } else { let y = 4; ret y; }") {
        Statement::If(s) => {
            assert_eq!(s.if_block.statements.len(), 1);
            assert_eq!(s.else_block.map(|b| b.statements.len()), Some(2));
        },
        other => panic!("Expected an if, got {:?}", other),
    }
    match statement("if x { } ") {
        Statement::If(s) => assert!(s.else_block.is_none()),
        other => panic!("Expected an if, got {:?}", other),
    }
    match statement("loop { loop { } if a { } }") {
        Statement::Loop(s) => {
            assert_eq!(s.block.statements.len(), 2);
            assert!(matches!(s.block.statements[0], Statement::Loop(_)));
            assert!(matches!(s.block.statements[1], Statement::If(_)));
        },
        other => panic!("Expected a loop, got {:?}", other),
    }
    assert!(Statement::parse("if { }").is_err());
    assert!(Statement::parse("if a { } else").is_err());
    assert!(Statement::parse("if a { } elsewhere { }").is_err());
    assert!(Statement::parse("loop").is_err());
    assert!(Statement::parse("loop { let x = 1 }").is_err());
    assert_eq!(
        Statement::parse("loop { } }").err(),
        Some(ParseError { position: 9, kind: ParseErrorKind::TrailingInput }),
    );
    let (block, end) = StatementBlock::parser("  { ret; ret 1; }  x", 0).unwrap();
    assert_eq!((block.statements.len(), end), (2, 19));
    assert!(StatementBlock::parser("{ ret; ", 0).is_none());
}

#[test]
fn test_type_name() {
    let (ty, end) = TypeName::parser("A::B::C\n  ::D {", 0).unwrap();
    assert_eq!(path(&ty.name), "A::B::C::D");
    assert_eq!(end, 13);
    assert!(TypeName::parser("9", 0).is_none());
}

#[test]
fn test_boxed() {
    let d = declaration("import a;").boxed();
    assert!(matches!(*d, Declaration::Import(_)));
    let s = statement("ret;").boxed();
    assert!(matches!(*s, Statement::Ret(_)));
    let e = Expression::parse("a").unwrap().boxed();
    assert!(matches!(*e, Expression::Name(_)));
}
