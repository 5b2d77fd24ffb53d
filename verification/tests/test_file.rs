use dubgsl::syntax::file::{LibraryFile, ShaderFile};

fn test_shader_file_str(s: &str) {
    match ShaderFile::parse(s) {
        Ok(_) => {},
        Err(e) => panic!("Failed to parse: {} - {:?}", s, e),
    }
}

fn test_library_file_str(s: &str) {
    match LibraryFile::parse(s) {
        Ok(_) => {},
        Err(e) => panic!("Failed to parse: {} - {:?}", s, e),
    }
}

#[test]
fn test_files() {
    test_library_file_str("
    import hello;
    import world;
    struct MyStruct {
      a: i32,
      b: f32,
    }
    func my_func() {
      ret 5;
    }");

    test_shader_file_str("
    import hello;
    import world;
    struct MyStruct {
      a: i32,
      b: f32,
    }
    func my_func() {
      ret 5;
    }");
}
