use dubgsl::syntax::name::{Name, NamePath};

fn check_name(text: &'static str) {
    match Name::parse(text) {
        Ok(_) => {},
        Err(e) => panic!("Failed to parse: {} - {:?}", text, e),
    }
}

fn check_name_path(text: &'static str) {
    match NamePath::parse(text) {
        Ok(_) => {},
        Err(e) => panic!("Failed to parse: {} - {:?}", text, e),
    }
}

#[test]
fn test_names() {
    check_name("hello");
    check_name("a");
    check_name("_");
    check_name("_abc");
    check_name("_abc_def");
    check_name("_9bc_def");
    check_name("X9999");
    check_name("_9999");
}

#[test]
fn test_name_paths() {
    check_name_path("hello :: there");
    check_name_path("std:: string\n::bang");
}
