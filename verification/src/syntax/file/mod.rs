//! The two kinds of file.

pub mod library_file;
pub mod shader_file;

pub use crate::syntax::file::library_file::{LibraryFile, LibraryFileDeclaration};
pub use crate::syntax::file::shader_file::{ShaderFile, ShaderFileDeclaration};
