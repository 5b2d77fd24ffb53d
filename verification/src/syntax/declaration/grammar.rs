//! The grammar of declarations, as functions from a text and an offset to
//! what stands there.

use vstd::prelude::*;
use vstd::string::*;
use crate::syntax::declaration::{
    BufferDeclMode, BufferParamMode, DeclView, EntrypointDeclDims, ModuleParamView,
};
use crate::syntax::name::{spec_name, spec_name_path};
use crate::syntax::statement::grammar::spec_statement_block;
use crate::syntax::types::spec_type_name;
use crate::syntax::util::{
    advances, spec_delimited_list, spec_keyword, spec_keyword_then_whitespace, spec_or,
    spec_padded, spec_padded_byte, spec_padded_keyword, spec_tagged, spec_terminal_semicolon,
    spec_whitespace, within,
};

verus! {

/// Which declarations may stand in a place.
#[derive(Debug, Clone, Copy, PartialEq, Eq, Structural)]
pub enum DeclarationGrammar {
    /// Every kind of declaration; in the body of a module, every kind
    /// again.
    Full,
    /// What may stand in the body of a module of a file: functions.
    ModuleBody,
    /// What may stand at the top of a library file: imports, functions,
    /// modules and structs.
    LibraryFile,
    /// What may stand at the top of a shader file: every kind.
    ShaderFile,
}

impl DeclarationGrammar {
    /// The declarations that may stand in the body of a module that stands
    /// where this grammar rules.
    pub open spec fn spec_module_body(self) -> DeclarationGrammar {
        match self {
            DeclarationGrammar::Full => DeclarationGrammar::Full,
            _ => DeclarationGrammar::ModuleBody,
        }
    }
}

/// A name, a colon with any whitespace around it, and the name of a type:
/// an argument of a function or a field of a struct.
pub open spec fn spec_typed_name(s: Seq<u8>, p: int) -> Option<((Seq<u8>, Seq<Seq<u8>>), int)> {
    match spec_name(s, p) {
        Some((name, q)) => match spec_padded_byte(s, q, ':' as u8) {
            Some(r) => match spec_type_name(s, r) {
                Some((ty, end)) => Some(((name, ty), end)),
                None => None,
            },
            None => None,
        },
        None => None,
    }
}

/// `import path;` or `import path as alias;` at `p`.
#[verifier::opaque]
pub open spec fn spec_import_decl(s: Seq<u8>, p: int) -> Option<(DeclView, int)> {
    match spec_keyword_then_whitespace(s, p, "import".spec_bytes()) {
        Some(q) => match spec_name_path(s, q) {
            Some((path, r)) => {
                let (alias, t) = spec_import_alias(s, r);
                match spec_terminal_semicolon(s, t) {
                    Some(end) => Some((DeclView::Import { path, alias }, end)),
                    None => None,
                }
            },
            None => None,
        },
        None => None,
    }
}

/// The alias of an import, at `p`, where it is there: `as name`.
pub open spec fn spec_import_alias(s: Seq<u8>, p: int) -> (Option<Seq<u8>>, int) {
    match spec_padded_keyword(s, p, "as".spec_bytes()) {
        Some(q) => match spec_name(s, q) {
            Some((alias, end)) => (Some(alias), end),
            None => (None, p),
        },
        None => (None, p),
    }
}

/// The return type of a function, at `p`, where it is there: `-> Type`.
pub open spec fn spec_return_type(s: Seq<u8>, p: int) -> (Option<Seq<Seq<u8>>>, int) {
    match spec_padded(s, p, "->".spec_bytes()) {
        Some(q) => match spec_type_name(s, q) {
            Some((ty, end)) => (Some(ty), end),
            None => (None, p),
        },
        None => (None, p),
    }
}

/// `func name(arg: Type, ...) -> Type { ... }` at `p`. The return type may
/// be left out.
#[verifier::opaque]
pub open spec fn spec_func_decl(s: Seq<u8>, p: int) -> Option<(DeclView, int)> {
    match spec_keyword_then_whitespace(s, p, "func".spec_bytes()) {
        Some(q) => match spec_name(s, q) {
            Some((name, r)) => match spec_delimited_list(
                s,
                r,
                '(' as u8,
                |at: int| spec_typed_name(s, at),
                ')' as u8,
            ) {
                Some((arguments, t)) => {
                    let (return_ty, u) = spec_return_type(s, t);
                    match spec_statement_block(s, u) {
                        Some((body, end)) => Some(
                            (DeclView::Func { name, arguments, return_ty, body }, end),
                        ),
                        None => None,
                    }
                },
                None => None,
            },
            None => None,
        },
        None => None,
    }
}

/// `struct name { field: Type, ... }` at `p`.
#[verifier::opaque]
pub open spec fn spec_struct_decl(s: Seq<u8>, p: int) -> Option<(DeclView, int)> {
    match spec_keyword_then_whitespace(s, p, "struct".spec_bytes()) {
        Some(q) => match spec_name(s, q) {
            Some((name, r)) => match spec_delimited_list(
                s,
                r,
                '{' as u8,
                |at: int| spec_typed_name(s, at),
                '}' as u8,
            ) {
                Some((fields, end)) => Some((DeclView::Struct { name, fields }, end)),
                None => None,
            },
            None => None,
        },
        None => None,
    }
}

/// The mode of a buffer in its parentheses, at `p`: `(rw)`, `(r)` or
/// `(w)`.
pub open spec fn spec_buffer_mode(s: Seq<u8>, p: int) -> Option<(BufferDeclMode, int)> {
    match spec_padded_byte(s, p, '(' as u8) {
        Some(q) => match spec_or(
            spec_tagged(s, q, "rw".spec_bytes(), BufferDeclMode::ReadWrite),
            spec_or(
                spec_tagged(s, q, "r".spec_bytes(), BufferDeclMode::Read),
                spec_tagged(s, q, "w".spec_bytes(), BufferDeclMode::Write),
            ),
        ) {
            Some((mode, r)) => match spec_padded_byte(s, r, ')' as u8) {
                Some(end) => Some((mode, end)),
                None => None,
            },
            None => None,
        },
        None => None,
    }
}

/// `buffer(mode) name: Type;` at `p`.
#[verifier::opaque]
pub open spec fn spec_buffer_decl(s: Seq<u8>, p: int) -> Option<(DeclView, int)> {
    match spec_keyword(s, p, "buffer".spec_bytes()) {
        Some(q) => match spec_buffer_mode(s, q) {
            Some((mode, r)) => match spec_typed_name(s, spec_whitespace(s, r)) {
                Some(((name, ty), t)) => match spec_terminal_semicolon(s, t) {
                    Some(end) => Some((DeclView::Buffer { name, mode, ty }, end)),
                    None => None,
                },
                None => None,
            },
            None => None,
        },
        None => None,
    }
}

/// The dimensions of an entrypoint in their parentheses, at `p`: `(1d)`,
/// `(2d)` or `(3d)`.
pub open spec fn spec_entrypoint_dims(s: Seq<u8>, p: int) -> Option<(EntrypointDeclDims, int)> {
    match spec_padded_byte(s, p, '(' as u8) {
        Some(q) => match spec_or(
            spec_tagged(s, q, "1d".spec_bytes(), EntrypointDeclDims::D1),
            spec_or(
                spec_tagged(s, q, "2d".spec_bytes(), EntrypointDeclDims::D2),
                spec_tagged(s, q, "3d".spec_bytes(), EntrypointDeclDims::D3),
            ),
        ) {
            Some((dims, r)) => match spec_padded_byte(s, r, ')' as u8) {
                Some(end) => Some((dims, end)),
                None => None,
            },
            None => None,
        },
        None => None,
    }
}

/// The one argument of an entrypoint in its parentheses, at `p`.
pub open spec fn spec_entrypoint_arg(s: Seq<u8>, p: int) -> Option<(Seq<u8>, int)> {
    match spec_padded_byte(s, p, '(' as u8) {
        Some(q) => match spec_name(s, q) {
            Some((arg_name, r)) => match spec_padded_byte(s, r, ')' as u8) {
                Some(end) => Some((arg_name, end)),
                None => None,
            },
            None => None,
        },
        None => None,
    }
}

/// `entrypoint(dims) name(arg) { ... }` at `p`.
#[verifier::opaque]
pub open spec fn spec_entrypoint_decl(s: Seq<u8>, p: int) -> Option<(DeclView, int)> {
    match spec_keyword_then_whitespace(s, p, "entrypoint".spec_bytes()) {
        Some(q) => match spec_entrypoint_dims(s, q) {
            Some((dims, r)) => match spec_name(s, r) {
                Some((name, t)) => match spec_entrypoint_arg(s, t) {
                    Some((arg_name, u)) => match spec_statement_block(s, u) {
                        Some((body, end)) => Some(
                            (DeclView::Entrypoint { name, dims, arg_name, body }, end),
                        ),
                        None => None,
                    },
                    None => None,
                },
                None => None,
            },
            None => None,
        },
        None => None,
    }
}

/// `instance name = module::path(Type, ...);` at `p`.
#[verifier::opaque]
pub open spec fn spec_instance_decl(s: Seq<u8>, p: int) -> Option<(DeclView, int)> {
    match spec_keyword_then_whitespace(s, p, "instance".spec_bytes()) {
        Some(q) => match spec_name(s, q) {
            Some((name, r)) => match spec_padded_byte(s, r, '=' as u8) {
                Some(t) => match spec_name_path(s, t) {
                    Some((module_name, u)) => match spec_delimited_list(
                        s,
                        u,
                        '(' as u8,
                        |at: int| spec_type_name(s, at),
                        ')' as u8,
                    ) {
                        Some((module_params, v)) => match spec_terminal_semicolon(s, v) {
                            Some(end) => Some(
                                (DeclView::Instance { name, module_name, module_params }, end),
                            ),
                            None => None,
                        },
                        None => None,
                    },
                    None => None,
                },
                None => None,
            },
            None => None,
        },
        None => None,
    }
}

/// The mode of a buffer that is a parameter of a module.
pub open spec fn param_mode(mode: BufferDeclMode) -> BufferParamMode {
    match mode {
        BufferDeclMode::Read => BufferParamMode::Read,
        BufferDeclMode::Write => BufferParamMode::Write,
        BufferDeclMode::ReadWrite => BufferParamMode::ReadWrite,
    }
}

/// A parameter of a module at `p`: `buffer(mode) name: Type`.
pub open spec fn spec_module_param(s: Seq<u8>, p: int) -> Option<(ModuleParamView, int)> {
    match spec_keyword(s, p, "buffer".spec_bytes()) {
        Some(q) => match spec_buffer_mode(s, q) {
            Some((mode, r)) => match spec_typed_name(s, r) {
                Some(((name, ty), end)) => Some(
                    (ModuleParamView::Buffer { mode: param_mode(mode), name, ty }, end),
                ),
                None => None,
            },
            None => None,
        },
        None => None,
    }
}

/// The name and the parameters of a module, at `p`:
/// `module name(param, ...)`.
#[verifier::opaque]
pub open spec fn spec_module_head(s: Seq<u8>, p: int) -> Option<
    ((Seq<u8>, Seq<ModuleParamView>), int),
> {
    match spec_keyword_then_whitespace(s, p, "module".spec_bytes()) {
        Some(q) => match spec_name(s, q) {
            Some((name, r)) => match spec_delimited_list(
                s,
                r,
                '(' as u8,
                |at: int| spec_module_param(s, at),
                ')' as u8,
            ) {
                Some((params, end)) => Some(((name, params), end)),
                None => None,
            },
            None => None,
        },
        None => None,
    }
}

/// The declarations that follow from `p`, as many as there are, each with
/// any whitespace around it. `acc` holds the declarations read so far.
pub open spec fn spec_declarations(
    s: Seq<u8>,
    p: int,
    grammar: DeclarationGrammar,
    acc: Seq<DeclView>,
) -> (Seq<DeclView>, int)
    decreases s.len() - p, 5int,
{
    match spec_padded_declaration(s, p, grammar) {
        Some((d, q)) => if advances(s, p, q) {
            spec_declarations(s, q, grammar, acc.push(d))
        } else {
            (acc, p)
        },
        None => (acc, p),
    }
}

/// A block of declarations at `p`: declarations between braces.
pub open spec fn spec_declaration_block(s: Seq<u8>, p: int, grammar: DeclarationGrammar) -> Option<
    (Seq<DeclView>, int),
>
    decreases s.len() - p, 1int,
{
    match spec_padded_byte(s, p, '{' as u8) {
        Some(q) => if advances(s, p, q) {
            let (declarations, r) = spec_declarations(s, q, grammar, seq![]);
            match spec_padded_byte(s, r, '}' as u8) {
                Some(end) => Some((declarations, end)),
                None => None,
            }
        } else {
            None
        },
        None => None,
    }
}

/// `module name(param, ...) { ... }` at `p`. The declarations in its body
/// are read by `body`.
pub open spec fn spec_module_decl(s: Seq<u8>, p: int, body: DeclarationGrammar) -> Option<
    (DeclView, int),
>
    decreases s.len() - p, 2int,
{
    match spec_module_head(s, p) {
        Some(((name, params), q)) => if within(s, p, q) {
            match spec_declaration_block(s, q, body) {
                Some((declarations, end)) => Some(
                    (DeclView::Module { name, params, body: declarations }, end),
                ),
                None => None,
            }
        } else {
            None
        },
        None => None,
    }
}

/// A declaration at `p`: the first of the kinds that `grammar` admits, in
/// the order entrypoint, buffer, import, instance, function, module,
/// struct, that stands there.
pub open spec fn spec_declaration(s: Seq<u8>, p: int, grammar: DeclarationGrammar) -> Option<
    (DeclView, int),
>
    decreases s.len() - p, 3int,
{
    let every = grammar is Full || grammar is ShaderFile;
    let top = !(grammar is ModuleBody);
    if every && spec_entrypoint_decl(s, p) is Some {
        spec_entrypoint_decl(s, p)
    } else if every && spec_buffer_decl(s, p) is Some {
        spec_buffer_decl(s, p)
    } else if top && spec_import_decl(s, p) is Some {
        spec_import_decl(s, p)
    } else if every && spec_instance_decl(s, p) is Some {
        spec_instance_decl(s, p)
    } else if spec_func_decl(s, p) is Some {
        spec_func_decl(s, p)
    } else if top && spec_module_decl(s, p, grammar.spec_module_body()) is Some {
        spec_module_decl(s, p, grammar.spec_module_body())
    } else if top {
        spec_struct_decl(s, p)
    } else {
        None
    }
}

/// A declaration with any whitespace around it, at `p`.
pub open spec fn spec_padded_declaration(s: Seq<u8>, p: int, grammar: DeclarationGrammar) -> Option<
    (DeclView, int),
>
    decreases s.len() - p, 4int,
{
    let q = spec_whitespace(s, p);
    if within(s, p, q) {
        match spec_declaration(s, q, grammar) {
            Some((d, end)) => Some((d, spec_whitespace(s, end))),
            None => None,
        }
    } else {
        None
    }
}

/// The declarations of a file that follow the first one, from `p`: each
/// may have whitespace before it. `acc` holds the declarations read so
/// far.
pub open spec fn spec_file_rest(
    s: Seq<u8>,
    p: int,
    grammar: DeclarationGrammar,
    acc: Seq<DeclView>,
) -> (Seq<DeclView>, int)
    decreases s.len() - p,
{
    match spec_declaration(s, spec_whitespace(s, p), grammar) {
        Some((d, q)) => if advances(s, p, q) {
            spec_file_rest(s, q, grammar, acc.push(d))
        } else {
            (acc, p)
        },
        None => (acc, p),
    }
}

/// A file from `p`: any whitespace, and declarations of the kinds that
/// `grammar` admits, as many as follow. Gives the declarations and the
/// offset where they end.
pub open spec fn spec_file(s: Seq<u8>, p: int, grammar: DeclarationGrammar) -> (
    Seq<DeclView>,
    int,
) {
    let q = spec_whitespace(s, p);
    match spec_declaration(s, q, grammar) {
        Some((first, r)) => spec_file_rest(s, r, grammar, seq![first]),
        None => (seq![], q),
    }
}

} // verus!
