//! Front end of a small shader-description language: a parser from source
//! text to a syntax tree, and an ingester from that tree to an interned
//! semantic model.

pub mod syntax;
pub mod model;
pub mod transform;
