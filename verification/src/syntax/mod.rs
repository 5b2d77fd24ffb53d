//! Syntax trees and the grammar that produces them.

pub mod util;
pub mod error;
pub mod name;
pub mod expression;
pub mod statement;
pub mod types;
pub mod declaration;
pub mod file;
