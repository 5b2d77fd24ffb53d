//! From syntax to model.

pub mod session_config;
pub mod syntax_ingester;

pub use crate::transform::session_config::{SessionConfig, SessionConfigBuilder};
pub use crate::transform::syntax_ingester::{
    SyntaxIngester, SyntaxIngestionCause, SyntaxIngestionError,
};
