//! Code generation for chunked-format parser types.
//!
//! Given a record declaration (its name and named, typed fields) and a list of
//! flags drawn from `custom`, `depth` and `path`, the library decides which
//! synthetic fields, constructor statements and interface implementations the
//! generated parser type receives, and emits the resulting Rust source text.

pub mod decls;
pub mod config;
pub mod plan;
pub mod emit;
pub mod generate;

pub use decls::{FieldDecl, TypeSkeleton, has_depth_field};
pub use config::{ResolvedConfig, GenError, resolve_config};
pub use plan::{PlannedField, ImplKind, CtorKind, SynthesisPlan, synthesize};
pub use emit::emit;
pub use generate::chunk_parser;
