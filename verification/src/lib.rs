//! A deterministic, single-pass rewriter for a parsed UI-templating
//! tree: the outermost markup element rendered by each component
//! receives a diagnostic attribute naming that component (unless
//! present already or excluded), boolean-like attribute values are
//! normalized, and fixed attribute and identifier renames are
//! applied. The traversal, its boundary-tracking state machine and
//! every rewrite rule are specified in `model` and proved; `laws`
//! states the properties that hold of a whole pass.
pub mod ast;
pub mod casing;
pub mod laws;
pub mod model;
pub mod text;
pub mod visitor;

pub use text::vec_contains_string;
pub use visitor::{
    process_transform, AttrRename, Config, IdentRename, TransformError, TransformVisitor,
};
