//! Rewrites barrel imports of a component library into per-component deep
//! imports, with optional companion stylesheet imports.
pub mod naming;
pub mod ast;
pub mod options;
pub mod model;
pub mod visitor;
pub mod laws;
