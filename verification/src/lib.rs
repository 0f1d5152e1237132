//! Rewrites JSX elements into calls of Vue's `createVNode`, and imports that
//! helper once per compilation unit.
//!
//! [`vue_jsx`] rewrites a whole [`ast::Program`]; [`VueJsxTransformVisitor`]
//! is the visitor it runs. What the rewrite yields is defined on the model of
//! the tree in [`rewrite`], and [`laws`] and [`remaining`] prove what holds of
//! it for every input.

pub mod ast;
pub mod hygiene;
pub mod laws;
pub mod model;
pub mod registry;
pub mod remaining;
pub mod rewrite;
pub mod transcoder;
pub mod visitor;

pub use registry::{Helper, VueJsxTransformVisitor};
pub use visitor::{vue_jsx, vue_jsx_in};
