//! Dependency-injection rewriting of component bodies.
//!
//! A module is given as a tree of nodes. References to imported bindings that
//! occur inside a function body of a component (a class, a function
//! declaration, or a variable bound to an arrow function) are renamed to an
//! alias, and a declaration that obtains the alias from the injection function
//! is put at the head of that body.

pub mod ast;
pub mod import_analysis;
pub mod laws;
pub mod transform;

pub use crate::ast::{Ident, ImportDecl, ImportSpecifier, Injection, Node, NodeKind, Program};
pub use crate::import_analysis::{ImportAnalysis, ImportSpecification};
pub use crate::transform::{process_transform, ActiveReplacement, TransformVisitor};
