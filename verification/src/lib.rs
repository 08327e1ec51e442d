//! Build-time rewriting of a program entry point that declares typed
//! parameters into a standard, zero-parameter entry point.
//!
//! A user writes `fn main` with up to two parameters, one holding the process
//! environment and one holding the command line.  Which parameter means what
//! is inferred purely from the declared *shape* of each parameter type,
//! matched against a small closed catalogue: the matching is syntactic (by
//! the literal final path-segment name), never semantic.  The pipeline here
//! parses the declared signature, classifies every parameter, resolves the
//! order in which the synthesized values must be passed, and produces the
//! statement plan for the replacement entry point, or a single localized
//! diagnostic when the declaration is invalid.

pub mod emit;
pub mod laws;
pub mod model;
pub mod parse;
pub mod shape;
