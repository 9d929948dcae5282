//! A library for classifying, converting and propagating failures.
//!
//! The core is a closed error taxonomy ([`errors::ErrorKind`]), a set of
//! conversion functions that canonicalize source-specific failures into that
//! taxonomy, domain operations that reject invalid inputs with a named
//! failure, short-circuiting chain combinators, and a resilient line-oriented
//! configuration loader that tolerates malformed input while still surfacing
//! hard failures.
//!
//! Around that core stand a few small verified utilities: text scanning and
//! numeric parsing, and simple geometric and record types.

pub mod arith;
pub mod chain;
pub mod config;
pub mod counter;
pub mod domain;
pub mod errors;
pub mod game;
pub mod guess;
pub mod numbers;
pub mod point;
pub mod scan;
pub mod shapes;
pub mod strings;
pub mod summary;
pub mod tree;
pub mod user;
