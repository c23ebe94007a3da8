//! A scanner for an ECMAScript/TypeScript-like grammar.
//!
//! The library turns an in-memory source text into a sequence of classified
//! tokens or precise, positioned lex errors.  The behaviour of every
//! operation is pinned down against a mathematical model of the scanner
//! state (`model`), and the properties the scanner promises — maximal-munch
//! operator matching, single-pass consumption of the whole input, idempotent
//! end-of-input behaviour — are proved in `properties`.

pub mod error;
pub mod lexer;
pub mod model;
pub mod properties;
pub mod token;
