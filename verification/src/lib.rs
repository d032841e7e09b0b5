//! Verified core of a constrained-decoding engine for large language models.
//!
//! Given a grammar (lark-like surface syntax or a JSON schema), a token
//! vocabulary and the tokens produced so far, the engine computes at every
//! decoding step which tokens may be sampled next without violating the
//! grammar.  The grammar compilation and the Earley/lexer machinery live in
//! the `llguidance` crate; this library holds the verified data model around
//! it: the public option and limit types, the JSON-schema compilation
//! context, the format-regex table, the substring-lexeme validation, and the
//! verified drivers that feed tokens through a parser.

pub mod api;
pub mod chunks;
pub mod cli;
pub mod context;
pub mod driver;
pub mod engine;
pub mod formats;
pub mod lexer;
pub mod ranges;
pub mod surface;
