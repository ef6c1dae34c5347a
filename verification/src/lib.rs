//! The token model of a small scripting language's front end.
//!
//! A [`types::Token`] pairs a lexical kind with an optional literal payload.
//! The crate defines that vocabulary, the payload a bare kind starts out with,
//! structural equality on every entity, and the text a token is shown as in
//! diagnostics. Every function is specified over the mathematical view of its
//! arguments and verified against that specification.

pub mod debug;
pub mod equality;
pub mod text;
pub mod types;
