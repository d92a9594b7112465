//! Identifier- and name-reference productions of a hardware-description
//! language grammar, with each production stated as a pure function on the
//! input characters and proved against that statement.

pub mod categories;
pub mod hierarchy;
pub mod laws;
pub mod lexical;
pub mod outcome;
pub mod scope;
pub mod scoped;
pub mod syntax;
pub mod text;
