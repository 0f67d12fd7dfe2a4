//! Front end of the Aspen scripting language: a token cursor, the syntax tree,
//! and a recursive-descent parser whose every function is proved to compute
//! the parse that its specification function defines.

pub mod errors;
pub mod evaluate;
pub mod lexer;
pub mod parser;
