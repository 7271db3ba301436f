//! A lexical scanner for a small dynamically-typed scripting language.
//!
//! The scanner turns a complete source text into an ordered sequence of
//! tokens ending in a single end-of-input marker, and records a line-keyed
//! report for every lexical error it meets along the way.
pub mod model;
pub mod report;
pub mod scanner;
pub mod theorems;
pub mod token;
pub mod token_type;

pub use scanner::Scanner;
pub use report::{error, ErrorReport};

pub use token::{Literal, Token};
pub use token_type::TokenType;
