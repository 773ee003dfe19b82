//! A cursor over a fixed buffer, and the rule-driven drivers that parse or
//! tokenize a whole buffer through it.

pub mod cursor;
pub mod parser;
pub mod rule;
pub mod tokenizer;

pub use cursor::Cursor;
pub use parser::Parser;
pub use rule::{Deserialize, Rule, Serialize};
pub use tokenizer::{TokenParser, Tokenizer};
