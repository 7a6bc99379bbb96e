pub mod chars;
pub mod laws;
pub mod lexer;
pub mod position;
pub mod syntax_error;
pub mod text;
pub mod token;
pub mod tree;
