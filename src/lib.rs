pub mod ast;
pub mod codegen;
pub mod text;
pub mod mutating;
pub mod parser;
