pub mod enumm;
pub mod expression;
pub mod function;
pub mod identifier;
pub mod program;
pub mod sstruct;
pub mod statement;
pub mod toplevel;
pub mod typedef;
pub mod types;
pub mod union;
