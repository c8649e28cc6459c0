pub mod laws;
pub mod mutator;
pub mod semantics;
