pub mod full;
pub mod simple;
