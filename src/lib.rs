//! Tells recoverable errors apart from fatal ones, without losing the error value.
pub mod fatal;
pub mod laws;

pub use fatal::{FatalError, NeverErr};
