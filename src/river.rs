//! A second, smaller program: a shared accumulator that counts changes of caller.
pub mod error;
pub mod instruction;
pub mod state;
pub mod processor;
