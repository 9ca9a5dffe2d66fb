//! An embeddable interactive shell runtime: a line tokenizer, a registry of
//! commands scoped by modes, and the transition function of its
//! read-eval-print loop.

pub mod defaults;
pub mod sh;
pub mod strings;
