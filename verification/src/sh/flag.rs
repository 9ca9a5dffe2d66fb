//! Typed values of the shell's flag store.

use vstd::prelude::*;

verus! {

/// A value that a command keeps in the shell under a name.
#[derive(Debug, Clone, PartialEq)]
pub enum Flag {
    String(String),
    Bool(bool),
    Int(i32),
}

} // verus!
