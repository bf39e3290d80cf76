//! The directive by which the consumer callback governs loop continuation.

use vstd::prelude::*;

verus! {

/// Control flow of the event loop. A fresh value is handed to the user
/// callback before every invocation; the callback may overwrite it, and the
/// dispatcher reads it back immediately afterwards.
#[derive(Copy, Clone, Debug, PartialEq, Eq, Structural)]
pub enum ControlFlow {
    /// Keep looping.
    Continue,
    /// Stop the loop cleanly.
    Exit,
    /// Stop the loop abruptly; the host aborts with the given code.
    ExitWithCode(u32),
}

impl Default for ControlFlow {
    /// A fresh directive asks for the loop to continue.
    fn default() -> (r: Self)
        ensures
            r == ControlFlow::Continue,
    {
        ControlFlow::Continue
    }
}

} // verus!
