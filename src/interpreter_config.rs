//! The end-of-input policy an engine is configured with.

use vstd::prelude::*;

verus! {

/// What a read produces once the input is exhausted.
#[derive(Debug, Copy, Clone, PartialEq, Eq, Structural)]
pub enum EOFBehaviour {
    /// The read stores byte 0.
    Zero,
    /// The read stores byte 255.
    MaxValue,
    /// The read leaves the target cell as it was.
    Unchanged,
}

/// The configuration of one run.
#[derive(Debug, Copy, Clone, PartialEq, Eq, Structural)]
pub struct InterpreterConfig {
    pub eof: EOFBehaviour,
}

impl Default for InterpreterConfig {
    /// The default policy stores 0 on end of input.
    fn default() -> (r: InterpreterConfig)
        ensures
            r.eof == EOFBehaviour::Zero,
    {
        InterpreterConfig { eof: EOFBehaviour::Zero }
    }
}

impl InterpreterConfig {
    pub fn new(eof: EOFBehaviour) -> (r: InterpreterConfig)
        ensures
            r.eof == eof,
    {
        InterpreterConfig { eof: eof }
    }
}

} // verus!
