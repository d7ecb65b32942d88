//! A verified execution engine for a tape-based esoteric language with eight
//! single-character operations.
//!
//! Source text is split into grapheme clusters and turned into a program
//! (`parser`); the engine (`interpreter`) runs it one operation at a time
//! against a 256-cell memory, and leaves input and output to its caller.
//! `runner` drives a whole run against bytes held in memory.

use vstd::prelude::*;

pub mod brackets;
pub mod instruction;
pub mod interpreter;
pub mod interpreter_config;
pub mod parser;
pub mod runner;
pub mod theorems;

use crate::interpreter::{initial, run};
use crate::interpreter_config::{EOFBehaviour, InterpreterConfig};
use crate::parser::{parse, program_of};
use crate::runner::{execute_program, report_matches, RunReport};

verus! {

/// Parses `program` and runs it for at most `max_steps` steps on `input`
/// under `config`, collecting what it writes.
pub fn execute(program: &str, input: &[u8], config: InterpreterConfig, max_steps: usize) -> (r: RunReport)
    ensures
        ({
            let (m, err) = run(initial(program_of(program@)), config.eof, input@, max_steps as nat);
            report_matches(r, m, err)
        }),
{
    let instructions = match parse(program) {
        Ok(p) => p,
        Err(_) => Vec::new(),
    };
    execute_program(instructions, input, config, max_steps)
}

/// `execute` under the default configuration, which stores 0 on end of
/// input.
pub fn execute_with_default_config(program: &str, input: &[u8], max_steps: usize) -> (r: RunReport)
    ensures
        ({
            let (m, err) = run(initial(program_of(program@)), EOFBehaviour::Zero, input@, max_steps as nat);
            report_matches(r, m, err)
        }),
{
    execute(program, input, InterpreterConfig::default(), max_steps)
}

} // verus!
