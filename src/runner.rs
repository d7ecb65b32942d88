//! Running a whole program against input and output held in memory.

use vstd::prelude::*;

use crate::instruction::Instruction;
use crate::interpreter::{
    awaiting_input, initial, input_after, next, Machine, read_from, run, Action, ExecError, Interpreter, ReadResult,
};
use crate::interpreter_config::{EOFBehaviour, InterpreterConfig};

verus! {

/// How a bounded run ended.
#[derive(Debug, Copy, Clone, PartialEq, Eq, Structural)]
pub enum RunStatus {
    /// The program ran to its end.
    Finished,
    /// The program failed.
    Failed(ExecError),
    /// The step budget ran out before the program ended.
    StepLimitReached,
}

/// The status of a bounded run and the bytes it emitted.
#[derive(Debug, PartialEq, Eq)]
pub struct RunReport {
    pub status: RunStatus,
    pub output: Vec<u8>,
}

/// What a bounded run reports, given the outcome `(m, err)` of the model's
/// `run`: a finished run emits the machine's whole output; one that failed
/// or ran out of steps emits a prefix of it (the bytes still buffered are
/// not handed out).
pub open spec fn report_matches(r: RunReport, m: Machine, err: Option<ExecError>) -> bool {
    match err {
        Some(e) => {
            &&& r.status == RunStatus::Failed(e)
            &&& r.output@.is_prefix_of(m.output)
        },
        None => if m.pc == m.program.len() {
            &&& r.status == RunStatus::Finished
            &&& r.output@ == m.output
        } else {
            &&& r.status == RunStatus::StepLimitReached
            &&& r.output@.is_prefix_of(m.output)
        },
    }
}

/// Away from a read of an addressable cell, a step does not depend on the
/// input, and consumes none of it.
proof fn lemma_next_ignores_read(m: Machine, eof: EOFBehaviour, r: ReadResult)
    requires
        0 <= m.pc < m.program.len(),
        !awaiting_input(m),
    ensures
        next(m, eof, r) == next(m, eof, ReadResult::EndOfInput),
        forall|input: Seq<u8>| input_after(m, input) == input,
{
}

/// Runs `program` for at most `max_steps` steps on `input`, collecting what
/// it writes. Each byte of `input` serves one read, in order; reads after
/// the last byte follow the configured end-of-input policy.
pub fn execute_program(program: Vec<Instruction>, input: &[u8], config: InterpreterConfig, max_steps: usize) -> (r: RunReport)
    ensures
        ({
            let (m, err) = run(initial(program@), config.eof, input@, max_steps as nat);
            report_matches(r, m, err)
        }),
{
    let ghost goal = run(initial(program@), config.eof, input@, max_steps as nat);
    let mut engine = Interpreter::new(program, config);
    let mut output: Vec<u8> = Vec::new();
    let mut pos: usize = 0;
    let mut steps_left: usize = max_steps;
    assert(input@.subrange(0, input@.len() as int) =~= input@);
    loop
        invariant
            engine.wf(),
            engine@.config == config,
            engine@.machine.program == program@,
            goal == run(initial(program@), config.eof, input@, max_steps as nat),
            pos <= input@.len(),
            goal == run(engine@.machine, config.eof, input@.subrange(pos as int, input@.len() as int), steps_left as nat),
            output@ == engine@.emitted,
        decreases steps_left,
    {
        let ghost rest = input@.subrange(pos as int, input@.len() as int);
        let ghost pre = engine@;
        proof {
            engine.lemma_output_split();
            engine.lemma_pending_bounded();
            assert(engine@.machine.output.subrange(0, output@.len() as int) =~= output@);
        }
        if steps_left == 0 && !engine.is_finished() {
            assert(goal == (pre.machine, None::<ExecError>));
            return RunReport { status: RunStatus::StepLimitReached, output };
        }
        match engine.execute() {
            Ok(Action::Halted(mut last)) => {
                output.append(&mut last);
                proof {
                    engine.lemma_output_split();
                    assert(goal == (pre.machine, None::<ExecError>));
                }
                return RunReport { status: RunStatus::Finished, output };
            },
            Ok(Action::NeedInput) => {
                let read = if pos < input.len() {
                    ReadResult::Byte(input[pos])
                } else {
                    ReadResult::EndOfInput
                };
                assert(read == read_from(rest));
                engine.provide_input(read);
                if pos < input.len() {
                    pos = pos + 1;
                    assert(input_after(pre.machine, rest) =~= input@.subrange(pos as int, input@.len() as int));
                }
                steps_left = steps_left - 1;
            },
            Ok(Action::Continue) => {
                proof {
                    lemma_next_ignores_read(pre.machine, config.eof, read_from(rest));
                }
                steps_left = steps_left - 1;
            },
            Ok(Action::Emit(mut batch)) => {
                proof {
                    lemma_next_ignores_read(pre.machine, config.eof, read_from(rest));
                }
                output.append(&mut batch);
                steps_left = steps_left - 1;
            },
            Err(e) => {
                proof {
                    lemma_next_ignores_read(pre.machine, config.eof, read_from(rest));
                }
                return RunReport { status: RunStatus::Failed(e), output };
            },
        }
    }
}

} // verus!
