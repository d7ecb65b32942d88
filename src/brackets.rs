//! Bracket balance, checked once before a run, and why it matters: a
//! balanced program never fails with an unmatched bracket.

use vstd::prelude::*;

use crate::instruction::Instruction;
use crate::interpreter::{
    input_after, next, read_from, run, scan_backward, scan_forward, ExecError, Machine, ReadResult,
};
use crate::interpreter_config::EOFBehaviour;

verus! {

/// Why a program is not structurally valid.
#[derive(Debug, Copy, Clone, PartialEq, Eq, Structural)]
pub enum StructuralError {
    /// Some jump-if-zero has no matching jump-unless-zero.
    UnmatchedOpen,
    /// Some jump-unless-zero has no matching jump-if-zero.
    UnmatchedClose,
}

/// How an operation changes the nesting depth.
pub open spec fn depth_delta(i: Instruction) -> int {
    if i == Instruction::JumpIfZero {
        1
    } else if i == Instruction::JumpUnlessZero {
        -1
    } else {
        0
    }
}

/// The nesting depth after the first `n` operations of `p`: opens minus
/// closes.
pub open spec fn prefix_depth(p: Seq<Instruction>, n: int) -> int
    decreases n,
{
    if n <= 0 || n > p.len() {
        0
    } else {
        prefix_depth(p, n - 1) + depth_delta(p[n - 1])
    }
}

/// Some prefix of `p` closes more loops than it opens.
pub open spec fn closes_too_early(p: Seq<Instruction>) -> bool {
    exists|n: int| 0 <= n <= p.len() && #[trigger] prefix_depth(p, n) < 0
}

/// Every bracket of `p` has its match: no prefix closes more than it opens,
/// and the whole program closes all it opens.
pub open spec fn balanced(p: Seq<Instruction>) -> bool {
    &&& !closes_too_early(p)
    &&& prefix_depth(p, p.len() as int) == 0
}

/// Checks that the brackets of a program are balanced, before any of it
/// runs.
pub fn validate(program: &Vec<Instruction>) -> (r: Result<(), StructuralError>)
    ensures
        r is Ok <==> balanced(program@),
        r == Err::<(), StructuralError>(StructuralError::UnmatchedClose) <==> closes_too_early(program@),
        r == Err::<(), StructuralError>(StructuralError::UnmatchedOpen) <==> (!closes_too_early(program@)
            && prefix_depth(program@, program@.len() as int) > 0),
{
    let ghost p = program@;
    let mut depth: usize = 0;
    let mut i: usize = 0;
    while i < program.len()
        invariant
            p == program@,
            i <= p.len(),
            depth == prefix_depth(p, i as int),
            depth <= i,
            forall|n: int| 0 <= n <= i ==> #[trigger] prefix_depth(p, n) >= 0,
        decreases p.len() - i,
    {
        assert(prefix_depth(p, i + 1) == prefix_depth(p, i as int) + depth_delta(p[i as int]));
        match program[i] {
            Instruction::JumpIfZero => {
                depth = depth + 1;
            },
            Instruction::JumpUnlessZero => {
                if depth == 0 {
                    assert(prefix_depth(p, i + 1) < 0);
                    return Err(StructuralError::UnmatchedClose);
                }
                depth = depth - 1;
            },
            _ => {},
        }
        i = i + 1;
    }
    if depth > 0 {
        Err(StructuralError::UnmatchedOpen)
    } else {
        Ok(())
    }
}

/// Scanning forward from `i` with counter `depth` finds a match whenever
/// the rest of the program closes at least `depth` more loops than it
/// opens.
proof fn lemma_scan_forward_some(p: Seq<Instruction>, i: int, depth: int)
    requires
        0 <= i <= p.len(),
        depth >= 1,
        depth + prefix_depth(p, p.len() as int) - prefix_depth(p, i) <= 0,
    ensures
        scan_forward(p, i, depth) is Some,
    decreases p.len() - i,
{
    if i < p.len() {
        assert(prefix_depth(p, i + 1) == prefix_depth(p, i) + depth_delta(p[i]));
        if p[i] == Instruction::JumpUnlessZero {
            if depth > 1 {
                lemma_scan_forward_some(p, i + 1, depth - 1);
            }
        } else if p[i] == Instruction::JumpIfZero {
            lemma_scan_forward_some(p, i + 1, depth + 1);
        } else {
            lemma_scan_forward_some(p, i + 1, depth);
        }
    }
}

/// Scanning backward from `i` with counter `depth` finds a match whenever
/// the program up to `i` opens at least `depth` more loops than it closes.
proof fn lemma_scan_backward_some(p: Seq<Instruction>, i: int, depth: int)
    requires
        -1 <= i < p.len(),
        depth >= 1,
        depth <= prefix_depth(p, i + 1),
    ensures
        scan_backward(p, i, depth) is Some,
    decreases i + 1,
{
    if i >= 0 {
        assert(prefix_depth(p, i + 1) == prefix_depth(p, i) + depth_delta(p[i]));
        if p[i] == Instruction::JumpIfZero {
            if depth > 1 {
                lemma_scan_backward_some(p, i - 1, depth - 1);
            }
        } else if p[i] == Instruction::JumpUnlessZero {
            lemma_scan_backward_some(p, i - 1, depth + 1);
        } else {
            lemma_scan_backward_some(p, i - 1, depth);
        }
    }
}

/// A program that passes `validate` never fails with an unmatched bracket:
/// every jump that is taken finds its match.
pub proof fn lemma_balanced_jumps_match(m: Machine, eof: EOFBehaviour, r: ReadResult)
    requires
        balanced(m.program),
        0 <= m.pc < m.program.len(),
    ensures
        next(m, eof, r) != Err::<Machine, ExecError>(ExecError::UnmatchedOpen),
        next(m, eof, r) != Err::<Machine, ExecError>(ExecError::UnmatchedClose),
{
    let p = m.program;
    let pc = m.pc;
    assert(prefix_depth(p, pc + 1) == prefix_depth(p, pc) + depth_delta(p[pc]));
    if p[pc] == Instruction::JumpIfZero {
        assert(prefix_depth(p, pc) >= 0);
        lemma_scan_forward_some(p, pc + 1, 1);
    } else if p[pc] == Instruction::JumpUnlessZero {
        assert(prefix_depth(p, pc + 1) >= 0);
        lemma_scan_backward_some(p, pc - 1, 1);
    }
}

/// Over any number of steps and any input, a run of a program that passes
/// `validate` never stops on an unmatched bracket.
pub proof fn lemma_balanced_run_never_unmatched(m: Machine, eof: EOFBehaviour, input: Seq<u8>, fuel: nat)
    requires
        balanced(m.program),
    ensures
        run(m, eof, input, fuel).1 != Some(ExecError::UnmatchedOpen),
        run(m, eof, input, fuel).1 != Some(ExecError::UnmatchedClose),
    decreases fuel,
{
    if fuel > 0 && 0 <= m.pc < m.program.len() {
        lemma_balanced_jumps_match(m, eof, read_from(input));
        if let Ok(m2) = next(m, eof, read_from(input)) {
            lemma_balanced_run_never_unmatched(m2, eof, input_after(m, input), (fuel - 1) as nat);
        }
    }
}

} // verus!
