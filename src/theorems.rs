//! Facts about the machine model that hold for every program and input.

use vstd::prelude::*;

use crate::instruction::Instruction;
use crate::interpreter::{
    execute_post, input_after, machine_wf, match_close, match_open, next, read_from, run, scan_backward, scan_forward,
    translate, Action, EngineView, ExecError, Machine, ReadResult, MEM_SIZE,
};
use crate::interpreter_config::EOFBehaviour;

verus! {

/// One step keeps the machine well formed, and never lowers the high-water
/// mark.
pub proof fn lemma_step_max_ap(m: Machine, eof: EOFBehaviour, r: ReadResult)
    requires
        machine_wf(m),
        m.pc < m.program.len(),
    ensures
        next(m, eof, r) matches Ok(m2) ==> machine_wf(m2) && m.max_ap <= m2.max_ap,
{
    if let Ok(m2) = next(m, eof, r) {
        let op = m.program[m.pc];
        if op == Instruction::JumpIfZero {
            if let Some(j) = match_close(m.program, m.pc) {
                lemma_scan_forward_found(m.program, m.pc + 1, 1);
            }
        } else if op == Instruction::JumpUnlessZero {
            if let Some(j) = match_open(m.program, m.pc) {
                lemma_scan_backward_found(m.program, m.pc - 1, 1);
            }
        }
    }
}

/// Over any number of steps and any input, the high-water mark never
/// decreases and never becomes negative.
pub proof fn lemma_max_ap_monotone(m: Machine, eof: EOFBehaviour, input: Seq<u8>, fuel: nat)
    requires
        machine_wf(m),
    ensures
        ({
            let m2 = run(m, eof, input, fuel).0;
            machine_wf(m2) && m.max_ap <= m2.max_ap && m2.max_ap >= 0
        }),
    decreases fuel,
{
    if fuel > 0 && 0 <= m.pc < m.program.len() {
        lemma_step_max_ap(m, eof, read_from(input));
        if let Ok(m2) = next(m, eof, read_from(input)) {
            lemma_max_ap_monotone(m2, eof, input_after(m, input), (fuel - 1) as nat);
        }
    }
}

/// A forward scan that succeeds lands on a jump-unless-zero at or after its
/// start.
pub proof fn lemma_scan_forward_found(p: Seq<Instruction>, i: int, depth: int)
    ensures
        scan_forward(p, i, depth) matches Some(j) ==> i <= j < p.len() && p[j]
            == Instruction::JumpUnlessZero,
    decreases p.len() - i,
{
    if 0 <= i < p.len() && depth > 0 {
        lemma_scan_forward_found(p, i + 1, depth - 1);
        lemma_scan_forward_found(p, i + 1, depth + 1);
        lemma_scan_forward_found(p, i + 1, depth);
    }
}

/// A backward scan that succeeds lands on a jump-if-zero at or before its
/// start.
pub proof fn lemma_scan_backward_found(p: Seq<Instruction>, i: int, depth: int)
    ensures
        scan_backward(p, i, depth) matches Some(j) ==> 0 <= j <= i && p[j]
            == Instruction::JumpIfZero,
    decreases i + 1,
{
    if 0 <= i < p.len() && depth > 0 {
        lemma_scan_backward_found(p, i - 1, depth - 1);
        lemma_scan_backward_found(p, i - 1, depth + 1);
        lemma_scan_backward_found(p, i - 1, depth);
    }
}

/// Increment and decrement act on the addressed cell modulo 256, in both
/// directions, and leave every other cell alone.
pub proof fn lemma_cell_arithmetic_wraps(m: Machine, eof: EOFBehaviour, r: ReadResult)
    requires
        machine_wf(m),
        m.pc < m.program.len(),
        m.program[m.pc] == Instruction::Increment || m.program[m.pc] == Instruction::Decrement,
        translate(m.ap, m.max_ap) is Some,
    ensures
        ({
            let a = translate(m.ap, m.max_ap)->0;
            let delta: int = if m.program[m.pc] == Instruction::Increment { 1 } else { -1 };
            &&& next(m, eof, r) matches Ok(m2)
            &&& m2.memory[a] as int == (m.memory[a] as int + delta) % 256
            &&& forall|k: int| 0 <= k < MEM_SIZE && k != a ==> m2.memory[k] == m.memory[k]
            &&& m2.pc == m.pc + 1
        }),
{
}

/// Address translation fails exactly for a pointer at or right of the last
/// cell, or left of the origin by at least the memory size or by more than
/// the high-water mark; otherwise it yields the pointer itself, or for a
/// negative pointer the cell that many places from the end.
pub proof fn lemma_translate(ap: int, max_ap: int)
    ensures
        translate(ap, max_ap) is None <==> (ap >= MEM_SIZE || (ap < 0 && (-ap > max_ap || -ap
            >= MEM_SIZE))),
        translate(ap, max_ap) matches Some(a) ==> 0 <= a < MEM_SIZE && a == (if ap >= 0 {
            ap
        } else {
            MEM_SIZE + ap
        }),
{
}

/// A loop reached with a zero cell is skipped: the jump-if-zero lands on its
/// match, whose test of the same cell falls through to the operation after
/// the loop, and nothing but the program counter changes.
pub proof fn lemma_loop_skipped_on_zero(m: Machine, eof: EOFBehaviour, r: ReadResult)
    requires
        machine_wf(m),
        m.pc < m.program.len(),
        m.program[m.pc] == Instruction::JumpIfZero,
        translate(m.ap, m.max_ap) matches Some(a) && m.memory[a] == 0,
        match_close(m.program, m.pc) is Some,
    ensures
        ({
            let j = match_close(m.program, m.pc)->0;
            &&& next(m, eof, r) == Ok::<Machine, ExecError>(Machine { pc: j, ..m })
            &&& next(Machine { pc: j, ..m }, eof, r) == Ok::<Machine, ExecError>(
                Machine { pc: j + 1, ..m },
            )
        }),
{
    lemma_scan_forward_found(m.program, m.pc + 1, 1);
}

/// A loop that ends with a non-zero cell goes back to its jump-if-zero, whose
/// test of the same cell enters the body again, and nothing but the program
/// counter changes.
pub proof fn lemma_loop_repeats_on_nonzero(m: Machine, eof: EOFBehaviour, r: ReadResult)
    requires
        machine_wf(m),
        m.pc < m.program.len(),
        m.program[m.pc] == Instruction::JumpUnlessZero,
        translate(m.ap, m.max_ap) matches Some(a) && m.memory[a] != 0,
        match_open(m.program, m.pc) is Some,
    ensures
        ({
            let k = match_open(m.program, m.pc)->0;
            &&& next(m, eof, r) == Ok::<Machine, ExecError>(Machine { pc: k, ..m })
            &&& next(Machine { pc: k, ..m }, eof, r) == Ok::<Machine, ExecError>(
                Machine { pc: k + 1, ..m },
            )
        }),
{
    lemma_scan_backward_found(m.program, m.pc - 1, 1);
}

/// On exhausted input, a read stores 0 under `Zero`, 255 under `MaxValue`,
/// and leaves the cell as it was under `Unchanged`.
pub proof fn lemma_end_of_input(m: Machine, eof: EOFBehaviour)
    requires
        machine_wf(m),
        m.pc < m.program.len(),
        m.program[m.pc] == Instruction::Read,
        translate(m.ap, m.max_ap) is Some,
    ensures
        ({
            let a = translate(m.ap, m.max_ap)->0;
            &&& next(m, eof, ReadResult::EndOfInput) matches Ok(m2)
            &&& m2.pc == m.pc + 1
            &&& m2.memory[a] == match eof {
                EOFBehaviour::Zero => 0u8,
                EOFBehaviour::MaxValue => 255u8,
                EOFBehaviour::Unchanged => m.memory[a],
            }
        }),
{
}

/// Buffering does not show in the output: when the engine halts, the bytes
/// it handed out before together with the last batch are exactly the
/// machine's output, which the step function defines without any buffer.
pub proof fn lemma_halt_emits_all_output(pre: EngineView, post: EngineView, r: Result<Action, ExecError>)
    requires
        pre.machine.output == pre.emitted + pre.pending,
        pre.machine.pc == pre.machine.program.len(),
        execute_post(pre, post, r),
    ensures
        r matches Ok(Action::Halted(b)) && pre.emitted + b@ == pre.machine.output,
        post.emitted == post.machine.output,
{
}

} // verus!
