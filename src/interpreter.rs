//! The execution engine: the machine state, its step function as a
//! mathematical model, and the executable engine that is proved to follow it.
//!
//! The engine performs no I/O itself. Each call of [`Interpreter::execute`]
//! runs one operation and tells the caller what the outside world has to do:
//! nothing, supply one byte of input, or write out a batch of buffered output.

use vstd::prelude::*;

use crate::instruction::Instruction;
use crate::interpreter_config::{EOFBehaviour, InterpreterConfig};

verus! {

/// Number of memory cells.
pub const MEM_SIZE: usize = 256;

/// Capacity of the output buffer: it is written out before it would reach
/// this many bytes.
pub const BUFFER_SIZE: usize = 256;

/// The byte a read stores under the `MaxValue` policy.
pub const MAX_VALUE: u8 = 255;

/// What one read from the input produced.
#[derive(Debug, Copy, Clone, PartialEq, Eq, Structural)]
pub enum ReadResult {
    Byte(u8),
    EndOfInput,
}

/// Why a run stopped before the end of its program. On any of these, the
/// bytes still in the output buffer are not handed out: only output that was
/// already emitted stands.
#[derive(Debug, Copy, Clone, PartialEq, Eq, Structural)]
pub enum ExecError {
    /// The pointer does not address a cell (or left the range of `i64`).
    OutOfRange,
    /// A jump-if-zero was taken and has no matching jump-unless-zero.
    UnmatchedOpen,
    /// A jump-unless-zero was taken and has no matching jump-if-zero.
    UnmatchedClose,
}

/// What the caller has to do after one call of [`Interpreter::execute`].
#[derive(Debug, PartialEq, Eq)]
pub enum Action {
    /// One operation ran; nothing to do.
    Continue,
    /// The operation at the program counter reads: read one byte and hand
    /// it over with [`Interpreter::provide_input`].
    NeedInput,
    /// One operation ran, and the full buffer was handed out before it:
    /// write these bytes, then flush.
    Emit(Vec<u8>),
    /// The program has ended: write these last bytes, then flush.
    Halted(Vec<u8>),
}

/// The abstract machine: the program, the program counter, the logical
/// pointer and its high-water mark, the memory, and every byte written so
/// far.
pub struct Machine {
    pub program: Seq<Instruction>,
    pub pc: int,
    pub ap: int,
    pub max_ap: int,
    pub memory: Seq<u8>,
    pub output: Seq<u8>,
}

/// The machine before the first step.
pub open spec fn initial(program: Seq<Instruction>) -> Machine {
    Machine {
        program,
        pc: 0,
        ap: 0,
        max_ap: 0,
        memory: Seq::new(MEM_SIZE as nat, |k: int| 0u8),
        output: Seq::empty(),
    }
}

/// The invariant of every reachable machine.
pub open spec fn machine_wf(m: Machine) -> bool {
    &&& 0 <= m.pc <= m.program.len()
    &&& m.memory.len() == MEM_SIZE
    &&& 0 <= m.max_ap <= i64::MAX
    &&& i64::MIN <= m.ap <= m.max_ap
}

/// The physical cell addressed by the logical pointer `ap`. Left of the
/// origin only as many cells are reachable as the pointer has travelled
/// right.
pub open spec fn translate(ap: int, max_ap: int) -> Option<int> {
    if ap >= 0 {
        if ap < MEM_SIZE {
            Some(ap)
        } else {
            None
        }
    } else if -ap < MEM_SIZE && -ap <= max_ap {
        Some(MEM_SIZE + ap)
    } else {
        None
    }
}

/// Scans forward from `i` with nesting counter `depth` for the jump-unless-zero
/// that brings the counter to zero.
pub open spec fn scan_forward(p: Seq<Instruction>, i: int, depth: int) -> Option<int>
    decreases p.len() - i,
{
    if i < 0 || i >= p.len() || depth <= 0 {
        None
    } else if p[i] == Instruction::JumpUnlessZero {
        if depth == 1 {
            Some(i)
        } else {
            scan_forward(p, i + 1, depth - 1)
        }
    } else if p[i] == Instruction::JumpIfZero {
        scan_forward(p, i + 1, depth + 1)
    } else {
        scan_forward(p, i + 1, depth)
    }
}

/// Scans backward from `i` with nesting counter `depth` for the jump-if-zero
/// that brings the counter to zero.
pub open spec fn scan_backward(p: Seq<Instruction>, i: int, depth: int) -> Option<int>
    decreases i + 1,
{
    if i < 0 || i >= p.len() || depth <= 0 {
        None
    } else if p[i] == Instruction::JumpIfZero {
        if depth == 1 {
            Some(i)
        } else {
            scan_backward(p, i - 1, depth - 1)
        }
    } else if p[i] == Instruction::JumpUnlessZero {
        scan_backward(p, i - 1, depth + 1)
    } else {
        scan_backward(p, i - 1, depth)
    }
}

/// The jump-unless-zero that matches the jump-if-zero at `pc`.
pub open spec fn match_close(p: Seq<Instruction>, pc: int) -> Option<int> {
    scan_forward(p, pc + 1, 1)
}

/// The jump-if-zero that matches the jump-unless-zero at `pc`.
pub open spec fn match_open(p: Seq<Instruction>, pc: int) -> Option<int> {
    scan_backward(p, pc - 1, 1)
}

/// The byte that stands in for exhausted input, if the policy stores one.
pub open spec fn eof_value(eof: EOFBehaviour) -> Option<u8> {
    match eof {
        EOFBehaviour::Zero => Some(0u8),
        EOFBehaviour::MaxValue => Some(255u8),
        EOFBehaviour::Unchanged => None,
    }
}

/// The byte that a read stores, if any.
pub open spec fn read_value(r: ReadResult, eof: EOFBehaviour) -> Option<u8> {
    match r {
        ReadResult::Byte(b) => Some(b),
        ReadResult::EndOfInput => eof_value(eof),
    }
}

/// The machine after a pointer move to `ap`, with high-water mark `max_ap`.
pub open spec fn moved(m: Machine, ap: int, max_ap: int) -> Result<Machine, ExecError> {
    if i64::MIN <= ap <= i64::MAX {
        Ok(Machine { pc: m.pc + 1, ap, max_ap, ..m })
    } else {
        Err(ExecError::OutOfRange)
    }
}

/// The machine with the program counter set to `pc`.
pub open spec fn jumped(m: Machine, pc: int) -> Machine {
    Machine { pc, ..m }
}

/// One step of the machine: the operation at the program counter runs; a
/// read stores what `read_value(r, eof)` gives.
pub open spec fn next(m: Machine, eof: EOFBehaviour, r: ReadResult) -> Result<Machine, ExecError> {
    let op = m.program[m.pc];
    if op == Instruction::MoveRight {
        moved(m, m.ap + 1, if m.ap + 1 > m.max_ap { m.max_ap + 1 } else { m.max_ap })
    } else if op == Instruction::MoveLeft {
        moved(m, m.ap - 1, m.max_ap)
    } else {
        match translate(m.ap, m.max_ap) {
            None => Err(ExecError::OutOfRange),
            Some(a) => {
                let cell = m.memory[a];
                if op == Instruction::Increment {
                    Ok(Machine { pc: m.pc + 1, memory: m.memory.update(a, ((cell + 1) % 256) as u8), ..m })
                } else if op == Instruction::Decrement {
                    Ok(Machine { pc: m.pc + 1, memory: m.memory.update(a, ((cell + 255) % 256) as u8), ..m })
                } else if op == Instruction::Write {
                    Ok(Machine { pc: m.pc + 1, output: m.output.push(cell), ..m })
                } else if op == Instruction::Read {
                    match read_value(r, eof) {
                        Some(v) => Ok(Machine { pc: m.pc + 1, memory: m.memory.update(a, v), ..m }),
                        None => Ok(jumped(m, m.pc + 1)),
                    }
                } else if op == Instruction::JumpIfZero {
                    if cell == 0 {
                        match match_close(m.program, m.pc) {
                            Some(j) => Ok(jumped(m, j)),
                            None => Err(ExecError::UnmatchedOpen),
                        }
                    } else {
                        Ok(jumped(m, m.pc + 1))
                    }
                } else {
                    if cell != 0 {
                        match match_open(m.program, m.pc) {
                            Some(j) => Ok(jumped(m, j)),
                            None => Err(ExecError::UnmatchedClose),
                        }
                    } else {
                        Ok(jumped(m, m.pc + 1))
                    }
                }
            }
        }
    }
}

/// The machine is at a read whose cell is addressable: the step needs a byte
/// of input.
pub open spec fn awaiting_input(m: Machine) -> bool {
    &&& 0 <= m.pc < m.program.len()
    &&& m.program[m.pc] == Instruction::Read
    &&& translate(m.ap, m.max_ap) is Some
}

/// What the next read takes from the remaining input `input`.
pub open spec fn read_from(input: Seq<u8>) -> ReadResult {
    if input.len() > 0 {
        ReadResult::Byte(input[0])
    } else {
        ReadResult::EndOfInput
    }
}

/// The input left after the step of `m` that reads from `input`.
pub open spec fn input_after(m: Machine, input: Seq<u8>) -> Seq<u8> {
    if m.program[m.pc] == Instruction::Read && translate(m.ap, m.max_ap) is Some && input.len() > 0 {
        input.drop_first()
    } else {
        input
    }
}

/// Runs at most `fuel` steps from `m`, reads taking their bytes from `input`
/// in order. It stops early at the end of the program, or on a failure, which
/// it returns beside the machine as it was before the failing step.
pub open spec fn run(m: Machine, eof: EOFBehaviour, input: Seq<u8>, fuel: nat) -> (Machine, Option<ExecError>)
    decreases fuel,
{
    if fuel == 0 || !(0 <= m.pc < m.program.len()) {
        (m, None)
    } else {
        match next(m, eof, read_from(input)) {
            Err(e) => (m, Some(e)),
            Ok(m2) => run(m2, eof, input_after(m, input), (fuel - 1) as nat),
        }
    }
}

/// What one call of `Interpreter::execute` does, from the view before the
/// call (`pre`) to the view after it (`post`), returning `r`:
/// - at the end of the program it hands out the buffered bytes and halts;
/// - at a read of an addressable cell it asks for input and changes nothing;
/// - otherwise the machine takes its step; on failure nothing changes, and a
///   write onto a buffer one byte short of capacity hands that buffer out.
pub open spec fn execute_post(pre: EngineView, post: EngineView, r: Result<Action, ExecError>) -> bool {
    let m = pre.machine;
    if m.pc == m.program.len() {
        &&& r matches Ok(Action::Halted(b)) && b@ == pre.pending
        &&& post.machine == m
        &&& post.config == pre.config
        &&& post.emitted == pre.emitted + pre.pending
        &&& post.pending == Seq::<u8>::empty()
    } else if awaiting_input(m) {
        &&& r == Ok::<Action, ExecError>(Action::NeedInput)
        &&& post == pre
    } else {
        match next(m, pre.config.eof, ReadResult::EndOfInput) {
            Err(e) => r == Err::<Action, ExecError>(e) && post == pre,
            Ok(m2) => {
                &&& post.machine == m2
                &&& post.config == pre.config
                &&& if m.program[m.pc] == Instruction::Write && pre.pending.len() == BUFFER_SIZE - 1 {
                    &&& r matches Ok(Action::Emit(b)) && b@ == pre.pending
                    &&& post.emitted == pre.emitted + pre.pending
                } else {
                    &&& r == Ok::<Action, ExecError>(Action::Continue)
                    &&& post.emitted == pre.emitted
                }
            },
        }
    }
}

/// What a caller sees of an engine: the machine, the configuration, the
/// bytes already handed out and those still buffered.
pub struct EngineView {
    pub machine: Machine,
    pub config: InterpreterConfig,
    pub emitted: Seq<u8>,
    pub pending: Seq<u8>,
}

/// The executable engine.
pub struct Interpreter {
    instructions: Vec<Instruction>,
    pc: usize,
    ap: i64,
    max_ap: i64,
    memory: Vec<u8>,
    output_buffer: Vec<u8>,
    config: InterpreterConfig,
    emitted: Ghost<Seq<u8>>,
}

impl View for Interpreter {
    type V = EngineView;

    closed spec fn view(&self) -> EngineView {
        EngineView {
            machine: Machine {
                program: self.instructions@,
                pc: self.pc as int,
                ap: self.ap as int,
                max_ap: self.max_ap as int,
                memory: self.memory@,
                output: self.emitted@ + self.output_buffer@,
            },
            config: self.config,
            emitted: self.emitted@,
            pending: self.output_buffer@,
        }
    }
}

impl Interpreter {
    /// The engine's invariant: the machine is well formed and the buffer
    /// holds fewer than `BUFFER_SIZE` bytes.
    pub closed spec fn wf(&self) -> bool {
        &&& machine_wf(self@.machine)
        &&& self.output_buffer@.len() < BUFFER_SIZE
    }

    /// Every byte the machine has written is either handed out or buffered,
    /// in order.
    pub proof fn lemma_output_split(&self)
        ensures
            self@.machine.output == self@.emitted + self@.pending,
    {
    }

    /// The pending bytes never reach the buffer's capacity.
    pub proof fn lemma_pending_bounded(&self)
        requires
            self.wf(),
        ensures
            machine_wf(self@.machine),
            self@.pending.len() < BUFFER_SIZE,
    {
    }

    /// A fresh engine at the start of `ins`, with zeroed memory and nothing
    /// written.
    pub fn new(ins: Vec<Instruction>, config: InterpreterConfig) -> (r: Interpreter)
        ensures
            r.wf(),
            r@.machine == initial(ins@),
            r@.config == config,
            r@.emitted == Seq::<u8>::empty(),
            r@.pending == Seq::<u8>::empty(),
    {
        let memory: Vec<u8> = vec![0u8; MEM_SIZE];
        let r = Interpreter {
            instructions: ins,
            pc: 0,
            ap: 0,
            max_ap: 0,
            memory,
            output_buffer: Vec::new(),
            config,
            emitted: Ghost(Seq::empty()),
        };
        assert(r@.machine.memory =~= initial(ins@).memory);
        assert(r@.machine.output =~= Seq::<u8>::empty());
        r
    }

    /// Whether the program counter has reached the end of the program.
    pub fn is_finished(&self) -> (r: bool)
        requires
            self.wf(),
        ensures
            r == (self@.machine.pc == self@.machine.program.len()),
    {
        self.pc >= self.instructions.len()
    }

    /// The physical cell addressed by the pointer.
    fn concrete_address(&self) -> (r: Result<usize, ExecError>)
        requires
            self.wf(),
        ensures
            match translate(self.ap as int, self.max_ap as int) {
                Some(a) => r == Ok::<usize, ExecError>(a as usize),
                None => r == Err::<usize, ExecError>(ExecError::OutOfRange),
            },
    {
        if self.ap < 0 {
            if self.ap <= -(MEM_SIZE as i64) {
                return Err(ExecError::OutOfRange);
            }
            let as_positive: i64 = -self.ap;
            if as_positive > self.max_ap {
                Err(ExecError::OutOfRange)
            } else {
                Ok(MEM_SIZE - as_positive as usize)
            }
        } else if self.ap >= MEM_SIZE as i64 {
            Err(ExecError::OutOfRange)
        } else {
            Ok(self.ap as usize)
        }
    }

    /// The jump-unless-zero that matches the jump-if-zero at the program
    /// counter, found by scanning forward.
    fn find_close(&self) -> (r: Option<usize>)
        requires
            self.wf(),
            self.pc < self.instructions@.len(),
        ensures
            match r {
                Some(j) => match_close(self.instructions@, self.pc as int) == Some(j as int),
                None => match_close(self.instructions@, self.pc as int) is None,
            },
            r matches Some(j) ==> self.pc < j < self.instructions@.len(),
    {
        let ghost p = self.instructions@;
        let n: usize = self.instructions.len();
        let mut i: usize = self.pc + 1;
        let mut depth: usize = 1;
        while i < self.instructions.len()
            invariant
                p == self.instructions@,
                self.pc < i <= p.len(),
                1 <= depth <= i - self.pc,
                match_close(p, self.pc as int) == scan_forward(p, i as int, depth as int),
            decreases p.len() - i,
        {
            match self.instructions[i] {
                Instruction::JumpUnlessZero => {
                    if depth == 1 {
                        return Some(i);
                    }
                    depth = depth - 1;
                },
                Instruction::JumpIfZero => {
                    depth = depth + 1;
                },
                _ => {},
            }
            i = i + 1;
        }
        None
    }

    /// The jump-if-zero that matches the jump-unless-zero at the program
    /// counter, found by scanning backward.
    fn find_open(&self) -> (r: Option<usize>)
        requires
            self.wf(),
            self.pc < self.instructions@.len(),
        ensures
            match r {
                Some(j) => match_open(self.instructions@, self.pc as int) == Some(j as int),
                None => match_open(self.instructions@, self.pc as int) is None,
            },
            r matches Some(j) ==> j < self.pc,
    {
        let ghost p = self.instructions@;
        let n: usize = self.instructions.len();
        // `i` is one past the next position to look at.
        let mut i: usize = self.pc;
        let mut depth: usize = 1;
        while i > 0
            invariant
                p == self.instructions@,
                i <= self.pc < p.len(),
                n == p.len(),
                1 <= depth <= self.pc - i + 1,
                match_open(p, self.pc as int) == scan_backward(p, i - 1, depth as int),
            decreases i,
        {
            i = i - 1;
            match self.instructions[i] {
                Instruction::JumpIfZero => {
                    if depth == 1 {
                        return Some(i);
                    }
                    depth = depth - 1;
                },
                Instruction::JumpUnlessZero => {
                    depth = depth + 1;
                },
                _ => {},
            }
        }
        None
    }

    /// Hands out the buffered bytes and empties the buffer.
    fn write_out_buffer(&mut self) -> (r: Vec<u8>)
        requires
            old(self).wf(),
        ensures
            final(self).wf(),
            r@ == old(self)@.pending,
            final(self)@.machine == old(self)@.machine,
            final(self)@.config == old(self)@.config,
            final(self)@.emitted == old(self)@.emitted + old(self)@.pending,
            final(self)@.pending == Seq::<u8>::empty(),
    {
        let mut out: Vec<u8> = Vec::new();
        std::mem::swap(&mut out, &mut self.output_buffer);
        self.emitted = Ghost(self.emitted@ + out@);
        assert(self@.machine.output =~= old(self)@.machine.output);
        out
    }

    /// Appends a byte to the output; a buffer that is one byte short of its
    /// capacity is handed out first and returned (otherwise the result is
    /// empty).
    fn write(&mut self, byte: u8) -> (r: Vec<u8>)
        requires
            old(self).wf(),
        ensures
            final(self).wf(),
            final(self)@.machine == (Machine { output: old(self)@.machine.output.push(byte), ..old(self)@.machine }),
            final(self)@.config == old(self)@.config,
            final(self)@.emitted == old(self)@.emitted + r@,
            old(self)@.pending.len() == BUFFER_SIZE - 1 ==> r@ == old(self)@.pending,
            old(self)@.pending.len() < BUFFER_SIZE - 1 ==> r@ == Seq::<u8>::empty(),
    {
        let flushed = if self.output_buffer.len() == BUFFER_SIZE - 1 {
            self.write_out_buffer()
        } else {
            Vec::new()
        };
        self.output_buffer.push(byte);
        assert(self@.machine.output =~= old(self)@.machine.output.push(byte));
        assert(self@.emitted =~= old(self)@.emitted + flushed@);
        flushed
    }

    /// The byte a read stores under this engine's end-of-input policy.
    fn read_one(&self, r: ReadResult) -> (v: Option<u8>)
        ensures
            v == read_value(r, self.config.eof),
    {
        match r {
            ReadResult::Byte(b) => Some(b),
            ReadResult::EndOfInput => match self.config.eof {
                EOFBehaviour::Zero => Some(0),
                EOFBehaviour::MaxValue => Some(MAX_VALUE),
                EOFBehaviour::Unchanged => None,
            },
        }
    }

    /// Runs the operation at the program counter and says what the caller
    /// has to do next (see `execute_post`).
    pub fn execute(&mut self) -> (r: Result<Action, ExecError>)
        requires
            old(self).wf(),
        ensures
            final(self).wf(),
            execute_post(old(self)@, final(self)@, r),
    {
        let n: usize = self.instructions.len();
        if self.pc >= n {
            let out = self.write_out_buffer();
            return Ok(Action::Halted(out));
        }
        let op = self.instructions[self.pc];
        match op {
            Instruction::MoveRight => {
                if self.ap == i64::MAX {
                    return Err(ExecError::OutOfRange);
                }
                self.ap = self.ap + 1;
                if self.ap > self.max_ap {
                    self.max_ap = self.max_ap + 1;
                }
                self.pc = self.pc + 1;
                Ok(Action::Continue)
            },
            Instruction::MoveLeft => {
                if self.ap == i64::MIN {
                    return Err(ExecError::OutOfRange);
                }
                self.ap = self.ap - 1;
                self.pc = self.pc + 1;
                Ok(Action::Continue)
            },
            Instruction::Increment => {
                let address = match self.concrete_address() {
                    Ok(a) => a,
                    Err(e) => return Err(e),
                };
                let v = self.memory[address];
                let v2: u8 = if v == 255 { 0 } else { v + 1 };
                self.memory.set(address, v2);
                self.pc = self.pc + 1;
                Ok(Action::Continue)
            },
            Instruction::Decrement => {
                let address = match self.concrete_address() {
                    Ok(a) => a,
                    Err(e) => return Err(e),
                };
                let v = self.memory[address];
                let v2: u8 = if v == 0 { 255 } else { v - 1 };
                self.memory.set(address, v2);
                self.pc = self.pc + 1;
                Ok(Action::Continue)
            },
            Instruction::Write => {
                let address = match self.concrete_address() {
                    Ok(a) => a,
                    Err(e) => return Err(e),
                };
                let byte = self.memory[address];
                let out = self.write(byte);
                self.pc = self.pc + 1;
                if out.len() > 0 {
                    Ok(Action::Emit(out))
                } else {
                    Ok(Action::Continue)
                }
            },
            Instruction::Read => {
                match self.concrete_address() {
                    Ok(_) => Ok(Action::NeedInput),
                    Err(e) => Err(e),
                }
            },
            Instruction::JumpIfZero => {
                let address = match self.concrete_address() {
                    Ok(a) => a,
                    Err(e) => return Err(e),
                };
                if self.memory[address] == 0 {
                    match self.find_close() {
                        Some(j) => {
                            self.pc = j;
                            Ok(Action::Continue)
                        },
                        None => Err(ExecError::UnmatchedOpen),
                    }
                } else {
                    self.pc = self.pc + 1;
                    Ok(Action::Continue)
                }
            },
            Instruction::JumpUnlessZero => {
                let address = match self.concrete_address() {
                    Ok(a) => a,
                    Err(e) => return Err(e),
                };
                if self.memory[address] != 0 {
                    match self.find_open() {
                        Some(j) => {
                            self.pc = j;
                            Ok(Action::Continue)
                        },
                        None => Err(ExecError::UnmatchedClose),
                    }
                } else {
                    self.pc = self.pc + 1;
                    Ok(Action::Continue)
                }
            },
        }
    }

    /// Completes the read at the program counter with what the input gave:
    /// the machine takes its step with `r`.
    pub fn provide_input(&mut self, r: ReadResult)
        requires
            old(self).wf(),
            awaiting_input(old(self)@.machine),
        ensures
            final(self).wf(),
            final(self)@.config == old(self)@.config,
            final(self)@.emitted == old(self)@.emitted,
            final(self)@.pending == old(self)@.pending,
            next(old(self)@.machine, old(self)@.config.eof, r) == Ok::<Machine, ExecError>(final(self)@.machine),
    {
        let n: usize = self.instructions.len();
        let address = match self.concrete_address() {
            Ok(a) => a,
            Err(_) => return,
        };
        match self.read_one(r) {
            Some(v) => self.memory.set(address, v),
            None => {},
        }
        self.pc = self.pc + 1;
    }
}

} // verus!
