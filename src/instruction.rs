//! The eight operations and their one-character symbols.

use vstd::prelude::*;

verus! {

/// One operation of a program.
#[derive(Debug, Copy, Clone, PartialEq, Eq, Structural)]
pub enum Instruction {
    MoveRight,
    MoveLeft,
    Increment,
    Decrement,
    Write,
    Read,
    JumpIfZero,
    JumpUnlessZero,
}

/// The canonical symbol of an operation.
pub open spec fn symbol_of(i: Instruction) -> char {
    match i {
        Instruction::MoveRight => '>',
        Instruction::MoveLeft => '<',
        Instruction::Increment => '+',
        Instruction::Decrement => '-',
        Instruction::Write => '.',
        Instruction::Read => ',',
        Instruction::JumpIfZero => '[',
        Instruction::JumpUnlessZero => ']',
    }
}

/// The operation whose symbol is `c`, if any.
pub open spec fn instruction_of_char(c: char) -> Option<Instruction> {
    if c == '>' {
        Some(Instruction::MoveRight)
    } else if c == '<' {
        Some(Instruction::MoveLeft)
    } else if c == '+' {
        Some(Instruction::Increment)
    } else if c == '-' {
        Some(Instruction::Decrement)
    } else if c == '.' {
        Some(Instruction::Write)
    } else if c == ',' {
        Some(Instruction::Read)
    } else if c == '[' {
        Some(Instruction::JumpIfZero)
    } else if c == ']' {
        Some(Instruction::JumpUnlessZero)
    } else {
        None
    }
}

/// The operation denoted by a textual unit: a unit is an operation only when
/// it is exactly one of the eight symbols.
pub open spec fn instruction_of_unit(s: Seq<char>) -> Option<Instruction> {
    if s.len() == 1 {
        instruction_of_char(s[0])
    } else {
        None
    }
}

/// The symbol table is a bijection between the eight operations and their
/// eight symbols: every operation reads back from its symbol, and a symbol
/// that denotes an operation is that operation's symbol.
pub proof fn lemma_symbol_table_bijective(i: Instruction, c: char)
    ensures
        instruction_of_char(symbol_of(i)) == Some(i),
        instruction_of_char(c) == Some(i) ==> symbol_of(i) == c,
{
}

impl Instruction {
    /// The one-character symbol of this operation.
    pub fn symbol(&self) -> (r: char)
        ensures
            r == symbol_of(*self),
    {
        match self {
            Instruction::MoveRight => '>',
            Instruction::MoveLeft => '<',
            Instruction::Increment => '+',
            Instruction::Decrement => '-',
            Instruction::Write => '.',
            Instruction::Read => ',',
            Instruction::JumpIfZero => '[',
            Instruction::JumpUnlessZero => ']',
        }
    }
}

/// Looks a textual unit up in the symbol table; `None` when it is not one of
/// the eight symbols.
pub fn instruction_of_str(input: &str) -> (r: Option<Instruction>)
    ensures
        r == instruction_of_unit(input@),
{
    if input.unicode_len() != 1 {
        return None;
    }
    let c = input.get_char(0);
    match c {
        '>' => Some(Instruction::MoveRight),
        '<' => Some(Instruction::MoveLeft),
        '+' => Some(Instruction::Increment),
        '-' => Some(Instruction::Decrement),
        '.' => Some(Instruction::Write),
        ',' => Some(Instruction::Read),
        '[' => Some(Instruction::JumpIfZero),
        ']' => Some(Instruction::JumpUnlessZero),
        _ => None,
    }
}

} // verus!
