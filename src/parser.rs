//! Turning source text into a program: the text is split into grapheme
//! clusters, each cluster is looked up in the symbol table, and clusters that
//! are not a symbol are dropped.

use unicode_segmentation::UnicodeSegmentation;
use vstd::prelude::*;

use crate::instruction::{instruction_of_str, instruction_of_unit, Instruction};

verus! {

/// The extended grapheme clusters of a text, in order.
pub uninterp spec fn extended_graphemes_of(s: Seq<char>) -> Seq<Seq<char>>;

/// The views of a sequence of string slices.
pub open spec fn views_of(units: Seq<&str>) -> Seq<Seq<char>> {
    units.map_values(|u: &str| u@)
}

/// The operations denoted by a sequence of textual units, in order; units
/// that denote no operation are dropped.
pub open spec fn instructions_of_units(units: Seq<Seq<char>>) -> Seq<Instruction>
    decreases units.len(),
{
    if units.len() == 0 {
        Seq::empty()
    } else {
        let rest = instructions_of_units(units.drop_last());
        match instruction_of_unit(units.last()) {
            Some(i) => rest.push(i),
            None => rest,
        }
    }
}

/// The program denoted by source text.
pub open spec fn program_of(text: Seq<char>) -> Seq<Instruction> {
    instructions_of_units(extended_graphemes_of(text))
}

/// Relies on `UnicodeSegmentation::graphemes` with extended clusters: the
/// clusters depend on the text alone.
#[verifier::external_body]
fn extended_graphemes(input: &str) -> (r: Vec<&str>)
    ensures
        views_of(r@) == extended_graphemes_of(input@),
{
    UnicodeSegmentation::graphemes(input, true).collect()
}

/// The program denoted by a sequence of grapheme clusters.
pub fn parse_graphemes(units: &Vec<&str>) -> (r: Vec<Instruction>)
    ensures
        r@ == instructions_of_units(views_of(units@)),
{
    let mut r: Vec<Instruction> = Vec::new();
    let mut k: usize = 0;
    while k < units.len()
        invariant
            k <= units@.len(),
            r@ == instructions_of_units(views_of(units@.subrange(0, k as int))),
        decreases units@.len() - k,
    {
        let ghost before = units@.subrange(0, k as int);
        let ghost after = units@.subrange(0, k as int + 1);
        assert(views_of(after).drop_last() =~= views_of(before));
        assert(views_of(after).last() == units@[k as int]@);
        match instruction_of_str(units[k]) {
            Some(i) => r.push(i),
            None => {},
        }
        k = k + 1;
    }
    assert(units@.subrange(0, k as int) =~= units@);
    r
}

/// Parses source text into a program. Parsing never fails: text that is not
/// an operation symbol is commentary.
pub fn parse(input: &str) -> (r: Result<Vec<Instruction>, &'static str>)
    ensures
        r matches Ok(p) && p@ == program_of(input@),
{
    let units = extended_graphemes(input);
    Ok(parse_graphemes(&units))
}

} // verus!
