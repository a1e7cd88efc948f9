//! Errors reported by the tokenizer and the parser.

use crate::parser::token::{TokV, TokenValue};
use vstd::prelude::*;

verus! {

/// Mathematical view of a `ParseError`.
pub enum PErrV {
    UnexpectedChar(char, int),
    UnexpectedEOF(int),
    UnexpectedToken { expected: TokV, actual: TokV, line: int, file: int, ch: int },
}

#[derive(Debug)]
pub struct UnexpectedToken {
    pub expected: TokenValue,
    pub actual: TokenValue,
    pub line: usize,
    pub file_id: usize,
    pub ch: usize,
}

impl View for UnexpectedToken {
    type V = PErrV;

    open spec fn view(&self) -> PErrV {
        PErrV::UnexpectedToken {
            expected: self.expected@,
            actual: self.actual@,
            line: self.line as int,
            file: self.file_id as int,
            ch: self.ch as int,
        }
    }
}

impl PartialEq for UnexpectedToken {
    fn eq(&self, other: &UnexpectedToken) -> (r: bool)
        ensures
            r == (self@ == other@),
    {
        self.expected == other.expected && self.actual == other.actual && self.line == other.line
            && self.file_id == other.file_id && self.ch == other.ch
    }
}

impl vstd::std_specs::cmp::PartialEqSpecImpl for UnexpectedToken {
    open spec fn obeys_eq_spec() -> bool {
        true
    }

    open spec fn eq_spec(&self, other: &UnexpectedToken) -> bool {
        self@ == other@
    }
}

impl Eq for UnexpectedToken {

}

#[derive(Debug)]
pub enum ParseError {
    UnexpectedChar(char, usize),
    UnexpectedEOF(usize),
    UnexpectedToken(UnexpectedToken),
}

impl View for ParseError {
    type V = PErrV;

    open spec fn view(&self) -> PErrV {
        match self {
            ParseError::UnexpectedChar(c, line) => PErrV::UnexpectedChar(*c, *line as int),
            ParseError::UnexpectedEOF(line) => PErrV::UnexpectedEOF(*line as int),
            ParseError::UnexpectedToken(u) => u@,
        }
    }
}

impl PartialEq for ParseError {
    fn eq(&self, other: &ParseError) -> (r: bool)
        ensures
            r == (self@ == other@),
    {
        match (self, other) {
            (ParseError::UnexpectedChar(c1, l1), ParseError::UnexpectedChar(c2, l2)) => c1 == c2
                && l1 == l2,
            (ParseError::UnexpectedEOF(l1), ParseError::UnexpectedEOF(l2)) => l1 == l2,
            (ParseError::UnexpectedToken(u1), ParseError::UnexpectedToken(u2)) => u1 == u2,
            _ => false,
        }
    }
}

impl vstd::std_specs::cmp::PartialEqSpecImpl for ParseError {
    open spec fn obeys_eq_spec() -> bool {
        true
    }

    open spec fn eq_spec(&self, other: &ParseError) -> bool {
        self@ == other@
    }
}

impl Eq for ParseError {

}

} // verus!
