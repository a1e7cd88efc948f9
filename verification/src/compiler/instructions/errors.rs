//! The error taxonomy shared by the encoder, the compiler driver and the
//! fix-up pass.

use crate::domain::{ArgV, Argument, InstrV, Instruction};
use crate::parser::errors::PErrV;
use crate::parser::ParseError;
use crate::compiler::instructions::{PhV, Placeholder};
use crate::strutil::str_eq;
use vstd::prelude::*;

verus! {

/// Mathematical view of a `CompileErrorType`.
pub enum CErrV {
    ParseError(PErrV),
    ExpectedShortArgument(int, u16),
    ExpectedBitArgument(int, u16),
    LabelNotFound(Seq<char>, int),
    UnexpectedArgument(ArgV),
    ConstantNotFound(Seq<char>),
    UnableToCalculateRelativeJump(PhV),
    UnimplementedInstruction,
    MacroNotFound(Seq<char>),
    MacroArgumentMissing(Seq<char>),
    UnknownDirective(Seq<char>),
    OutputOverflow(int),
    StepLimit,
    UndefinedPlaceholder(PhV),
}

#[derive(Debug)]
pub enum CompileErrorType {
    ParseError(ParseError),
    ExpectedShortArgument(usize, u16),
    ExpectedBitArgument(usize, u16),
    LabelNotFound(String, usize),
    UnexpectedArgument(Argument),
    ConstantNotFound(String),
    UnableToCalculateRelativeJump(Placeholder),
    /// The mnemonic or its operand shapes are not in the encoding tables.
    UnimplementedInstruction,
    /// An `#exec` directive names a macro that was never defined.
    MacroNotFound(String),
    /// A macro body uses a parameter for which the expansion passed no
    /// argument.
    MacroArgumentMissing(String),
    /// A directive other than the macro directives.
    UnknownDirective(String),
    /// The driver's step budget ran out; guards against a macro that
    /// expands itself without end.
    StepLimit,
    /// Emission or fix-up would touch a position at or past the end of the
    /// fixed output buffer.
    OutputOverflow(usize),
    /// A placeholder reached the fix-up pass without a concrete kind.
    UndefinedPlaceholder(Placeholder),
}

impl View for CompileErrorType {
    type V = CErrV;

    open spec fn view(&self) -> CErrV {
        match self {
            CompileErrorType::ParseError(e) => CErrV::ParseError(e@),
            CompileErrorType::ExpectedShortArgument(p, v) => CErrV::ExpectedShortArgument(
                *p as int,
                *v,
            ),
            CompileErrorType::ExpectedBitArgument(p, v) => CErrV::ExpectedBitArgument(
                *p as int,
                *v,
            ),
            CompileErrorType::LabelNotFound(n, l) => CErrV::LabelNotFound(n@, *l as int),
            CompileErrorType::UnexpectedArgument(a) => CErrV::UnexpectedArgument(a@),
            CompileErrorType::ConstantNotFound(n) => CErrV::ConstantNotFound(n@),
            CompileErrorType::UnableToCalculateRelativeJump(ph) => {
                CErrV::UnableToCalculateRelativeJump(ph@)
            },
            CompileErrorType::UnimplementedInstruction => CErrV::UnimplementedInstruction,
            CompileErrorType::MacroNotFound(n) => CErrV::MacroNotFound(n@),
            CompileErrorType::MacroArgumentMissing(n) => CErrV::MacroArgumentMissing(n@),
            CompileErrorType::UnknownDirective(n) => CErrV::UnknownDirective(n@),
            CompileErrorType::OutputOverflow(i) => CErrV::OutputOverflow(*i as int),
            CompileErrorType::StepLimit => CErrV::StepLimit,
            CompileErrorType::UndefinedPlaceholder(ph) => CErrV::UndefinedPlaceholder(ph@),
        }
    }
}

impl PartialEq for CompileErrorType {
    fn eq(&self, other: &CompileErrorType) -> (r: bool)
        ensures
            r == (self@ == other@),
    {
        match (self, other) {
            (CompileErrorType::ParseError(a), CompileErrorType::ParseError(b)) => a == b,
            (
                CompileErrorType::ExpectedShortArgument(p1, v1),
                CompileErrorType::ExpectedShortArgument(p2, v2),
            ) => p1 == p2 && v1 == v2,
            (
                CompileErrorType::ExpectedBitArgument(p1, v1),
                CompileErrorType::ExpectedBitArgument(p2, v2),
            ) => p1 == p2 && v1 == v2,
            (
                CompileErrorType::LabelNotFound(n1, l1),
                CompileErrorType::LabelNotFound(n2, l2),
            ) => str_eq(n1.as_str(), n2.as_str()) && l1 == l2,
            (
                CompileErrorType::UnexpectedArgument(a),
                CompileErrorType::UnexpectedArgument(b),
            ) => a == b,
            (
                CompileErrorType::ConstantNotFound(n1),
                CompileErrorType::ConstantNotFound(n2),
            ) => str_eq(n1.as_str(), n2.as_str()),
            (
                CompileErrorType::UnableToCalculateRelativeJump(p1),
                CompileErrorType::UnableToCalculateRelativeJump(p2),
            ) => p1 == p2,
            (
                CompileErrorType::UnimplementedInstruction,
                CompileErrorType::UnimplementedInstruction,
            ) => true,
            (CompileErrorType::MacroNotFound(a), CompileErrorType::MacroNotFound(b)) => str_eq(
                a.as_str(),
                b.as_str(),
            ),
            (
                CompileErrorType::MacroArgumentMissing(a),
                CompileErrorType::MacroArgumentMissing(b),
            ) => str_eq(a.as_str(), b.as_str()),
            (CompileErrorType::UnknownDirective(a), CompileErrorType::UnknownDirective(b)) => {
                str_eq(a.as_str(), b.as_str())
            },
            (CompileErrorType::OutputOverflow(a), CompileErrorType::OutputOverflow(b)) => a == b,
            (CompileErrorType::StepLimit, CompileErrorType::StepLimit) => true,
            (
                CompileErrorType::UndefinedPlaceholder(p1),
                CompileErrorType::UndefinedPlaceholder(p2),
            ) => p1 == p2,
            _ => false,
        }
    }
}

impl vstd::std_specs::cmp::PartialEqSpecImpl for CompileErrorType {
    open spec fn obeys_eq_spec() -> bool {
        true
    }

    open spec fn eq_spec(&self, other: &CompileErrorType) -> bool {
        self@ == other@
    }
}

impl Eq for CompileErrorType {

}

/// Mathematical view of a `CompileError`.
pub struct CEV {
    pub error: CErrV,
    pub instr: Option<InstrV>,
}

#[derive(Debug)]
pub struct CompileError {
    pub error: CompileErrorType,
    pub instr: Option<Instruction>,
}

impl View for CompileError {
    type V = CEV;

    open spec fn view(&self) -> CEV {
        CEV {
            error: self.error@,
            instr: match &self.instr {
                Some(i) => Some(i@),
                None => None,
            },
        }
    }
}

impl PartialEq for CompileError {
    fn eq(&self, other: &CompileError) -> (r: bool)
        ensures
            r == (self@ == other@),
    {
        let errs = self.error == other.error;
        match (&self.instr, &other.instr) {
            (Some(a), Some(b)) => errs && a == b,
            (None, None) => errs,
            _ => false,
        }
    }
}

impl vstd::std_specs::cmp::PartialEqSpecImpl for CompileError {
    open spec fn obeys_eq_spec() -> bool {
        true
    }

    open spec fn eq_spec(&self, other: &CompileError) -> bool {
        self@ == other@
    }
}

impl Eq for CompileError {

}

/// The fault for a mnemonic or operand shape outside the encoding tables,
/// with the instruction attached.
pub open spec fn spec_unimplemented_instr(i: InstrV) -> CEV {
    CEV { error: CErrV::UnimplementedInstruction, instr: Some(i) }
}

pub fn unimplemented_instr(instr: &Instruction) -> (r: CompileError)
    ensures
        r@ == spec_unimplemented_instr(instr@),
{
    CompileError { error: CompileErrorType::UnimplementedInstruction, instr: Some(instr.clone()) }
}

/// The fault for an operand that the mnemonic does not accept.
pub open spec fn spec_unexpected_arguments(i: InstrV, a: ArgV) -> CEV {
    CEV { error: CErrV::UnexpectedArgument(a), instr: Some(i) }
}

pub fn unexpected_arguments(inst: &Instruction, arg: &Argument) -> (r: CompileError)
    ensures
        r@ == spec_unexpected_arguments(inst@, arg@),
{
    CompileError {
        error: CompileErrorType::UnexpectedArgument(arg.clone()),
        instr: Some(inst.clone()),
    }
}

/// The fault for a placeholder whose label has no definition.
pub open spec fn spec_label_not_found(ph: PhV) -> CEV {
    CEV { error: CErrV::LabelNotFound(ph.label, ph.line), instr: None }
}

pub fn label_not_found(ph: &Placeholder) -> (r: CompileError)
    ensures
        r@ == spec_label_not_found(ph@),
{
    CompileError {
        error: CompileErrorType::LabelNotFound(ph.label.clone(), ph.line),
        instr: None,
    }
}

/// The 8-bit guard: a fault naming the first of the two values that does
/// not fit in a byte, or nothing when both fit.
pub open spec fn spec_guard_short(val1: u16, val2: u16) -> Option<CEV> {
    if val1 >= 256 {
        Some(CEV { error: CErrV::ExpectedShortArgument(0, val1), instr: None })
    } else if val2 >= 256 {
        Some(CEV { error: CErrV::ExpectedShortArgument(1, val2), instr: None })
    } else {
        None
    }
}

pub fn guard_values_short(val1: u16, val2: u16) -> (r: Option<CompileError>)
    ensures
        match r {
            Some(e) => spec_guard_short(val1, val2) == Some(e@),
            None => spec_guard_short(val1, val2) is None,
        },
{
    if val1 >= 256 {
        Some(
            CompileError {
                error: CompileErrorType::ExpectedShortArgument(0, val1),
                instr: None,
            },
        )
    } else if val2 >= 256 {
        Some(
            CompileError {
                error: CompileErrorType::ExpectedShortArgument(1, val2),
                instr: None,
            },
        )
    } else {
        None
    }
}

/// The 3-bit guard for `bit`/`set`/`res`: the bit number must be below 8 and
/// must not be a placeholder.
pub open spec fn spec_guard_3bit(val1: u16, p: int) -> Option<CEV> {
    if val1 >= 8 {
        Some(CEV { error: CErrV::ExpectedBitArgument(0, val1), instr: None })
    } else if p >= 0 {
        Some(CEV { error: CErrV::ExpectedBitArgument(0, val1), instr: None })
    } else {
        None
    }
}

pub fn guard_values_3bit(val1: u16, p: isize) -> (r: Option<CompileError>)
    ensures
        match r {
            Some(e) => spec_guard_3bit(val1, p as int) == Some(e@),
            None => spec_guard_3bit(val1, p as int) is None,
        },
{
    if val1 >= 8 || p >= 0 {
        Some(
            CompileError { error: CompileErrorType::ExpectedBitArgument(0, val1), instr: None },
        )
    } else {
        None
    }
}

} // verus!
