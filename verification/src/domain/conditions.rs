//! Condition mnemonics, and which instructions accept one.

use crate::domain::enums::Condition;
use crate::strutil::{spec_lower, str_eq, to_lower};
use vstd::prelude::*;

verus! {

/// The condition a name denotes, after ASCII lower-casing.
pub open spec fn spec_parse_condition(s: Seq<char>) -> Option<Condition> {
    let l = spec_lower(s);
    if l == "nz"@ {
        Some(Condition::NZ)
    } else if l == "z"@ {
        Some(Condition::Z)
    } else if l == "nc"@ {
        Some(Condition::NC)
    } else if l == "c"@ {
        Some(Condition::C)
    } else if l == "po"@ {
        Some(Condition::PO)
    } else if l == "pe"@ {
        Some(Condition::PE)
    } else if l == "p"@ {
        Some(Condition::P)
    } else if l == "m"@ {
        Some(Condition::M)
    } else {
        None
    }
}

pub fn parse_condition(identifier: &str) -> (r: Option<Condition>)
    ensures
        r == spec_parse_condition(identifier@),
{
    let low = to_lower(identifier);
    let l = low.as_str();
    if str_eq(l, "nz") {
        Some(Condition::NZ)
    } else if str_eq(l, "z") {
        Some(Condition::Z)
    } else if str_eq(l, "nc") {
        Some(Condition::NC)
    } else if str_eq(l, "c") {
        Some(Condition::C)
    } else if str_eq(l, "po") {
        Some(Condition::PO)
    } else if str_eq(l, "pe") {
        Some(Condition::PE)
    } else if str_eq(l, "p") {
        Some(Condition::P)
    } else if str_eq(l, "m") {
        Some(Condition::M)
    } else {
        None
    }
}

/// Only `call`, `jp`, `jr` and `ret` take a condition operand.
pub open spec fn spec_condition_allowed(instr: Seq<char>) -> bool {
    instr == "call"@ || instr == "jp"@ || instr == "jr"@ || instr == "ret"@
}

pub fn condition_allowed(instr: &str) -> (r: bool)
    ensures
        r == spec_condition_allowed(instr@),
{
    str_eq(instr, "call") || str_eq(instr, "jp") || str_eq(instr, "jr") || str_eq(instr, "ret")
}

} // verus!
