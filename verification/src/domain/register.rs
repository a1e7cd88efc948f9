//! Looking a register up by its (case-insensitive) name.

use crate::domain::enums::{ShortReg, WideReg};
use crate::strutil::{spec_lower, str_eq, to_lower};
use vstd::prelude::*;

verus! {

/// Mathematical view of a `ParsedRegister`.
pub enum RegV {
    WideReg(WideReg),
    ShortReg(ShortReg),
    Error(Seq<char>),
}

pub enum ParsedRegister {
    WideReg(WideReg),
    ShortReg(ShortReg),
    Error(String),
}

impl View for ParsedRegister {
    type V = RegV;

    open spec fn view(&self) -> RegV {
        match self {
            ParsedRegister::WideReg(wr) => RegV::WideReg(*wr),
            ParsedRegister::ShortReg(sr) => RegV::ShortReg(*sr),
            ParsedRegister::Error(s) => RegV::Error(s@),
        }
    }
}

/// The register a name denotes, after ASCII lower-casing; any other name is
/// carried through as an error.
pub open spec fn spec_parse_register(s: Seq<char>) -> RegV {
    let l = spec_lower(s);
    if l == "a"@ {
        RegV::ShortReg(ShortReg::A)
    } else if l == "b"@ {
        RegV::ShortReg(ShortReg::B)
    } else if l == "c"@ {
        RegV::ShortReg(ShortReg::C)
    } else if l == "d"@ {
        RegV::ShortReg(ShortReg::D)
    } else if l == "e"@ {
        RegV::ShortReg(ShortReg::E)
    } else if l == "h"@ {
        RegV::ShortReg(ShortReg::H)
    } else if l == "l"@ {
        RegV::ShortReg(ShortReg::L)
    } else if l == "i"@ {
        RegV::ShortReg(ShortReg::I)
    } else if l == "r"@ {
        RegV::ShortReg(ShortReg::R)
    } else if l == "af"@ {
        RegV::WideReg(WideReg::AF)
    } else if l == "afp"@ {
        RegV::WideReg(WideReg::AFp)
    } else if l == "bc"@ {
        RegV::WideReg(WideReg::BC)
    } else if l == "de"@ {
        RegV::WideReg(WideReg::DE)
    } else if l == "hl"@ {
        RegV::WideReg(WideReg::HL)
    } else if l == "sp"@ {
        RegV::WideReg(WideReg::SP)
    } else if l == "ix"@ {
        RegV::WideReg(WideReg::IX)
    } else if l == "iy"@ {
        RegV::WideReg(WideReg::IY)
    } else {
        RegV::Error(s)
    }
}

pub fn parse_register(identifier: &str) -> (r: ParsedRegister)
    ensures
        r@ == spec_parse_register(identifier@),
{
    let low = to_lower(identifier);
    let l = low.as_str();
    if str_eq(l, "a") {
        ParsedRegister::ShortReg(ShortReg::A)
    } else if str_eq(l, "b") {
        ParsedRegister::ShortReg(ShortReg::B)
    } else if str_eq(l, "c") {
        ParsedRegister::ShortReg(ShortReg::C)
    } else if str_eq(l, "d") {
        ParsedRegister::ShortReg(ShortReg::D)
    } else if str_eq(l, "e") {
        ParsedRegister::ShortReg(ShortReg::E)
    } else if str_eq(l, "h") {
        ParsedRegister::ShortReg(ShortReg::H)
    } else if str_eq(l, "l") {
        ParsedRegister::ShortReg(ShortReg::L)
    } else if str_eq(l, "i") {
        ParsedRegister::ShortReg(ShortReg::I)
    } else if str_eq(l, "r") {
        ParsedRegister::ShortReg(ShortReg::R)
    } else if str_eq(l, "af") {
        ParsedRegister::WideReg(WideReg::AF)
    } else if str_eq(l, "afp") {
        ParsedRegister::WideReg(WideReg::AFp)
    } else if str_eq(l, "bc") {
        ParsedRegister::WideReg(WideReg::BC)
    } else if str_eq(l, "de") {
        ParsedRegister::WideReg(WideReg::DE)
    } else if str_eq(l, "hl") {
        ParsedRegister::WideReg(WideReg::HL)
    } else if str_eq(l, "sp") {
        ParsedRegister::WideReg(WideReg::SP)
    } else if str_eq(l, "ix") {
        ParsedRegister::WideReg(WideReg::IX)
    } else if str_eq(l, "iy") {
        ParsedRegister::WideReg(WideReg::IY)
    } else {
        ParsedRegister::Error(String::from_str(identifier))
    }
}

} // verus!
