//! The instruction/argument algebra the encoder consumes, and the items the
//! parser yields.

pub mod conditions;
pub mod enums;
pub mod register;

use crate::domain::enums::{Condition, ShortReg, WideReg};
use crate::parser::token::{Token, TokenVal, toks_view};
use crate::strutil::str_eq;
use vstd::prelude::*;

verus! {

/// Mathematical view of an `Argument`: label and constant names are
/// sequences of characters.
pub enum ArgV {
    Empty,
    ShortReg(ShortReg),
    WideReg(WideReg),
    Value(u16),
    LabelValue(Seq<char>),
    DirectAddress(u16),
    LabelAddress(Seq<char>),
    ShortRegAddress(ShortReg),
    WideRegAddress(WideReg),
    RegOffsetAddress(WideReg, u16),
    Condition(Condition),
    Constant(Seq<char>),
}

#[derive(Debug)]
pub enum Argument {
    Empty,
    ShortReg(ShortReg),
    WideReg(WideReg),
    Value(u16),
    LabelValue(String),
    DirectAddress(u16),
    LabelAddress(String),
    ShortRegAddress(ShortReg),
    WideRegAddress(WideReg),
    RegOffsetAddress(WideReg, u16),
    Condition(Condition),
    Constant(String),
}

impl View for Argument {
    type V = ArgV;

    open spec fn view(&self) -> ArgV {
        match self {
            Argument::Empty => ArgV::Empty,
            Argument::ShortReg(sr) => ArgV::ShortReg(*sr),
            Argument::WideReg(wr) => ArgV::WideReg(*wr),
            Argument::Value(v) => ArgV::Value(*v),
            Argument::LabelValue(s) => ArgV::LabelValue(s@),
            Argument::DirectAddress(v) => ArgV::DirectAddress(*v),
            Argument::LabelAddress(s) => ArgV::LabelAddress(s@),
            Argument::ShortRegAddress(sr) => ArgV::ShortRegAddress(*sr),
            Argument::WideRegAddress(wr) => ArgV::WideRegAddress(*wr),
            Argument::RegOffsetAddress(wr, v) => ArgV::RegOffsetAddress(*wr, *v),
            Argument::Condition(c) => ArgV::Condition(*c),
            Argument::Constant(s) => ArgV::Constant(s@),
        }
    }
}

impl Clone for Argument {
    fn clone(&self) -> (r: Argument)
        ensures
            r@ == self@,
    {
        match self {
            Argument::Empty => Argument::Empty,
            Argument::ShortReg(sr) => Argument::ShortReg(*sr),
            Argument::WideReg(wr) => Argument::WideReg(*wr),
            Argument::Value(v) => Argument::Value(*v),
            Argument::LabelValue(s) => Argument::LabelValue(s.clone()),
            Argument::DirectAddress(v) => Argument::DirectAddress(*v),
            Argument::LabelAddress(s) => Argument::LabelAddress(s.clone()),
            Argument::ShortRegAddress(sr) => Argument::ShortRegAddress(*sr),
            Argument::WideRegAddress(wr) => Argument::WideRegAddress(*wr),
            Argument::RegOffsetAddress(wr, v) => Argument::RegOffsetAddress(*wr, *v),
            Argument::Condition(c) => Argument::Condition(*c),
            Argument::Constant(s) => Argument::Constant(s.clone()),
        }
    }
}

impl PartialEq for Argument {
    fn eq(&self, other: &Argument) -> (r: bool)
        ensures
            r == (self@ == other@),
    {
        match (self, other) {
            (Argument::Empty, Argument::Empty) => true,
            (Argument::ShortReg(a), Argument::ShortReg(b)) => a == b,
            (Argument::WideReg(a), Argument::WideReg(b)) => a == b,
            (Argument::Value(a), Argument::Value(b)) => a == b,
            (Argument::LabelValue(a), Argument::LabelValue(b)) => str_eq(a.as_str(), b.as_str()),
            (Argument::DirectAddress(a), Argument::DirectAddress(b)) => a == b,
            (Argument::LabelAddress(a), Argument::LabelAddress(b)) => str_eq(
                a.as_str(),
                b.as_str(),
            ),
            (Argument::ShortRegAddress(a), Argument::ShortRegAddress(b)) => a == b,
            (Argument::WideRegAddress(a), Argument::WideRegAddress(b)) => a == b,
            (Argument::RegOffsetAddress(a, x), Argument::RegOffsetAddress(b, y)) => a == b && x
                == y,
            (Argument::Condition(a), Argument::Condition(b)) => a == b,
            (Argument::Constant(a), Argument::Constant(b)) => str_eq(a.as_str(), b.as_str()),
            _ => false,
        }
    }
}

impl vstd::std_specs::cmp::PartialEqSpecImpl for Argument {
    open spec fn obeys_eq_spec() -> bool {
        true
    }

    open spec fn eq_spec(&self, other: &Argument) -> bool {
        self@ == other@
    }
}

impl Eq for Argument {

}

/// Mathematical view of an `Instruction`.
pub struct InstrV {
    pub opcode: Seq<char>,
    pub arg0: ArgV,
    pub arg1: ArgV,
    pub line: int,
    pub file: int,
}

#[derive(Debug)]
pub struct Instruction {
    pub opcode: String,
    pub arg0: Argument,
    pub arg1: Argument,
    pub line: usize,
    pub file_id: usize,
}

impl View for Instruction {
    type V = InstrV;

    open spec fn view(&self) -> InstrV {
        InstrV {
            opcode: self.opcode@,
            arg0: self.arg0@,
            arg1: self.arg1@,
            line: self.line as int,
            file: self.file_id as int,
        }
    }
}

impl Clone for Instruction {
    fn clone(&self) -> (r: Instruction)
        ensures
            r@ == self@,
    {
        Instruction {
            opcode: self.opcode.clone(),
            arg0: self.arg0.clone(),
            arg1: self.arg1.clone(),
            line: self.line,
            file_id: self.file_id,
        }
    }
}

impl PartialEq for Instruction {
    fn eq(&self, other: &Instruction) -> (r: bool)
        ensures
            r == (self@ == other@),
    {
        str_eq(self.opcode.as_str(), other.opcode.as_str()) && self.arg0 == other.arg0
            && self.arg1 == other.arg1 && self.line == other.line && self.file_id == other.file_id
    }
}

impl vstd::std_specs::cmp::PartialEqSpecImpl for Instruction {
    open spec fn obeys_eq_spec() -> bool {
        true
    }

    open spec fn eq_spec(&self, other: &Instruction) -> bool {
        self@ == other@
    }
}

impl Eq for Instruction {

}

/// Mathematical view of a `Label`.
pub struct LabelV {
    pub name: Seq<char>,
    pub line: int,
    pub file: int,
}

#[derive(Debug)]
pub struct Label {
    pub name: String,
    pub line: usize,
    pub file_id: usize,
}

impl View for Label {
    type V = LabelV;

    open spec fn view(&self) -> LabelV {
        LabelV { name: self.name@, line: self.line as int, file: self.file_id as int }
    }
}

impl PartialEq for Label {
    fn eq(&self, other: &Label) -> (r: bool)
        ensures
            r == (self@ == other@),
    {
        str_eq(self.name.as_str(), other.name.as_str()) && self.line == other.line && self.file_id
            == other.file_id
    }
}

impl vstd::std_specs::cmp::PartialEqSpecImpl for Label {
    open spec fn obeys_eq_spec() -> bool {
        true
    }

    open spec fn eq_spec(&self, other: &Label) -> bool {
        self@ == other@
    }
}

impl Eq for Label {

}

/// Mathematical view of a `Constant`.
pub struct ConstantV {
    pub name: Seq<char>,
    pub value: u16,
}

#[derive(Debug)]
pub struct Constant {
    pub name: String,
    pub value: u16,
}

impl View for Constant {
    type V = ConstantV;

    open spec fn view(&self) -> ConstantV {
        ConstantV { name: self.name@, value: self.value }
    }
}

impl PartialEq for Constant {
    fn eq(&self, other: &Constant) -> (r: bool)
        ensures
            r == (self@ == other@),
    {
        str_eq(self.name.as_str(), other.name.as_str()) && self.value == other.value
    }
}

impl vstd::std_specs::cmp::PartialEqSpecImpl for Constant {
    open spec fn obeys_eq_spec() -> bool {
        true
    }

    open spec fn eq_spec(&self, other: &Constant) -> bool {
        self@ == other@
    }
}

impl Eq for Constant {

}

/// Mathematical view of a `ParseItem`.
pub enum ParseItemV {
    Label(LabelV),
    Instruction(InstrV),
    Data(Seq<u8>),
    Constant(ConstantV),
    Directive(Seq<char>, Seq<TokenVal>),
}

#[derive(Debug)]
pub enum ParseItem {
    Label(Label),
    Instruction(Instruction),
    Data(Vec<u8>),
    Constant(Constant),
    Directive(String, Vec<Token>),
}

impl View for ParseItem {
    type V = ParseItemV;

    open spec fn view(&self) -> ParseItemV {
        match self {
            ParseItem::Label(l) => ParseItemV::Label(l@),
            ParseItem::Instruction(i) => ParseItemV::Instruction(i@),
            ParseItem::Data(d) => ParseItemV::Data(d@),
            ParseItem::Constant(c) => ParseItemV::Constant(c@),
            ParseItem::Directive(s, ts) => ParseItemV::Directive(s@, toks_view(ts@)),
        }
    }
}

impl PartialEq for ParseItem {
    fn eq(&self, other: &ParseItem) -> (r: bool)
        ensures
            r == (self@ == other@),
    {
        match (self, other) {
            (ParseItem::Label(a), ParseItem::Label(b)) => a == b,
            (ParseItem::Instruction(a), ParseItem::Instruction(b)) => a == b,
            (ParseItem::Data(a), ParseItem::Data(b)) => bytes_eq(a, b),
            (ParseItem::Constant(a), ParseItem::Constant(b)) => a == b,
            (ParseItem::Directive(s1, t1), ParseItem::Directive(s2, t2)) => str_eq(
                s1.as_str(),
                s2.as_str(),
            ) && tokens_eq(t1, t2),
            _ => false,
        }
    }
}

impl vstd::std_specs::cmp::PartialEqSpecImpl for ParseItem {
    open spec fn obeys_eq_spec() -> bool {
        true
    }

    open spec fn eq_spec(&self, other: &ParseItem) -> bool {
        self@ == other@
    }
}

impl Eq for ParseItem {

}

fn bytes_eq(a: &Vec<u8>, b: &Vec<u8>) -> (r: bool)
    ensures
        r == (a@ == b@),
{
    if a.len() != b.len() {
        proof {
            assert(a@ != b@);
        }
        return false;
    }
    let n = a.len();
    let mut i: usize = 0;
    while i < n
        invariant
            n == a@.len() == b@.len(),
            i <= n,
            forall|j: int| 0 <= j < i ==> a@[j] == b@[j],
        decreases n - i,
    {
        if a[i] != b[i] {
            return false;
        }
        i += 1;
    }
    proof {
        assert(a@ =~= b@);
    }
    true
}

fn tokens_eq(a: &Vec<Token>, b: &Vec<Token>) -> (r: bool)
    ensures
        r == (toks_view(a@) == toks_view(b@)),
{
    if a.len() != b.len() {
        proof {
            assert(toks_view(a@).len() != toks_view(b@).len());
        }
        return false;
    }
    let n = a.len();
    let mut i: usize = 0;
    while i < n
        invariant
            n == a@.len() == b@.len(),
            i <= n,
            forall|j: int| 0 <= j < i ==> a@[j]@ == b@[j]@,
        decreases n - i,
    {
        if !(a[i] == b[i]) {
            proof {
                assert(toks_view(a@)[i as int] == a@[i as int]@);
                assert(toks_view(b@)[i as int] == b@[i as int]@);
            }
            return false;
        }
        i += 1;
    }
    proof {
        assert(toks_view(a@) =~= toks_view(b@));
    }
    true
}

} // verus!
