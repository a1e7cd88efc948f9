//! Register/condition bit codes, byte splitting, and the helpers that build
//! a `CompileData` and finalize a placeholder.

use crate::compiler::instructions::errors::{CEV, CErrV, CompileError, CompileErrorType};
use crate::compiler::instructions::{CompileData, PhUpd, Placeholder, apply_ph, phs_view};
use crate::domain::enums::{Condition, ShortReg, WideReg};
use crate::domain::{ArgV, Argument};
use vstd::prelude::*;

verus! {

/// The 3-bit code of an 8-bit register; `I` and `R` have none.
pub open spec fn spec_to_3bit_code(sr: ShortReg) -> Result<u8, CEV> {
    match sr {
        ShortReg::A => Ok(0b111u8),
        ShortReg::B => Ok(0b000u8),
        ShortReg::C => Ok(0b001u8),
        ShortReg::D => Ok(0b010u8),
        ShortReg::E => Ok(0b011u8),
        ShortReg::H => Ok(0b100u8),
        ShortReg::L => Ok(0b101u8),
        _ => Err(CEV { error: CErrV::UnexpectedArgument(ArgV::ShortReg(sr)), instr: None }),
    }
}

pub fn to_3bit_code(sr: ShortReg) -> (r: Result<u8, CompileError>)
    ensures
        match r {
            Ok(b) => spec_to_3bit_code(sr) == Ok::<u8, CEV>(b) && b < 8,
            Err(e) => spec_to_3bit_code(sr) == Err::<u8, CEV>(e@),
        },
{
    match sr {
        ShortReg::A => Ok(0b111),
        ShortReg::B => Ok(0b000),
        ShortReg::C => Ok(0b001),
        ShortReg::D => Ok(0b010),
        ShortReg::E => Ok(0b011),
        ShortReg::H => Ok(0b100),
        ShortReg::L => Ok(0b101),
        _ => Err(
            CompileError {
                error: CompileErrorType::UnexpectedArgument(Argument::ShortReg(sr)),
                instr: None,
            },
        ),
    }
}

/// The 2-bit code of a 16-bit register pair; only `BC`, `DE`, `HL` and `SP`
/// have one.
pub open spec fn spec_to_2bit_code(wr: WideReg) -> Result<u8, CEV> {
    match wr {
        WideReg::BC => Ok(0b00u8),
        WideReg::DE => Ok(0b01u8),
        WideReg::HL => Ok(0b10u8),
        WideReg::SP => Ok(0b11u8),
        _ => Err(CEV { error: CErrV::UnexpectedArgument(ArgV::WideReg(wr)), instr: None }),
    }
}

pub fn to_2bit_code(wr: WideReg) -> (r: Result<u8, CompileError>)
    ensures
        match r {
            Ok(b) => spec_to_2bit_code(wr) == Ok::<u8, CEV>(b) && b < 4,
            Err(e) => spec_to_2bit_code(wr) == Err::<u8, CEV>(e@),
        },
{
    match wr {
        WideReg::BC => Ok(0b00),
        WideReg::DE => Ok(0b01),
        WideReg::HL => Ok(0b10),
        WideReg::SP => Ok(0b11),
        _ => Err(
            CompileError {
                error: CompileErrorType::UnexpectedArgument(Argument::WideReg(wr)),
                instr: None,
            },
        ),
    }
}

/// The 3-bit code of a condition.
pub open spec fn spec_to_cond_code(c: Condition) -> u8 {
    match c {
        Condition::NZ => 0b000u8,
        Condition::Z => 0b001u8,
        Condition::NC => 0b010u8,
        Condition::C => 0b011u8,
        Condition::PO => 0b100u8,
        Condition::PE => 0b101u8,
        Condition::P => 0b110u8,
        Condition::M => 0b111u8,
    }
}

pub fn to_cond_code(c: Condition) -> (r: Result<u8, CompileError>)
    ensures
        r == Ok::<u8, CompileError>(spec_to_cond_code(c)),
        spec_to_cond_code(c) < 8,
{
    match c {
        Condition::NZ => Ok(0b000),
        Condition::Z => Ok(0b001),
        Condition::NC => Ok(0b010),
        Condition::C => Ok(0b011),
        Condition::PO => Ok(0b100),
        Condition::PE => Ok(0b101),
        Condition::P => Ok(0b110),
        Condition::M => Ok(0b111),
    }
}

pub open spec fn spec_low_byte(val: u16) -> u8 {
    (val % 256) as u8
}

pub fn low_byte(val: u16) -> (r: u8)
    ensures
        r == spec_low_byte(val),
{
    (val % 256) as u8
}

pub open spec fn spec_high_byte(val: u16) -> u8 {
    (val / 256) as u8
}

pub fn high_byte(val: u16) -> (r: u8)
    ensures
        r == spec_high_byte(val),
{
    (val / 256) as u8
}

pub fn compile_data_1(b0: u8) -> (r: Result<CompileData, CompileError>)
    ensures
        r matches Ok(cd) && cd.wf() && cd.zero_padded() && cd.bytes() == seq![b0],
{
    let r = CompileData { len: 1, data: [b0, 0, 0, 0] };
    proof {
        assert(r.bytes() =~= seq![b0]);
        assert(r.data@ =~= r.bytes() + Seq::new((4 - r.len as int) as nat, |i: int| 0u8));
    }
    Ok(r)
}

pub fn compile_data_2(b0: u8, b1: u8) -> (r: Result<CompileData, CompileError>)
    ensures
        r matches Ok(cd) && cd.wf() && cd.zero_padded() && cd.bytes() == seq![b0, b1],
{
    let r = CompileData { len: 2, data: [b0, b1, 0, 0] };
    proof {
        assert(r.bytes() =~= seq![b0, b1]);
        assert(r.data@ =~= r.bytes() + Seq::new((4 - r.len as int) as nat, |i: int| 0u8));
    }
    Ok(r)
}

pub fn compile_data_3(b0: u8, b1: u8, b2: u8) -> (r: Result<CompileData, CompileError>)
    ensures
        r matches Ok(cd) && cd.wf() && cd.zero_padded() && cd.bytes() == seq![b0, b1, b2],
{
    let r = CompileData { len: 3, data: [b0, b1, b2, 0] };
    proof {
        assert(r.bytes() =~= seq![b0, b1, b2]);
        assert(r.data@ =~= r.bytes() + Seq::new((4 - r.len as int) as nat, |i: int| 0u8));
    }
    Ok(r)
}

pub fn compile_data_4(b0: u8, b1: u8, b2: u8, b3: u8) -> (r: Result<CompileData, CompileError>)
    ensures
        r matches Ok(cd) && cd.wf() && cd.zero_padded() && cd.bytes() == seq![b0, b1, b2, b3],
{
    let r = CompileData { len: 4, data: [b0, b1, b2, b3] };
    proof {
        assert(r.bytes() =~= seq![b0, b1, b2, b3]);
        assert(r.data@ =~= r.bytes() + Seq::new((4 - r.len as int) as nat, |i: int| 0u8));
    }
    Ok(r)
}

/// Finalizes a live placeholder slot: moves its output position forward to
/// the byte the encoding places the operand at, and records the fix-up kind.
/// A negative slot means the operand carried no placeholder.
pub fn update_ph(p_idx: isize, delta_idx: usize, t: crate::compiler::instructions::PlaceholderType, phs: &mut Vec<
    Placeholder,
>)
    requires
        p_idx >= 0 ==> p_idx < old(phs)@.len() && old(phs)@[p_idx as int].idx + delta_idx
            <= usize::MAX,
    ensures
        phs_view(final(phs)@) == apply_ph(
            phs_view(old(phs)@),
            Some(PhUpd { slot: p_idx as int, delta: delta_idx as int, kind: t }),
        ),
{
    if p_idx < 0 {
        proof {
            assert(phs_view(phs@) =~= apply_ph(
                phs_view(phs@),
                Some(PhUpd { slot: p_idx as int, delta: delta_idx as int, kind: t }),
            ));
        }
        return ;
    }
    let i = p_idx as usize;
    let old_idx = phs[i].idx;
    let old_label = phs[i].label.clone();
    let old_line = phs[i].line;
    phs.set(
        i,
        Placeholder { idx: old_idx + delta_idx, label: old_label, ph_type: t, line: old_line },
    );
    proof {
        assert(phs_view(phs@) =~= apply_ph(
            phs_view(old(phs)@),
            Some(PhUpd { slot: p_idx as int, delta: delta_idx as int, kind: t }),
        ));
    }
}

} // verus!
