//! `in` and `out`: port I/O with an immediate port or through `(C)`.

use crate::compiler::instructions::common::{compile_data_2, spec_to_3bit_code, to_3bit_code,
    update_ph};
use crate::compiler::instructions::errors::{CompileError, guard_values_short, spec_guard_short,
    spec_unimplemented_instr, unimplemented_instr};
use crate::compiler::instructions::{CompileData, Enc, Placeholder, PlaceholderType, enc_err,
    enc_matches, enc_ok, enc_ok_ph, phs_view, slot_ok};
use crate::domain::enums::ShortReg;
use crate::domain::{ArgV, Argument, InstrV, Instruction};
use vstd::prelude::*;

verus! {

pub open spec fn spec_in(i: InstrV, p0: int, p1: int) -> Enc {
    match (i.arg0, i.arg1) {
        (ArgV::ShortReg(ShortReg::A), ArgV::Value(val)) => match spec_guard_short(0, val) {
            Some(e) => enc_err(e),
            None => enc_ok_ph(
                seq![0xDBu8, (val % 256) as u8],
                p1,
                1,
                PlaceholderType::ShortValue,
            ),
        },
        (ArgV::ShortReg(sr), ArgV::ShortRegAddress(ShortReg::C)) => match spec_to_3bit_code(sr) {
            Err(e) => enc_err(e),
            Ok(c) => enc_ok(seq![0xEDu8, (0b01000000 | (c << 3)) as u8]),
        },
        _ => enc_err(spec_unimplemented_instr(i)),
    }
}

pub fn compile_in(inst: &Instruction, _p0: isize, p1: isize, phs: &mut Vec<Placeholder>) -> (r:
    Result<CompileData, CompileError>)
    requires
        slot_ok(p1 as int, phs_view(old(phs)@)),
    ensures
        enc_matches(
            r,
            spec_in(inst@, _p0 as int, p1 as int),
            phs_view(old(phs)@),
            phs_view(final(phs)@),
        ),
{
    match (&inst.arg0, &inst.arg1) {
        (Argument::ShortReg(ShortReg::A), Argument::Value(val)) => {
            match guard_values_short(0, *val) {
                Some(e) => {
                    return Err(e);
                },
                None => {},
            }
            update_ph(p1, 1, PlaceholderType::ShortValue, phs);
            compile_data_2(0xDB, (*val % 256) as u8)
        },
        (Argument::ShortReg(sr), Argument::ShortRegAddress(ShortReg::C)) => {
            let c = match to_3bit_code(*sr) {
                Ok(c) => c,
                Err(e) => {
                    return Err(e);
                },
            };
            compile_data_2(0xED, 0b01000000 | (c << 3))
        },
        (_, _) => Err(unimplemented_instr(inst)),
    }
}

pub open spec fn spec_out(i: InstrV, p0: int, p1: int) -> Enc {
    match (i.arg0, i.arg1) {
        (ArgV::Value(val), ArgV::ShortReg(ShortReg::A)) => match spec_guard_short(0, val) {
            Some(e) => enc_err(e),
            None => enc_ok_ph(
                seq![0xD3u8, (val % 256) as u8],
                p0,
                1,
                PlaceholderType::ShortValue,
            ),
        },
        (ArgV::ShortRegAddress(ShortReg::C), ArgV::ShortReg(sr)) => match spec_to_3bit_code(sr) {
            Err(e) => enc_err(e),
            Ok(c) => enc_ok(seq![0xEDu8, (0b01000001 | (c << 3)) as u8]),
        },
        _ => enc_err(spec_unimplemented_instr(i)),
    }
}

pub fn compile_out(inst: &Instruction, p0: isize, _p1: isize, phs: &mut Vec<Placeholder>) -> (r:
    Result<CompileData, CompileError>)
    requires
        slot_ok(p0 as int, phs_view(old(phs)@)),
    ensures
        enc_matches(
            r,
            spec_out(inst@, p0 as int, _p1 as int),
            phs_view(old(phs)@),
            phs_view(final(phs)@),
        ),
{
    match (&inst.arg0, &inst.arg1) {
        (Argument::Value(val), Argument::ShortReg(ShortReg::A)) => {
            match guard_values_short(0, *val) {
                Some(e) => {
                    return Err(e);
                },
                None => {},
            }
            update_ph(p0, 1, PlaceholderType::ShortValue, phs);
            compile_data_2(0xD3, (*val % 256) as u8)
        },
        (Argument::ShortRegAddress(ShortReg::C), Argument::ShortReg(sr)) => {
            let c = match to_3bit_code(*sr) {
                Ok(c) => c,
                Err(e) => {
                    return Err(e);
                },
            };
            compile_data_2(0xED, 0b01000001 | (c << 3))
        },
        (_, _) => Err(unimplemented_instr(inst)),
    }
}

} // verus!
