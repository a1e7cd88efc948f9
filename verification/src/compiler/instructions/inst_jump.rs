//! `jp`, `jr` and `djnz`: the jump group and its placeholder interaction.

use crate::compiler::instructions::common::{compile_data_1, compile_data_2, compile_data_3,
    high_byte, low_byte, spec_high_byte, spec_low_byte, spec_to_cond_code, to_cond_code,
    update_ph};
use crate::compiler::instructions::errors::{CompileError, guard_values_short, spec_guard_short,
    spec_unimplemented_instr, unimplemented_instr};
use crate::compiler::instructions::{CompileData, Enc, Placeholder, PlaceholderType, enc_err,
    enc_matches, enc_ok, enc_ok_ph, phs_view, slot_ok};
use crate::domain::enums::{Condition, WideReg};
use crate::domain::{ArgV, Argument, InstrV, Instruction};
use vstd::prelude::*;

verus! {

pub open spec fn spec_djnz(i: InstrV, p: int) -> Enc {
    match (i.arg0, i.arg1) {
        (ArgV::DirectAddress(val), ArgV::Empty) => match spec_guard_short(val, 0) {
            Some(e) => enc_err(e),
            None => enc_ok_ph(
                seq![0x10u8, (val % 256) as u8],
                p,
                1,
                PlaceholderType::RelAddress,
            ),
        },
        _ => enc_err(spec_unimplemented_instr(i)),
    }
}

pub fn inst_djnz(inst: &Instruction, p: isize, phs: &mut Vec<Placeholder>) -> (r: Result<
    CompileData,
    CompileError,
>)
    requires
        slot_ok(p as int, phs_view(old(phs)@)),
    ensures
        enc_matches(r, spec_djnz(inst@, p as int), phs_view(old(phs)@), phs_view(final(phs)@)),
{
    match (&inst.arg0, &inst.arg1) {
        (Argument::DirectAddress(val), Argument::Empty) => {
            match guard_values_short(*val, 0) {
                Some(e) => {
                    return Err(e);
                },
                None => {},
            }
            update_ph(p, 1, PlaceholderType::RelAddress, phs);
            compile_data_2(0x10, (*val % 256) as u8)
        },
        (_, _) => Err(unimplemented_instr(inst)),
    }
}

pub open spec fn spec_jp(i: InstrV, p0: int, p1: int) -> Enc {
    match (i.arg0, i.arg1) {
        (ArgV::DirectAddress(addr), ArgV::Empty) => enc_ok_ph(
            seq![0xC3u8, spec_low_byte(addr), spec_high_byte(addr)],
            p0,
            1,
            PlaceholderType::AbsAddress,
        ),
        (ArgV::Condition(c), ArgV::DirectAddress(addr)) => enc_ok_ph(
            seq![
                (0b11000010 | (spec_to_cond_code(c) << 3)) as u8,
                spec_low_byte(addr),
                spec_high_byte(addr),
            ],
            p1,
            1,
            PlaceholderType::AbsAddress,
        ),
        (ArgV::WideRegAddress(WideReg::HL), ArgV::Empty) => enc_ok(seq![0xE9u8]),
        (ArgV::RegOffsetAddress(WideReg::IX, 0u16), ArgV::Empty) => enc_ok(seq![0xDDu8, 0xE9u8]),
        (ArgV::RegOffsetAddress(WideReg::IY, 0u16), ArgV::Empty) => enc_ok(seq![0xFDu8, 0xE9u8]),
        _ => enc_err(spec_unimplemented_instr(i)),
    }
}

pub fn inst_jp(inst: &Instruction, p0: isize, p1: isize, phs: &mut Vec<Placeholder>) -> (r: Result<
    CompileData,
    CompileError,
>)
    requires
        slot_ok(p0 as int, phs_view(old(phs)@)),
        slot_ok(p1 as int, phs_view(old(phs)@)),
    ensures
        enc_matches(
            r,
            spec_jp(inst@, p0 as int, p1 as int),
            phs_view(old(phs)@),
            phs_view(final(phs)@),
        ),
{
    match (&inst.arg0, &inst.arg1) {
        (Argument::DirectAddress(addr), Argument::Empty) => {
            update_ph(p0, 1, PlaceholderType::AbsAddress, phs);
            compile_data_3(0xC3, low_byte(*addr), high_byte(*addr))
        },
        (Argument::Condition(c), Argument::DirectAddress(addr)) => {
            let cc = match to_cond_code(*c) {
                Ok(cc) => cc,
                Err(e) => {
                    return Err(e);
                },
            };
            update_ph(p1, 1, PlaceholderType::AbsAddress, phs);
            compile_data_3(0b11000010 | (cc << 3), low_byte(*addr), high_byte(*addr))
        },
        (Argument::WideRegAddress(WideReg::HL), Argument::Empty) => compile_data_1(0xE9),
        (Argument::RegOffsetAddress(WideReg::IX, 0u16), Argument::Empty) => {
            compile_data_2(0xDD, 0xE9)
        },
        (Argument::RegOffsetAddress(WideReg::IY, 0u16), Argument::Empty) => {
            compile_data_2(0xFD, 0xE9)
        },
        (_, _) => Err(unimplemented_instr(inst)),
    }
}

pub open spec fn spec_jr(i: InstrV, p0: int, p1: int) -> Enc {
    match (i.arg0, i.arg1) {
        (ArgV::DirectAddress(addr), ArgV::Empty) => match spec_guard_short(addr, 0) {
            Some(e) => enc_err(e),
            None => enc_ok_ph(
                seq![0x18u8, (addr % 256) as u8],
                p0,
                1,
                PlaceholderType::RelAddress,
            ),
        },
        (ArgV::Condition(Condition::C), ArgV::DirectAddress(val)) => match spec_guard_short(
            val,
            0,
        ) {
            Some(e) => enc_err(e),
            None => enc_ok_ph(
                seq![0x38u8, (val % 256) as u8],
                p1,
                1,
                PlaceholderType::RelAddress,
            ),
        },
        (ArgV::Condition(Condition::NC), ArgV::DirectAddress(val)) => match spec_guard_short(
            val,
            0,
        ) {
            Some(e) => enc_err(e),
            None => enc_ok_ph(
                seq![0x30u8, (val % 256) as u8],
                p1,
                1,
                PlaceholderType::RelAddress,
            ),
        },
        (ArgV::Condition(Condition::Z), ArgV::DirectAddress(val)) => match spec_guard_short(
            val,
            0,
        ) {
            Some(e) => enc_err(e),
            None => enc_ok_ph(
                seq![0x28u8, (val % 256) as u8],
                p1,
                1,
                PlaceholderType::RelAddress,
            ),
        },
        (ArgV::Condition(Condition::NZ), ArgV::DirectAddress(val)) => match spec_guard_short(
            val,
            0,
        ) {
            Some(e) => enc_err(e),
            None => enc_ok_ph(
                seq![0x20u8, (val % 256) as u8],
                p1,
                1,
                PlaceholderType::RelAddress,
            ),
        },
        _ => enc_err(spec_unimplemented_instr(i)),
    }
}

pub fn inst_jr(inst: &Instruction, p0: isize, p1: isize, phs: &mut Vec<Placeholder>) -> (r: Result<
    CompileData,
    CompileError,
>)
    requires
        slot_ok(p0 as int, phs_view(old(phs)@)),
        slot_ok(p1 as int, phs_view(old(phs)@)),
    ensures
        enc_matches(
            r,
            spec_jr(inst@, p0 as int, p1 as int),
            phs_view(old(phs)@),
            phs_view(final(phs)@),
        ),
{
    match (&inst.arg0, &inst.arg1) {
        (Argument::DirectAddress(addr), Argument::Empty) => {
            match guard_values_short(*addr, 0) {
                Some(e) => {
                    return Err(e);
                },
                None => {},
            }
            update_ph(p0, 1, PlaceholderType::RelAddress, phs);
            compile_data_2(0x18, (*addr % 256) as u8)
        },
        (Argument::Condition(Condition::C), Argument::DirectAddress(val)) => {
            match guard_values_short(*val, 0) {
                Some(e) => {
                    return Err(e);
                },
                None => {},
            }
            update_ph(p1, 1, PlaceholderType::RelAddress, phs);
            compile_data_2(0x38, (*val % 256) as u8)
        },
        (Argument::Condition(Condition::NC), Argument::DirectAddress(val)) => {
            match guard_values_short(*val, 0) {
                Some(e) => {
                    return Err(e);
                },
                None => {},
            }
            update_ph(p1, 1, PlaceholderType::RelAddress, phs);
            compile_data_2(0x30, (*val % 256) as u8)
        },
        (Argument::Condition(Condition::Z), Argument::DirectAddress(val)) => {
            match guard_values_short(*val, 0) {
                Some(e) => {
                    return Err(e);
                },
                None => {},
            }
            update_ph(p1, 1, PlaceholderType::RelAddress, phs);
            compile_data_2(0x28, (*val % 256) as u8)
        },
        (Argument::Condition(Condition::NZ), Argument::DirectAddress(val)) => {
            match guard_values_short(*val, 0) {
                Some(e) => {
                    return Err(e);
                },
                None => {},
            }
            update_ph(p1, 1, PlaceholderType::RelAddress, phs);
            compile_data_2(0x20, (*val % 256) as u8)
        },
        (_, _) => Err(unimplemented_instr(inst)),
    }
}

} // verus!
