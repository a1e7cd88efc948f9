//! `bit`, `set` and `res`: CB-prefixed bit operations.  The bit number must
//! be a literal below 8; a placeholder there is refused.

use crate::compiler::instructions::common::{compile_data_2, compile_data_4, spec_to_3bit_code,
    to_3bit_code};
use crate::compiler::instructions::errors::{CompileError, guard_values_3bit, guard_values_short,
    spec_guard_3bit, spec_guard_short, spec_unimplemented_instr, unimplemented_instr};
use crate::compiler::instructions::{CompileData, Enc, enc_err, enc_matches_pure, enc_ok};
use crate::domain::enums::WideReg;
use crate::domain::{ArgV, Argument, InstrV, Instruction};
use vstd::prelude::*;

verus! {

/// The per-mnemonic bytes of the bit group.
#[derive(Copy, Clone)]
pub struct BitGrCodes {
    pub r_1: u8,
    pub hl_1: u8,
}

pub open spec fn spec_bit_codes() -> BitGrCodes {
    BitGrCodes { r_1: 0b01000000u8, hl_1: 0b01000110u8 }
}

pub open spec fn spec_set_codes() -> BitGrCodes {
    BitGrCodes { r_1: 0b11000000u8, hl_1: 0b11000110u8 }
}

pub open spec fn spec_res_codes() -> BitGrCodes {
    BitGrCodes { r_1: 0b10000000u8, hl_1: 0b10000110u8 }
}

pub open spec fn spec_bit_inst(i: InstrV, p: int, codes: BitGrCodes) -> Enc {
    match (i.arg0, i.arg1) {
        (ArgV::Value(bit), ArgV::ShortReg(sr)) => match spec_guard_3bit(bit, p) {
            Some(e) => enc_err(e),
            None => match spec_to_3bit_code(sr) {
                Err(e) => enc_err(e),
                Ok(c) => enc_ok(seq![0xCBu8, (codes.r_1 | ((bit as u8) << 3) | c) as u8]),
            },
        },
        (ArgV::Value(bit), ArgV::WideRegAddress(WideReg::HL)) => match spec_guard_3bit(bit, p) {
            Some(e) => enc_err(e),
            None => enc_ok(seq![0xCBu8, (codes.hl_1 | ((bit as u8) << 3)) as u8]),
        },
        (ArgV::Value(bit), ArgV::RegOffsetAddress(WideReg::IX, offset)) => match spec_guard_3bit(
            bit,
            p,
        ) {
            Some(e) => enc_err(e),
            None => match spec_guard_short(0, offset) {
                Some(e) => enc_err(e),
                None => enc_ok(
                    seq![
                        0xDDu8,
                        0xCBu8,
                        (offset % 256) as u8,
                        (codes.hl_1 | ((bit as u8) << 3)) as u8,
                    ],
                ),
            },
        },
        (ArgV::Value(bit), ArgV::RegOffsetAddress(WideReg::IY, offset)) => match spec_guard_3bit(
            bit,
            p,
        ) {
            Some(e) => enc_err(e),
            None => match spec_guard_short(0, offset) {
                Some(e) => enc_err(e),
                None => enc_ok(
                    seq![
                        0xFDu8,
                        0xCBu8,
                        (offset % 256) as u8,
                        (codes.hl_1 | ((bit as u8) << 3)) as u8,
                    ],
                ),
            },
        },
        _ => enc_err(spec_unimplemented_instr(i)),
    }
}

fn bit_inst(inst: &Instruction, p: isize, codes: BitGrCodes) -> (r: Result<
    CompileData,
    CompileError,
>)
    ensures
        enc_matches_pure(r, spec_bit_inst(inst@, p as int, codes)),
{
    match (&inst.arg0, &inst.arg1) {
        (Argument::Value(bit), Argument::ShortReg(sr)) => {
            match guard_values_3bit(*bit, p) {
                Some(e) => {
                    return Err(e);
                },
                None => {},
            }
            let c = match to_3bit_code(*sr) {
                Ok(c) => c,
                Err(e) => {
                    return Err(e);
                },
            };
            compile_data_2(0xCB, codes.r_1 | ((*bit as u8) << 3) | c)
        },
        (Argument::Value(bit), Argument::WideRegAddress(WideReg::HL)) => {
            match guard_values_3bit(*bit, p) {
                Some(e) => {
                    return Err(e);
                },
                None => {},
            }
            compile_data_2(0xCB, codes.hl_1 | ((*bit as u8) << 3))
        },
        (Argument::Value(bit), Argument::RegOffsetAddress(WideReg::IX, offset)) => {
            match guard_values_3bit(*bit, p) {
                Some(e) => {
                    return Err(e);
                },
                None => {},
            }
            match guard_values_short(0, *offset) {
                Some(e) => {
                    return Err(e);
                },
                None => {},
            }
            compile_data_4(0xDD, 0xCB, (*offset % 256) as u8, codes.hl_1 | ((*bit as u8) << 3))
        },
        (Argument::Value(bit), Argument::RegOffsetAddress(WideReg::IY, offset)) => {
            match guard_values_3bit(*bit, p) {
                Some(e) => {
                    return Err(e);
                },
                None => {},
            }
            match guard_values_short(0, *offset) {
                Some(e) => {
                    return Err(e);
                },
                None => {},
            }
            compile_data_4(0xFD, 0xCB, (*offset % 256) as u8, codes.hl_1 | ((*bit as u8) << 3))
        },
        _ => Err(unimplemented_instr(inst)),
    }
}

pub open spec fn spec_bit(i: InstrV, p0: int) -> Enc {
    spec_bit_inst(i, p0, spec_bit_codes())
}

pub fn inst_bit(inst: &Instruction, p0: isize) -> (r: Result<CompileData, CompileError>)
    ensures
        enc_matches_pure(r, spec_bit(inst@, p0 as int)),
{
    bit_inst(inst, p0, BitGrCodes { r_1: 0b01000000, hl_1: 0b01000110 })
}

pub open spec fn spec_set(i: InstrV, p0: int) -> Enc {
    spec_bit_inst(i, p0, spec_set_codes())
}

pub fn inst_set(inst: &Instruction, p0: isize) -> (r: Result<CompileData, CompileError>)
    ensures
        enc_matches_pure(r, spec_set(inst@, p0 as int)),
{
    bit_inst(inst, p0, BitGrCodes { r_1: 0b11000000, hl_1: 0b11000110 })
}

pub open spec fn spec_res(i: InstrV, p0: int) -> Enc {
    spec_bit_inst(i, p0, spec_res_codes())
}

pub fn inst_res(inst: &Instruction, p0: isize) -> (r: Result<CompileData, CompileError>)
    ensures
        enc_matches_pure(r, spec_res(inst@, p0 as int)),
{
    bit_inst(inst, p0, BitGrCodes { r_1: 0b10000000, hl_1: 0b10000110 })
}

} // verus!
