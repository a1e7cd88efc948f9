//! `push` and `pop`.

use crate::compiler::instructions::common::{compile_data_1, compile_data_2, spec_to_2bit_code,
    to_2bit_code};
use crate::compiler::instructions::errors::{CompileError, spec_unimplemented_instr,
    unimplemented_instr};
use crate::compiler::instructions::{CompileData, Enc, enc_err, enc_matches_pure, enc_ok};
use crate::domain::enums::WideReg;
use crate::domain::{ArgV, Argument, InstrV, Instruction};
use vstd::prelude::*;

verus! {

pub open spec fn spec_push(i: InstrV) -> Enc {
    match (i.arg0, i.arg1) {
        (ArgV::WideReg(WideReg::IX), ArgV::Empty) => enc_ok(seq![0xDDu8, 0xE5u8]),
        (ArgV::WideReg(WideReg::IY), ArgV::Empty) => enc_ok(seq![0xFDu8, 0xE5u8]),
        (ArgV::WideReg(wr), ArgV::Empty) => match spec_to_2bit_code(wr) {
            Ok(b) => enc_ok(seq![(0b11000101 | (b << 4)) as u8]),
            Err(e) => enc_err(e),
        },
        _ => enc_err(spec_unimplemented_instr(i)),
    }
}

pub fn compile_push(inst: &Instruction) -> (r: Result<CompileData, CompileError>)
    ensures
        enc_matches_pure(r, spec_push(inst@)),
{
    match (&inst.arg0, &inst.arg1) {
        (Argument::WideReg(WideReg::IX), Argument::Empty) => compile_data_2(0xDD, 0xE5),
        (Argument::WideReg(WideReg::IY), Argument::Empty) => compile_data_2(0xFD, 0xE5),
        (Argument::WideReg(wr), Argument::Empty) => {
            let b = match to_2bit_code(*wr) {
                Ok(b) => b,
                Err(e) => {
                    return Err(e);
                },
            };
            compile_data_1(0b11000101 | (b << 4))
        },
        (_, _) => Err(unimplemented_instr(inst)),
    }
}

pub open spec fn spec_pop(i: InstrV) -> Enc {
    match (i.arg0, i.arg1) {
        (ArgV::WideReg(WideReg::IX), ArgV::Empty) => enc_ok(seq![0xDDu8, 0xE1u8]),
        (ArgV::WideReg(WideReg::IY), ArgV::Empty) => enc_ok(seq![0xFDu8, 0xE1u8]),
        (ArgV::WideReg(wr), ArgV::Empty) => match spec_to_2bit_code(wr) {
            Ok(b) => enc_ok(seq![(0b11000001 | (b << 4)) as u8]),
            Err(e) => enc_err(e),
        },
        _ => enc_err(spec_unimplemented_instr(i)),
    }
}

pub fn compile_pop(inst: &Instruction) -> (r: Result<CompileData, CompileError>)
    ensures
        enc_matches_pure(r, spec_pop(inst@)),
{
    match (&inst.arg0, &inst.arg1) {
        (Argument::WideReg(WideReg::IX), Argument::Empty) => compile_data_2(0xDD, 0xE1),
        (Argument::WideReg(WideReg::IY), Argument::Empty) => compile_data_2(0xFD, 0xE1),
        (Argument::WideReg(wr), Argument::Empty) => {
            let b = match to_2bit_code(*wr) {
                Ok(b) => b,
                Err(e) => {
                    return Err(e);
                },
            };
            compile_data_1(0b11000001 | (b << 4))
        },
        (_, _) => Err(unimplemented_instr(inst)),
    }
}

} // verus!
