//! `ex`: the exchange instructions.

use crate::compiler::instructions::common::{compile_data_1, compile_data_2};
use crate::compiler::instructions::errors::{CompileError, spec_unimplemented_instr,
    unimplemented_instr};
use crate::compiler::instructions::{CompileData, Enc, enc_err, enc_matches_pure, enc_ok};
use crate::domain::enums::WideReg;
use crate::domain::{ArgV, Argument, InstrV, Instruction};
use vstd::prelude::*;

verus! {

pub open spec fn spec_ex(i: InstrV) -> Enc {
    match (i.arg0, i.arg1) {
        (ArgV::WideReg(WideReg::DE), ArgV::WideReg(WideReg::HL)) => enc_ok(seq![0b11101011u8]),
        (ArgV::WideReg(WideReg::AF), ArgV::WideReg(WideReg::AFp)) => enc_ok(seq![0b00001000u8]),
        (ArgV::WideRegAddress(WideReg::SP), ArgV::WideReg(WideReg::HL)) => enc_ok(
            seq![0b11100011u8],
        ),
        (ArgV::WideRegAddress(WideReg::SP), ArgV::WideReg(WideReg::IX)) => enc_ok(
            seq![0b11011101u8, 0b11100011u8],
        ),
        (ArgV::WideRegAddress(WideReg::SP), ArgV::WideReg(WideReg::IY)) => enc_ok(
            seq![0b11111101u8, 0b11100011u8],
        ),
        _ => enc_err(spec_unimplemented_instr(i)),
    }
}

pub fn compile_ex(inst: &Instruction) -> (r: Result<CompileData, CompileError>)
    ensures
        enc_matches_pure(r, spec_ex(inst@)),
{
    match (&inst.arg0, &inst.arg1) {
        (Argument::WideReg(WideReg::DE), Argument::WideReg(WideReg::HL)) => {
            compile_data_1(0b11101011)
        },
        (Argument::WideReg(WideReg::AF), Argument::WideReg(WideReg::AFp)) => {
            compile_data_1(0b00001000)
        },
        (Argument::WideRegAddress(WideReg::SP), Argument::WideReg(WideReg::HL)) => {
            compile_data_1(0b11100011)
        },
        (Argument::WideRegAddress(WideReg::SP), Argument::WideReg(WideReg::IX)) => {
            compile_data_2(0b11011101, 0b11100011)
        },
        (Argument::WideRegAddress(WideReg::SP), Argument::WideReg(WideReg::IY)) => {
            compile_data_2(0b11111101, 0b11100011)
        },
        (_, _) => Err(unimplemented_instr(inst)),
    }
}

} // verus!
