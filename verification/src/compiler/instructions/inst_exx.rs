//! `exx`: the register-bank exchange.

use crate::compiler::instructions::common::compile_data_1;
use crate::compiler::instructions::errors::{CompileError, spec_unimplemented_instr,
    unimplemented_instr};
use crate::compiler::instructions::{CompileData, Enc, enc_err, enc_matches_pure, enc_ok};
use crate::domain::{ArgV, Argument, InstrV, Instruction};
use vstd::prelude::*;

verus! {

pub open spec fn spec_exx(i: InstrV) -> Enc {
    match (i.arg0, i.arg1) {
        (ArgV::Empty, ArgV::Empty) => enc_ok(seq![0b11011001u8]),
        _ => enc_err(spec_unimplemented_instr(i)),
    }
}

pub fn compile_exx(inst: &Instruction, _idx: usize) -> (r: Result<CompileData, CompileError>)
    ensures
        enc_matches_pure(r, spec_exx(inst@)),
{
    match (&inst.arg0, &inst.arg1) {
        (Argument::Empty, Argument::Empty) => compile_data_1(0b11011001),
        (_, _) => Err(unimplemented_instr(inst)),
    }
}

} // verus!
