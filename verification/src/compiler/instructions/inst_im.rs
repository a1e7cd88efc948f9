//! `im`: the interrupt-mode selection.  The mode is a literal 0, 1 or 2;
//! no placeholder is finalized for it, as the encoding emits no immediate.

use crate::compiler::instructions::common::compile_data_2;
use crate::compiler::instructions::errors::{CompileError, spec_unimplemented_instr,
    unimplemented_instr};
use crate::compiler::instructions::{CompileData, Enc, Placeholder, enc_err, enc_matches, enc_ok,
    phs_view};
use crate::domain::{ArgV, Argument, InstrV, Instruction};
use vstd::prelude::*;

verus! {

pub open spec fn spec_im(i: InstrV) -> Enc {
    match (i.arg0, i.arg1) {
        (ArgV::Value(0u16), ArgV::Empty) => enc_ok(seq![0xEDu8, 0x46u8]),
        (ArgV::Value(1u16), ArgV::Empty) => enc_ok(seq![0xEDu8, 0x56u8]),
        (ArgV::Value(2u16), ArgV::Empty) => enc_ok(seq![0xEDu8, 0x5Eu8]),
        _ => enc_err(spec_unimplemented_instr(i)),
    }
}

pub fn compile_im(inst: &Instruction, _p0: isize, phs: &mut Vec<Placeholder>) -> (r: Result<
    CompileData,
    CompileError,
>)
    ensures
        enc_matches(r, spec_im(inst@), phs_view(old(phs)@), phs_view(final(phs)@)),
{
    match (&inst.arg0, &inst.arg1) {
        (Argument::Value(0u16), Argument::Empty) => compile_data_2(0xED, 0x46),
        (Argument::Value(1u16), Argument::Empty) => compile_data_2(0xED, 0x56),
        (Argument::Value(2u16), Argument::Empty) => compile_data_2(0xED, 0x5E),
        (_, _) => Err(unimplemented_instr(inst)),
    }
}

} // verus!
