//! The rotate and shift group: CB-prefixed, with indexed variants.

use crate::compiler::instructions::common::{compile_data_2, compile_data_4, spec_to_3bit_code,
    to_3bit_code};
use crate::compiler::instructions::errors::{CompileError, guard_values_short, spec_guard_short,
    spec_unimplemented_instr, unimplemented_instr};
use crate::compiler::instructions::{CompileData, Enc, enc_err, enc_matches_pure, enc_ok};
use crate::domain::enums::WideReg;
use crate::domain::{ArgV, Argument, InstrV, Instruction};
use vstd::prelude::*;

verus! {

/// The per-mnemonic bytes of the rotate and shift group.
#[derive(Copy, Clone)]
pub struct RotShiftGrCodes {
    pub r_0: u8,
    pub r_1: u8,
    pub hl_0: u8,
    pub hl_1: u8,
    pub ix_d_0: u8,
    pub ix_d_1: u8,
    pub ix_d_3: u8,
    pub iy_d_0: u8,
    pub iy_d_1: u8,
    pub iy_d_3: u8,
}

pub open spec fn spec_rot_shift(i: InstrV, codes: RotShiftGrCodes) -> Enc {
    match (i.arg0, i.arg1) {
        (ArgV::ShortReg(sr), ArgV::Empty) => match spec_to_3bit_code(sr) {
            Err(e) => enc_err(e),
            Ok(c) => enc_ok(seq![codes.r_0, (codes.r_1 | c) as u8]),
        },
        (ArgV::WideRegAddress(WideReg::HL), ArgV::Empty) => enc_ok(seq![codes.hl_0, codes.hl_1]),
        (ArgV::RegOffsetAddress(WideReg::IX, offset), ArgV::Empty) => match spec_guard_short(
            0,
            offset,
        ) {
            Some(e) => enc_err(e),
            None => enc_ok(
                seq![codes.ix_d_0, codes.ix_d_1, (offset % 256) as u8, codes.ix_d_3],
            ),
        },
        (ArgV::RegOffsetAddress(WideReg::IY, offset), ArgV::Empty) => match spec_guard_short(
            0,
            offset,
        ) {
            Some(e) => enc_err(e),
            None => enc_ok(
                seq![codes.iy_d_0, codes.iy_d_1, (offset % 256) as u8, codes.iy_d_3],
            ),
        },
        _ => enc_err(spec_unimplemented_instr(i)),
    }
}

fn rot_shift(inst: &Instruction, codes: RotShiftGrCodes) -> (r: Result<CompileData, CompileError>)
    ensures
        enc_matches_pure(r, spec_rot_shift(inst@, codes)),
{
    match (&inst.arg0, &inst.arg1) {
        (Argument::ShortReg(sr), Argument::Empty) => {
            let c = match to_3bit_code(*sr) {
                Ok(c) => c,
                Err(e) => {
                    return Err(e);
                },
            };
            compile_data_2(codes.r_0, codes.r_1 | c)
        },
        (Argument::WideRegAddress(WideReg::HL), Argument::Empty) => {
            compile_data_2(codes.hl_0, codes.hl_1)
        },
        (Argument::RegOffsetAddress(WideReg::IX, offset), Argument::Empty) => {
            match guard_values_short(0, *offset) {
                Some(e) => {
                    return Err(e);
                },
                None => {},
            }
            compile_data_4(codes.ix_d_0, codes.ix_d_1, (*offset % 256) as u8, codes.ix_d_3)
        },
        (Argument::RegOffsetAddress(WideReg::IY, offset), Argument::Empty) => {
            match guard_values_short(0, *offset) {
                Some(e) => {
                    return Err(e);
                },
                None => {},
            }
            compile_data_4(codes.iy_d_0, codes.iy_d_1, (*offset % 256) as u8, codes.iy_d_3)
        },
        _ => Err(unimplemented_instr(inst)),
    }
}

pub open spec fn spec_rlc_codes() -> RotShiftGrCodes {
    RotShiftGrCodes {
        r_0: 0xCBu8,
        r_1: 0b00000000u8,
        hl_0: 0xCBu8,
        hl_1: 0x06u8,
        ix_d_0: 0xDDu8,
        ix_d_1: 0xCBu8,
        ix_d_3: 0x06u8,
        iy_d_0: 0xFDu8,
        iy_d_1: 0xCBu8,
        iy_d_3: 0x06u8,
    }
}

pub open spec fn spec_rlc(i: InstrV) -> Enc {
    spec_rot_shift(i, spec_rlc_codes())
}

pub fn inst_rlc(inst: &Instruction) -> (r: Result<CompileData, CompileError>)
    ensures
        enc_matches_pure(r, spec_rlc(inst@)),
{
    rot_shift(
        inst,
        RotShiftGrCodes {
            r_0: 0xCB,
            r_1: 0b00000000,
            hl_0: 0xCB,
            hl_1: 0x06,
            ix_d_0: 0xDD,
            ix_d_1: 0xCB,
            ix_d_3: 0x06,
            iy_d_0: 0xFD,
            iy_d_1: 0xCB,
            iy_d_3: 0x06,
        },
    )
}

pub open spec fn spec_rl_codes() -> RotShiftGrCodes {
    RotShiftGrCodes {
        r_0: 0xCBu8,
        r_1: 0b00010000u8,
        hl_0: 0xCBu8,
        hl_1: 0x16u8,
        ix_d_0: 0xDDu8,
        ix_d_1: 0xCBu8,
        ix_d_3: 0x16u8,
        iy_d_0: 0xFDu8,
        iy_d_1: 0xCBu8,
        iy_d_3: 0x16u8,
    }
}

pub open spec fn spec_rl(i: InstrV) -> Enc {
    spec_rot_shift(i, spec_rl_codes())
}

pub fn inst_rl(inst: &Instruction) -> (r: Result<CompileData, CompileError>)
    ensures
        enc_matches_pure(r, spec_rl(inst@)),
{
    rot_shift(
        inst,
        RotShiftGrCodes {
            r_0: 0xCB,
            r_1: 0b00010000,
            hl_0: 0xCB,
            hl_1: 0x16,
            ix_d_0: 0xDD,
            ix_d_1: 0xCB,
            ix_d_3: 0x16,
            iy_d_0: 0xFD,
            iy_d_1: 0xCB,
            iy_d_3: 0x16,
        },
    )
}

pub open spec fn spec_rrc_codes() -> RotShiftGrCodes {
    RotShiftGrCodes {
        r_0: 0xCBu8,
        r_1: 0b00001000u8,
        hl_0: 0xCBu8,
        hl_1: 0x0Eu8,
        ix_d_0: 0xDDu8,
        ix_d_1: 0xCBu8,
        ix_d_3: 0x0Eu8,
        iy_d_0: 0xFDu8,
        iy_d_1: 0xCBu8,
        iy_d_3: 0x0Eu8,
    }
}

pub open spec fn spec_rrc(i: InstrV) -> Enc {
    spec_rot_shift(i, spec_rrc_codes())
}

pub fn inst_rrc(inst: &Instruction) -> (r: Result<CompileData, CompileError>)
    ensures
        enc_matches_pure(r, spec_rrc(inst@)),
{
    rot_shift(
        inst,
        RotShiftGrCodes {
            r_0: 0xCB,
            r_1: 0b00001000,
            hl_0: 0xCB,
            hl_1: 0x0E,
            ix_d_0: 0xDD,
            ix_d_1: 0xCB,
            ix_d_3: 0x0E,
            iy_d_0: 0xFD,
            iy_d_1: 0xCB,
            iy_d_3: 0x0E,
        },
    )
}

pub open spec fn spec_rr_codes() -> RotShiftGrCodes {
    RotShiftGrCodes {
        r_0: 0xCBu8,
        r_1: 0b00011000u8,
        hl_0: 0xCBu8,
        hl_1: 0x1Eu8,
        ix_d_0: 0xDDu8,
        ix_d_1: 0xCBu8,
        ix_d_3: 0x1Eu8,
        iy_d_0: 0xFDu8,
        iy_d_1: 0xCBu8,
        iy_d_3: 0x1Eu8,
    }
}

pub open spec fn spec_rr(i: InstrV) -> Enc {
    spec_rot_shift(i, spec_rr_codes())
}

pub fn inst_rr(inst: &Instruction) -> (r: Result<CompileData, CompileError>)
    ensures
        enc_matches_pure(r, spec_rr(inst@)),
{
    rot_shift(
        inst,
        RotShiftGrCodes {
            r_0: 0xCB,
            r_1: 0b00011000,
            hl_0: 0xCB,
            hl_1: 0x1E,
            ix_d_0: 0xDD,
            ix_d_1: 0xCB,
            ix_d_3: 0x1E,
            iy_d_0: 0xFD,
            iy_d_1: 0xCB,
            iy_d_3: 0x1E,
        },
    )
}

pub open spec fn spec_sla_codes() -> RotShiftGrCodes {
    RotShiftGrCodes {
        r_0: 0xCBu8,
        r_1: 0b00100000u8,
        hl_0: 0xCBu8,
        hl_1: 0x26u8,
        ix_d_0: 0xDDu8,
        ix_d_1: 0xCBu8,
        ix_d_3: 0x26u8,
        iy_d_0: 0xFDu8,
        iy_d_1: 0xCBu8,
        iy_d_3: 0x26u8,
    }
}

pub open spec fn spec_sla(i: InstrV) -> Enc {
    spec_rot_shift(i, spec_sla_codes())
}

pub fn inst_sla(inst: &Instruction) -> (r: Result<CompileData, CompileError>)
    ensures
        enc_matches_pure(r, spec_sla(inst@)),
{
    rot_shift(
        inst,
        RotShiftGrCodes {
            r_0: 0xCB,
            r_1: 0b00100000,
            hl_0: 0xCB,
            hl_1: 0x26,
            ix_d_0: 0xDD,
            ix_d_1: 0xCB,
            ix_d_3: 0x26,
            iy_d_0: 0xFD,
            iy_d_1: 0xCB,
            iy_d_3: 0x26,
        },
    )
}

pub open spec fn spec_sra_codes() -> RotShiftGrCodes {
    RotShiftGrCodes {
        r_0: 0xCBu8,
        r_1: 0b00101000u8,
        hl_0: 0xCBu8,
        hl_1: 0x2Eu8,
        ix_d_0: 0xDDu8,
        ix_d_1: 0xCBu8,
        ix_d_3: 0x2Eu8,
        iy_d_0: 0xFDu8,
        iy_d_1: 0xCBu8,
        iy_d_3: 0x2Eu8,
    }
}

pub open spec fn spec_sra(i: InstrV) -> Enc {
    spec_rot_shift(i, spec_sra_codes())
}

pub fn inst_sra(inst: &Instruction) -> (r: Result<CompileData, CompileError>)
    ensures
        enc_matches_pure(r, spec_sra(inst@)),
{
    rot_shift(
        inst,
        RotShiftGrCodes {
            r_0: 0xCB,
            r_1: 0b00101000,
            hl_0: 0xCB,
            hl_1: 0x2E,
            ix_d_0: 0xDD,
            ix_d_1: 0xCB,
            ix_d_3: 0x2E,
            iy_d_0: 0xFD,
            iy_d_1: 0xCB,
            iy_d_3: 0x2E,
        },
    )
}

pub open spec fn spec_srl_codes() -> RotShiftGrCodes {
    RotShiftGrCodes {
        r_0: 0xCBu8,
        r_1: 0b00111000u8,
        hl_0: 0xCBu8,
        hl_1: 0x3Eu8,
        ix_d_0: 0xDDu8,
        ix_d_1: 0xCBu8,
        ix_d_3: 0x3Eu8,
        iy_d_0: 0xFDu8,
        iy_d_1: 0xCBu8,
        iy_d_3: 0x3Eu8,
    }
}

pub open spec fn spec_srl(i: InstrV) -> Enc {
    spec_rot_shift(i, spec_srl_codes())
}

pub fn inst_srl(inst: &Instruction) -> (r: Result<CompileData, CompileError>)
    ensures
        enc_matches_pure(r, spec_srl(inst@)),
{
    rot_shift(
        inst,
        RotShiftGrCodes {
            r_0: 0xCB,
            r_1: 0b00111000,
            hl_0: 0xCB,
            hl_1: 0x3E,
            ix_d_0: 0xDD,
            ix_d_1: 0xCB,
            ix_d_3: 0x3E,
            iy_d_0: 0xFD,
            iy_d_1: 0xCB,
            iy_d_3: 0x3E,
        },
    )
}

} // verus!
