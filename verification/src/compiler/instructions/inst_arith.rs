//! The 8-bit ALU group (`add`/`adc`/`sub`/`sbc`/`and`/`or`/`xor`/`cp`), the
//! 16-bit adds, and `inc`/`dec`.

use crate::compiler::instructions::common::{compile_data_1, compile_data_2, compile_data_3,
    spec_to_2bit_code, spec_to_3bit_code, to_2bit_code, to_3bit_code, update_ph};
use crate::compiler::instructions::errors::{CompileError, guard_values_short, spec_guard_short,
    spec_unimplemented_instr, unimplemented_instr};
use crate::compiler::instructions::{CompileData, Enc, Placeholder, PlaceholderType, enc_err,
    enc_matches, enc_ok, enc_ok_ph, phs_view, slot_ok};
use crate::domain::enums::{ShortReg, WideReg};
use crate::domain::{ArgV, Argument, InstrV, Instruction};
use vstd::prelude::*;

verus! {

/// The per-mnemonic byte table of the 8-bit ALU group and of `inc`/`dec`.
#[derive(Copy, Clone)]
pub struct ArithGrCodes {
    pub r: u8,
    pub n: u8,
    pub hl: u8,
    pub ix_d_0: u8,
    pub ix_d_1: u8,
    pub iy_d_0: u8,
    pub iy_d_1: u8,
    pub ss: u8,
    pub ix_0: u8,
    pub ix_1: u8,
    pub iy_0: u8,
    pub iy_1: u8,
}

/// An ALU operation on a register, an immediate, `(HL)` or an indexed
/// operand; `p` is the placeholder slot of the immediate operand.
pub open spec fn spec_arith8(arg: ArgV, p: int, codes: ArithGrCodes, i: InstrV) -> Enc {
    match arg {
        ArgV::ShortReg(sr) => match spec_to_3bit_code(sr) {
            Err(e) => enc_err(e),
            Ok(c) => enc_ok(seq![(codes.r | c) as u8]),
        },
        ArgV::Value(val) => match spec_guard_short(0, val) {
            Some(e) => enc_err(e),
            None => enc_ok_ph(
                seq![codes.n, (val % 256) as u8],
                p,
                1,
                PlaceholderType::ShortValue,
            ),
        },
        ArgV::WideRegAddress(WideReg::HL) => enc_ok(seq![codes.hl]),
        ArgV::RegOffsetAddress(WideReg::IX, offset) => match spec_guard_short(0, offset) {
            Some(e) => enc_err(e),
            None => enc_ok(seq![codes.ix_d_0, codes.ix_d_1, (offset % 256) as u8]),
        },
        ArgV::RegOffsetAddress(WideReg::IY, offset) => match spec_guard_short(0, offset) {
            Some(e) => enc_err(e),
            None => enc_ok(seq![codes.iy_d_0, codes.iy_d_1, (offset % 256) as u8]),
        },
        _ => enc_err(spec_unimplemented_instr(i)),
    }
}

fn arith8(
    arg: &Argument,
    p: isize,
    phs: &mut Vec<Placeholder>,
    codes: ArithGrCodes,
    inst: &Instruction,
) -> (r: Result<CompileData, CompileError>)
    requires
        slot_ok(p as int, phs_view(old(phs)@)),
    ensures
        enc_matches(
            r,
            spec_arith8(arg@, p as int, codes, inst@),
            phs_view(old(phs)@),
            phs_view(final(phs)@),
        ),
{
    match arg {
        Argument::ShortReg(sr) => {
            let c = match to_3bit_code(*sr) {
                Ok(c) => c,
                Err(e) => {
                    return Err(e);
                },
            };
            compile_data_1(codes.r | c)
        },
        Argument::Value(val) => {
            match guard_values_short(0, *val) {
                Some(e) => {
                    return Err(e);
                },
                None => {},
            }
            update_ph(p, 1, PlaceholderType::ShortValue, phs);
            compile_data_2(codes.n, (*val % 256) as u8)
        },
        Argument::WideRegAddress(WideReg::HL) => compile_data_1(codes.hl),
        Argument::RegOffsetAddress(WideReg::IX, offset) => {
            match guard_values_short(0, *offset) {
                Some(e) => {
                    return Err(e);
                },
                None => {},
            }
            compile_data_3(codes.ix_d_0, codes.ix_d_1, (*offset % 256) as u8)
        },
        Argument::RegOffsetAddress(WideReg::IY, offset) => {
            match guard_values_short(0, *offset) {
                Some(e) => {
                    return Err(e);
                },
                None => {},
            }
            compile_data_3(codes.iy_d_0, codes.iy_d_1, (*offset % 256) as u8)
        },
        _ => Err(unimplemented_instr(inst)),
    }
}

/// An `inc`/`dec` operand: a register, `(HL)`, an indexed operand, or a
/// 16-bit register.
pub open spec fn spec_offset(arg: ArgV, codes: ArithGrCodes, i: InstrV) -> Enc {
    match arg {
        ArgV::ShortReg(sr) => match spec_to_3bit_code(sr) {
            Err(e) => enc_err(e),
            Ok(c) => enc_ok(seq![(codes.r | (c << 3)) as u8]),
        },
        ArgV::WideRegAddress(WideReg::HL) => enc_ok(seq![codes.hl]),
        ArgV::RegOffsetAddress(WideReg::IX, offset) => match spec_guard_short(0, offset) {
            Some(e) => enc_err(e),
            None => enc_ok(seq![codes.ix_d_0, codes.ix_d_1, (offset % 256) as u8]),
        },
        ArgV::RegOffsetAddress(WideReg::IY, offset) => match spec_guard_short(0, offset) {
            Some(e) => enc_err(e),
            None => enc_ok(seq![codes.iy_d_0, codes.iy_d_1, (offset % 256) as u8]),
        },
        ArgV::WideReg(WideReg::IX) => enc_ok(seq![codes.ix_0, codes.ix_1]),
        ArgV::WideReg(WideReg::IY) => enc_ok(seq![codes.iy_0, codes.iy_1]),
        ArgV::WideReg(wr) => match spec_to_2bit_code(wr) {
            Err(e) => enc_err(e),
            Ok(c) => enc_ok(seq![(codes.ss | (c << 4)) as u8]),
        },
        _ => enc_err(spec_unimplemented_instr(i)),
    }
}

fn offset(arg: &Argument, codes: ArithGrCodes, inst: &Instruction) -> (r: Result<
    CompileData,
    CompileError,
>)
    ensures
        crate::compiler::instructions::enc_matches_pure(r, spec_offset(arg@, codes, inst@)),
{
    match arg {
        Argument::ShortReg(sr) => {
            let c = match to_3bit_code(*sr) {
                Ok(c) => c,
                Err(e) => {
                    return Err(e);
                },
            };
            compile_data_1(codes.r | (c << 3))
        },
        Argument::WideRegAddress(WideReg::HL) => compile_data_1(codes.hl),
        Argument::RegOffsetAddress(WideReg::IX, offset) => {
            match guard_values_short(0, *offset) {
                Some(e) => {
                    return Err(e);
                },
                None => {},
            }
            compile_data_3(codes.ix_d_0, codes.ix_d_1, (*offset % 256) as u8)
        },
        Argument::RegOffsetAddress(WideReg::IY, offset) => {
            match guard_values_short(0, *offset) {
                Some(e) => {
                    return Err(e);
                },
                None => {},
            }
            compile_data_3(codes.iy_d_0, codes.iy_d_1, (*offset % 256) as u8)
        },
        Argument::WideReg(WideReg::IX) => compile_data_2(codes.ix_0, codes.ix_1),
        Argument::WideReg(WideReg::IY) => compile_data_2(codes.iy_0, codes.iy_1),
        Argument::WideReg(wr) => {
            let c = match to_2bit_code(*wr) {
                Ok(c) => c,
                Err(e) => {
                    return Err(e);
                },
            };
            compile_data_1(codes.ss | (c << 4))
        },
        _ => Err(unimplemented_instr(inst)),
    }
}

pub open spec fn spec_add_codes() -> ArithGrCodes {
    ArithGrCodes {
        r: 0b10000000u8,
        n: 0xC6u8,
        hl: 0x86u8,
        ix_d_0: 0xDDu8,
        ix_d_1: 0x86u8,
        iy_d_0: 0xFDu8,
        iy_d_1: 0x86u8,
        ss: 0u8,
        ix_0: 0u8,
        ix_1: 0u8,
        iy_0: 0u8,
        iy_1: 0u8,
    }
}

fn add_codes() -> (r: ArithGrCodes)
    ensures
        r == spec_add_codes(),
{
    ArithGrCodes {
        r: 0b10000000,
        n: 0xC6,
        hl: 0x86,
        ix_d_0: 0xDD,
        ix_d_1: 0x86,
        iy_d_0: 0xFD,
        iy_d_1: 0x86,
        ss: 0,
        ix_0: 0,
        ix_1: 0,
        iy_0: 0,
        iy_1: 0,
    }
}

pub open spec fn spec_adc_codes() -> ArithGrCodes {
    ArithGrCodes {
        r: 0b10001000u8,
        n: 0xCEu8,
        hl: 0x8Eu8,
        ix_d_0: 0xDDu8,
        ix_d_1: 0x8Eu8,
        iy_d_0: 0xFDu8,
        iy_d_1: 0x8Eu8,
        ss: 0u8,
        ix_0: 0u8,
        ix_1: 0u8,
        iy_0: 0u8,
        iy_1: 0u8,
    }
}

fn adc_codes() -> (r: ArithGrCodes)
    ensures
        r == spec_adc_codes(),
{
    ArithGrCodes {
        r: 0b10001000,
        n: 0xCE,
        hl: 0x8E,
        ix_d_0: 0xDD,
        ix_d_1: 0x8E,
        iy_d_0: 0xFD,
        iy_d_1: 0x8E,
        ss: 0,
        ix_0: 0,
        ix_1: 0,
        iy_0: 0,
        iy_1: 0,
    }
}

pub open spec fn spec_sub_codes() -> ArithGrCodes {
    ArithGrCodes {
        r: 0b10010000u8,
        n: 0xD6u8,
        hl: 0x96u8,
        ix_d_0: 0xDDu8,
        ix_d_1: 0x96u8,
        iy_d_0: 0xFDu8,
        iy_d_1: 0x96u8,
        ss: 0u8,
        ix_0: 0u8,
        ix_1: 0u8,
        iy_0: 0u8,
        iy_1: 0u8,
    }
}

fn sub_codes() -> (r: ArithGrCodes)
    ensures
        r == spec_sub_codes(),
{
    ArithGrCodes {
        r: 0b10010000,
        n: 0xD6,
        hl: 0x96,
        ix_d_0: 0xDD,
        ix_d_1: 0x96,
        iy_d_0: 0xFD,
        iy_d_1: 0x96,
        ss: 0,
        ix_0: 0,
        ix_1: 0,
        iy_0: 0,
        iy_1: 0,
    }
}

pub open spec fn spec_sbc_codes() -> ArithGrCodes {
    ArithGrCodes {
        r: 0b10011000u8,
        n: 0xDEu8,
        hl: 0x9Eu8,
        ix_d_0: 0xDDu8,
        ix_d_1: 0x9Eu8,
        iy_d_0: 0xFDu8,
        iy_d_1: 0x9Eu8,
        ss: 0u8,
        ix_0: 0u8,
        ix_1: 0u8,
        iy_0: 0u8,
        iy_1: 0u8,
    }
}

fn sbc_codes() -> (r: ArithGrCodes)
    ensures
        r == spec_sbc_codes(),
{
    ArithGrCodes {
        r: 0b10011000,
        n: 0xDE,
        hl: 0x9E,
        ix_d_0: 0xDD,
        ix_d_1: 0x9E,
        iy_d_0: 0xFD,
        iy_d_1: 0x9E,
        ss: 0,
        ix_0: 0,
        ix_1: 0,
        iy_0: 0,
        iy_1: 0,
    }
}

pub open spec fn spec_and_codes() -> ArithGrCodes {
    ArithGrCodes {
        r: 0b10100000u8,
        n: 0xE6u8,
        hl: 0xA6u8,
        ix_d_0: 0xDDu8,
        ix_d_1: 0xA6u8,
        iy_d_0: 0xFDu8,
        iy_d_1: 0xA6u8,
        ss: 0u8,
        ix_0: 0u8,
        ix_1: 0u8,
        iy_0: 0u8,
        iy_1: 0u8,
    }
}

fn and_codes() -> (r: ArithGrCodes)
    ensures
        r == spec_and_codes(),
{
    ArithGrCodes {
        r: 0b10100000,
        n: 0xE6,
        hl: 0xA6,
        ix_d_0: 0xDD,
        ix_d_1: 0xA6,
        iy_d_0: 0xFD,
        iy_d_1: 0xA6,
        ss: 0,
        ix_0: 0,
        ix_1: 0,
        iy_0: 0,
        iy_1: 0,
    }
}

pub open spec fn spec_or_codes() -> ArithGrCodes {
    ArithGrCodes {
        r: 0b10110000u8,
        n: 0xF6u8,
        hl: 0xB6u8,
        ix_d_0: 0xDDu8,
        ix_d_1: 0xB6u8,
        iy_d_0: 0xFDu8,
        iy_d_1: 0xB6u8,
        ss: 0u8,
        ix_0: 0u8,
        ix_1: 0u8,
        iy_0: 0u8,
        iy_1: 0u8,
    }
}

fn or_codes() -> (r: ArithGrCodes)
    ensures
        r == spec_or_codes(),
{
    ArithGrCodes {
        r: 0b10110000,
        n: 0xF6,
        hl: 0xB6,
        ix_d_0: 0xDD,
        ix_d_1: 0xB6,
        iy_d_0: 0xFD,
        iy_d_1: 0xB6,
        ss: 0,
        ix_0: 0,
        ix_1: 0,
        iy_0: 0,
        iy_1: 0,
    }
}

pub open spec fn spec_xor_codes() -> ArithGrCodes {
    ArithGrCodes {
        r: 0b10101000u8,
        n: 0xEEu8,
        hl: 0xAEu8,
        ix_d_0: 0xDDu8,
        ix_d_1: 0xAEu8,
        iy_d_0: 0xFDu8,
        iy_d_1: 0xAEu8,
        ss: 0u8,
        ix_0: 0u8,
        ix_1: 0u8,
        iy_0: 0u8,
        iy_1: 0u8,
    }
}

fn xor_codes() -> (r: ArithGrCodes)
    ensures
        r == spec_xor_codes(),
{
    ArithGrCodes {
        r: 0b10101000,
        n: 0xEE,
        hl: 0xAE,
        ix_d_0: 0xDD,
        ix_d_1: 0xAE,
        iy_d_0: 0xFD,
        iy_d_1: 0xAE,
        ss: 0,
        ix_0: 0,
        ix_1: 0,
        iy_0: 0,
        iy_1: 0,
    }
}

pub open spec fn spec_cp_codes() -> ArithGrCodes {
    ArithGrCodes {
        r: 0b10111000u8,
        n: 0xFEu8,
        hl: 0xBEu8,
        ix_d_0: 0xDDu8,
        ix_d_1: 0xBEu8,
        iy_d_0: 0xFDu8,
        iy_d_1: 0xBEu8,
        ss: 0u8,
        ix_0: 0u8,
        ix_1: 0u8,
        iy_0: 0u8,
        iy_1: 0u8,
    }
}

fn cp_codes() -> (r: ArithGrCodes)
    ensures
        r == spec_cp_codes(),
{
    ArithGrCodes {
        r: 0b10111000,
        n: 0xFE,
        hl: 0xBE,
        ix_d_0: 0xDD,
        ix_d_1: 0xBE,
        iy_d_0: 0xFD,
        iy_d_1: 0xBE,
        ss: 0,
        ix_0: 0,
        ix_1: 0,
        iy_0: 0,
        iy_1: 0,
    }
}

pub open spec fn spec_inc_codes() -> ArithGrCodes {
    ArithGrCodes {
        r: 0b00000100u8,
        n: 0u8,
        hl: 0x34u8,
        ix_d_0: 0xDDu8,
        ix_d_1: 0x34u8,
        iy_d_0: 0xFDu8,
        iy_d_1: 0x34u8,
        ss: 0b00000011u8,
        ix_0: 0xDDu8,
        ix_1: 0x23u8,
        iy_0: 0xFDu8,
        iy_1: 0x23u8,
    }
}

fn inc_codes() -> (r: ArithGrCodes)
    ensures
        r == spec_inc_codes(),
{
    ArithGrCodes {
        r: 0b00000100,
        n: 0,
        hl: 0x34,
        ix_d_0: 0xDD,
        ix_d_1: 0x34,
        iy_d_0: 0xFD,
        iy_d_1: 0x34,
        ss: 0b00000011,
        ix_0: 0xDD,
        ix_1: 0x23,
        iy_0: 0xFD,
        iy_1: 0x23,
    }
}

pub open spec fn spec_dec_codes() -> ArithGrCodes {
    ArithGrCodes {
        r: 0b00000101u8,
        n: 0u8,
        hl: 0x35u8,
        ix_d_0: 0xDDu8,
        ix_d_1: 0x35u8,
        iy_d_0: 0xFDu8,
        iy_d_1: 0x35u8,
        ss: 0b00001011u8,
        ix_0: 0xDDu8,
        ix_1: 0x2Bu8,
        iy_0: 0xFDu8,
        iy_1: 0x2Bu8,
    }
}

fn dec_codes() -> (r: ArithGrCodes)
    ensures
        r == spec_dec_codes(),
{
    ArithGrCodes {
        r: 0b00000101,
        n: 0,
        hl: 0x35,
        ix_d_0: 0xDD,
        ix_d_1: 0x35,
        iy_d_0: 0xFD,
        iy_d_1: 0x35,
        ss: 0b00001011,
        ix_0: 0xDD,
        ix_1: 0x2B,
        iy_0: 0xFD,
        iy_1: 0x2B,
    }
}

pub open spec fn spec_add(i: InstrV, p0: int, p1: int) -> Enc {
    match (i.arg0, i.arg1) {
        (ArgV::ShortReg(ShortReg::A), arg) => spec_arith8(arg, p1, spec_add_codes(), i),
        (ArgV::WideReg(WideReg::HL), ArgV::WideReg(wr)) => match spec_to_2bit_code(wr) {
            Err(e) => enc_err(e),
            Ok(c) => enc_ok(seq![(0b00001001 | (c << 4)) as u8]),
        },
        (ArgV::WideReg(WideReg::IX), ArgV::WideReg(wr)) => match spec_to_2bit_code(wr) {
            Err(e) => enc_err(e),
            Ok(c) => enc_ok(seq![0xDDu8, (0b00001001 | (c << 4)) as u8]),
        },
        (ArgV::WideReg(WideReg::IY), ArgV::WideReg(wr)) => match spec_to_2bit_code(wr) {
            Err(e) => enc_err(e),
            Ok(c) => enc_ok(seq![0xFDu8, (0b00001001 | (c << 4)) as u8]),
        },
        _ => enc_err(spec_unimplemented_instr(i)),
    }
}

pub fn inst_add(inst: &Instruction, _p0: isize, p1: isize, phs: &mut Vec<Placeholder>) -> (r:
    Result<CompileData, CompileError>)
    requires
        slot_ok(p1 as int, phs_view(old(phs)@)),
    ensures
        enc_matches(
            r,
            spec_add(inst@, _p0 as int, p1 as int),
            phs_view(old(phs)@),
            phs_view(final(phs)@),
        ),
{
    match (&inst.arg0, &inst.arg1) {
        (Argument::ShortReg(ShortReg::A), arg) => arith8(arg, p1, phs, add_codes(), inst),
        (Argument::WideReg(WideReg::HL), Argument::WideReg(wr)) => {
            let c = match to_2bit_code(*wr) {
                Ok(c) => c,
                Err(e) => {
                    return Err(e);
                },
            };
            compile_data_1(0b00001001 | (c << 4))
        },
        (Argument::WideReg(WideReg::IX), Argument::WideReg(wr)) => {
            let c = match to_2bit_code(*wr) {
                Ok(c) => c,
                Err(e) => {
                    return Err(e);
                },
            };
            compile_data_2(0xDD, 0b00001001 | (c << 4))
        },
        (Argument::WideReg(WideReg::IY), Argument::WideReg(wr)) => {
            let c = match to_2bit_code(*wr) {
                Ok(c) => c,
                Err(e) => {
                    return Err(e);
                },
            };
            compile_data_2(0xFD, 0b00001001 | (c << 4))
        },
        _ => Err(unimplemented_instr(inst)),
    }
}

pub open spec fn spec_adc(i: InstrV, p0: int, p1: int) -> Enc {
    match (i.arg0, i.arg1) {
        (ArgV::ShortReg(ShortReg::A), arg) => spec_arith8(arg, p1, spec_adc_codes(), i),
        (ArgV::WideReg(WideReg::HL), ArgV::WideReg(wr)) => match spec_to_2bit_code(wr) {
            Err(e) => enc_err(e),
            Ok(c) => enc_ok(seq![0xEDu8, (0b01001010 | (c << 4)) as u8]),
        },
        _ => enc_err(spec_unimplemented_instr(i)),
    }
}

pub fn inst_adc(inst: &Instruction, _p0: isize, p1: isize, phs: &mut Vec<Placeholder>) -> (r:
    Result<CompileData, CompileError>)
    requires
        slot_ok(p1 as int, phs_view(old(phs)@)),
    ensures
        enc_matches(
            r,
            spec_adc(inst@, _p0 as int, p1 as int),
            phs_view(old(phs)@),
            phs_view(final(phs)@),
        ),
{
    match (&inst.arg0, &inst.arg1) {
        (Argument::ShortReg(ShortReg::A), arg) => arith8(arg, p1, phs, adc_codes(), inst),
        (Argument::WideReg(WideReg::HL), Argument::WideReg(wr)) => {
            let c = match to_2bit_code(*wr) {
                Ok(c) => c,
                Err(e) => {
                    return Err(e);
                },
            };
            compile_data_2(0xED, 0b01001010 | (c << 4))
        },
        _ => Err(unimplemented_instr(inst)),
    }
}

pub open spec fn spec_sub(i: InstrV, p0: int, p1: int) -> Enc {
    match (i.arg0, i.arg1) {
        (arg, ArgV::Empty) => spec_arith8(arg, p0, spec_sub_codes(), i),
        _ => enc_err(spec_unimplemented_instr(i)),
    }
}

pub fn inst_sub(inst: &Instruction, p0: isize, _p1: isize, phs: &mut Vec<Placeholder>) -> (r:
    Result<CompileData, CompileError>)
    requires
        slot_ok(p0 as int, phs_view(old(phs)@)),
    ensures
        enc_matches(
            r,
            spec_sub(inst@, p0 as int, _p1 as int),
            phs_view(old(phs)@),
            phs_view(final(phs)@),
        ),
{
    match (&inst.arg0, &inst.arg1) {
        (arg, Argument::Empty) => arith8(arg, p0, phs, sub_codes(), inst),
        _ => Err(unimplemented_instr(inst)),
    }
}

pub open spec fn spec_sbc(i: InstrV, p0: int, p1: int) -> Enc {
    match (i.arg0, i.arg1) {
        (ArgV::ShortReg(ShortReg::A), arg) => spec_arith8(arg, p1, spec_sbc_codes(), i),
        (ArgV::WideReg(WideReg::HL), ArgV::WideReg(wr)) => match spec_to_2bit_code(wr) {
            Err(e) => enc_err(e),
            Ok(c) => enc_ok(seq![0xEDu8, (0b01000010 | (c << 4)) as u8]),
        },
        _ => enc_err(spec_unimplemented_instr(i)),
    }
}

pub fn inst_sbc(inst: &Instruction, _p0: isize, p1: isize, phs: &mut Vec<Placeholder>) -> (r:
    Result<CompileData, CompileError>)
    requires
        slot_ok(p1 as int, phs_view(old(phs)@)),
    ensures
        enc_matches(
            r,
            spec_sbc(inst@, _p0 as int, p1 as int),
            phs_view(old(phs)@),
            phs_view(final(phs)@),
        ),
{
    match (&inst.arg0, &inst.arg1) {
        (Argument::ShortReg(ShortReg::A), arg) => arith8(arg, p1, phs, sbc_codes(), inst),
        (Argument::WideReg(WideReg::HL), Argument::WideReg(wr)) => {
            let c = match to_2bit_code(*wr) {
                Ok(c) => c,
                Err(e) => {
                    return Err(e);
                },
            };
            compile_data_2(0xED, 0b01000010 | (c << 4))
        },
        _ => Err(unimplemented_instr(inst)),
    }
}

pub open spec fn spec_and(i: InstrV, p0: int, p1: int) -> Enc {
    match (i.arg0, i.arg1) {
        (arg, ArgV::Empty) => spec_arith8(arg, p0, spec_and_codes(), i),
        _ => enc_err(spec_unimplemented_instr(i)),
    }
}

pub fn inst_and(inst: &Instruction, p0: isize, _p1: isize, phs: &mut Vec<Placeholder>) -> (r:
    Result<CompileData, CompileError>)
    requires
        slot_ok(p0 as int, phs_view(old(phs)@)),
    ensures
        enc_matches(
            r,
            spec_and(inst@, p0 as int, _p1 as int),
            phs_view(old(phs)@),
            phs_view(final(phs)@),
        ),
{
    match (&inst.arg0, &inst.arg1) {
        (arg, Argument::Empty) => arith8(arg, p0, phs, and_codes(), inst),
        _ => Err(unimplemented_instr(inst)),
    }
}

pub open spec fn spec_or(i: InstrV, p0: int, p1: int) -> Enc {
    match (i.arg0, i.arg1) {
        (arg, ArgV::Empty) => spec_arith8(arg, p0, spec_or_codes(), i),
        _ => enc_err(spec_unimplemented_instr(i)),
    }
}

pub fn inst_or(inst: &Instruction, p0: isize, _p1: isize, phs: &mut Vec<Placeholder>) -> (r:
    Result<CompileData, CompileError>)
    requires
        slot_ok(p0 as int, phs_view(old(phs)@)),
    ensures
        enc_matches(
            r,
            spec_or(inst@, p0 as int, _p1 as int),
            phs_view(old(phs)@),
            phs_view(final(phs)@),
        ),
{
    match (&inst.arg0, &inst.arg1) {
        (arg, Argument::Empty) => arith8(arg, p0, phs, or_codes(), inst),
        _ => Err(unimplemented_instr(inst)),
    }
}

pub open spec fn spec_xor(i: InstrV, p0: int, p1: int) -> Enc {
    match (i.arg0, i.arg1) {
        (arg, ArgV::Empty) => spec_arith8(arg, p0, spec_xor_codes(), i),
        _ => enc_err(spec_unimplemented_instr(i)),
    }
}

pub fn inst_xor(inst: &Instruction, p0: isize, _p1: isize, phs: &mut Vec<Placeholder>) -> (r:
    Result<CompileData, CompileError>)
    requires
        slot_ok(p0 as int, phs_view(old(phs)@)),
    ensures
        enc_matches(
            r,
            spec_xor(inst@, p0 as int, _p1 as int),
            phs_view(old(phs)@),
            phs_view(final(phs)@),
        ),
{
    match (&inst.arg0, &inst.arg1) {
        (arg, Argument::Empty) => arith8(arg, p0, phs, xor_codes(), inst),
        _ => Err(unimplemented_instr(inst)),
    }
}

pub open spec fn spec_cp(i: InstrV, p0: int, p1: int) -> Enc {
    match (i.arg0, i.arg1) {
        (arg, ArgV::Empty) => spec_arith8(arg, p0, spec_cp_codes(), i),
        _ => enc_err(spec_unimplemented_instr(i)),
    }
}

pub fn inst_cp(inst: &Instruction, p0: isize, _p1: isize, phs: &mut Vec<Placeholder>) -> (r:
    Result<CompileData, CompileError>)
    requires
        slot_ok(p0 as int, phs_view(old(phs)@)),
    ensures
        enc_matches(
            r,
            spec_cp(inst@, p0 as int, _p1 as int),
            phs_view(old(phs)@),
            phs_view(final(phs)@),
        ),
{
    match (&inst.arg0, &inst.arg1) {
        (arg, Argument::Empty) => arith8(arg, p0, phs, cp_codes(), inst),
        _ => Err(unimplemented_instr(inst)),
    }
}

pub open spec fn spec_inc(i: InstrV) -> Enc {
    match (i.arg0, i.arg1) {
        (arg, ArgV::Empty) => spec_offset(arg, spec_inc_codes(), i),
        _ => enc_err(spec_unimplemented_instr(i)),
    }
}

pub fn inst_inc(inst: &Instruction) -> (r: Result<CompileData, CompileError>)
    ensures
        crate::compiler::instructions::enc_matches_pure(r, spec_inc(inst@)),
{
    match (&inst.arg0, &inst.arg1) {
        (arg, Argument::Empty) => offset(arg, inc_codes(), inst),
        _ => Err(unimplemented_instr(inst)),
    }
}

pub open spec fn spec_dec(i: InstrV) -> Enc {
    match (i.arg0, i.arg1) {
        (arg, ArgV::Empty) => spec_offset(arg, spec_dec_codes(), i),
        _ => enc_err(spec_unimplemented_instr(i)),
    }
}

pub fn inst_dec(inst: &Instruction) -> (r: Result<CompileData, CompileError>)
    ensures
        crate::compiler::instructions::enc_matches_pure(r, spec_dec(inst@)),
{
    match (&inst.arg0, &inst.arg1) {
        (arg, Argument::Empty) => offset(arg, dec_codes(), inst),
        _ => Err(unimplemented_instr(inst)),
    }
}

} // verus!
