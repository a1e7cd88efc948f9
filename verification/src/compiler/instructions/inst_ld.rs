//! The `ld` family: 8-bit and 16-bit loads in all their addressing forms.

use crate::compiler::instructions::common::{compile_data_1, compile_data_2, compile_data_3,
    compile_data_4, high_byte, low_byte, spec_high_byte, spec_low_byte, spec_to_2bit_code,
    spec_to_3bit_code, to_2bit_code, to_3bit_code, update_ph};
use crate::compiler::instructions::errors::{CompileError, guard_values_short, spec_guard_short,
    spec_unimplemented_instr, unimplemented_instr};
use crate::compiler::instructions::{CompileData, Enc, PhV, Placeholder, PlaceholderType, enc_err,
    enc_err_ph, enc_matches, enc_ok, enc_ok_ph, phs_view, slot_ok};
use crate::domain::enums::{ShortReg, WideReg};
use crate::domain::{ArgV, Argument, InstrV, Instruction};
use vstd::prelude::*;

verus! {

/// The `ld` encoding table.  The store of the accumulator to a direct
/// address is `0x32`, the symmetric form of `0x3A`.
pub open spec fn spec_ld(i: InstrV, p0: int, p1: int) -> Enc {
    match (i.arg0, i.arg1) {
        (ArgV::ShortReg(ShortReg::A), ArgV::ShortReg(ShortReg::I)) => enc_ok(
            seq![0xEDu8, 0x57u8],
        ),
        (ArgV::ShortReg(ShortReg::A), ArgV::ShortReg(ShortReg::R)) => enc_ok(
            seq![0xEDu8, 0x5Fu8],
        ),
        (ArgV::ShortReg(ShortReg::I), ArgV::ShortReg(ShortReg::A)) => enc_ok(
            seq![0xEDu8, 0x47u8],
        ),
        (ArgV::ShortReg(ShortReg::R), ArgV::ShortReg(ShortReg::A)) => enc_ok(
            seq![0xEDu8, 0x4Fu8],
        ),
        (ArgV::ShortReg(sr0), ArgV::ShortReg(sr1)) => match spec_to_3bit_code(sr0) {
            Err(e) => enc_err(e),
            Ok(c0) => match spec_to_3bit_code(sr1) {
                Err(e) => enc_err(e),
                Ok(c1) => enc_ok(seq![(0b01000000 | (c0 << 3) | c1) as u8]),
            },
        },
        (ArgV::ShortReg(sr0), ArgV::Value(val)) => match spec_guard_short(0, val) {
            Some(e) => enc_err(e),
            None => match spec_to_3bit_code(sr0) {
                Err(e) => enc_err_ph(e, p1, 1, PlaceholderType::ShortValue),
                Ok(c0) => enc_ok_ph(
                    seq![(0b00000110 | (c0 << 3)) as u8, (val % 256) as u8],
                    p1,
                    1,
                    PlaceholderType::ShortValue,
                ),
            },
        },
        (ArgV::ShortReg(sr0), ArgV::WideRegAddress(WideReg::HL)) => match spec_to_3bit_code(sr0) {
            Err(e) => enc_err(e),
            Ok(c0) => enc_ok(seq![(0b01000110 | (c0 << 3)) as u8]),
        },
        (ArgV::ShortReg(sr0), ArgV::RegOffsetAddress(WideReg::IX, offset)) => match spec_guard_short(
            0,
            offset,
        ) {
            Some(e) => enc_err(e),
            None => match spec_to_3bit_code(sr0) {
                Err(e) => enc_err(e),
                Ok(c0) => enc_ok(
                    seq![0xDDu8, (0b01000110 | (c0 << 3)) as u8, (offset % 256) as u8],
                ),
            },
        },
        (ArgV::ShortReg(sr0), ArgV::RegOffsetAddress(WideReg::IY, offset)) => match spec_guard_short(
            0,
            offset,
        ) {
            Some(e) => enc_err(e),
            None => match spec_to_3bit_code(sr0) {
                Err(e) => enc_err(e),
                Ok(c0) => enc_ok(
                    seq![0xFDu8, (0b01000110 | (c0 << 3)) as u8, (offset % 256) as u8],
                ),
            },
        },
        (ArgV::WideRegAddress(WideReg::HL), ArgV::ShortReg(sr)) => match spec_to_3bit_code(sr) {
            Err(e) => enc_err(e),
            Ok(c) => enc_ok(seq![(0b01110000 | c) as u8]),
        },
        (ArgV::RegOffsetAddress(WideReg::IX, offset), ArgV::ShortReg(sr)) => match spec_guard_short(
            offset,
            0,
        ) {
            Some(e) => enc_err(e),
            None => match spec_to_3bit_code(sr) {
                Err(e) => enc_err(e),
                Ok(c) => enc_ok(seq![0xDDu8, (0b01110000 | c) as u8, (offset % 256) as u8]),
            },
        },
        (ArgV::RegOffsetAddress(WideReg::IY, offset), ArgV::ShortReg(sr)) => match spec_guard_short(
            offset,
            0,
        ) {
            Some(e) => enc_err(e),
            None => match spec_to_3bit_code(sr) {
                Err(e) => enc_err(e),
                Ok(c) => enc_ok(seq![0xFDu8, (0b01110000 | c) as u8, (offset % 256) as u8]),
            },
        },
        (ArgV::WideRegAddress(WideReg::HL), ArgV::Value(val)) => match spec_guard_short(0, val) {
            Some(e) => enc_err(e),
            None => enc_ok_ph(
                seq![0x36u8, (val % 256) as u8],
                p1,
                1,
                PlaceholderType::ShortValue,
            ),
        },
        (ArgV::RegOffsetAddress(WideReg::IX, offset), ArgV::Value(val)) => match spec_guard_short(
            offset,
            val,
        ) {
            Some(e) => enc_err(e),
            None => enc_ok_ph(
                seq![0xDDu8, 0x36u8, (offset % 256) as u8, (val % 256) as u8],
                p1,
                3,
                PlaceholderType::ShortValue,
            ),
        },
        (ArgV::RegOffsetAddress(WideReg::IY, offset), ArgV::Value(val)) => match spec_guard_short(
            offset,
            val,
        ) {
            Some(e) => enc_err(e),
            None => enc_ok_ph(
                seq![0xFDu8, 0x36u8, (offset % 256) as u8, (val % 256) as u8],
                p1,
                3,
                PlaceholderType::ShortValue,
            ),
        },
        (ArgV::ShortReg(ShortReg::A), ArgV::WideRegAddress(WideReg::BC)) => enc_ok(seq![0x0Au8]),
        (ArgV::ShortReg(ShortReg::A), ArgV::WideRegAddress(WideReg::DE)) => enc_ok(seq![0x1Au8]),
        (ArgV::ShortReg(ShortReg::A), ArgV::DirectAddress(addr)) => enc_ok_ph(
            seq![0x3Au8, spec_low_byte(addr), spec_high_byte(addr)],
            p1,
            1,
            PlaceholderType::AbsAddress,
        ),
        (ArgV::WideRegAddress(WideReg::BC), ArgV::ShortReg(ShortReg::A)) => enc_ok(seq![0x02u8]),
        (ArgV::WideRegAddress(WideReg::DE), ArgV::ShortReg(ShortReg::A)) => enc_ok(seq![0x12u8]),
        (ArgV::DirectAddress(addr), ArgV::ShortReg(ShortReg::A)) => enc_ok_ph(
            seq![0x32u8, spec_low_byte(addr), spec_high_byte(addr)],
            p0,
            1,
            PlaceholderType::AbsAddress,
        ),
        (ArgV::WideReg(WideReg::IX), ArgV::Value(val)) => enc_ok_ph(
            seq![0xDDu8, 0x21u8, spec_low_byte(val), spec_high_byte(val)],
            p1,
            2,
            PlaceholderType::WideValue,
        ),
        (ArgV::WideReg(WideReg::IY), ArgV::Value(val)) => enc_ok_ph(
            seq![0xFDu8, 0x21u8, spec_low_byte(val), spec_high_byte(val)],
            p1,
            2,
            PlaceholderType::WideValue,
        ),
        (ArgV::WideReg(wr), ArgV::Value(val)) => match spec_to_2bit_code(wr) {
            Err(e) => enc_err_ph(e, p1, 1, PlaceholderType::WideValue),
            Ok(c) => enc_ok_ph(
                seq![(0b00000001 | (c << 4)) as u8, spec_low_byte(val), spec_high_byte(val)],
                p1,
                1,
                PlaceholderType::WideValue,
            ),
        },
        (ArgV::WideReg(WideReg::HL), ArgV::DirectAddress(addr)) => enc_ok_ph(
            seq![0x2Au8, spec_low_byte(addr), spec_high_byte(addr)],
            p1,
            1,
            PlaceholderType::AbsAddress,
        ),
        (ArgV::WideReg(WideReg::IX), ArgV::DirectAddress(addr)) => enc_ok_ph(
            seq![0xDDu8, 0x2Au8, spec_low_byte(addr), spec_high_byte(addr)],
            p1,
            2,
            PlaceholderType::AbsAddress,
        ),
        (ArgV::WideReg(WideReg::IY), ArgV::DirectAddress(addr)) => enc_ok_ph(
            seq![0xFDu8, 0x2Au8, spec_low_byte(addr), spec_high_byte(addr)],
            p1,
            2,
            PlaceholderType::AbsAddress,
        ),
        (ArgV::WideReg(wr), ArgV::DirectAddress(addr)) => match spec_to_2bit_code(wr) {
            Err(e) => enc_err_ph(e, p1, 2, PlaceholderType::AbsAddress),
            Ok(c) => enc_ok_ph(
                seq![
                    0xEDu8,
                    (0b01001011 | (c << 4)) as u8,
                    spec_low_byte(addr),
                    spec_high_byte(addr),
                ],
                p1,
                2,
                PlaceholderType::AbsAddress,
            ),
        },
        (ArgV::DirectAddress(addr), ArgV::WideReg(WideReg::HL)) => enc_ok_ph(
            seq![0x22u8, spec_low_byte(addr), spec_high_byte(addr)],
            p0,
            1,
            PlaceholderType::AbsAddress,
        ),
        (ArgV::DirectAddress(addr), ArgV::WideReg(WideReg::IX)) => enc_ok_ph(
            seq![0xDDu8, 0x22u8, spec_low_byte(addr), spec_high_byte(addr)],
            p0,
            2,
            PlaceholderType::AbsAddress,
        ),
        (ArgV::DirectAddress(addr), ArgV::WideReg(WideReg::IY)) => enc_ok_ph(
            seq![0xFDu8, 0x22u8, spec_low_byte(addr), spec_high_byte(addr)],
            p0,
            2,
            PlaceholderType::AbsAddress,
        ),
        (ArgV::DirectAddress(addr), ArgV::WideReg(wr)) => match spec_to_2bit_code(wr) {
            Err(e) => enc_err_ph(e, p0, 2, PlaceholderType::AbsAddress),
            Ok(c) => enc_ok_ph(
                seq![
                    0xEDu8,
                    (0b01000011 | (c << 4)) as u8,
                    spec_low_byte(addr),
                    spec_high_byte(addr),
                ],
                p0,
                2,
                PlaceholderType::AbsAddress,
            ),
        },
        (ArgV::WideReg(WideReg::SP), ArgV::WideReg(WideReg::HL)) => enc_ok(seq![0xF9u8]),
        (ArgV::WideReg(WideReg::SP), ArgV::WideReg(WideReg::IX)) => enc_ok(seq![0xDDu8, 0xF9u8]),
        (ArgV::WideReg(WideReg::SP), ArgV::WideReg(WideReg::IY)) => enc_ok(seq![0xFDu8, 0xF9u8]),
        (_, _) => enc_err(spec_unimplemented_instr(i)),
    }
}

pub fn compile_ld(inst: &Instruction, p0: isize, p1: isize, phs: &mut Vec<Placeholder>) -> (r:
    Result<CompileData, CompileError>)
    requires
        slot_ok(p0 as int, phs_view(old(phs)@)),
        slot_ok(p1 as int, phs_view(old(phs)@)),
    ensures
        enc_matches(
            r,
            spec_ld(inst@, p0 as int, p1 as int),
            phs_view(old(phs)@),
            phs_view(final(phs)@),
        ),
{
    match (&inst.arg0, &inst.arg1) {
        (Argument::ShortReg(ShortReg::A), Argument::ShortReg(ShortReg::I)) => {
            compile_data_2(0xED, 0x57)
        },
        (Argument::ShortReg(ShortReg::A), Argument::ShortReg(ShortReg::R)) => {
            compile_data_2(0xED, 0x5F)
        },
        (Argument::ShortReg(ShortReg::I), Argument::ShortReg(ShortReg::A)) => {
            compile_data_2(0xED, 0x47)
        },
        (Argument::ShortReg(ShortReg::R), Argument::ShortReg(ShortReg::A)) => {
            compile_data_2(0xED, 0x4F)
        },
        (Argument::ShortReg(sr0), Argument::ShortReg(sr1)) => {
            let c0 = match to_3bit_code(*sr0) {
                Ok(c) => c,
                Err(e) => {
                    return Err(e);
                },
            };
            let c1 = match to_3bit_code(*sr1) {
                Ok(c) => c,
                Err(e) => {
                    return Err(e);
                },
            };
            compile_data_1(0b01000000 | (c0 << 3) | c1)
        },
        (Argument::ShortReg(sr0), Argument::Value(val)) => {
            match guard_values_short(0, *val) {
                Some(e) => {
                    return Err(e);
                },
                None => {},
            }
            update_ph(p1, 1, PlaceholderType::ShortValue, phs);
            let c0 = match to_3bit_code(*sr0) {
                Ok(c) => c,
                Err(e) => {
                    return Err(e);
                },
            };
            compile_data_2(0b00000110 | (c0 << 3), (*val % 256) as u8)
        },
        (Argument::ShortReg(sr0), Argument::WideRegAddress(WideReg::HL)) => {
            let c0 = match to_3bit_code(*sr0) {
                Ok(c) => c,
                Err(e) => {
                    return Err(e);
                },
            };
            compile_data_1(0b01000110 | (c0 << 3))
        },
        (Argument::ShortReg(sr0), Argument::RegOffsetAddress(WideReg::IX, offset)) => {
            match guard_values_short(0, *offset) {
                Some(e) => {
                    return Err(e);
                },
                None => {},
            }
            let c0 = match to_3bit_code(*sr0) {
                Ok(c) => c,
                Err(e) => {
                    return Err(e);
                },
            };
            compile_data_3(0xDD, 0b01000110 | (c0 << 3), (*offset % 256) as u8)
        },
        (Argument::ShortReg(sr0), Argument::RegOffsetAddress(WideReg::IY, offset)) => {
            match guard_values_short(0, *offset) {
                Some(e) => {
                    return Err(e);
                },
                None => {},
            }
            let c0 = match to_3bit_code(*sr0) {
                Ok(c) => c,
                Err(e) => {
                    return Err(e);
                },
            };
            compile_data_3(0xFD, 0b01000110 | (c0 << 3), (*offset % 256) as u8)
        },
        (Argument::WideRegAddress(WideReg::HL), Argument::ShortReg(sr)) => {
            let c = match to_3bit_code(*sr) {
                Ok(c) => c,
                Err(e) => {
                    return Err(e);
                },
            };
            compile_data_1(0b01110000 | c)
        },
        (Argument::RegOffsetAddress(WideReg::IX, offset), Argument::ShortReg(sr)) => {
            match guard_values_short(*offset, 0) {
                Some(e) => {
                    return Err(e);
                },
                None => {},
            }
            let c = match to_3bit_code(*sr) {
                Ok(c) => c,
                Err(e) => {
                    return Err(e);
                },
            };
            compile_data_3(0xDD, 0b01110000 | c, (*offset % 256) as u8)
        },
        (Argument::RegOffsetAddress(WideReg::IY, offset), Argument::ShortReg(sr)) => {
            match guard_values_short(*offset, 0) {
                Some(e) => {
                    return Err(e);
                },
                None => {},
            }
            let c = match to_3bit_code(*sr) {
                Ok(c) => c,
                Err(e) => {
                    return Err(e);
                },
            };
            compile_data_3(0xFD, 0b01110000 | c, (*offset % 256) as u8)
        },
        (Argument::WideRegAddress(WideReg::HL), Argument::Value(val)) => {
            match guard_values_short(0, *val) {
                Some(e) => {
                    return Err(e);
                },
                None => {},
            }
            update_ph(p1, 1, PlaceholderType::ShortValue, phs);
            compile_data_2(0x36, (*val % 256) as u8)
        },
        (Argument::RegOffsetAddress(WideReg::IX, offset), Argument::Value(val)) => {
            match guard_values_short(*offset, *val) {
                Some(e) => {
                    return Err(e);
                },
                None => {},
            }
            update_ph(p1, 3, PlaceholderType::ShortValue, phs);
            compile_data_4(0xDD, 0x36, (*offset % 256) as u8, (*val % 256) as u8)
        },
        (Argument::RegOffsetAddress(WideReg::IY, offset), Argument::Value(val)) => {
            match guard_values_short(*offset, *val) {
                Some(e) => {
                    return Err(e);
                },
                None => {},
            }
            update_ph(p1, 3, PlaceholderType::ShortValue, phs);
            compile_data_4(0xFD, 0x36, (*offset % 256) as u8, (*val % 256) as u8)
        },
        (Argument::ShortReg(ShortReg::A), Argument::WideRegAddress(WideReg::BC)) => {
            compile_data_1(0x0A)
        },
        (Argument::ShortReg(ShortReg::A), Argument::WideRegAddress(WideReg::DE)) => {
            compile_data_1(0x1A)
        },
        (Argument::ShortReg(ShortReg::A), Argument::DirectAddress(addr)) => {
            update_ph(p1, 1, PlaceholderType::AbsAddress, phs);
            compile_data_3(0x3A, low_byte(*addr), high_byte(*addr))
        },
        (Argument::WideRegAddress(WideReg::BC), Argument::ShortReg(ShortReg::A)) => {
            compile_data_1(0x02)
        },
        (Argument::WideRegAddress(WideReg::DE), Argument::ShortReg(ShortReg::A)) => {
            compile_data_1(0x12)
        },
        (Argument::DirectAddress(addr), Argument::ShortReg(ShortReg::A)) => {
            update_ph(p0, 1, PlaceholderType::AbsAddress, phs);
            compile_data_3(0x32, low_byte(*addr), high_byte(*addr))
        },
        (Argument::WideReg(WideReg::IX), Argument::Value(val)) => {
            update_ph(p1, 2, PlaceholderType::WideValue, phs);
            compile_data_4(0xDD, 0x21, low_byte(*val), high_byte(*val))
        },
        (Argument::WideReg(WideReg::IY), Argument::Value(val)) => {
            update_ph(p1, 2, PlaceholderType::WideValue, phs);
            compile_data_4(0xFD, 0x21, low_byte(*val), high_byte(*val))
        },
        (Argument::WideReg(wr), Argument::Value(val)) => {
            update_ph(p1, 1, PlaceholderType::WideValue, phs);
            let c = match to_2bit_code(*wr) {
                Ok(c) => c,
                Err(e) => {
                    return Err(e);
                },
            };
            compile_data_3(0b00000001 | (c << 4), low_byte(*val), high_byte(*val))
        },
        (Argument::WideReg(WideReg::HL), Argument::DirectAddress(addr)) => {
            update_ph(p1, 1, PlaceholderType::AbsAddress, phs);
            compile_data_3(0x2A, low_byte(*addr), high_byte(*addr))
        },
        (Argument::WideReg(WideReg::IX), Argument::DirectAddress(addr)) => {
            update_ph(p1, 2, PlaceholderType::AbsAddress, phs);
            compile_data_4(0xDD, 0x2A, low_byte(*addr), high_byte(*addr))
        },
        (Argument::WideReg(WideReg::IY), Argument::DirectAddress(addr)) => {
            update_ph(p1, 2, PlaceholderType::AbsAddress, phs);
            compile_data_4(0xFD, 0x2A, low_byte(*addr), high_byte(*addr))
        },
        (Argument::WideReg(wr), Argument::DirectAddress(addr)) => {
            update_ph(p1, 2, PlaceholderType::AbsAddress, phs);
            let c = match to_2bit_code(*wr) {
                Ok(c) => c,
                Err(e) => {
                    return Err(e);
                },
            };
            compile_data_4(0xED, 0b01001011 | (c << 4), low_byte(*addr), high_byte(*addr))
        },
        (Argument::DirectAddress(addr), Argument::WideReg(WideReg::HL)) => {
            update_ph(p0, 1, PlaceholderType::AbsAddress, phs);
            compile_data_3(0x22, low_byte(*addr), high_byte(*addr))
        },
        (Argument::DirectAddress(addr), Argument::WideReg(WideReg::IX)) => {
            update_ph(p0, 2, PlaceholderType::AbsAddress, phs);
            compile_data_4(0xDD, 0x22, low_byte(*addr), high_byte(*addr))
        },
        (Argument::DirectAddress(addr), Argument::WideReg(WideReg::IY)) => {
            update_ph(p0, 2, PlaceholderType::AbsAddress, phs);
            compile_data_4(0xFD, 0x22, low_byte(*addr), high_byte(*addr))
        },
        (Argument::DirectAddress(addr), Argument::WideReg(wr)) => {
            update_ph(p0, 2, PlaceholderType::AbsAddress, phs);
            let c = match to_2bit_code(*wr) {
                Ok(c) => c,
                Err(e) => {
                    return Err(e);
                },
            };
            compile_data_4(0xED, 0b01000011 | (c << 4), low_byte(*addr), high_byte(*addr))
        },
        (Argument::WideReg(WideReg::SP), Argument::WideReg(WideReg::HL)) => compile_data_1(0xF9),
        (Argument::WideReg(WideReg::SP), Argument::WideReg(WideReg::IX)) => {
            compile_data_2(0xDD, 0xF9)
        },
        (Argument::WideReg(WideReg::SP), Argument::WideReg(WideReg::IY)) => {
            compile_data_2(0xFD, 0xF9)
        },
        (_, _) => Err(unimplemented_instr(inst)),
    }
}

} // verus!
