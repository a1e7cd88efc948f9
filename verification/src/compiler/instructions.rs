//! The instruction encoder: one dispatch entry per mnemonic family, each
//! producing 1-4 opcode bytes and possibly finalizing a placeholder.
//!
//! Every encoding is stated once as a specification function (`spec_*`) that
//! yields the bytes, the placeholder effect and the fault, and the executable
//! encoder is proved against it.

pub mod common;
pub mod errors;
pub mod inst_arith;
pub mod inst_bit;
pub mod inst_ex;
pub mod inst_exx;
pub mod inst_im;
pub mod inst_inout;
pub mod inst_jump;
pub mod inst_ld;
pub mod inst_rot_shift;
pub mod instr_stack;

pub use crate::compiler::instructions::errors::{CEV, CErrV, CompileError, CompileErrorType};
pub use crate::compiler::instructions::errors::label_not_found;

use crate::compiler::instructions::common::{compile_data_1, compile_data_2, compile_data_3, low_byte, high_byte,
    spec_low_byte, spec_high_byte, spec_to_cond_code, to_cond_code, update_ph};
use crate::compiler::instructions::errors::{guard_values_short, spec_guard_short,
    spec_unimplemented_instr, unexpected_arguments, unimplemented_instr};
use crate::domain::{ArgV, Argument, InstrV, Instruction};
use crate::strutil::str_eq;
use vstd::prelude::*;

verus! {

/// Up to four encoded opcode bytes.
pub struct CompileData {
    pub len: u8,
    pub data: [u8; 4],
}

impl CompileData {
    pub open spec fn wf(&self) -> bool {
        1 <= self.len <= 4
    }

    /// The encoded bytes: the first `len` cells of `data`.
    pub open spec fn bytes(&self) -> Seq<u8> {
        self.data@.take(self.len as int)
    }

    /// The cells after the encoded bytes hold zeroes.
    pub open spec fn zero_padded(&self) -> bool {
        self.data@ == self.bytes() + Seq::new((4 - self.len as int) as nat, |i: int| 0u8)
    }
}

/// How an operand's unresolved label is patched later.
#[derive(Copy, Clone, Debug, PartialEq, Eq, Structural)]
pub enum PlaceholderType {
    ShortValue,
    WideValue,
    AbsAddress,
    RelAddress,
    Undefined,
}

/// Mathematical view of a `Placeholder`.
pub struct PhV {
    pub idx: int,
    pub label: Seq<char>,
    pub kind: PlaceholderType,
    pub line: int,
}

/// A byte position in the output reserved for a label that may not be
/// defined yet.
#[derive(Debug)]
pub struct Placeholder {
    pub idx: usize,
    pub label: String,
    pub ph_type: PlaceholderType,
    pub line: usize,
}

impl View for Placeholder {
    type V = PhV;

    open spec fn view(&self) -> PhV {
        PhV {
            idx: self.idx as int,
            label: self.label@,
            kind: self.ph_type,
            line: self.line as int,
        }
    }
}

impl Clone for Placeholder {
    fn clone(&self) -> (r: Placeholder)
        ensures
            r@ == self@,
    {
        Placeholder {
            idx: self.idx,
            label: self.label.clone(),
            ph_type: self.ph_type,
            line: self.line,
        }
    }
}

impl PartialEq for Placeholder {
    fn eq(&self, other: &Placeholder) -> (r: bool)
        ensures
            r == (self@ == other@),
    {
        self.idx == other.idx && crate::strutil::str_eq(self.label.as_str(), other.label.as_str())
            && self.ph_type == other.ph_type && self.line == other.line
    }
}

impl vstd::std_specs::cmp::PartialEqSpecImpl for Placeholder {
    open spec fn obeys_eq_spec() -> bool {
        true
    }

    open spec fn eq_spec(&self, other: &Placeholder) -> bool {
        self@ == other@
    }
}

impl Eq for Placeholder {

}

pub open spec fn phs_view(phs: Seq<Placeholder>) -> Seq<PhV> {
    phs.map_values(|p: Placeholder| p@)
}

/// A placeholder finalization: slot `slot` (negative: none) moves forward by
/// `delta` bytes and takes kind `kind`.
pub struct PhUpd {
    pub slot: int,
    pub delta: int,
    pub kind: PlaceholderType,
}

/// The placeholder list after an encoding's effect.
pub open spec fn apply_ph(phs: Seq<PhV>, eff: Option<PhUpd>) -> Seq<PhV> {
    match eff {
        None => phs,
        Some(u) => {
            if 0 <= u.slot < phs.len() {
                phs.update(
                    u.slot,
                    PhV {
                        idx: phs[u.slot].idx + u.delta,
                        label: phs[u.slot].label,
                        kind: u.kind,
                        line: phs[u.slot].line,
                    },
                )
            } else {
                phs
            }
        },
    }
}

/// A slot index an encoder may be handed: either dead, or a valid index
/// whose placeholder can still move forward by an instruction length.
pub open spec fn slot_ok(p: int, phs: Seq<PhV>) -> bool {
    p >= 0 ==> p < phs.len() && phs[p].idx + 3 <= usize::MAX
}

/// Result of one specified encoding: the bytes or the fault, and the
/// placeholder effect (which applies even when a fault follows it, as the
/// encoder finalizes a slot before it checks the register code).
pub struct Enc {
    pub res: Result<Seq<u8>, CEV>,
    pub eff: Option<PhUpd>,
}

pub open spec fn enc_ok(bytes: Seq<u8>) -> Enc {
    Enc { res: Ok(bytes), eff: None }
}

pub open spec fn enc_ok_ph(bytes: Seq<u8>, slot: int, delta: int, kind: PlaceholderType) -> Enc {
    Enc { res: Ok(bytes), eff: Some(PhUpd { slot, delta, kind }) }
}

pub open spec fn enc_err(e: CEV) -> Enc {
    Enc { res: Err(e), eff: None }
}

pub open spec fn enc_err_ph(e: CEV, slot: int, delta: int, kind: PlaceholderType) -> Enc {
    Enc { res: Err(e), eff: Some(PhUpd { slot, delta, kind }) }
}

/// As `enc_matches`, for an encoder that takes no placeholder list: no
/// effect, and the bytes or the fault are exactly the specified ones.
pub open spec fn enc_matches_pure(r: Result<CompileData, CompileError>, enc: Enc) -> bool {
    &&& enc.eff is None
    &&& match r {
        Ok(cd) => cd.wf() && cd.zero_padded() && enc.res == Ok::<Seq<u8>, CEV>(cd.bytes()),
        Err(e) => enc.res == Err::<Seq<u8>, CEV>(e@),
    }
}

/// The relation every executable encoder bears to its specification.
pub open spec fn enc_matches(
    r: Result<CompileData, CompileError>,
    enc: Enc,
    phs_old: Seq<PhV>,
    phs_new: Seq<PhV>,
) -> bool {
    &&& phs_new == apply_ph(phs_old, enc.eff)
    &&& match r {
        Ok(cd) => cd.wf() && cd.zero_padded() && enc.res == Ok::<Seq<u8>, CEV>(cd.bytes()),
        Err(e) => enc.res == Err::<Seq<u8>, CEV>(e@),
    }
}

/// An instruction that takes no operands: the fixed bytes, or the fault
/// naming the stray operand.
pub open spec fn spec_no_args(i: InstrV, bytes: Seq<u8>) -> Enc {
    match (i.arg0, i.arg1) {
        (ArgV::Empty, ArgV::Empty) => enc_ok(bytes),
        (ArgV::Empty, a1) => enc_err(errors::spec_unexpected_arguments(i, a1)),
        (a0, _) => enc_err(errors::spec_unexpected_arguments(i, a0)),
    }
}

fn inst_no_args(data: Result<CompileData, CompileError>, inst: &Instruction) -> (r: Result<
    CompileData,
    CompileError,
>)
    requires
        data matches Ok(cd) && cd.wf() && cd.zero_padded(),
    ensures
        enc_matches_pure(r, spec_no_args(inst@, data->Ok_0.bytes())),
{
    match (&inst.arg0, &inst.arg1) {
        (Argument::Empty, Argument::Empty) => data,
        (Argument::Empty, _) => Err(unexpected_arguments(inst, &inst.arg1)),
        (_, _) => Err(unexpected_arguments(inst, &inst.arg0)),
    }
}

/// `call`, unconditional or conditional; the operand is an absolute address
/// patched at fix-up when it came from a label.
pub open spec fn spec_call(i: InstrV, p0: int, p1: int) -> Enc {
    match (i.arg0, i.arg1) {
        (ArgV::Value(val), ArgV::Empty) => enc_ok_ph(
            seq![0xCDu8, spec_low_byte(val), spec_high_byte(val)],
            p0,
            1,
            PlaceholderType::AbsAddress,
        ),
        (ArgV::Condition(c), ArgV::Value(val)) => enc_ok_ph(
            seq![
                (0b11000100 | (spec_to_cond_code(c) << 3)) as u8,
                spec_low_byte(val),
                spec_high_byte(val),
            ],
            p1,
            1,
            PlaceholderType::AbsAddress,
        ),
        _ => enc_err(spec_unimplemented_instr(i)),
    }
}

fn compile_call(inst: &Instruction, p0: isize, p1: isize, phs: &mut Vec<Placeholder>) -> (r:
    Result<CompileData, CompileError>)
    requires
        slot_ok(p0 as int, phs_view(old(phs)@)),
        slot_ok(p1 as int, phs_view(old(phs)@)),
    ensures
        enc_matches(
            r,
            spec_call(inst@, p0 as int, p1 as int),
            phs_view(old(phs)@),
            phs_view(final(phs)@),
        ),
{
    match (&inst.arg0, &inst.arg1) {
        (Argument::Value(val), Argument::Empty) => {
            update_ph(p0, 1, PlaceholderType::AbsAddress, phs);
            compile_data_3(0xCD, low_byte(*val), high_byte(*val))
        },
        (Argument::Condition(c), Argument::Value(val)) => {
            let cc = match to_cond_code(*c) {
                Ok(cc) => cc,
                Err(e) => {
                    return Err(e);
                },
            };
            update_ph(p1, 1, PlaceholderType::AbsAddress, phs);
            compile_data_3(0b11000100 | (cc << 3), low_byte(*val), high_byte(*val))
        },
        (_, _) => Err(unimplemented_instr(inst)),
    }
}

/// `ret`, unconditional or conditional.
pub open spec fn spec_ret(i: InstrV) -> Enc {
    match (i.arg0, i.arg1) {
        (ArgV::Empty, ArgV::Empty) => enc_ok(seq![0xC9u8]),
        (ArgV::Condition(c), ArgV::Empty) => enc_ok(
            seq![(0b11000000 | (spec_to_cond_code(c) << 3)) as u8],
        ),
        _ => enc_err(spec_unimplemented_instr(i)),
    }
}

fn compile_ret(inst: &Instruction) -> (r: Result<CompileData, CompileError>)
    ensures
        enc_matches_pure(r, spec_ret(inst@)),
{
    match (&inst.arg0, &inst.arg1) {
        (Argument::Empty, Argument::Empty) => compile_data_1(0xC9),
        (Argument::Condition(c), Argument::Empty) => {
            let cc = match to_cond_code(*c) {
                Ok(cc) => cc,
                Err(e) => {
                    return Err(e);
                },
            };
            compile_data_1(0b11000000 | (cc << 3))
        },
        (_, _) => Err(unimplemented_instr(inst)),
    }
}

/// `rst`: any value below 256 is accepted and masked to the legal reset
/// targets.
pub open spec fn spec_rst(i: InstrV) -> Enc {
    match (i.arg0, i.arg1) {
        (ArgV::Value(val), ArgV::Empty) => match spec_guard_short(val, 0) {
            Some(e) => enc_err(e),
            None => enc_ok(seq![(0b11000111 | ((val as u8) & 0b00111000)) as u8]),
        },
        _ => enc_err(spec_unimplemented_instr(i)),
    }
}

fn compile_rst(inst: &Instruction) -> (r: Result<CompileData, CompileError>)
    ensures
        enc_matches_pure(r, spec_rst(inst@)),
{
    match (&inst.arg0, &inst.arg1) {
        (Argument::Value(val), Argument::Empty) => {
            match guard_values_short(*val, 0) {
                Some(e) => {
                    return Err(e);
                },
                None => {},
            }
            compile_data_1(0b11000111 | ((*val as u8) & 0b00111000))
        },
        (_, _) => Err(unimplemented_instr(inst)),
    }
}


/// One encoding step: the bytes of `i` and its placeholder effect, by
/// mnemonic.
pub open spec fn spec_compile_instruction(i: InstrV, p0: int, p1: int) -> Enc {
    if i.opcode == "ld"@ {
        inst_ld::spec_ld(i, p0, p1)
    } else if i.opcode == "push"@ {
        instr_stack::spec_push(i)
    } else if i.opcode == "pop"@ {
        instr_stack::spec_pop(i)
    } else if i.opcode == "ex"@ {
        inst_ex::spec_ex(i)
    } else if i.opcode == "exx"@ {
        spec_no_args(i, seq![0b11011001u8])
    } else if i.opcode == "ldi"@ {
        spec_no_args(i, seq![0xEDu8, 0xA0u8])
    } else if i.opcode == "ldir"@ {
        spec_no_args(i, seq![0xEDu8, 0xB0u8])
    } else if i.opcode == "ldd"@ {
        spec_no_args(i, seq![0xEDu8, 0xA8u8])
    } else if i.opcode == "lddr"@ {
        spec_no_args(i, seq![0xEDu8, 0xB8u8])
    } else if i.opcode == "cpd"@ {
        spec_no_args(i, seq![0xEDu8, 0xA9u8])
    } else if i.opcode == "cpdr"@ {
        spec_no_args(i, seq![0xEDu8, 0xB9u8])
    } else if i.opcode == "cpi"@ {
        spec_no_args(i, seq![0xEDu8, 0xA1u8])
    } else if i.opcode == "cpir"@ {
        spec_no_args(i, seq![0xEDu8, 0xB1u8])
    } else if i.opcode == "add"@ {
        inst_arith::spec_add(i, p0, p1)
    } else if i.opcode == "adc"@ {
        inst_arith::spec_adc(i, p0, p1)
    } else if i.opcode == "sub"@ {
        inst_arith::spec_sub(i, p0, p1)
    } else if i.opcode == "sbc"@ {
        inst_arith::spec_sbc(i, p0, p1)
    } else if i.opcode == "and"@ {
        inst_arith::spec_and(i, p0, p1)
    } else if i.opcode == "or"@ {
        inst_arith::spec_or(i, p0, p1)
    } else if i.opcode == "xor"@ {
        inst_arith::spec_xor(i, p0, p1)
    } else if i.opcode == "cp"@ {
        inst_arith::spec_cp(i, p0, p1)
    } else if i.opcode == "inc"@ {
        inst_arith::spec_inc(i)
    } else if i.opcode == "dec"@ {
        inst_arith::spec_dec(i)
    } else if i.opcode == "daa"@ {
        spec_no_args(i, seq![0b00100111u8])
    } else if i.opcode == "cpl"@ {
        spec_no_args(i, seq![0b00101111u8])
    } else if i.opcode == "neg"@ {
        spec_no_args(i, seq![0xEDu8, 0x44u8])
    } else if i.opcode == "ccf"@ {
        spec_no_args(i, seq![0b00111111u8])
    } else if i.opcode == "scf"@ {
        spec_no_args(i, seq![0b00110111u8])
    } else if i.opcode == "nop"@ {
        spec_no_args(i, seq![0b00000000u8])
    } else if i.opcode == "halt"@ {
        spec_no_args(i, seq![0b01110110u8])
    } else if i.opcode == "di"@ {
        spec_no_args(i, seq![0b11110011u8])
    } else if i.opcode == "ei"@ {
        spec_no_args(i, seq![0b11111011u8])
    } else if i.opcode == "im"@ {
        inst_im::spec_im(i)
    } else if i.opcode == "rlca"@ {
        spec_no_args(i, seq![0x07u8])
    } else if i.opcode == "rla"@ {
        spec_no_args(i, seq![0x17u8])
    } else if i.opcode == "rrca"@ {
        spec_no_args(i, seq![0x0Fu8])
    } else if i.opcode == "rra"@ {
        spec_no_args(i, seq![0x1Fu8])
    } else if i.opcode == "rlc"@ {
        inst_rot_shift::spec_rlc(i)
    } else if i.opcode == "rl"@ {
        inst_rot_shift::spec_rl(i)
    } else if i.opcode == "rrc"@ {
        inst_rot_shift::spec_rrc(i)
    } else if i.opcode == "rr"@ {
        inst_rot_shift::spec_rr(i)
    } else if i.opcode == "sla"@ {
        inst_rot_shift::spec_sla(i)
    } else if i.opcode == "sra"@ {
        inst_rot_shift::spec_sra(i)
    } else if i.opcode == "srl"@ {
        inst_rot_shift::spec_srl(i)
    } else if i.opcode == "rld"@ {
        spec_no_args(i, seq![0xEDu8, 0x6Fu8])
    } else if i.opcode == "rrd"@ {
        spec_no_args(i, seq![0xEDu8, 0x67u8])
    } else if i.opcode == "bit"@ {
        inst_bit::spec_bit(i, p0)
    } else if i.opcode == "set"@ {
        inst_bit::spec_set(i, p0)
    } else if i.opcode == "res"@ {
        inst_bit::spec_res(i, p0)
    } else if i.opcode == "jp"@ {
        inst_jump::spec_jp(i, p0, p1)
    } else if i.opcode == "jr"@ {
        inst_jump::spec_jr(i, p0, p1)
    } else if i.opcode == "djnz"@ {
        inst_jump::spec_djnz(i, p0)
    } else if i.opcode == "call"@ {
        spec_call(i, p0, p1)
    } else if i.opcode == "ret"@ {
        spec_ret(i)
    } else if i.opcode == "reti"@ {
        spec_no_args(i, seq![0xEDu8, 0x4Du8])
    } else if i.opcode == "retn"@ {
        spec_no_args(i, seq![0xEDu8, 0x45u8])
    } else if i.opcode == "rst"@ {
        spec_rst(i)
    } else if i.opcode == "in"@ {
        inst_inout::spec_in(i, p0, p1)
    } else if i.opcode == "ini"@ {
        spec_no_args(i, seq![0xEDu8, 0xA2u8])
    } else if i.opcode == "inir"@ {
        spec_no_args(i, seq![0xEDu8, 0xB2u8])
    } else if i.opcode == "ind"@ {
        spec_no_args(i, seq![0xEDu8, 0xAAu8])
    } else if i.opcode == "indr"@ {
        spec_no_args(i, seq![0xEDu8, 0xBAu8])
    } else if i.opcode == "out"@ {
        inst_inout::spec_out(i, p0, p1)
    } else if i.opcode == "outi"@ {
        spec_no_args(i, seq![0xEDu8, 0xA3u8])
    } else if i.opcode == "otir"@ {
        spec_no_args(i, seq![0xEDu8, 0xB3u8])
    } else if i.opcode == "outd"@ {
        spec_no_args(i, seq![0xEDu8, 0xABu8])
    } else if i.opcode == "otdr"@ {
        spec_no_args(i, seq![0xEDu8, 0xBBu8])
    } else {
        enc_err(spec_unimplemented_instr(i))
    }
}

/// Encodes one instruction, finalizing the live placeholder slots `p0` and
/// `p1` where the encoding places their operands.
#[verifier::rlimit(50)]
pub fn compile_instruction(
    inst: &Instruction,
    p0: isize,
    p1: isize,
    phs: &mut Vec<Placeholder>,
) -> (r: Result<CompileData, CompileError>)
    requires
        slot_ok(p0 as int, phs_view(old(phs)@)),
        slot_ok(p1 as int, phs_view(old(phs)@)),
    ensures
        enc_matches(
            r,
            spec_compile_instruction(inst@, p0 as int, p1 as int),
            phs_view(old(phs)@),
            phs_view(final(phs)@),
        ),
{
    let op = inst.opcode.as_str();
    if str_eq(op, "ld") {
        inst_ld::compile_ld(inst, p0, p1, phs)
    } else if str_eq(op, "push") {
        instr_stack::compile_push(inst)
    } else if str_eq(op, "pop") {
        instr_stack::compile_pop(inst)
    } else if str_eq(op, "ex") {
        inst_ex::compile_ex(inst)
    } else if str_eq(op, "exx") {
        inst_no_args(compile_data_1(0b11011001), inst)
    } else if str_eq(op, "ldi") {
        inst_no_args(compile_data_2(0xED, 0xA0), inst)
    } else if str_eq(op, "ldir") {
        inst_no_args(compile_data_2(0xED, 0xB0), inst)
    } else if str_eq(op, "ldd") {
        inst_no_args(compile_data_2(0xED, 0xA8), inst)
    } else if str_eq(op, "lddr") {
        inst_no_args(compile_data_2(0xED, 0xB8), inst)
    } else if str_eq(op, "cpd") {
        inst_no_args(compile_data_2(0xED, 0xA9), inst)
    } else if str_eq(op, "cpdr") {
        inst_no_args(compile_data_2(0xED, 0xB9), inst)
    } else if str_eq(op, "cpi") {
        inst_no_args(compile_data_2(0xED, 0xA1), inst)
    } else if str_eq(op, "cpir") {
        inst_no_args(compile_data_2(0xED, 0xB1), inst)
    } else if str_eq(op, "add") {
        inst_arith::inst_add(inst, p0, p1, phs)
    } else if str_eq(op, "adc") {
        inst_arith::inst_adc(inst, p0, p1, phs)
    } else if str_eq(op, "sub") {
        inst_arith::inst_sub(inst, p0, p1, phs)
    } else if str_eq(op, "sbc") {
        inst_arith::inst_sbc(inst, p0, p1, phs)
    } else if str_eq(op, "and") {
        inst_arith::inst_and(inst, p0, p1, phs)
    } else if str_eq(op, "or") {
        inst_arith::inst_or(inst, p0, p1, phs)
    } else if str_eq(op, "xor") {
        inst_arith::inst_xor(inst, p0, p1, phs)
    } else if str_eq(op, "cp") {
        inst_arith::inst_cp(inst, p0, p1, phs)
    } else if str_eq(op, "inc") {
        inst_arith::inst_inc(inst)
    } else if str_eq(op, "dec") {
        inst_arith::inst_dec(inst)
    } else if str_eq(op, "daa") {
        inst_no_args(compile_data_1(0b00100111), inst)
    } else if str_eq(op, "cpl") {
        inst_no_args(compile_data_1(0b00101111), inst)
    } else if str_eq(op, "neg") {
        inst_no_args(compile_data_2(0xED, 0x44), inst)
    } else if str_eq(op, "ccf") {
        inst_no_args(compile_data_1(0b00111111), inst)
    } else if str_eq(op, "scf") {
        inst_no_args(compile_data_1(0b00110111), inst)
    } else if str_eq(op, "nop") {
        inst_no_args(compile_data_1(0b00000000), inst)
    } else if str_eq(op, "halt") {
        inst_no_args(compile_data_1(0b01110110), inst)
    } else if str_eq(op, "di") {
        inst_no_args(compile_data_1(0b11110011), inst)
    } else if str_eq(op, "ei") {
        inst_no_args(compile_data_1(0b11111011), inst)
    } else if str_eq(op, "im") {
        inst_im::compile_im(inst, p0, phs)
    } else if str_eq(op, "rlca") {
        inst_no_args(compile_data_1(0x07), inst)
    } else if str_eq(op, "rla") {
        inst_no_args(compile_data_1(0x17), inst)
    } else if str_eq(op, "rrca") {
        inst_no_args(compile_data_1(0x0F), inst)
    } else if str_eq(op, "rra") {
        inst_no_args(compile_data_1(0x1F), inst)
    } else if str_eq(op, "rlc") {
        inst_rot_shift::inst_rlc(inst)
    } else if str_eq(op, "rl") {
        inst_rot_shift::inst_rl(inst)
    } else if str_eq(op, "rrc") {
        inst_rot_shift::inst_rrc(inst)
    } else if str_eq(op, "rr") {
        inst_rot_shift::inst_rr(inst)
    } else if str_eq(op, "sla") {
        inst_rot_shift::inst_sla(inst)
    } else if str_eq(op, "sra") {
        inst_rot_shift::inst_sra(inst)
    } else if str_eq(op, "srl") {
        inst_rot_shift::inst_srl(inst)
    } else if str_eq(op, "rld") {
        inst_no_args(compile_data_2(0xED, 0x6F), inst)
    } else if str_eq(op, "rrd") {
        inst_no_args(compile_data_2(0xED, 0x67), inst)
    } else if str_eq(op, "bit") {
        inst_bit::inst_bit(inst, p0)
    } else if str_eq(op, "set") {
        inst_bit::inst_set(inst, p0)
    } else if str_eq(op, "res") {
        inst_bit::inst_res(inst, p0)
    } else if str_eq(op, "jp") {
        inst_jump::inst_jp(inst, p0, p1, phs)
    } else if str_eq(op, "jr") {
        inst_jump::inst_jr(inst, p0, p1, phs)
    } else if str_eq(op, "djnz") {
        inst_jump::inst_djnz(inst, p0, phs)
    } else if str_eq(op, "call") {
        compile_call(inst, p0, p1, phs)
    } else if str_eq(op, "ret") {
        compile_ret(inst)
    } else if str_eq(op, "reti") {
        inst_no_args(compile_data_2(0xED, 0x4D), inst)
    } else if str_eq(op, "retn") {
        inst_no_args(compile_data_2(0xED, 0x45), inst)
    } else if str_eq(op, "rst") {
        compile_rst(inst)
    } else if str_eq(op, "in") {
        inst_inout::compile_in(inst, p0, p1, phs)
    } else if str_eq(op, "ini") {
        inst_no_args(compile_data_2(0xED, 0xA2), inst)
    } else if str_eq(op, "inir") {
        inst_no_args(compile_data_2(0xED, 0xB2), inst)
    } else if str_eq(op, "ind") {
        inst_no_args(compile_data_2(0xED, 0xAA), inst)
    } else if str_eq(op, "indr") {
        inst_no_args(compile_data_2(0xED, 0xBA), inst)
    } else if str_eq(op, "out") {
        inst_inout::compile_out(inst, p0, p1, phs)
    } else if str_eq(op, "outi") {
        inst_no_args(compile_data_2(0xED, 0xA3), inst)
    } else if str_eq(op, "otir") {
        inst_no_args(compile_data_2(0xED, 0xB3), inst)
    } else if str_eq(op, "outd") {
        inst_no_args(compile_data_2(0xED, 0xAB), inst)
    } else if str_eq(op, "otdr") {
        inst_no_args(compile_data_2(0xED, 0xBB), inst)
    } else {
        Err(unimplemented_instr(inst))
    }
}


/// Bounds every encoding respects: an accepted instruction is one to four
/// bytes long, and a finalized slot is one of the two the driver passed in,
/// moved to a byte offset strictly inside the encoding, with room for both
/// bytes of a wide patch.
pub open spec fn enc_effect_ok(enc: Enc, p0: int, p1: int) -> bool {
    &&& (enc.res matches Ok(bytes) ==> 1 <= bytes.len() <= 4)
    &&& match (enc.res, enc.eff) {
        (Ok(bytes), Some(u)) => {
            &&& (u.slot == p0 || u.slot == p1)
            &&& 1 <= u.delta
            &&& u.delta < bytes.len()
            &&& ((u.kind == PlaceholderType::WideValue || u.kind == PlaceholderType::AbsAddress)
                ==> u.delta + 1 < bytes.len())
        },
        _ => true,
    }
}

proof fn lemma_ld_effect(i: InstrV, p0: int, p1: int)
    ensures
        enc_effect_ok(inst_ld::spec_ld(i, p0, p1), p0, p1),
{
}

proof fn lemma_arith8_effect(arg: ArgV, p: int, codes: inst_arith::ArithGrCodes, i: InstrV)
    ensures
        enc_effect_ok(inst_arith::spec_arith8(arg, p, codes, i), p, p),
{
}

proof fn lemma_offset_effect(arg: ArgV, codes: inst_arith::ArithGrCodes, i: InstrV)
    ensures
        enc_effect_ok(inst_arith::spec_offset(arg, codes, i), -1, -1),
{
}

proof fn lemma_bit_effect(i: InstrV, p: int, codes: inst_bit::BitGrCodes)
    ensures
        enc_effect_ok(inst_bit::spec_bit_inst(i, p, codes), -1, -1),
{
}

proof fn lemma_rot_shift_effect(i: InstrV, codes: inst_rot_shift::RotShiftGrCodes)
    ensures
        enc_effect_ok(inst_rot_shift::spec_rot_shift(i, codes), -1, -1),
{
}

proof fn lemma_jump_effect(i: InstrV, p0: int, p1: int)
    ensures
        enc_effect_ok(inst_jump::spec_jp(i, p0, p1), p0, p1),
        enc_effect_ok(inst_jump::spec_jr(i, p0, p1), p0, p1),
        enc_effect_ok(inst_jump::spec_djnz(i, p0), p0, p0),
        enc_effect_ok(spec_call(i, p0, p1), p0, p1),
{
}

proof fn lemma_inout_effect(i: InstrV, p0: int, p1: int)
    ensures
        enc_effect_ok(inst_inout::spec_in(i, p0, p1), p0, p1),
        enc_effect_ok(inst_inout::spec_out(i, p0, p1), p0, p1),
{
}

proof fn lemma_small_families_effect(i: InstrV, bytes: Seq<u8>)
    ensures
        enc_effect_ok(instr_stack::spec_push(i), -1, -1),
        enc_effect_ok(instr_stack::spec_pop(i), -1, -1),
        enc_effect_ok(inst_ex::spec_ex(i), -1, -1),
        enc_effect_ok(inst_im::spec_im(i), -1, -1),
        enc_effect_ok(spec_ret(i), -1, -1),
        enc_effect_ok(spec_rst(i), -1, -1),
        1 <= bytes.len() <= 4 ==> enc_effect_ok(spec_no_args(i, bytes), -1, -1),
{
}

/// Every encoding the dispatcher can yield obeys `enc_effect_ok`.
pub proof fn lemma_compile_instruction_effect(i: InstrV, p0: int, p1: int)
    ensures
        enc_effect_ok(spec_compile_instruction(i, p0, p1), p0, p1),
{
    lemma_ld_effect(i, p0, p1);
    lemma_arith8_effect(i.arg1, p1, inst_arith::spec_add_codes(), i);
    lemma_arith8_effect(i.arg1, p1, inst_arith::spec_adc_codes(), i);
    lemma_arith8_effect(i.arg0, p0, inst_arith::spec_sub_codes(), i);
    lemma_arith8_effect(i.arg1, p1, inst_arith::spec_sbc_codes(), i);
    lemma_arith8_effect(i.arg0, p0, inst_arith::spec_and_codes(), i);
    lemma_arith8_effect(i.arg0, p0, inst_arith::spec_or_codes(), i);
    lemma_arith8_effect(i.arg0, p0, inst_arith::spec_xor_codes(), i);
    lemma_arith8_effect(i.arg0, p0, inst_arith::spec_cp_codes(), i);
    lemma_offset_effect(i.arg0, inst_arith::spec_inc_codes(), i);
    lemma_offset_effect(i.arg0, inst_arith::spec_dec_codes(), i);
    lemma_bit_effect(i, p0, inst_bit::spec_bit_codes());
    lemma_bit_effect(i, p0, inst_bit::spec_set_codes());
    lemma_bit_effect(i, p0, inst_bit::spec_res_codes());
    lemma_rot_shift_effect(i, inst_rot_shift::spec_rlc_codes());
    lemma_rot_shift_effect(i, inst_rot_shift::spec_rl_codes());
    lemma_rot_shift_effect(i, inst_rot_shift::spec_rrc_codes());
    lemma_rot_shift_effect(i, inst_rot_shift::spec_rr_codes());
    lemma_rot_shift_effect(i, inst_rot_shift::spec_sla_codes());
    lemma_rot_shift_effect(i, inst_rot_shift::spec_sra_codes());
    lemma_rot_shift_effect(i, inst_rot_shift::spec_srl_codes());
    lemma_jump_effect(i, p0, p1);
    lemma_inout_effect(i, p0, p1);
    lemma_small_families_effect(i, seq![0xD9u8]);
    lemma_small_families_effect(i, seq![0b00100111u8]);
    lemma_small_families_effect(i, seq![0b00101111u8]);
    lemma_small_families_effect(i, seq![0b00111111u8]);
    lemma_small_families_effect(i, seq![0b00110111u8]);
    lemma_small_families_effect(i, seq![0b00000000u8]);
    lemma_small_families_effect(i, seq![0b01110110u8]);
    lemma_small_families_effect(i, seq![0b11110011u8]);
    lemma_small_families_effect(i, seq![0b11111011u8]);
    lemma_small_families_effect(i, seq![0x07u8]);
    lemma_small_families_effect(i, seq![0x17u8]);
    lemma_small_families_effect(i, seq![0x0Fu8]);
    lemma_small_families_effect(i, seq![0x1Fu8]);
    lemma_small_families_effect(i, seq![0xEDu8, 0xA0u8]);
    lemma_small_families_effect(i, seq![0xEDu8, 0xB0u8]);
    lemma_small_families_effect(i, seq![0xEDu8, 0xA8u8]);
    lemma_small_families_effect(i, seq![0xEDu8, 0xB8u8]);
    lemma_small_families_effect(i, seq![0xEDu8, 0xA9u8]);
    lemma_small_families_effect(i, seq![0xEDu8, 0xB9u8]);
    lemma_small_families_effect(i, seq![0xEDu8, 0xA1u8]);
    lemma_small_families_effect(i, seq![0xEDu8, 0xB1u8]);
    lemma_small_families_effect(i, seq![0xEDu8, 0x44u8]);
    lemma_small_families_effect(i, seq![0xEDu8, 0x6Fu8]);
    lemma_small_families_effect(i, seq![0xEDu8, 0x67u8]);
    lemma_small_families_effect(i, seq![0xEDu8, 0x4Du8]);
    lemma_small_families_effect(i, seq![0xEDu8, 0x45u8]);
    lemma_small_families_effect(i, seq![0xEDu8, 0xA2u8]);
    lemma_small_families_effect(i, seq![0xEDu8, 0xB2u8]);
    lemma_small_families_effect(i, seq![0xEDu8, 0xAAu8]);
    lemma_small_families_effect(i, seq![0xEDu8, 0xBAu8]);
    lemma_small_families_effect(i, seq![0xEDu8, 0xA3u8]);
    lemma_small_families_effect(i, seq![0xEDu8, 0xB3u8]);
    lemma_small_families_effect(i, seq![0xEDu8, 0xABu8]);
    lemma_small_families_effect(i, seq![0xEDu8, 0xBBu8]);
}

} // verus!
