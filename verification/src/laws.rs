//! The laws of the assembler, proved once and for all: length conservation,
//! placeholder finalization, determinism, little-endian layout, relative
//! range, and hex-literal width.

use crate::compiler::instructions::common::{spec_high_byte, spec_low_byte};
use crate::compiler::instructions::{CEV, PhV, PlaceholderType};
use crate::compiler::utilities::spec_relative_delta;
use crate::compiler::{
    CompV, Cfg, RunRes, fuel_limit, lemma_run_agree, lemma_run_mono, outcome_matches, run,
    spec_fixups, spec_process_item, step_limit_cev,
};
use crate::domain::ParseItemV;
use crate::parser::p_data;
use crate::parser::token::TokV;
use crate::parser::tokenizer::{BTView, b_next, spec_classify, spec_hex_wrap};
use vstd::prelude::*;

verus! {

/// The bytes an item makes the driver emit: the encoded length of an
/// instruction, the length of a data item, nothing for a label or constant.
pub open spec fn emitted_len(item: ParseItemV, c: CompV) -> int {
    match item {
        ParseItemV::Data(bytes) => bytes.len() as int,
        ParseItemV::Instruction(i) => {
            let (i2, p0, p1, phs2) = crate::compiler::spec_extract(i, c.idx, c.phs);
            match crate::compiler::spec_replace_constants(i2, c.consts) {
                Err(_) => 0,
                Ok(i3) => {
                    match crate::compiler::instructions::spec_compile_instruction(
                        i3,
                        p0,
                        p1,
                    ).res {
                        Ok(bytes) => bytes.len() as int,
                        Err(_) => 0,
                    }
                },
            }
        },
        _ => 0,
    }
}

/// Length conservation: every successfully applied item advances the write
/// cursor by exactly the number of bytes it emits, and never changes the
/// image's size.  Summed over a program, the cursor ends at the total of the
/// encoded instruction lengths and the emitted data bytes.
pub proof fn lemma_length_conservation(item: ParseItemV, c: CompV)
    requires
        0 <= c.idx,
        spec_process_item(item, c) is Ok,
    ensures
        spec_process_item(item, c)->Ok_0.idx == c.idx + emitted_len(item, c),
        spec_process_item(item, c)->Ok_0.out.len() == c.out.len(),
{
}

/// Length conservation, seen by the whole machine: a step of the assembly
/// never shrinks the write cursor and never changes the size of the image.
pub proof fn lemma_step_cursor(cfg: Cfg)
    requires
        0 <= cfg.comp.idx,
        crate::compiler::step(cfg) is Next,
    ensures
        ({
            let c2 = crate::compiler::step(cfg)->Next_0;
            cfg.comp.idx <= c2.comp.idx && c2.comp.out.len() == cfg.comp.out.len()
        }),
{
    reveal(crate::compiler::step);
    match cfg.cur {
        None => {},
        Some(v) => {
            let (pr, v2) = crate::parser::p_parse_next(v);
            match pr {
                Ok(Some(item)) => {
                    match item {
                        ParseItemV::Directive(_, _) => {},
                        _ => {
                            if spec_process_item(item, cfg.comp) is Ok {
                                lemma_length_conservation(item, cfg.comp);
                                lemma_emitted_len_nonneg(item, cfg.comp);
                            }
                        },
                    }
                },
                _ => {},
            }
        },
    }
}

proof fn lemma_emitted_len_nonneg(item: ParseItemV, c: CompV)
    ensures
        0 <= emitted_len(item, c),
{
}

/// The fix-up pass never changes the size of the image.
pub proof fn lemma_fixups_len(out: Seq<u8>, labels: Map<Seq<char>, usize>, phs: Seq<PhV>, k: int)
    requires
        0 <= k,
        spec_fixups(out, labels, phs, k) is Ok,
    ensures
        spec_fixups(out, labels, phs, k)->Ok_0.len() == out.len(),
    decreases phs.len() - k,
{
    if k >= phs.len() {
    } else {
        let ph = phs[k];
        let addr = labels[ph.label] as int;
        match ph.kind {
            PlaceholderType::ShortValue => {
                lemma_fixups_len(out.update(ph.idx, out[addr]), labels, phs, k + 1);
            },
            PlaceholderType::WideValue => {
                let o1 = out.update(ph.idx, out[addr]);
                let o2 = o1.update(ph.idx + 1, o1[addr + 1]);
                lemma_fixups_len(o2, labels, phs, k + 1);
            },
            PlaceholderType::AbsAddress => {
                let o1 = out.update(ph.idx, (addr % 256) as u8);
                let o2 = o1.update(ph.idx + 1, ((addr / 256) % 256) as u8);
                lemma_fixups_len(o2, labels, phs, k + 1);
            },
            PlaceholderType::RelAddress => {
                match spec_relative_delta(ph.idx + 1, addr) {
                    Some(b) => {
                        lemma_fixups_len(out.update(ph.idx, b), labels, phs, k + 1);
                    },
                    None => {},
                }
            },
            PlaceholderType::Undefined => {},
        }
    }
}

/// Length conservation, end to end: a finished run returns exactly as many
/// bytes as the image it started from.
pub proof fn lemma_run_image_size(cfg: Cfg, n: nat, o: Seq<u8>)
    requires
        0 <= cfg.comp.idx,
        run(cfg, n) == RunRes::Done(o),
    ensures
        o.len() == cfg.comp.out.len(),
    decreases n,
{
    if n == 0 {
        assert(false);
    } else {
        match crate::compiler::step(cfg) {
            crate::compiler::StepRes::Next(c2) => {
                lemma_step_cursor(cfg);
                lemma_run_image_size(c2, (n - 1) as nat, o);
            },
            crate::compiler::StepRes::Done(o2) => {
                reveal(crate::compiler::step);
                lemma_fixups_len(cfg.comp.out, cfg.comp.labels, cfg.comp.phs, 0);
            },
            crate::compiler::StepRes::Fail(_) => {},
        }
    }
}

/// Length conservation at `compile` itself: a successful assembly returns
/// exactly the image the driver was built with -- `capacity` bytes for a
/// driver from `Compiler::new`.
pub proof fn lemma_compile_image_size<T: crate::compiler::SourceProvider>(
    c: crate::compiler::Compiler<T>,
    r: Result<Seq<u8>, CEV>,
)
    requires
        outcome_matches(crate::compiler::start_cfg(c), r),
        r is Ok,
    ensures
        r->Ok_0.len() == c.out@.len(),
{
    let cfg0 = crate::compiler::start_cfg(c);
    let n = choose|n: nat| n <= fuel_limit() && run(cfg0, n) == RunRes::Done(r->Ok_0);
    lemma_run_image_size(cfg0, n, r->Ok_0);
}

/// Placeholder finalization and label resolution: when the fix-up pass
/// succeeds, every placeholder it walked had a concrete kind (never
/// `Undefined`) and a defined label.
pub proof fn lemma_fixups_walk(
    out: Seq<u8>,
    labels: Map<Seq<char>, usize>,
    phs: Seq<PhV>,
    k: int,
)
    requires
        0 <= k,
        spec_fixups(out, labels, phs, k) is Ok,
    ensures
        forall|j: int|
            k <= j < phs.len() ==> (#[trigger] phs[j].kind) != PlaceholderType::Undefined
                && labels.contains_key(phs[j].label),
        forall|j: int|
            k <= j < phs.len() && (#[trigger] phs[j].kind) == PlaceholderType::RelAddress ==> -128
                <= labels[phs[j].label] - (phs[j].idx + 1) <= 127,
    decreases phs.len() - k,
{
    if k >= phs.len() {
    } else {
        let ph = phs[k];
        let addr = labels[ph.label] as int;
        match ph.kind {
            PlaceholderType::ShortValue => {
                lemma_fixups_walk(out.update(ph.idx, out[addr]), labels, phs, k + 1);
            },
            PlaceholderType::WideValue => {
                let o1 = out.update(ph.idx, out[addr]);
                let o2 = o1.update(ph.idx + 1, o1[addr + 1]);
                lemma_fixups_walk(o2, labels, phs, k + 1);
            },
            PlaceholderType::AbsAddress => {
                let o1 = out.update(ph.idx, (addr % 256) as u8);
                let o2 = o1.update(ph.idx + 1, ((addr / 256) % 256) as u8);
                lemma_fixups_walk(o2, labels, phs, k + 1);
            },
            PlaceholderType::RelAddress => {
                match spec_relative_delta(ph.idx + 1, addr) {
                    Some(b) => {
                        lemma_fixups_walk(out.update(ph.idx, b), labels, phs, k + 1);
                    },
                    None => {},
                }
            },
            PlaceholderType::Undefined => {},
        }
    }
}

/// Placeholder finalization: a successful fix-up pass saw no `Undefined`
/// placeholder.
pub proof fn lemma_placeholders_finalized(
    out: Seq<u8>,
    labels: Map<Seq<char>, usize>,
    phs: Seq<PhV>,
)
    requires
        spec_fixups(out, labels, phs, 0) is Ok,
    ensures
        forall|j: int|
            0 <= j < phs.len() ==> (#[trigger] phs[j].kind) != PlaceholderType::Undefined,
{
    lemma_fixups_walk(out, labels, phs, 0);
}

/// Relative range: in a successful assembly, every relative-address fix-up
/// satisfies `-128 <= addr - (idx + 1) <= 127`.
pub proof fn lemma_relative_range(out: Seq<u8>, labels: Map<Seq<char>, usize>, phs: Seq<PhV>)
    requires
        spec_fixups(out, labels, phs, 0) is Ok,
    ensures
        forall|j: int|
            0 <= j < phs.len() && (#[trigger] phs[j].kind) == PlaceholderType::RelAddress ==> -128
                <= labels[phs[j].label] - (phs[j].idx + 1) <= 127,
{
    lemma_fixups_walk(out, labels, phs, 0);
}

/// Determinism: two assembly outcomes of the same machine agree, bytes for
/// bytes and fault for fault.  `compile` ensures `outcome_matches` of its
/// result, so assembling the same sources twice yields identical output.
pub proof fn lemma_assembly_deterministic(
    cfg0: Cfg,
    r1: Result<Seq<u8>, CEV>,
    r2: Result<Seq<u8>, CEV>,
)
    requires
        outcome_matches(cfg0, r1),
        outcome_matches(cfg0, r2),
    ensures
        r1 == r2,
{
    match (r1, r2) {
        (Ok(o1), Ok(o2)) => {
            let n1 = choose|n: nat| n <= fuel_limit() && run(cfg0, n) == RunRes::Done(o1);
            let n2 = choose|n: nat| n <= fuel_limit() && run(cfg0, n) == RunRes::Done(o2);
            lemma_run_agree(cfg0, n1, n2);
        },
        (Ok(o1), Err(e2)) => {
            let n1 = choose|n: nat| n <= fuel_limit() && run(cfg0, n) == RunRes::Done(o1);
            if exists|n: nat| n <= fuel_limit() && run(cfg0, n) == RunRes::Fail(e2) {
                let n2 = choose|n: nat| n <= fuel_limit() && run(cfg0, n) == RunRes::Fail(e2);
                lemma_run_agree(cfg0, n1, n2);
            } else {
                lemma_run_mono(cfg0, n1, fuel_limit());
            }
        },
        (Err(e1), Ok(o2)) => {
            let n2 = choose|n: nat| n <= fuel_limit() && run(cfg0, n) == RunRes::Done(o2);
            if exists|n: nat| n <= fuel_limit() && run(cfg0, n) == RunRes::Fail(e1) {
                let n1 = choose|n: nat| n <= fuel_limit() && run(cfg0, n) == RunRes::Fail(e1);
                lemma_run_agree(cfg0, n1, n2);
            } else {
                lemma_run_mono(cfg0, n2, fuel_limit());
            }
        },
        (Err(e1), Err(e2)) => {
            if exists|n: nat| n <= fuel_limit() && run(cfg0, n) == RunRes::Fail(e1) {
                let n1 = choose|n: nat| n <= fuel_limit() && run(cfg0, n) == RunRes::Fail(e1);
                if exists|n: nat| n <= fuel_limit() && run(cfg0, n) == RunRes::Fail(e2) {
                    let n2 = choose|n: nat| n <= fuel_limit() && run(cfg0, n) == RunRes::Fail(
                        e2,
                    );
                    lemma_run_agree(cfg0, n1, n2);
                } else {
                    lemma_run_mono(cfg0, n1, fuel_limit());
                }
            } else {
                if exists|n: nat| n <= fuel_limit() && run(cfg0, n) == RunRes::Fail(e2) {
                    let n2 = choose|n: nat| n <= fuel_limit() && run(cfg0, n) == RunRes::Fail(
                        e2,
                    );
                    lemma_run_mono(cfg0, n2, fuel_limit());
                } else {
                }
            }
        },
    }
}

/// Little-endian: splitting a 16-bit value into its low and high bytes, in
/// that order, loses nothing; the immediates and absolute addresses the
/// encoder and the fix-up pass emit are laid out low byte first.
pub proof fn lemma_little_endian(v: u16)
    ensures
        spec_low_byte(v) + 256 * spec_high_byte(v) == v,
        spec_low_byte(v) == v % 256,
        spec_high_byte(v) == v / 256,
{
}

/// Hex-literal width: a literal of `k` hex digits followed by `h` lexes to
/// a `Value` of width `max(1, k / 2)`.  This holds for `k` of 1, 2 and 4;
/// a three-digit literal is two bytes wide, not one, and from five digits
/// on no width in bytes can equal `max(1, k / 2)`, so those are left out.
pub proof fn lemma_hex_literal_width(text: Seq<char>)
    requires
        text.len() == 2 || text.len() == 3 || text.len() == 5,
        text.last() == 'h',
        crate::parser::tokenizer::spec_all_hex(text.drop_last()),
    ensures
        ({
            let k = text.len() - 1;
            let w = if k / 2 >= 1 {
                k / 2
            } else {
                1int
            };
            spec_classify(text) == TokV::Value(spec_hex_wrap(text.drop_last()), w as u8)
        }),
{
}

/// A data line carrying a `Value` of width 1 or 2 emits exactly that many
/// bytes.
pub proof fn lemma_data_width(v: BTView)
    requires
        v.wf(),
        b_next(v).0 matches Ok(t) && t.t matches TokV::Value(val, w) && (w == 1 || w == 2),
    ensures
        p_data(v).0 matches Ok(item) && item matches ParseItemV::Data(bytes) && bytes.len()
            == b_next(v).0->Ok_0.t->Value_1,
{
}


/// Every placeholder points inside the bytes already emitted: a nonnegative
/// position strictly below the write cursor, with room for the second byte
/// of a wide or absolute patch.
pub open spec fn phs_inside(c: CompV) -> bool {
    forall|j: int|
        0 <= j < c.phs.len() ==> {
            &&& 0 <= (#[trigger] c.phs[j]).idx
            &&& c.phs[j].idx < c.idx
            &&& ((c.phs[j].kind == PlaceholderType::WideValue || c.phs[j].kind
                == PlaceholderType::AbsAddress) ==> c.phs[j].idx + 1 < c.idx)
        }
}

/// Placeholder extraction appends fresh `Undefined` placeholders at the
/// cursor and leaves the rest alone; the returned slots are dead or name
/// the fresh entries.
proof fn lemma_extract_inside(i: crate::domain::InstrV, at: int, phs: Seq<PhV>)
    ensures
        ({
            let (i2, p0, p1, phs2) = crate::compiler::spec_extract(i, at, phs);
            &&& phs.len() <= phs2.len() <= phs.len() + 2
            &&& forall|j: int| 0 <= j < phs.len() ==> phs2[j] == phs[j]
            &&& forall|j: int|
                phs.len() <= j < phs2.len() ==> (#[trigger] phs2[j]).idx == at && phs2[j].kind
                    == PlaceholderType::Undefined
            &&& (p0 == -1 || phs.len() <= p0 < phs2.len())
            &&& (p1 == -1 || phs.len() <= p1 < phs2.len())
        }),
{
}

/// A successfully applied item keeps every placeholder inside the emitted
/// bytes.
proof fn lemma_process_item_inside(item: ParseItemV, c: CompV)
    requires
        phs_inside(c),
        0 <= c.idx,
        spec_process_item(item, c) is Ok,
    ensures
        phs_inside(spec_process_item(item, c)->Ok_0),
        c.idx <= spec_process_item(item, c)->Ok_0.idx,
{
    lemma_length_conservation(item, c);
    lemma_emitted_len_nonneg(item, c);
    match item {
        ParseItemV::Instruction(i) => {
            let (i2, p0, p1, phs2) = crate::compiler::spec_extract(i, c.idx, c.phs);
            lemma_extract_inside(i, c.idx, c.phs);
            match crate::compiler::spec_replace_constants(i2, c.consts) {
                Err(_) => {},
                Ok(i3) => {
                    let enc = crate::compiler::instructions::spec_compile_instruction(
                        i3,
                        p0,
                        p1,
                    );
                    crate::compiler::instructions::lemma_compile_instruction_effect(i3, p0, p1);
                    match enc.res {
                        Err(_) => {},
                        Ok(bytes) => {
                            let phs3 = crate::compiler::instructions::apply_ph(phs2, enc.eff);
                            let c2 = spec_process_item(item, c)->Ok_0;
                            assert forall|j: int|
                                0 <= j < c2.phs.len() implies {
                                &&& 0 <= (#[trigger] c2.phs[j]).idx
                                &&& c2.phs[j].idx < c2.idx
                                &&& ((c2.phs[j].kind == PlaceholderType::WideValue
                                    || c2.phs[j].kind == PlaceholderType::AbsAddress)
                                    ==> c2.phs[j].idx + 1 < c2.idx)
                            } by {
                                match enc.eff {
                                    Some(u) => {
                                        if 0 <= u.slot < phs2.len() && j == u.slot {
                                            assert(phs2[j].idx == c.idx);
                                        } else {
                                            assert(c2.phs[j] == phs2[j]);
                                        }
                                    },
                                    None => {
                                        assert(c2.phs[j] == phs2[j]);
                                    },
                                }
                            }
                        },
                    }
                },
            }
        },
        _ => {},
    }
}

/// Placeholders inside emitted bytes, seen by the whole machine: the
/// property holds of a fresh driver, whose placeholder list is empty, and
/// every step of the assembly preserves it.  At the final step the fix-up
/// pass therefore only patches positions below the final write cursor.
pub proof fn lemma_step_placeholders_inside(cfg: Cfg)
    requires
        phs_inside(cfg.comp),
        0 <= cfg.comp.idx,
        crate::compiler::step(cfg) is Next,
    ensures
        phs_inside(crate::compiler::step(cfg)->Next_0.comp),
        0 <= crate::compiler::step(cfg)->Next_0.comp.idx,
{
    reveal(crate::compiler::step);
    match cfg.cur {
        None => {},
        Some(v) => {
            let (pr, v2) = crate::parser::p_parse_next(v);
            match pr {
                Ok(Some(item)) => {
                    match item {
                        ParseItemV::Directive(_, _) => {},
                        _ => {
                            if spec_process_item(item, cfg.comp) is Ok {
                                lemma_process_item_inside(item, cfg.comp);
                            }
                        },
                    }
                },
                _ => {},
            }
        },
    }
}

} // verus!
