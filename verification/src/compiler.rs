//! The compiler driver: owns the output image, the write cursor, the label,
//! constant and macro tables and the placeholder list; orchestrates
//! tokenizing, parsing, encoding and the fix-up pass.
//!
//! The whole two-pass assembly is stated as a small-step machine over the
//! specification state (`step`/`run`), and `compile` is proved to return
//! exactly what that machine yields; determinism follows.

pub mod dict;
pub mod instructions;
pub mod macros;
pub mod source_provider;
pub mod utilities;

pub use crate::compiler::source_provider::{InMemorySourceProvider, SourceHeader, SourceProvider};

use crate::compiler::dict::Dict;
use crate::compiler::instructions::{
    CEV, CErrV, CompileError, CompileErrorType, Placeholder, PlaceholderType, PhV, apply_ph,
    compile_instruction, label_not_found, phs_view, spec_compile_instruction,
};
use crate::compiler::macros::{Macro, MacroV, compile_macro, m_compile_macro};
use crate::compiler::source_provider::{eff_sources, first_content, has_file};
use crate::compiler::utilities::{relative_delta, spec_relative_delta};
use crate::domain::{ArgV, Argument, InstrV, Instruction, ParseItem, ParseItemV};

use crate::parser::token::TokenVal;
use crate::parser::tokenizer::{BTView, BufferedTokenizer, SimpleLexV};
use crate::parser::{Parser, p_parse_next};
use vstd::prelude::*;

verus! {

/// Mathematical view of the driver's mutable state.
pub struct CompV {
    pub out: Seq<u8>,
    pub idx: int,
    pub labels: Map<Seq<char>, usize>,
    pub phs: Seq<PhV>,
    pub consts: Map<Seq<char>, u16>,
    pub macros: Map<Seq<char>, MacroV>,
}

/// The fault for touching the output at or past its end.
pub open spec fn overflow_err(at: int) -> CEV {
    CEV { error: CErrV::OutputOverflow(at), instr: None }
}

/// Extracting one operand's placeholder: a label-address or label-value
/// operand is replaced by a zero with a fresh `Undefined` placeholder at the
/// current cursor; anything else passes through with a dead slot.
pub open spec fn spec_extract_one(arg: ArgV, at: int, line: int, phs: Seq<PhV>) -> (
    ArgV,
    int,
    Seq<PhV>,
) {
    match arg {
        ArgV::LabelAddress(s) => (
            ArgV::DirectAddress(0),
            phs.len() as int,
            phs.push(PhV { idx: at, label: s, kind: PlaceholderType::Undefined, line }),
        ),
        ArgV::LabelValue(s) => (
            ArgV::Value(0),
            phs.len() as int,
            phs.push(PhV { idx: at, label: s, kind: PlaceholderType::Undefined, line }),
        ),
        _ => (arg, -1int, phs),
    }
}

/// Extracting both operands, left to right.
pub open spec fn spec_extract(i: InstrV, at: int, phs: Seq<PhV>) -> (InstrV, int, int, Seq<PhV>) {
    let (a0, p0, phs1) = spec_extract_one(i.arg0, at, i.line, phs);
    let (a1, p1, phs2) = spec_extract_one(i.arg1, at, i.line, phs1);
    (InstrV { arg0: a0, arg1: a1, ..i }, p0, p1, phs2)
}

/// Substituting a constant reference by its value; an unknown name is the
/// `ConstantNotFound` fault with the instruction attached.
pub open spec fn spec_subst_const(arg: ArgV, consts: Map<Seq<char>, u16>, i: InstrV) -> Result<
    ArgV,
    CEV,
> {
    match arg {
        ArgV::Constant(c) => {
            if consts.contains_key(c) {
                Ok(ArgV::Value(consts[c]))
            } else {
                Err(CEV { error: CErrV::ConstantNotFound(c), instr: Some(i) })
            }
        },
        _ => Ok(arg),
    }
}

pub open spec fn spec_replace_constants(i: InstrV, consts: Map<Seq<char>, u16>) -> Result<
    InstrV,
    CEV,
> {
    match spec_subst_const(i.arg0, consts, i) {
        Err(e) => Err(e),
        Ok(a0) => match spec_subst_const(i.arg1, consts, i) {
            Err(e) => Err(e),
            Ok(a1) => Ok(InstrV { arg0: a0, arg1: a1, ..i }),
        },
    }
}

/// The output with `bytes` written at `at`.
pub open spec fn splice(out: Seq<u8>, at: int, bytes: Seq<u8>) -> Seq<u8> {
    out.take(at) + bytes + out.skip(at + bytes.len())
}

/// One parse item applied to the driver state: labels and constants are
/// recorded, data and encoded instructions are emitted at the cursor.
/// Directives belong to the macro engine and never reach this function.
pub open spec fn spec_process_item(item: ParseItemV, c: CompV) -> Result<CompV, CEV> {
    match item {
        ParseItemV::Label(l) => Ok(
            CompV { labels: c.labels.insert(l.name, c.idx as usize), ..c },
        ),
        ParseItemV::Constant(k) => Ok(CompV { consts: c.consts.insert(k.name, k.value), ..c }),
        ParseItemV::Data(bytes) => {
            if c.idx + bytes.len() <= c.out.len() {
                Ok(CompV { out: splice(c.out, c.idx, bytes), idx: c.idx + bytes.len(), ..c })
            } else {
                Err(overflow_err(c.idx))
            }
        },
        ParseItemV::Instruction(i) => {
            if c.phs.len() >= isize::MAX - 1 || c.idx > usize::MAX - 4 {
                Err(overflow_err(c.idx))
            } else {
                let (i2, p0, p1, phs2) = spec_extract(i, c.idx, c.phs);
                match spec_replace_constants(i2, c.consts) {
                    Err(e) => Err(e),
                    Ok(i3) => {
                        let enc = spec_compile_instruction(i3, p0, p1);
                        let phs3 = apply_ph(phs2, enc.eff);
                        match enc.res {
                            Err(e) => Err(CEV { error: e.error, instr: Some(i3) }),
                            Ok(bytes) => {
                                if c.idx + bytes.len() <= c.out.len() {
                                    Ok(
                                        CompV {
                                            out: splice(c.out, c.idx, bytes),
                                            idx: c.idx + bytes.len(),
                                            phs: phs3,
                                            ..c
                                        },
                                    )
                                } else {
                                    Err(overflow_err(c.idx))
                                }
                            },
                        }
                    },
                }
            }
        },
        ParseItemV::Directive(_, _) => Err(
            CEV { error: CErrV::UnimplementedInstruction, instr: None },
        ),
    }
}

/// The fix-up pass over the placeholders from `k` on: each label must be
/// defined, each kind concrete, each touched position inside the image, and
/// each relative displacement in range.
pub open spec fn spec_fixups(
    out: Seq<u8>,
    labels: Map<Seq<char>, usize>,
    phs: Seq<PhV>,
    k: int,
) -> Result<Seq<u8>, CEV>
    decreases phs.len() - k,
    when k >= 0
{
    if k >= phs.len() {
        Ok(out)
    } else {
        let ph = phs[k];
        if !labels.contains_key(ph.label) {
            Err(CEV { error: CErrV::LabelNotFound(ph.label, ph.line), instr: None })
        } else {
            let addr = labels[ph.label] as int;
            match ph.kind {
                PlaceholderType::ShortValue => {
                    if ph.idx < 0 || ph.idx >= out.len() {
                        Err(overflow_err(ph.idx))
                    } else if addr >= out.len() {
                        Err(overflow_err(addr))
                    } else {
                        spec_fixups(out.update(ph.idx, out[addr]), labels, phs, k + 1)
                    }
                },
                PlaceholderType::WideValue => {
                    if ph.idx < 0 || ph.idx >= out.len() || ph.idx + 1 >= out.len() {
                        Err(overflow_err(ph.idx))
                    } else if addr >= out.len() || addr + 1 >= out.len() {
                        Err(overflow_err(addr))
                    } else {
                        let o1 = out.update(ph.idx, out[addr]);
                        let o2 = o1.update(ph.idx + 1, o1[addr + 1]);
                        spec_fixups(o2, labels, phs, k + 1)
                    }
                },
                PlaceholderType::AbsAddress => {
                    if ph.idx < 0 || ph.idx >= out.len() || ph.idx + 1 >= out.len() {
                        Err(overflow_err(ph.idx))
                    } else {
                        let o1 = out.update(ph.idx, (addr % 256) as u8);
                        let o2 = o1.update(ph.idx + 1, ((addr / 256) % 256) as u8);
                        spec_fixups(o2, labels, phs, k + 1)
                    }
                },
                PlaceholderType::RelAddress => {
                    if ph.idx < 0 || ph.idx >= out.len() {
                        Err(overflow_err(ph.idx))
                    } else {
                        match spec_relative_delta(ph.idx + 1, addr) {
                            Some(b) => spec_fixups(out.update(ph.idx, b), labels, phs, k + 1),
                            None => Err(
                                CEV {
                                    error: CErrV::UnableToCalculateRelativeJump(ph),
                                    instr: None,
                                },
                            ),
                        }
                    }
                },
                PlaceholderType::Undefined => Err(
                    CEV { error: CErrV::UndefinedPlaceholder(ph), instr: None },
                ),
            }
        }
    }
}

pub struct Compiler<T> where T: SourceProvider {
    pub source_provider: T,
    pub out: Vec<u8>,
    pub idx: usize,
    pub label_map: Dict<usize>,
    pub placeholders: Vec<Placeholder>,
    pub constants: Dict<u16>,
    pub macros: Dict<Macro>,
}

impl<T> Compiler<T> where T: SourceProvider {
    /// The cursor never passes the end of the fixed output buffer.
    pub open spec fn wf(&self) -> bool {
        self.idx <= self.out@.len()
    }

    /// The driver state this value denotes.
    pub open spec fn comp_view(&self) -> CompV {
        CompV {
            out: self.out@,
            idx: self.idx as int,
            labels: self.label_map@,
            phs: phs_view(self.placeholders@),
            consts: self.constants@,
            macros: self.macros@,
        }
    }

    /// A fresh driver over `source_provider`, with a zeroed image of
    /// `capacity` bytes.
    pub fn new(source_provider: T, capacity: usize) -> (r: Compiler<T>)
        ensures
            r.wf(),
            r.source_provider == source_provider,
            r.comp_view() == (CompV {
                out: Seq::<u8>::new(capacity as nat, |i: int| 0u8),
                idx: 0,
                labels: Map::<Seq<char>, usize>::empty(),
                phs: Seq::<PhV>::empty(),
                consts: Map::<Seq<char>, u16>::empty(),
                macros: Map::<Seq<char>, MacroV>::empty(),
            }),
    {
        let mut out: Vec<u8> = Vec::new();
        let mut i: usize = 0;
        while i < capacity
            invariant
                i <= capacity,
                out@ =~= Seq::<u8>::new(i as nat, |j: int| 0u8),
            decreases capacity - i,
        {
            out.push(0);
            i += 1;
            proof {
                assert(out@ =~= Seq::<u8>::new(i as nat, |j: int| 0u8));
            }
        }
        let r = Compiler {
            source_provider,
            out,
            idx: 0,
            label_map: Dict::new(),
            placeholders: Vec::new(),
            constants: Dict::new(),
            macros: Dict::new(),
        };
        proof {
            assert(phs_view(r.placeholders@) =~= Seq::<PhV>::empty());
        }
        r
    }

    fn try_extract_placeholder(&mut self, arg: &Argument, line: usize) -> (r: (
        Option<Argument>,
        isize,
    ))
        requires
            old(self).placeholders@.len() < isize::MAX,
        ensures
            ({
                let (a2, p, phs2) = spec_extract_one(
                    arg@,
                    old(self).idx as int,
                    line as int,
                    phs_view(old(self).placeholders@),
                );
                &&& phs_view(final(self).placeholders@) == phs2
                &&& r.1 == p
                &&& (match r.0 {
                    Some(a) => a@ == a2,
                    None => arg@ == a2 && r.1 == -1,
                })
                &&& final(self).out == old(self).out
                &&& final(self).idx == old(self).idx
                &&& final(self).label_map == old(self).label_map
                &&& final(self).constants == old(self).constants
                &&& final(self).macros == old(self).macros
                &&& final(self).source_provider == old(self).source_provider
            }),
    {
        match arg {
            Argument::LabelAddress(s) => {
                let ghost pre = self.placeholders@;
                self.placeholders.push(
                    Placeholder {
                        idx: self.idx,
                        label: s.clone(),
                        ph_type: PlaceholderType::Undefined,
                        line,
                    },
                );
                let slot = (self.placeholders.len() - 1) as isize;
                proof {
                    assert(phs_view(self.placeholders@) =~= phs_view(pre).push(
                        self.placeholders@.last()@,
                    ));
                }
                (Some(Argument::DirectAddress(0)), slot)
            },
            Argument::LabelValue(s) => {
                let ghost pre = self.placeholders@;
                self.placeholders.push(
                    Placeholder {
                        idx: self.idx,
                        label: s.clone(),
                        ph_type: PlaceholderType::Undefined,
                        line,
                    },
                );
                let slot = (self.placeholders.len() - 1) as isize;
                proof {
                    assert(phs_view(self.placeholders@) =~= phs_view(pre).push(
                        self.placeholders@.last()@,
                    ));
                }
                (Some(Argument::Value(0)), slot)
            },
            _ => (None, -1),
        }
    }

    fn extract_placeholders(&mut self, inst: Instruction) -> (r: (Instruction, isize, isize))
        requires
            old(self).placeholders@.len() + 2 <= isize::MAX,
        ensures
            ({
                let (i2, p0, p1, phs2) = spec_extract(
                    inst@,
                    old(self).idx as int,
                    phs_view(old(self).placeholders@),
                );
                &&& r.0@ == i2
                &&& r.1 == p0
                &&& r.2 == p1
                &&& phs_view(final(self).placeholders@) == phs2
                &&& final(self).out == old(self).out
                &&& final(self).idx == old(self).idx
                &&& final(self).label_map == old(self).label_map
                &&& final(self).constants == old(self).constants
                &&& final(self).macros == old(self).macros
                &&& final(self).source_provider == old(self).source_provider
            }),
    {
        let (arg0, p0) = self.try_extract_placeholder(&inst.arg0, inst.line);
        proof {
            assert(phs_view(self.placeholders@).len() <= phs_view(
                old(self).placeholders@,
            ).len() + 1);
        }
        let (arg1, p1) = self.try_extract_placeholder(&inst.arg1, inst.line);
        let a0 = match arg0 {
            Some(a) => a,
            None => inst.arg0,
        };
        let a1 = match arg1 {
            Some(a) => a,
            None => inst.arg1,
        };
        (
            Instruction {
                opcode: inst.opcode,
                arg0: a0,
                arg1: a1,
                line: inst.line,
                file_id: inst.file_id,
            },
            p0,
            p1,
        )
    }

    fn try_parse_constant(&self, arg: &Argument, inst: &Instruction) -> (r: Result<
        Option<Argument>,
        CompileError,
    >)
        ensures
            match r {
                Ok(Some(a)) => spec_subst_const(arg@, self.constants@, inst@) == Ok::<ArgV, CEV>(
                    a@,
                ),
                Ok(None) => spec_subst_const(arg@, self.constants@, inst@) == Ok::<ArgV, CEV>(arg@)
                    && !(arg@ is Constant),
                Err(e) => spec_subst_const(arg@, self.constants@, inst@) == Err::<ArgV, CEV>(e@),
            },
    {
        if let Argument::Constant(c) = arg {
            match self.constants.get(c.as_str()) {
                Some(v) => Ok(Some(Argument::Value(*v))),
                None => Err(
                    CompileError {
                        error: CompileErrorType::ConstantNotFound(c.clone()),
                        instr: Some(inst.clone()),
                    },
                ),
            }
        } else {
            Ok(None)
        }
    }

    fn replace_constants(&self, inst: Instruction) -> (r: Result<Instruction, CompileError>)
        ensures
            match r {
                Ok(i) => spec_replace_constants(inst@, self.constants@) == Ok::<InstrV, CEV>(i@),
                Err(e) => spec_replace_constants(inst@, self.constants@) == Err::<InstrV, CEV>(
                    e@,
                ),
            },
    {
        let arg0 = match self.try_parse_constant(&inst.arg0, &inst) {
            Ok(a) => a,
            Err(e) => {
                return Err(e);
            },
        };
        let arg1 = match self.try_parse_constant(&inst.arg1, &inst) {
            Ok(a) => a,
            Err(e) => {
                return Err(e);
            },
        };
        let a0 = match arg0 {
            Some(a) => a,
            None => inst.arg0,
        };
        let a1 = match arg1 {
            Some(a) => a,
            None => inst.arg1,
        };
        Ok(
            Instruction {
                opcode: inst.opcode,
                arg0: a0,
                arg1: a1,
                line: inst.line,
                file_id: inst.file_id,
            },
        )
    }

    /// Applies one parse item: records a label or constant, hands a
    /// directive to the macro engine, or encodes and emits.
    #[verifier::rlimit(100)]
    pub fn process_item(&mut self, item: ParseItem, tokenizer: &mut BufferedTokenizer) -> (r:
        Result<(), CompileError>)
        requires
            old(self).wf(),
            old(tokenizer).wf(),
        ensures
            final(self).wf(),
            final(tokenizer).wf(),
            final(self).source_provider == old(self).source_provider,
            match r {
                Ok(_) => match item@ {
                    ParseItemV::Directive(cmd, toks) => {
                        &&& m_compile_macro(cmd, toks, old(tokenizer)@, old(self).macros@) == Ok::<
                            (BTView, Map<Seq<char>, MacroV>),
                            CEV,
                        >((final(tokenizer)@, final(self).macros@))
                        &&& final(self).comp_view() == (CompV {
                            macros: final(self).macros@,
                            ..old(self).comp_view()
                        })
                    },
                    _ => spec_process_item(item@, old(self).comp_view()) == Ok::<CompV, CEV>(
                        final(self).comp_view(),
                    ) && final(tokenizer)@ == old(tokenizer)@,
                },
                Err(e) => match item@ {
                    ParseItemV::Directive(cmd, toks) => m_compile_macro(
                        cmd,
                        toks,
                        old(tokenizer)@,
                        old(self).macros@,
                    ) == Err::<(BTView, Map<Seq<char>, MacroV>), CEV>(e@),
                    _ => spec_process_item(item@, old(self).comp_view()) == Err::<CompV, CEV>(e@),
                },
            },
    {
        match item {
            ParseItem::Label(l) => {
                self.label_map.insert(l.name, self.idx);
                Ok(())
            },
            ParseItem::Constant(cons) => {
                self.constants.insert(cons.name, cons.value);
                Ok(())
            },
            ParseItem::Directive(cmd, tokens) => {
                compile_macro(cmd, tokens, tokenizer, &mut self.macros)
            },
            ParseItem::Data(data) => {
                let dlen = data.len();
                if dlen > self.out.len() - self.idx {
                    return Err(
                        CompileError {
                            error: CompileErrorType::OutputOverflow(self.idx),
                            instr: None,
                        },
                    );
                }
                let ghost out0 = self.out@;
                let ghost idx0 = self.idx as int;
                let ghost pre = *self;
                let mut k: usize = 0;
                while k < dlen
                    invariant
                        self.label_map == pre.label_map,
                        self.placeholders == pre.placeholders,
                        self.constants == pre.constants,
                        self.macros == pre.macros,
                        self.source_provider == pre.source_provider,
                        k <= dlen,
                        dlen == data@.len(),
                        0 <= idx0,
                        idx0 + dlen <= out0.len(),
                        out0.len() <= usize::MAX,
                        self.idx == idx0 + k,
                        self.out@ == out0.take(idx0) + data@.take(k as int) + out0.skip(
                            idx0 + k,
                        ),
                    decreases dlen - k,
                {
                    let ghost o_pre = self.out@;
                    let b = data[k];
                    proof {
                        assert(o_pre.len() == out0.len());
                    }
                    self.out.set(self.idx, b);
                    self.idx = self.idx + 1;
                    k = k + 1;
                    proof {
                        assert(self.out@ =~= out0.take(idx0) + data@.take(k as int) + out0.skip(
                            idx0 + k,
                        ));
                    }
                }
                proof {
                    assert(data@.take(dlen as int) =~= data@);
                    assert(self.out@ =~= splice(out0, idx0, data@));
                }
                Ok(())
            },
            ParseItem::Instruction(inst) => {
                if self.placeholders.len() >= (isize::MAX as usize) - 1 || self.idx > usize::MAX
                    - 4 {
                    return Err(
                        CompileError {
                            error: CompileErrorType::OutputOverflow(self.idx),
                            instr: None,
                        },
                    );
                }
                let (inst, p0, p1) = self.extract_placeholders(inst);
                let inst = match self.replace_constants(inst) {
                    Ok(i) => i,
                    Err(e) => {
                        return Err(e);
                    },
                };
                let data = match compile_instruction(&inst, p0, p1, &mut self.placeholders) {
                    Ok(d) => d,
                    Err(e) => {
                        return Err(
                            CompileError { error: e.error, instr: Some(inst) },
                        );
                    },
                };
                let dlen = data.len as usize;
                if dlen > self.out.len() - self.idx {
                    return Err(
                        CompileError {
                            error: CompileErrorType::OutputOverflow(self.idx),
                            instr: None,
                        },
                    );
                }
                let ghost out0 = self.out@;
                let ghost idx0 = self.idx as int;
                let ghost pre = *self;
                let mut k: usize = 0;
                while k < dlen
                    invariant
                        self.label_map == pre.label_map,
                        self.placeholders == pre.placeholders,
                        self.constants == pre.constants,
                        self.macros == pre.macros,
                        self.source_provider == pre.source_provider,
                        k <= dlen,
                        dlen == data.len,
                        data.wf(),
                        0 <= idx0,
                        idx0 + dlen <= out0.len(),
                        out0.len() <= usize::MAX,
                        self.idx == idx0 + k,
                        self.out@ == out0.take(idx0) + data.bytes().take(k as int) + out0.skip(
                            idx0 + k,
                        ),
                    decreases dlen - k,
                {
                    let ghost o_pre = self.out@;
                    let b = data.data[k];
                    proof {
                        assert(o_pre.len() == out0.len());
                        assert(data.bytes()[k as int] == data.data@[k as int]);
                    }
                    self.out.set(self.idx, b);
                    self.idx = self.idx + 1;
                    k = k + 1;
                    proof {
                        assert(self.out@ =~= out0.take(idx0) + data.bytes().take(k as int)
                            + out0.skip(idx0 + k));
                    }
                }
                proof {
                    assert(data.bytes().take(dlen as int) =~= data.bytes());
                    assert(self.out@ =~= splice(out0, idx0, data.bytes()));
                }
                Ok(())
            },
        }
    }

    /// The fix-up pass: back-patches every placeholder from the label map.
    fn apply_fixups(&mut self) -> (r: Result<(), CompileError>)
        requires
            old(self).wf(),
        ensures
            final(self).wf(),
            match r {
                Ok(_) => spec_fixups(
                    old(self).out@,
                    old(self).label_map@,
                    phs_view(old(self).placeholders@),
                    0,
                ) == Ok::<Seq<u8>, CEV>(final(self).out@),
                Err(e) => spec_fixups(
                    old(self).out@,
                    old(self).label_map@,
                    phs_view(old(self).placeholders@),
                    0,
                ) == Err::<Seq<u8>, CEV>(e@),
            },
    {
        let n = self.placeholders.len();
        let ghost labels0 = self.label_map@;
        let ghost phs0 = phs_view(self.placeholders@);
        let ghost out_init = self.out@;
        let mut k: usize = 0;
        while k < n
            invariant
                self.wf(),
                k <= n,
                n == self.placeholders@.len(),
                labels0 == old(self).label_map@,
                phs0 == phs_view(old(self).placeholders@),
                out_init == old(self).out@,
                self.label_map@ == labels0,
                phs_view(self.placeholders@) == phs0,
                self.placeholders@.len() == phs0.len(),
                spec_fixups(out_init, labels0, phs0, 0) == spec_fixups(
                    self.out@,
                    labels0,
                    phs0,
                    k as int,
                ),
            decreases n - k,
        {
            let ghost ph_v = phs0[k as int];
            proof {
                assert(ph_v == self.placeholders@[k as int]@);
            }
            let addr: usize = {
                let phk = &self.placeholders[k];
                match self.label_map.get(phk.label.as_str()) {
                    Some(a) => *a,
                    None => {
                        return Err(label_not_found(phk));
                    },
                }
            };
            let phk_idx = self.placeholders[k].idx;
            let kind = self.placeholders[k].ph_type;
            match kind {
                PlaceholderType::ShortValue => {
                    if phk_idx >= self.out.len() {
                        return Err(
                            CompileError {
                                error: CompileErrorType::OutputOverflow(phk_idx),
                                instr: None,
                            },
                        );
                    }
                    if addr >= self.out.len() {
                        return Err(
                            CompileError {
                                error: CompileErrorType::OutputOverflow(addr),
                                instr: None,
                            },
                        );
                    }
                    let b = self.out[addr];
                    self.out.set(phk_idx, b);
                },
                PlaceholderType::WideValue => {
                    if phk_idx >= self.out.len() || phk_idx + 1 >= self.out.len() {
                        return Err(
                            CompileError {
                                error: CompileErrorType::OutputOverflow(phk_idx),
                                instr: None,
                            },
                        );
                    }
                    if addr >= self.out.len() || addr + 1 >= self.out.len() {
                        return Err(
                            CompileError {
                                error: CompileErrorType::OutputOverflow(addr),
                                instr: None,
                            },
                        );
                    }
                    let b = self.out[addr];
                    self.out.set(phk_idx, b);
                    let b2 = self.out[addr + 1];
                    self.out.set(phk_idx + 1, b2);
                },
                PlaceholderType::AbsAddress => {
                    if phk_idx >= self.out.len() || phk_idx + 1 >= self.out.len() {
                        return Err(
                            CompileError {
                                error: CompileErrorType::OutputOverflow(phk_idx),
                                instr: None,
                            },
                        );
                    }
                    self.out.set(phk_idx, (addr % 256) as u8);
                    self.out.set(phk_idx + 1, ((addr / 256) % 256) as u8);
                },
                PlaceholderType::RelAddress => {
                    if phk_idx >= self.out.len() {
                        return Err(
                            CompileError {
                                error: CompileErrorType::OutputOverflow(phk_idx),
                                instr: None,
                            },
                        );
                    }
                    match relative_delta(phk_idx + 1, addr) {
                        Some(b) => {
                            self.out.set(phk_idx, b);
                        },
                        None => {
                            let phk = &self.placeholders[k];
                            return Err(
                                CompileError {
                                    error: CompileErrorType::UnableToCalculateRelativeJump(
                                        phk.clone(),
                                    ),
                                    instr: None,
                                },
                            );
                        },
                    }
                },
                PlaceholderType::Undefined => {
                    let phk = &self.placeholders[k];
                    return Err(
                        CompileError {
                            error: CompileErrorType::UndefinedPlaceholder(phk.clone()),
                            instr: None,
                        },
                    );
                },
            }
            k = k + 1;
        }
        Ok(())
    }
}

/// The tokenizer view a file's compilation starts from.
pub open spec fn init_lex(content: Seq<char>) -> BTView {
    BTView {
        buf: Seq::<TokenVal>::empty(),
        lex: SimpleLexV { chars: content, pos: 0, line: 1, file: 0, head: None },
    }
}

/// The whole machine state of an assembly in flight: the contents still to
/// be compiled, the tokenizer of the current file, and the driver state.
pub struct Cfg {
    pub files: Seq<Seq<char>>,
    pub cur: Option<BTView>,
    pub comp: CompV,
}

pub enum StepRes {
    Next(Cfg),
    Done(Seq<u8>),
    Fail(CEV),
}

pub enum RunRes {
    Running(Cfg),
    Done(Seq<u8>),
    Fail(CEV),
}

/// One step of the assembly: open the next file, parse and apply one item,
/// or, with everything consumed, run the fix-up pass.
#[verifier::opaque]
pub open spec fn step(cfg: Cfg) -> StepRes {
    match cfg.cur {
        None => {
            if cfg.files.len() == 0 {
                match spec_fixups(cfg.comp.out, cfg.comp.labels, cfg.comp.phs, 0) {
                    Ok(out) => StepRes::Done(out),
                    Err(e) => StepRes::Fail(e),
                }
            } else {
                StepRes::Next(
                    Cfg {
                        files: cfg.files.drop_first(),
                        cur: Some(init_lex(cfg.files[0])),
                        comp: CompV { consts: Map::<Seq<char>, u16>::empty(), ..cfg.comp },
                    },
                )
            }
        },
        Some(v) => {
            let (pr, v2) = p_parse_next(v);
            match pr {
                Err(e) => StepRes::Fail(CEV { error: CErrV::ParseError(e), instr: None }),
                Ok(None) => StepRes::Next(Cfg { cur: None, ..cfg }),
                Ok(Some(item)) => match item {
                    ParseItemV::Directive(cmd, toks) => {
                        match m_compile_macro(cmd, toks, v2, cfg.comp.macros) {
                            Err(e) => StepRes::Fail(e),
                            Ok((v3, m2)) => StepRes::Next(
                                Cfg {
                                    cur: Some(v3),
                                    comp: CompV { macros: m2, ..cfg.comp },
                                    ..cfg
                                },
                            ),
                        }
                    },
                    _ => match spec_process_item(item, cfg.comp) {
                        Err(e) => StepRes::Fail(e),
                        Ok(c2) => StepRes::Next(Cfg { cur: Some(v2), comp: c2, ..cfg }),
                    },
                },
            }
        },
    }
}

/// The machine after `n` steps.
pub open spec fn run(cfg: Cfg, n: nat) -> RunRes
    decreases n,
{
    if n == 0 {
        RunRes::Running(cfg)
    } else {
        match step(cfg) {
            StepRes::Next(c2) => run(c2, (n - 1) as nat),
            StepRes::Done(o) => RunRes::Done(o),
            StepRes::Fail(e) => RunRes::Fail(e),
        }
    }
}

/// The largest number of steps `compile` attempts.
pub open spec fn fuel_limit() -> nat {
    usize::MAX as nat
}

/// The fault `compile` reports when the step budget runs out.
pub open spec fn step_limit_cev() -> CEV {
    CEV { error: CErrV::StepLimit, instr: None }
}

/// An assembly outcome `compile` may report for the machine started at
/// `cfg0`: the machine's own verdict within the step budget, or the budget
/// ran out.
pub open spec fn outcome_matches(cfg0: Cfg, r: Result<Seq<u8>, CEV>) -> bool {
    match r {
        Ok(out) => exists|n: nat| n <= fuel_limit() && run(cfg0, n) == RunRes::Done(out),
        Err(e) => (exists|n: nat| n <= fuel_limit() && run(cfg0, n) == RunRes::Fail(e)) || (e
            == step_limit_cev() && run(cfg0, fuel_limit()) is Running),
    }
}

/// The machine an assembly of this driver state over these sources starts
/// from.
pub open spec fn start_cfg<T: SourceProvider>(c: Compiler<T>) -> Cfg {
    Cfg {
        files: eff_sources(c.source_provider.spec_files()),
        cur: None::<BTView>,
        comp: c.comp_view(),
    }
}

/// The view of a compilation result.
pub open spec fn result_view(r: Result<Vec<u8>, CompileError>) -> Result<Seq<u8>, CEV> {
    match r {
        Ok(out) => Ok(out@),
        Err(e) => Err(e@),
    }
}

/// Running one more step from a still-running machine takes exactly the
/// step of the configuration reached.
pub proof fn lemma_run_next(c0: Cfg, n: nat)
    requires
        run(c0, n) is Running,
    ensures
        run(c0, n + 1) == (match step(run(c0, n)->Running_0) {
            StepRes::Next(c2) => RunRes::Running(c2),
            StepRes::Done(o) => RunRes::Done(o),
            StepRes::Fail(e) => RunRes::Fail(e),
        }),
    decreases n,
{
    assert(run(c0, n + 1) == (match step(c0) {
        StepRes::Next(c2) => run(c2, n),
        StepRes::Done(o) => RunRes::Done(o),
        StepRes::Fail(e) => RunRes::Fail(e),
    }));
    if n == 0 {
        assert(run(c0, 0) == RunRes::Running(c0));
    } else {
        assert(run(c0, n) == (match step(c0) {
            StepRes::Next(c2) => run(c2, (n - 1) as nat),
            StepRes::Done(o) => RunRes::Done(o),
            StepRes::Fail(e) => RunRes::Fail(e),
        }));
        match step(c0) {
            StepRes::Next(c2) => {
                lemma_run_next(c2, (n - 1) as nat);
                assert((n - 1) as nat + 1 == n);
            },
            StepRes::Done(_) => {},
            StepRes::Fail(_) => {},
        }
    }
}

/// Once the machine has finished or failed, more steps change nothing.
pub proof fn lemma_run_mono(c0: Cfg, n: nat, m: nat)
    requires
        !(run(c0, n) is Running),
        n <= m,
    ensures
        run(c0, m) == run(c0, n),
    decreases n,
{
    if n == 0 {
    } else if m == n {
    } else {
        match step(c0) {
            StepRes::Next(c2) => {
                lemma_run_mono(c2, (n - 1) as nat, (m - 1) as nat);
            },
            StepRes::Done(_) => {},
            StepRes::Fail(_) => {},
        }
    }
}

/// Two finished observations of the same machine agree; the heart of the
/// determinism of assembly.
pub proof fn lemma_run_agree(c0: Cfg, n1: nat, n2: nat)
    requires
        !(run(c0, n1) is Running),
        !(run(c0, n2) is Running),
    ensures
        run(c0, n1) == run(c0, n2),
{
    if n1 <= n2 {
        lemma_run_mono(c0, n1, n2);
    } else {
        lemma_run_mono(c0, n2, n1);
    }
}

/// The view of an optional tokenizer.
pub open spec fn cur_view(c: Option<BufferedTokenizer>) -> Option<BTView> {
    match c {
        Some(t) => Some(t@),
        None => None,
    }
}


impl<T> Compiler<T> where T: SourceProvider {
    /// Assembles every file of the provider, in order, and returns the
    /// finished memory image: exactly what the step machine yields on the
    /// same input, within the step budget.
    #[verifier::rlimit(100)]
    pub fn compile(self) -> (r: Result<Vec<u8>, CompileError>)
        requires
            self.wf(),
        ensures
            outcome_matches(start_cfg(self), result_view(r)),
    {
        let ghost sfiles = self.source_provider.spec_files();
        let ghost cfg0 = Cfg {
            files: eff_sources(sfiles),
            cur: None::<BTView>,
            comp: self.comp_view(),
        };
        let mut this = self;
        let files = this.source_provider.file_list();
        let nfiles = files.len();
        let mut parser = Parser::new();
        let mut fi: usize = 0;
        let mut cur: Option<BufferedTokenizer> = None;
        let mut fuel: usize = usize::MAX;
        proof {
            assert(eff_sources(sfiles).skip(0) =~= eff_sources(sfiles));
        }
        loop
            invariant
                cfg0 == (Cfg {
                    files: eff_sources(self.source_provider.spec_files()),
                    cur: None::<BTView>,
                    comp: self.comp_view(),
                }),
                this.wf(),
                this.source_provider.spec_files() == sfiles,
                nfiles == files@.len(),
                nfiles == sfiles.len(),
                fi <= nfiles,
                forall|j: int| 0 <= j < nfiles ==> files@[j]@ == sfiles[j].0,
                (match cur {
                    Some(t) => t.wf(),
                    None => true,
                }),
                run(cfg0, (usize::MAX - fuel) as nat) == RunRes::Running(
                    Cfg {
                        files: eff_sources(sfiles).skip(fi as int),
                        cur: cur_view(cur),
                        comp: this.comp_view(),
                    },
                ),
            decreases fuel,
        {
            let ghost n0 = (usize::MAX - fuel) as nat;
            let ghost cfg_now = Cfg {
                files: eff_sources(sfiles).skip(fi as int),
                cur: cur_view(cur),
                comp: this.comp_view(),
            };
            if fuel == 0 {
                proof {
                    assert(n0 == fuel_limit());
                }
                return Err(CompileError { error: CompileErrorType::StepLimit, instr: None });
            }
            fuel = fuel - 1;
            match cur {
                None => {
                    if fi == nfiles {
                        proof {
                            lemma_run_next(cfg0, n0);
                        }
                        let fr = this.apply_fixups();
                        match fr {
                            Ok(_) => {
                                proof {
                                    reveal(step);
                                    assert(eff_sources(sfiles).skip(nfiles as int)
                                        =~= Seq::<Seq<char>>::empty());
                                    assert(step(cfg_now) == StepRes::Done(this.out@));
                                    assert(run(cfg0, n0 + 1) == RunRes::Done(this.out@));
                                    assert(n0 + 1 <= fuel_limit());
                                }
                                return Ok(this.out);
                            },
                            Err(e) => {
                                proof {
                                    reveal(step);
                                    assert(eff_sources(sfiles).skip(nfiles as int)
                                        =~= Seq::<Seq<char>>::empty());
                                    assert(step(cfg_now) == StepRes::Fail(e@));
                                    assert(run(cfg0, n0 + 1) == RunRes::Fail(e@));
                                    assert(n0 + 1 <= fuel_limit());
                                }
                                return Err(e);
                            },
                        }
                    } else {
                        this.constants.clear();
                        proof {
                            assert(sfiles[fi as int].0 == files@[fi as int]@);
                            assert(has_file(sfiles, files@[fi as int]@));
                        }
                        let src = this.source_provider.source(files[fi].filename.as_str());
                        let tok = BufferedTokenizer::new(src.as_str(), 0);
                        cur = Some(tok);
                        fi = fi + 1;
                        proof {
                            reveal(step);
                            lemma_run_next(cfg0, n0);
                            assert(eff_sources(sfiles)[fi - 1] == first_content(
                                sfiles,
                                sfiles[fi - 1].0,
                            ));
                            assert(cfg_now.files[0] == eff_sources(sfiles)[fi - 1]);
                            assert(cfg_now.files.drop_first() =~= eff_sources(sfiles).skip(
                                fi as int,
                            ));
                            assert(step(cfg_now) == StepRes::Next(
                                Cfg {
                                    files: eff_sources(sfiles).skip(fi as int),
                                    cur: cur_view(cur),
                                    comp: this.comp_view(),
                                },
                            ));
                        }
                    }
                },
                Some(mut tok) => {
                    let pr = parser.parse_next(&mut tok);
                    match pr {
                        Err(e) => {
                            proof {
                                reveal(step);
                                lemma_run_next(cfg0, n0);
                                assert(step(cfg_now) == StepRes::Fail(
                                    CEV { error: CErrV::ParseError(e@), instr: None },
                                ));
                            }
                            return Err(
                                CompileError {
                                    error: CompileErrorType::ParseError(e),
                                    instr: None,
                                },
                            );
                        },
                        Ok(None) => {
                            cur = None;
                            proof {
                                reveal(step);
                                lemma_run_next(cfg0, n0);
                                assert(step(cfg_now) == StepRes::Next(
                                    Cfg {
                                        files: eff_sources(sfiles).skip(fi as int),
                                        cur: None::<BTView>,
                                        comp: this.comp_view(),
                                    },
                                ));
                            }
                        },
                        Ok(Some(item)) => {
                            let ghost item_v = item@;
                            let ghost comp_pre = this.comp_view();
                            let prr = this.process_item(item, &mut tok);
                            match prr {
                                Err(e) => {
                                    proof {
                                        reveal(step);
                                        lemma_run_next(cfg0, n0);
                                        if item_v is Directive {
                                            assert(step(cfg_now) == StepRes::Fail(e@));
                                        } else {
                                            assert(step(cfg_now) == StepRes::Fail(e@));
                                        }
                                    }
                                    return Err(e);
                                },
                                Ok(_) => {
                                    cur = Some(tok);
                                    proof {
                                        reveal(step);
                                        lemma_run_next(cfg0, n0);
                                        if item_v is Directive {
                                            assert(this.comp_view() == (CompV {
                                                macros: this.macros@,
                                                ..comp_pre
                                            }));
                                            assert(step(cfg_now) == StepRes::Next(
                                                Cfg {
                                                    files: eff_sources(sfiles).skip(fi as int),
                                                    cur: cur_view(cur),
                                                    comp: this.comp_view(),
                                                },
                                            ));
                                        } else {
                                            assert(step(cfg_now) == StepRes::Next(
                                                Cfg {
                                                    files: eff_sources(sfiles).skip(fi as int),
                                                    cur: cur_view(cur),
                                                    comp: this.comp_view(),
                                                },
                                            ));
                                        }
                                    }
                                },
                            }
                        },
                    }
                },
            }
        }
    }
}

} // verus!
