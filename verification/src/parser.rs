//! The pull-based parser: given a buffered tokenizer, yields one parse item
//! at a time.
//!
//! The grammar is stated once, as the specification functions `p_*` over the
//! tokenizer view, and the parser is proved against it.  Where the grammar
//! has no production for a token, the parser reports an `UnexpectedToken`
//! fault whose `expected` field names the class of token that was wanted: an
//! identifier as an empty `Identifier`, a numeric literal as `Value(0, 1)`,
//! an end of line as `NewLine`.

pub mod errors;
pub mod token;
pub mod tokenizer;

pub use crate::parser::errors::ParseError;
pub use crate::parser::token::{Token, TokenValue};

use crate::domain::conditions::{condition_allowed, parse_condition, spec_condition_allowed,
    spec_parse_condition};
use crate::domain::enums::ShortReg;
use crate::domain::register::{ParsedRegister, RegV, parse_register, spec_parse_register};
use crate::domain::{ArgV, Argument, Constant, ConstantV, Instruction, InstrV, Label, LabelV,
    ParseItem, ParseItemV};
use crate::parser::errors::{PErrV, UnexpectedToken};
use crate::parser::token::{TokV, TokenVal, toks_view};
use crate::parser::tokenizer::{BTView, BufferedTokenizer, b_expect, b_next, b_peek,
    lemma_b_next_measure, lemma_b_peek_measure};
use crate::strutil::{spec_lower, to_lower};
use vstd::prelude::*;

verus! {

/// Fault for a spot where an identifier was required.
pub open spec fn ident_expected_err(t: TokenVal) -> PErrV {
    PErrV::UnexpectedToken {
        expected: TokV::Identifier(Seq::<char>::empty()),
        actual: t.t,
        line: t.line,
        file: t.file,
        ch: 0,
    }
}

/// Fault for a spot where a numeric literal was required.
pub open spec fn value_expected_err(t: TokenVal) -> PErrV {
    PErrV::UnexpectedToken { expected: TokV::Value(0, 1), actual: t.t, line: t.line, file: t.file, ch: 0 }
}

/// Fault for a spot where an end of line was required.
pub open spec fn newline_expected_err(t: TokenVal) -> PErrV {
    PErrV::UnexpectedToken { expected: TokV::NewLine, actual: t.t, line: t.line, file: t.file, ch: 0 }
}

/// `.name:` after the dot: an identifier, then a colon.
pub open spec fn p_label(v: BTView) -> (Result<ParseItemV, PErrV>, BTView) {
    let (r0, v1) = b_next(v);
    match r0 {
        Err(e) => (Err(e), v1),
        Ok(_) => {
            let (r1, v2) = b_next(v1);
            match r1 {
                Err(e) => (Err(e), v2),
                Ok(t) => match t.t {
                    TokV::Identifier(l) => {
                        let (r2, v3) = b_expect(v2, TokV::Colon);
                        match r2 {
                            Err(e) => (Err(e), v3),
                            Ok(_) => (
                                Ok(
                                    ParseItemV::Label(
                                        LabelV { name: l, line: t.line, file: t.file },
                                    ),
                                ),
                                v3,
                            ),
                        }
                    },
                    _ => (Err(ident_expected_err(t)), v2),
                },
            }
        },
    }
}

/// `&name`, `*name` or `@name` after its sigil: the named argument.
pub open spec fn p_named_arg(v: BTView, sigil: TokV) -> (Result<ArgV, PErrV>, BTView) {
    let (r, v1) = b_next(v);
    match r {
        Err(e) => (Err(e), v1),
        Ok(t) => match t.t {
            TokV::Identifier(n) => {
                if sigil is Amp {
                    (Ok(ArgV::LabelAddress(n)), v1)
                } else if sigil is Asterisk {
                    (Ok(ArgV::LabelValue(n)), v1)
                } else {
                    (Ok(ArgV::Constant(n)), v1)
                }
            },
            _ => (Err(ident_expected_err(t)), v1),
        },
    }
}

/// A parenthesised addressing form, after the opening parenthesis.
pub open spec fn p_address_arg(v: BTView) -> (Result<ArgV, PErrV>, BTView) {
    let (r, v1) = b_next(v);
    match r {
        Err(e) => (Err(e), v1),
        Ok(t) => match t.t {
            TokV::Identifier(i) => {
                let (rp, v2) = b_peek(v1);
                match rp {
                    Err(e) => (Err(e), v2),
                    Ok(tp) => {
                        if tp.t is Plus {
                            let (rn, v3) = b_next(v2);
                            match rn {
                                Err(e) => (Err(e), v3),
                                Ok(_) => {
                                    let (rv, v4) = b_next(v3);
                                    match rv {
                                        Err(e) => (Err(e), v4),
                                        Ok(tv) => match tv.t {
                                            TokV::Value(off, _) => {
                                                match spec_parse_register(i) {
                                                    RegV::WideReg(wr) => {
                                                        let (re, v5) = b_expect(
                                                            v4,
                                                            TokV::CloseParen,
                                                        );
                                                        match re {
                                                            Err(e) => (Err(e), v5),
                                                            Ok(_) => (
                                                                Ok(
                                                                    ArgV::RegOffsetAddress(
                                                                        wr,
                                                                        off,
                                                                    ),
                                                                ),
                                                                v5,
                                                            ),
                                                        }
                                                    },
                                                    _ => (Err(ident_expected_err(t)), v4),
                                                }
                                            },
                                            _ => (Err(value_expected_err(tv)), v4),
                                        },
                                    }
                                },
                            }
                        } else {
                            match spec_parse_register(i) {
                                RegV::WideReg(wr) => {
                                    let (re, v3) = b_expect(v2, TokV::CloseParen);
                                    match re {
                                        Err(e) => (Err(e), v3),
                                        Ok(_) => {
                                            if wr is IX || wr is IY {
                                                (Ok(ArgV::RegOffsetAddress(wr, 0)), v3)
                                            } else {
                                                (Ok(ArgV::WideRegAddress(wr)), v3)
                                            }
                                        },
                                    }
                                },
                                RegV::ShortReg(sr) => {
                                    if sr is C {
                                        let (re, v3) = b_expect(v2, TokV::CloseParen);
                                        match re {
                                            Err(e) => (Err(e), v3),
                                            Ok(_) => (Ok(ArgV::ShortRegAddress(sr)), v3),
                                        }
                                    } else {
                                        (Err(ident_expected_err(t)), v2)
                                    }
                                },
                                _ => (Err(ident_expected_err(t)), v2),
                            }
                        }
                    },
                }
            },
            TokV::Value(val, _) => {
                let (re, v2) = b_expect(v1, TokV::CloseParen);
                match re {
                    Err(e) => (Err(e), v2),
                    Ok(_) => (Ok(ArgV::DirectAddress(val)), v2),
                }
            },
            _ => (Err(ident_expected_err(t)), v1),
        },
    }
}

/// One instruction operand; `code` is the lowercased opcode, which decides
/// whether a condition name is accepted.
pub open spec fn p_argument(code: Seq<char>, v: BTView) -> (Result<ArgV, PErrV>, BTView) {
    let (r, v1) = b_next(v);
    match r {
        Err(e) => (Err(e), v1),
        Ok(t) => match t.t {
            TokV::Value(val, _) => (Ok(ArgV::Value(val)), v1),
            TokV::OpenParen => p_address_arg(v1),
            TokV::Identifier(i) => {
                if spec_condition_allowed(code) && spec_parse_condition(i) is Some {
                    (Ok(ArgV::Condition(spec_parse_condition(i)->0)), v1)
                } else {
                    match spec_parse_register(i) {
                        RegV::ShortReg(sr) => (Ok(ArgV::ShortReg(sr)), v1),
                        RegV::WideReg(wr) => (Ok(ArgV::WideReg(wr)), v1),
                        RegV::Error(_) => (Err(ident_expected_err(t)), v1),
                    }
                }
            },
            TokV::Amp => p_named_arg(v1, TokV::Amp),
            TokV::Asterisk => p_named_arg(v1, TokV::Asterisk),
            TokV::At => p_named_arg(v1, TokV::At),
            _ => (Err(ident_expected_err(t)), v1),
        },
    }
}

/// An instruction line: opcode, up to two operands, and an end of line
/// (newline or end of input) after them.
pub open spec fn p_instruction(v: BTView) -> (Result<ParseItemV, PErrV>, BTView) {
    let (r, v1) = b_next(v);
    match r {
        Err(e) => (Err(e), v1),
        Ok(t) => match t.t {
            TokV::Identifier(code) => {
                let opcode = spec_lower(code);
                let (rp, v2) = b_peek(v1);
                match rp {
                    Err(e) => (Err(e), v2),
                    Ok(tp) => {
                        if tp.t is NewLine || tp.t is EOF {
                            (
                                Ok(
                                    ParseItemV::Instruction(
                                        InstrV {
                                            opcode,
                                            arg0: ArgV::Empty,
                                            arg1: ArgV::Empty,
                                            line: t.line,
                                            file: t.file,
                                        },
                                    ),
                                ),
                                v2,
                            )
                        } else {
                            let (ra0, v3) = p_argument(opcode, v2);
                            match ra0 {
                                Err(e) => (Err(e), v3),
                                Ok(a0) => {
                                    let (rp2, v4) = b_peek(v3);
                                    match rp2 {
                                        Err(e) => (Err(e), v4),
                                        Ok(t2) => {
                                            if t2.t is NewLine || t2.t is EOF {
                                                (
                                                    Ok(
                                                        ParseItemV::Instruction(
                                                            InstrV {
                                                                opcode,
                                                                arg0: a0,
                                                                arg1: ArgV::Empty,
                                                                line: t.line,
                                                                file: t.file,
                                                            },
                                                        ),
                                                    ),
                                                    v4,
                                                )
                                            } else if !(t2.t is Comma) {
                                                (
                                                    Err(
                                                        PErrV::UnexpectedToken {
                                                            expected: TokV::NewLine,
                                                            actual: t2.t,
                                                            line: v4.lex.line,
                                                            file: v4.lex.file,
                                                            ch: 0,
                                                        },
                                                    ),
                                                    v4,
                                                )
                                            } else {
                                                let (rn, v5) = b_next(v4);
                                                match rn {
                                                    Err(e) => (Err(e), v5),
                                                    Ok(_) => {
                                                        let (ra1, v6) = p_argument(opcode, v5);
                                                        match ra1 {
                                                            Err(e) => (Err(e), v6),
                                                            Ok(a1) => {
                                                                let (rp3, v7) = b_peek(v6);
                                                                match rp3 {
                                                                    Err(e) => (Err(e), v7),
                                                                    Ok(t3) => {
                                                                        if t3.t is NewLine
                                                                            || t3.t is EOF {
                                                                            (
                                                                                Ok(
                                                                                    ParseItemV::Instruction(
                                                                                        InstrV {
                                                                                            opcode,
                                                                                            arg0: a0,
                                                                                            arg1: a1,
                                                                                            line: t.line,
                                                                                            file: t.file,
                                                                                        },
                                                                                    ),
                                                                                ),
                                                                                v7,
                                                                            )
                                                                        } else {
                                                                            (
                                                                                Err(
                                                                                    newline_expected_err(
                                                                                        t3,
                                                                                    ),
                                                                                ),
                                                                                v7,
                                                                            )
                                                                        }
                                                                    },
                                                                }
                                                            },
                                                        }
                                                    },
                                                }
                                            }
                                        },
                                    }
                                },
                            }
                        }
                    },
                }
            },
            _ => (Err(ident_expected_err(t)), v1),
        },
    }
}

/// A bare literal: one or two little-endian data bytes, by its width.
pub open spec fn p_data(v: BTView) -> (Result<ParseItemV, PErrV>, BTView) {
    let (r, v1) = b_next(v);
    match r {
        Err(e) => (Err(e), v1),
        Ok(t) => match t.t {
            TokV::Value(val, size) => {
                if size == 1 {
                    (Ok(ParseItemV::Data(seq![(val % 256) as u8])), v1)
                } else if size == 2 {
                    (Ok(ParseItemV::Data(seq![(val % 256) as u8, (val / 256) as u8])), v1)
                } else {
                    (Err(value_expected_err(t)), v1)
                }
            },
            _ => (Err(value_expected_err(t)), v1),
        },
    }
}

/// `@name: <literal>` after the at sign.
pub open spec fn p_constant(v: BTView) -> (Result<ParseItemV, PErrV>, BTView) {
    let (r0, v1) = b_next(v);
    match r0 {
        Err(e) => (Err(e), v1),
        Ok(_) => {
            let (r1, v2) = b_next(v1);
            match r1 {
                Err(e) => (Err(e), v2),
                Ok(t) => match t.t {
                    TokV::Identifier(l) => {
                        let (r2, v3) = b_expect(v2, TokV::Colon);
                        match r2 {
                            Err(e) => (Err(e), v3),
                            Ok(_) => {
                                let (r3, v4) = b_next(v3);
                                match r3 {
                                    Err(e) => (Err(e), v4),
                                    Ok(tv) => match tv.t {
                                        TokV::Value(val, _) => (
                                            Ok(
                                                ParseItemV::Constant(
                                                    ConstantV { name: l, value: val },
                                                ),
                                            ),
                                            v4,
                                        ),
                                        _ => (Err(value_expected_err(tv)), v4),
                                    },
                                }
                            },
                        }
                    },
                    _ => (Err(ident_expected_err(t)), v2),
                },
            }
        },
    }
}

/// The tokens from here to the end of the line; the newline itself is left
/// in the stream.
pub open spec fn p_collect_line(v: BTView) -> (Result<Seq<TokenVal>, PErrV>, BTView)
    decreases v.measure(),
    when v.wf()
    via p_collect_line_dec
{
    let (rp, v1) = b_peek(v);
    match rp {
        Err(e) => (Err(e), v1),
        Ok(t) => {
            if t.t is NewLine || t.t is EOF {
                (Ok(Seq::<TokenVal>::empty()), v1)
            } else {
                let (rn, v2) = b_next(v1);
                match rn {
                    Err(e) => (Err(e), v2),
                    Ok(t2) => {
                        let (rr, v3) = p_collect_line(v2);
                        match rr {
                            Err(e) => (Err(e), v3),
                            Ok(rest) => (Ok(seq![t2] + rest), v3),
                        }
                    },
                }
            }
        },
    }
}

#[via_fn]
proof fn p_collect_line_dec(v: BTView) {
    lemma_b_peek_measure(v);
    lemma_b_next_measure(b_peek(v).1);
}

/// A `#` directive line: the directive token, then the rest of the line.
pub open spec fn p_directive(v: BTView) -> (Result<ParseItemV, PErrV>, BTView) {
    let (r, v1) = b_next(v);
    match r {
        Err(e) => (Err(e), v1),
        Ok(t) => match t.t {
            TokV::Directive(s) => {
                let (rr, v2) = p_collect_line(v1);
                match rr {
                    Err(e) => (Err(e), v2),
                    Ok(ts) => (Ok(ParseItemV::Directive(s, ts)), v2),
                }
            },
            _ => (Err(ident_expected_err(t)), v1),
        },
    }
}

/// The next parse item, skipping newlines; `None` at the end of the input.
pub open spec fn p_parse_next(v: BTView) -> (Result<Option<ParseItemV>, PErrV>, BTView)
    decreases v.measure(),
    when v.wf()
    via p_parse_next_dec
{
    let (rp, v1) = b_peek(v);
    match rp {
        Err(e) => (Err(e), v1),
        Ok(t) => match t.t {
            TokV::Dot => item_some(p_label(v1)),
            TokV::Identifier(_) => item_some(p_instruction(v1)),
            TokV::Value(_, _) => item_some(p_data(v1)),
            TokV::NewLine => {
                let (rn, v2) = b_next(v1);
                match rn {
                    Err(e) => (Err(e), v2),
                    Ok(_) => p_parse_next(v2),
                }
            },
            TokV::At => item_some(p_constant(v1)),
            TokV::Directive(_) => item_some(p_directive(v1)),
            TokV::EOF => (Ok(None), v1),
            _ => (Err(newline_expected_err(t)), v1),
        },
    }
}

pub open spec fn item_some(o: (Result<ParseItemV, PErrV>, BTView)) -> (Result<
    Option<ParseItemV>,
    PErrV,
>, BTView) {
    match o.0 {
        Ok(item) => (Ok(Some(item)), o.1),
        Err(e) => (Err(e), o.1),
    }
}

#[via_fn]
proof fn p_parse_next_dec(v: BTView) {
    lemma_b_peek_measure(v);
    lemma_b_next_measure(b_peek(v).1);
}

pub open spec fn item_res_view(r: Result<ParseItem, ParseError>) -> Result<ParseItemV, PErrV> {
    match r {
        Ok(i) => Ok(i@),
        Err(e) => Err(e@),
    }
}

pub open spec fn arg_res_view(r: Result<Argument, ParseError>) -> Result<ArgV, PErrV> {
    match r {
        Ok(a) => Ok(a@),
        Err(e) => Err(e@),
    }
}

pub open spec fn opt_item_res_view(r: Result<Option<ParseItem>, ParseError>) -> Result<
    Option<ParseItemV>,
    PErrV,
> {
    match r {
        Ok(Some(i)) => Ok(Some(i@)),
        Ok(None) => Ok(None),
        Err(e) => Err(e@),
    }
}

#[derive(Debug)]
pub struct Parser {
}

impl Parser {
    pub fn new() -> (r: Parser) {
        Parser {  }
    }

    /// The next parse item from the tokenizer, or `None` at the end of the
    /// input.
    pub fn parse_next(&mut self, tok: &mut BufferedTokenizer) -> (r: Result<
        Option<ParseItem>,
        ParseError,
    >)
        requires
            old(tok).wf(),
        ensures
            final(tok).wf(),
            final(tok)@ == p_parse_next(old(tok)@).1,
            opt_item_res_view(r) == p_parse_next(old(tok)@).0,
    {
        loop
            invariant
                old(tok).wf(),
                tok.wf(),
                p_parse_next(tok@) == p_parse_next(old(tok)@),
            decreases tok@.measure(),
        {
            let ghost pre = tok@;
            let t = match tok.peek() {
                Ok(t) => t,
                Err(e) => {
                    return Err(e);
                },
            };
            proof {
                lemma_b_peek_measure(pre);
            }
            match t.token {
                TokenValue::Dot => {
                    return match self.parse_label(tok) {
                        Ok(item) => Ok(Some(item)),
                        Err(e) => Err(e),
                    };
                },
                TokenValue::Identifier(_) => {
                    return match self.parse_instruction(tok) {
                        Ok(item) => Ok(Some(item)),
                        Err(e) => Err(e),
                    };
                },
                TokenValue::Value(_, _) => {
                    return match self.parse_data(tok) {
                        Ok(item) => Ok(Some(item)),
                        Err(e) => Err(e),
                    };
                },
                TokenValue::NewLine => {
                    let ghost mid = tok@;
                    match tok.next() {
                        Ok(_) => {},
                        Err(e) => {
                            return Err(e);
                        },
                    }
                    proof {
                        lemma_b_next_measure(mid);
                    }
                },
                TokenValue::At => {
                    return match self.parse_constant(tok) {
                        Ok(item) => Ok(Some(item)),
                        Err(e) => Err(e),
                    };
                },
                TokenValue::Directive(_) => {
                    return match self.parse_directive(tok) {
                        Ok(item) => Ok(Some(item)),
                        Err(e) => Err(e),
                    };
                },
                TokenValue::EOF => {
                    return Ok(None);
                },
                _ => {
                    return Err(
                        ParseError::UnexpectedToken(
                            UnexpectedToken {
                                expected: TokenValue::NewLine,
                                actual: t.token,
                                line: t.line,
                                file_id: t.file_id,
                                ch: 0,
                            },
                        ),
                    );
                },
            }
        }
    }

    fn parse_label(&mut self, tok: &mut BufferedTokenizer) -> (r: Result<ParseItem, ParseError>)
        requires
            old(tok).wf(),
        ensures
            final(tok).wf(),
            final(tok)@ == p_label(old(tok)@).1,
            item_res_view(r) == p_label(old(tok)@).0,
    {
        match tok.next() {
            Ok(_) => {},
            Err(e) => {
                return Err(e);
            },
        }
        let t = match tok.next() {
            Ok(t) => t,
            Err(e) => {
                return Err(e);
            },
        };
        match t.token {
            TokenValue::Identifier(l) => {
                match tok.expect(TokenValue::Colon) {
                    Ok(_) => {},
                    Err(e) => {
                        return Err(e);
                    },
                }
                Ok(ParseItem::Label(Label { name: l, line: t.line, file_id: t.file_id }))
            },
            _ => Err(
                ParseError::UnexpectedToken(
                    UnexpectedToken {
                        expected: TokenValue::Identifier(String::new()),
                        actual: t.token,
                        line: t.line,
                        file_id: t.file_id,
                        ch: 0,
                    },
                ),
            ),
        }
    }

    fn parse_instruction(&mut self, tok: &mut BufferedTokenizer) -> (r: Result<
        ParseItem,
        ParseError,
    >)
        requires
            old(tok).wf(),
        ensures
            final(tok).wf(),
            final(tok)@ == p_instruction(old(tok)@).1,
            item_res_view(r) == p_instruction(old(tok)@).0,
    {
        let t = match tok.next() {
            Ok(t) => t,
            Err(e) => {
                return Err(e);
            },
        };
        let line = t.line;
        let file_id = t.file_id;
        match t.token {
            TokenValue::Identifier(code) => {
                let opcode = to_lower(code.as_str());
                let tp = match tok.peek() {
                    Ok(t) => t,
                    Err(e) => {
                        return Err(e);
                    },
                };
                if matches!(tp.token, TokenValue::NewLine) || matches!(tp.token, TokenValue::EOF) {
                    return Ok(
                        ParseItem::Instruction(
                            Instruction {
                                opcode,
                                arg0: Argument::Empty,
                                arg1: Argument::Empty,
                                line,
                                file_id,
                            },
                        ),
                    );
                }
                let a0 = match self.parse_argument(opcode.as_str(), tok) {
                    Ok(a) => a,
                    Err(e) => {
                        return Err(e);
                    },
                };
                let t2 = match tok.peek() {
                    Ok(t) => t,
                    Err(e) => {
                        return Err(e);
                    },
                };
                if matches!(t2.token, TokenValue::NewLine) || matches!(t2.token, TokenValue::EOF) {
                    return Ok(
                        ParseItem::Instruction(
                            Instruction { opcode, arg0: a0, arg1: Argument::Empty, line, file_id },
                        ),
                    );
                }
                if !matches!(t2.token, TokenValue::Comma) {
                    return Err(
                        ParseError::UnexpectedToken(
                            UnexpectedToken {
                                expected: TokenValue::NewLine,
                                actual: t2.token,
                                line: tok.tokenizer.curr_line,
                                file_id: tok.tokenizer.file_id,
                                ch: 0,
                            },
                        ),
                    );
                }
                match tok.next() {
                    Ok(_) => {},
                    Err(e) => {
                        return Err(e);
                    },
                }
                let a1 = match self.parse_argument(opcode.as_str(), tok) {
                    Ok(a) => a,
                    Err(e) => {
                        return Err(e);
                    },
                };
                let t3 = match tok.peek() {
                    Ok(t) => t,
                    Err(e) => {
                        return Err(e);
                    },
                };
                if matches!(t3.token, TokenValue::NewLine) || matches!(t3.token, TokenValue::EOF) {
                    Ok(
                        ParseItem::Instruction(
                            Instruction { opcode, arg0: a0, arg1: a1, line, file_id },
                        ),
                    )
                } else {
                    Err(
                        ParseError::UnexpectedToken(
                            UnexpectedToken {
                                expected: TokenValue::NewLine,
                                actual: t3.token,
                                line: t3.line,
                                file_id: t3.file_id,
                                ch: 0,
                            },
                        ),
                    )
                }
            },
            _ => Err(
                ParseError::UnexpectedToken(
                    UnexpectedToken {
                        expected: TokenValue::Identifier(String::new()),
                        actual: t.token,
                        line,
                        file_id,
                        ch: 0,
                    },
                ),
            ),
        }
    }

    fn parse_argument(&mut self, code: &str, tok: &mut BufferedTokenizer) -> (r: Result<
        Argument,
        ParseError,
    >)
        requires
            old(tok).wf(),
        ensures
            final(tok).wf(),
            final(tok)@ == p_argument(code@, old(tok)@).1,
            arg_res_view(r) == p_argument(code@, old(tok)@).0,
    {
        let t = match tok.next() {
            Ok(t) => t,
            Err(e) => {
                return Err(e);
            },
        };
        match t.token {
            TokenValue::Value(v, _) => Ok(Argument::Value(v)),
            TokenValue::OpenParen => self.parse_address_arg(tok),
            TokenValue::Identifier(i) => {
                if condition_allowed(code) {
                    if let Some(c) = parse_condition(i.as_str()) {
                        return Ok(Argument::Condition(c));
                    }
                }
                match parse_register(i.as_str()) {
                    ParsedRegister::ShortReg(sr) => Ok(Argument::ShortReg(sr)),
                    ParsedRegister::WideReg(wr) => Ok(Argument::WideReg(wr)),
                    ParsedRegister::Error(_) => Err(
                        ParseError::UnexpectedToken(
                            UnexpectedToken {
                                expected: TokenValue::Identifier(String::new()),
                                actual: TokenValue::Identifier(i),
                                line: t.line,
                                file_id: t.file_id,
                                ch: 0,
                            },
                        ),
                    ),
                }
            },
            TokenValue::Amp => self.parse_named_arg(tok, TokenValue::Amp),
            TokenValue::Asterisk => self.parse_named_arg(tok, TokenValue::Asterisk),
            TokenValue::At => self.parse_named_arg(tok, TokenValue::At),
            _ => Err(
                ParseError::UnexpectedToken(
                    UnexpectedToken {
                        expected: TokenValue::Identifier(String::new()),
                        actual: t.token,
                        line: t.line,
                        file_id: t.file_id,
                        ch: 0,
                    },
                ),
            ),
        }
    }

    fn parse_named_arg(&mut self, tok: &mut BufferedTokenizer, sigil: TokenValue) -> (r: Result<
        Argument,
        ParseError,
    >)
        requires
            old(tok).wf(),
            sigil@ is Amp || sigil@ is Asterisk || sigil@ is At,
        ensures
            final(tok).wf(),
            final(tok)@ == p_named_arg(old(tok)@, sigil@).1,
            arg_res_view(r) == p_named_arg(old(tok)@, sigil@).0,
    {
        let t = match tok.next() {
            Ok(t) => t,
            Err(e) => {
                return Err(e);
            },
        };
        match t.token {
            TokenValue::Identifier(n) => match sigil {
                TokenValue::Amp => Ok(Argument::LabelAddress(n)),
                TokenValue::Asterisk => Ok(Argument::LabelValue(n)),
                _ => Ok(Argument::Constant(n)),
            },
            _ => Err(
                ParseError::UnexpectedToken(
                    UnexpectedToken {
                        expected: TokenValue::Identifier(String::new()),
                        actual: t.token,
                        line: t.line,
                        file_id: t.file_id,
                        ch: 0,
                    },
                ),
            ),
        }
    }

    fn parse_address_arg(&mut self, tok: &mut BufferedTokenizer) -> (r: Result<
        Argument,
        ParseError,
    >)
        requires
            old(tok).wf(),
        ensures
            final(tok).wf(),
            final(tok)@ == p_address_arg(old(tok)@).1,
            arg_res_view(r) == p_address_arg(old(tok)@).0,
    {
        let t = match tok.next() {
            Ok(t) => t,
            Err(e) => {
                return Err(e);
            },
        };
        match t.token {
            TokenValue::Identifier(i) => {
                let tp = match tok.peek() {
                    Ok(t) => t,
                    Err(e) => {
                        return Err(e);
                    },
                };
                if matches!(tp.token, TokenValue::Plus) {
                    match tok.next() {
                        Ok(_) => {},
                        Err(e) => {
                            return Err(e);
                        },
                    }
                    let tv = match tok.next() {
                        Ok(t) => t,
                        Err(e) => {
                            return Err(e);
                        },
                    };
                    match tv.token {
                        TokenValue::Value(off, _) => match parse_register(i.as_str()) {
                            ParsedRegister::WideReg(wr) => {
                                match tok.expect(TokenValue::CloseParen) {
                                    Ok(_) => {},
                                    Err(e) => {
                                        return Err(e);
                                    },
                                }
                                Ok(Argument::RegOffsetAddress(wr, off))
                            },
                            _ => Err(
                                ParseError::UnexpectedToken(
                                    UnexpectedToken {
                                        expected: TokenValue::Identifier(String::new()),
                                        actual: TokenValue::Identifier(i.clone()),
                                        line: t.line,
                                        file_id: t.file_id,
                                        ch: 0,
                                    },
                                ),
                            ),
                        },
                        _ => Err(
                            ParseError::UnexpectedToken(
                                UnexpectedToken {
                                    expected: TokenValue::Value(0, 1),
                                    actual: tv.token,
                                    line: tv.line,
                                    file_id: tv.file_id,
                                    ch: 0,
                                },
                            ),
                        ),
                    }
                } else {
                    match parse_register(i.as_str()) {
                        ParsedRegister::WideReg(wr) => {
                            match tok.expect(TokenValue::CloseParen) {
                                Ok(_) => {},
                                Err(e) => {
                                    return Err(e);
                                },
                            }
                            if matches!(wr, crate::domain::enums::WideReg::IX) || matches!(
                                wr,
                                crate::domain::enums::WideReg::IY,
                            ) {
                                Ok(Argument::RegOffsetAddress(wr, 0))
                            } else {
                                Ok(Argument::WideRegAddress(wr))
                            }
                        },
                        ParsedRegister::ShortReg(sr) => {
                            if matches!(sr, ShortReg::C) {
                                match tok.expect(TokenValue::CloseParen) {
                                    Ok(_) => {},
                                    Err(e) => {
                                        return Err(e);
                                    },
                                }
                                Ok(Argument::ShortRegAddress(sr))
                            } else {
                                Err(
                                    ParseError::UnexpectedToken(
                                        UnexpectedToken {
                                            expected: TokenValue::Identifier(String::new()),
                                            actual: TokenValue::Identifier(i.clone()),
                                            line: t.line,
                                            file_id: t.file_id,
                                            ch: 0,
                                        },
                                    ),
                                )
                            }
                        },
                        _ => Err(
                            ParseError::UnexpectedToken(
                                UnexpectedToken {
                                    expected: TokenValue::Identifier(String::new()),
                                    actual: TokenValue::Identifier(i.clone()),
                                    line: t.line,
                                    file_id: t.file_id,
                                    ch: 0,
                                },
                            ),
                        ),
                    }
                }
            },
            TokenValue::Value(val, _) => {
                match tok.expect(TokenValue::CloseParen) {
                    Ok(_) => {},
                    Err(e) => {
                        return Err(e);
                    },
                }
                Ok(Argument::DirectAddress(val))
            },
            _ => Err(
                ParseError::UnexpectedToken(
                    UnexpectedToken {
                        expected: TokenValue::Identifier(String::new()),
                        actual: t.token,
                        line: t.line,
                        file_id: t.file_id,
                        ch: 0,
                    },
                ),
            ),
        }
    }

    fn parse_data(&mut self, tok: &mut BufferedTokenizer) -> (r: Result<ParseItem, ParseError>)
        requires
            old(tok).wf(),
        ensures
            final(tok).wf(),
            final(tok)@ == p_data(old(tok)@).1,
            item_res_view(r) == p_data(old(tok)@).0,
    {
        let t = match tok.next() {
            Ok(t) => t,
            Err(e) => {
                return Err(e);
            },
        };
        match t.token {
            TokenValue::Value(val, size) => {
                if size == 1 {
                    let mut d: Vec<u8> = Vec::new();
                    d.push((val % 256) as u8);
                    proof {
                        assert(d@ =~= seq![(val % 256) as u8]);
                    }
                    Ok(ParseItem::Data(d))
                } else if size == 2 {
                    let mut d: Vec<u8> = Vec::new();
                    d.push((val % 256) as u8);
                    d.push((val / 256) as u8);
                    proof {
                        assert(d@ =~= seq![(val % 256) as u8, (val / 256) as u8]);
                    }
                    Ok(ParseItem::Data(d))
                } else {
                    Err(
                        ParseError::UnexpectedToken(
                            UnexpectedToken {
                                expected: TokenValue::Value(0, 1),
                                actual: TokenValue::Value(val, size),
                                line: t.line,
                                file_id: t.file_id,
                                ch: 0,
                            },
                        ),
                    )
                }
            },
            _ => Err(
                ParseError::UnexpectedToken(
                    UnexpectedToken {
                        expected: TokenValue::Value(0, 1),
                        actual: t.token,
                        line: t.line,
                        file_id: t.file_id,
                        ch: 0,
                    },
                ),
            ),
        }
    }

    fn parse_constant(&mut self, tok: &mut BufferedTokenizer) -> (r: Result<ParseItem, ParseError>)
        requires
            old(tok).wf(),
        ensures
            final(tok).wf(),
            final(tok)@ == p_constant(old(tok)@).1,
            item_res_view(r) == p_constant(old(tok)@).0,
    {
        match tok.next() {
            Ok(_) => {},
            Err(e) => {
                return Err(e);
            },
        }
        let t = match tok.next() {
            Ok(t) => t,
            Err(e) => {
                return Err(e);
            },
        };
        match t.token {
            TokenValue::Identifier(l) => {
                match tok.expect(TokenValue::Colon) {
                    Ok(_) => {},
                    Err(e) => {
                        return Err(e);
                    },
                }
                let tv = match tok.next() {
                    Ok(t) => t,
                    Err(e) => {
                        return Err(e);
                    },
                };
                match tv.token {
                    TokenValue::Value(val, _) => Ok(
                        ParseItem::Constant(Constant { name: l, value: val }),
                    ),
                    _ => Err(
                        ParseError::UnexpectedToken(
                            UnexpectedToken {
                                expected: TokenValue::Value(0, 1),
                                actual: tv.token,
                                line: tv.line,
                                file_id: tv.file_id,
                                ch: 0,
                            },
                        ),
                    ),
                }
            },
            _ => Err(
                ParseError::UnexpectedToken(
                    UnexpectedToken {
                        expected: TokenValue::Identifier(String::new()),
                        actual: t.token,
                        line: t.line,
                        file_id: t.file_id,
                        ch: 0,
                    },
                ),
            ),
        }
    }

    fn parse_directive(&mut self, tok: &mut BufferedTokenizer) -> (r: Result<
        ParseItem,
        ParseError,
    >)
        requires
            old(tok).wf(),
        ensures
            final(tok).wf(),
            final(tok)@ == p_directive(old(tok)@).1,
            item_res_view(r) == p_directive(old(tok)@).0,
    {
        let t = match tok.next() {
            Ok(t) => t,
            Err(e) => {
                return Err(e);
            },
        };
        match t.token {
            TokenValue::Directive(s) => {
                let ghost start = tok@;
                let mut ts: Vec<Token> = Vec::new();
                proof {
                    assert(toks_view(ts@) =~= Seq::<TokenVal>::empty());
                }
                loop
                    invariant
                        tok.wf(),
                        ({
                            let (res, vf) = p_collect_line(tok@);
                            let (res0, vf0) = p_collect_line(start);
                            vf0 == vf && res0 == (match res {
                                Ok(rest) => Ok::<Seq<TokenVal>, PErrV>(toks_view(ts@) + rest),
                                Err(e) => Err::<Seq<TokenVal>, PErrV>(e),
                            })
                        }),
                        p_directive(old(tok)@).1 == p_collect_line(start).1,
                        p_directive(old(tok)@).0 == (match p_collect_line(start).0 {
                            Ok(rest) => Ok::<ParseItemV, PErrV>(ParseItemV::Directive(s@, rest)),
                            Err(e) => Err::<ParseItemV, PErrV>(e),
                        }),
                    decreases tok@.measure(),
                {
                    let ghost pre = tok@;
                    let tp = match tok.peek() {
                        Ok(t) => t,
                        Err(e) => {
                            return Err(e);
                        },
                    };
                    proof {
                        lemma_b_peek_measure(pre);
                    }
                    if matches!(tp.token, TokenValue::NewLine) || matches!(
                        tp.token,
                        TokenValue::EOF,
                    ) {
                        proof {
                            assert(toks_view(ts@) + Seq::<TokenVal>::empty() =~= toks_view(ts@));
                        }
                        return Ok(ParseItem::Directive(s, ts));
                    }
                    let ghost mid = tok@;
                    let t2 = match tok.next() {
                        Ok(t) => t,
                        Err(e) => {
                            return Err(e);
                        },
                    };
                    proof {
                        lemma_b_next_measure(mid);
                    }
                    let ghost ts_pre = ts@;
                    ts.push(t2);
                    proof {
                        assert(toks_view(ts@) =~= toks_view(ts_pre) + seq![ts@.last()@]);
                        if p_collect_line(tok@).0 is Ok {
                            assert(toks_view(ts_pre) + (seq![ts@.last()@] + p_collect_line(
                                tok@,
                            ).0->Ok_0) =~= toks_view(ts@) + p_collect_line(tok@).0->Ok_0);
                        }
                    }
                }
            },
            _ => Err(
                ParseError::UnexpectedToken(
                    UnexpectedToken {
                        expected: TokenValue::Identifier(String::new()),
                        actual: t.token,
                        line: t.line,
                        file_id: t.file_id,
                        ch: 0,
                    },
                ),
            ),
        }
    }
}

} // verus!
