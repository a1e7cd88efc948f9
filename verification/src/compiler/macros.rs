//! The macro engine: `#defm` captures a token body, `#exec` substitutes the
//! arguments into it and replays the result through the buffered tokenizer.

use crate::compiler::dict::Dict;
use crate::compiler::instructions::errors::{CEV, CErrV, CompileError, CompileErrorType};
use crate::parser::errors::{PErrV, ParseError, UnexpectedToken};
use crate::parser::token::{TokV, Token, TokenVal, TokenValue, toks_view};
use crate::parser::tokenizer::{BTView, BufferedTokenizer, b_next, lemma_b_next_measure};
use crate::strutil::{spec_starts_with, str_starts_with};
use vstd::prelude::*;

verus! {

/// Mathematical view of a `Macro`.
pub struct MacroV {
    pub name: Seq<char>,
    pub args: Seq<Seq<TokenVal>>,
    pub tokens: Seq<TokenVal>,
}

/// View of a list of token lists.
pub open spec fn argss_view(a: Seq<Vec<Token>>) -> Seq<Seq<TokenVal>> {
    a.map_values(|v: Vec<Token>| toks_view(v@))
}

/// A stored macro: its name, its parameter-name token lists, and its body
/// kept verbatim.
#[derive(Debug)]
pub struct Macro {
    pub name: String,
    pub args: Vec<Vec<Token>>,
    pub tokens: Vec<Token>,
}

impl View for Macro {
    type V = MacroV;

    open spec fn view(&self) -> MacroV {
        MacroV { name: self.name@, args: argss_view(self.args@), tokens: toks_view(self.tokens@) }
    }
}

/// The directive-line tokens split at the commas into argument groups; a
/// bare line yields one empty group.
pub open spec fn split_args(s: Seq<TokenVal>) -> Seq<Seq<TokenVal>>
    decreases s.len(),
{
    if s.len() == 0 {
        seq![Seq::<TokenVal>::empty()]
    } else if s[0].t is Comma {
        seq![Seq::<TokenVal>::empty()] + split_args(s.drop_first())
    } else {
        let r = split_args(s.drop_first());
        seq![seq![s[0]] + r[0]] + r.drop_first()
    }
}

proof fn lemma_split_args_len(s: Seq<TokenVal>)
    ensures
        split_args(s).len() >= 1,
    decreases s.len(),
{
    if s.len() == 0 {
    } else {
        lemma_split_args_len(s.drop_first());
    }
}

/// The fault when a directive line does not open with a macro name.
pub open spec fn name_expected_err(tokens: Seq<TokenVal>) -> CEV {
    CEV {
        error: CErrV::ParseError(
            PErrV::UnexpectedToken {
                expected: TokV::Identifier(Seq::<char>::empty()),
                actual: if tokens.len() > 0 {
                    tokens[0].t
                } else {
                    TokV::EOF
                },
                line: if tokens.len() > 0 {
                    tokens[0].line
                } else {
                    0
                },
                file: if tokens.len() > 0 {
                    tokens[0].file
                } else {
                    0
                },
                ch: 0,
            },
        ),
        instr: None,
    }
}

/// The macro name and the comma-separated argument groups of a directive
/// line.
pub open spec fn spec_name_and_args(tokens: Seq<TokenVal>) -> Result<
    (Seq<char>, Seq<Seq<TokenVal>>),
    CEV,
> {
    if tokens.len() > 0 && tokens[0].t is Identifier {
        Ok((tokens[0].t->Identifier_0, split_args(tokens.drop_first())))
    } else {
        Err(name_expected_err(tokens))
    }
}

/// Splits the tokens after the name at the commas.
fn split_arg_groups(tokens: &Vec<Token>, from: usize) -> (r: Vec<Vec<Token>>)
    requires
        from <= tokens@.len(),
    ensures
        argss_view(r@) == split_args(toks_view(tokens@).skip(from as int)),
{
    let n = tokens.len();
    let mut groups: Vec<Vec<Token>> = Vec::new();
    let mut cur: Vec<Token> = Vec::new();
    let mut i: usize = from;
    loop
        invariant
            from <= i <= n,
            n == tokens@.len(),
            ({
                let rest = split_args(toks_view(tokens@).skip(i as int));
                let full = split_args(toks_view(tokens@).skip(from as int));
                full == argss_view(groups@) + (seq![toks_view(cur@) + rest[0]]
                    + rest.drop_first())
            }),
        decreases n - i,
    {
        proof {
            lemma_split_args_len(toks_view(tokens@).skip(i as int));
            assert(toks_view(tokens@).skip(i as int).len() == n - i);
        }
        if i == n {
            let ghost full = split_args(toks_view(tokens@).skip(from as int));
            let ghost pre_groups = groups@;
            groups.push(cur);
            proof {
                assert(split_args(toks_view(tokens@).skip(n as int)) == seq![
                    Seq::<TokenVal>::empty(),
                ]);
                assert(toks_view(cur@) + Seq::<TokenVal>::empty() =~= toks_view(cur@));
                assert(argss_view(groups@) =~= argss_view(pre_groups) + seq![toks_view(cur@)]);
                assert(argss_view(groups@) =~= full);
            }
            return groups;
        }
        let ghost rest_pre = toks_view(tokens@).skip(i as int);
        proof {
            assert(rest_pre.drop_first() =~= toks_view(tokens@).skip(i + 1));
            assert(rest_pre[0] == tokens@[i as int]@);
        }
        let t = &tokens[i];
        match t.token {
            TokenValue::Comma => {
                let ghost pre_groups = groups@;
                let ghost pre_cur = cur@;
                groups.push(cur);
                cur = Vec::new();
                i = i + 1;
                proof {
                    let rest = split_args(toks_view(tokens@).skip(i as int));
                    assert(argss_view(groups@) =~= argss_view(pre_groups) + seq![
                        toks_view(pre_cur),
                    ]);
                    assert(toks_view(pre_cur) + Seq::<TokenVal>::empty() =~= toks_view(pre_cur));
                    assert(toks_view(cur@) =~= Seq::<TokenVal>::empty());
                    assert(argss_view(pre_groups) + (seq![toks_view(pre_cur)] + (seq![
                        toks_view(cur@) + rest[0],
                    ] + rest.drop_first())) =~= argss_view(groups@) + (seq![
                        toks_view(cur@) + rest[0],
                    ] + rest.drop_first()));
                }
            },
            _ => {
                let ghost pre_cur = cur@;
                cur.push(t.clone());
                i = i + 1;
                proof {
                    let rest = split_args(toks_view(tokens@).skip(i as int));
                    assert(toks_view(cur@) =~= toks_view(pre_cur) + seq![tokens@[i - 1]@]);
                    assert((toks_view(pre_cur) + seq![tokens@[i - 1]@]) + rest[0] =~= toks_view(
                        pre_cur,
                    ) + (seq![tokens@[i - 1]@] + rest[0]));
                }
            },
        }
    }
}

/// The name and argument groups of a `#defm`/`#exec` line.
pub fn get_macro_name_and_args(tokens: &Vec<Token>) -> (r: Result<
    (String, Vec<Vec<Token>>),
    CompileError,
>)
    ensures
        match r {
            Ok((name, args)) => spec_name_and_args(toks_view(tokens@)) == Ok::<
                (Seq<char>, Seq<Seq<TokenVal>>),
                CEV,
            >((name@, argss_view(args@))),
            Err(e) => spec_name_and_args(toks_view(tokens@)) == Err::<
                (Seq<char>, Seq<Seq<TokenVal>>),
                CEV,
            >(e@),
        },
{
    if tokens.len() == 0 {
        return Err(
            CompileError {
                error: CompileErrorType::ParseError(
                    ParseError::UnexpectedToken(
                        UnexpectedToken {
                            expected: TokenValue::Identifier(String::new()),
                            actual: TokenValue::EOF,
                            line: 0,
                            file_id: 0,
                            ch: 0,
                        },
                    ),
                ),
                instr: None,
            },
        );
    }
    let t0 = &tokens[0];
    match &t0.token {
        TokenValue::Identifier(name) => {
            let args = split_arg_groups(tokens, 1);
            proof {
                assert(toks_view(tokens@).skip(1) =~= toks_view(tokens@).drop_first());
                assert(toks_view(tokens@)[0] == tokens@[0]@);
            }
            Ok((name.clone(), args))
        },
        _ => Err(
            CompileError {
                error: CompileErrorType::ParseError(
                    ParseError::UnexpectedToken(
                        UnexpectedToken {
                            expected: TokenValue::Identifier(String::new()),
                            actual: t0.token.clone(),
                            line: t0.line,
                            file_id: t0.file_id,
                            ch: 0,
                        },
                    ),
                ),
                instr: None,
            },
        ),
    }
}

/// The body tokens captured between a `#defm` line and the next `#endm`
/// directive, and the tokenizer afterwards.
pub open spec fn m_defm_body(v: BTView, acc: Seq<TokenVal>) -> Result<
    (Seq<TokenVal>, BTView),
    CEV,
>
    decreases v.measure(),
    when v.wf()
    via m_defm_body_dec
{
    let (r, v2) = b_next(v);
    match r {
        Err(e) => Err(CEV { error: CErrV::ParseError(e), instr: None }),
        Ok(t) => match t.t {
            TokV::Directive(d) => {
                if spec_starts_with(d, "#endm"@) {
                    Ok((acc, v2))
                } else {
                    m_defm_body(v2, acc + seq![t])
                }
            },
            TokV::EOF => Err(
                CEV { error: CErrV::ParseError(PErrV::UnexpectedEOF(t.line)), instr: None },
            ),
            _ => m_defm_body(v2, acc + seq![t]),
        },
    }
}

#[via_fn]
proof fn m_defm_body_dec(v: BTView, acc: Seq<TokenVal>) {
    lemma_b_next_measure(v);
}

/// The token list an `#exec` splices in: the body with each parameter name
/// replaced by its argument's tokens.  A parameter with no argument is the
/// `MacroArgumentMissing` fault.
pub open spec fn param_index(params: Seq<Seq<TokenVal>>, ident: Seq<char>) -> Option<int>
    decreases params.len(),
{
    if params.len() == 0 {
        None
    } else if params[0].len() > 0 && params[0][0].t == TokV::Identifier(ident) {
        Some(0int)
    } else {
        match param_index(params.drop_first(), ident) {
            Some(i) => Some(i + 1),
            None => None,
        }
    }
}

pub open spec fn subst_body(
    body: Seq<TokenVal>,
    params: Seq<Seq<TokenVal>>,
    args: Seq<Seq<TokenVal>>,
) -> Result<Seq<TokenVal>, Seq<char>>
    decreases body.len(),
{
    if body.len() == 0 {
        Ok(Seq::<TokenVal>::empty())
    } else {
        let t = body[0];
        match t.t {
            TokV::Identifier(ident) => match param_index(params, ident) {
                Some(i) => {
                    if i < args.len() {
                        match subst_body(body.drop_first(), params, args) {
                            Ok(rest) => Ok(args[i] + rest),
                            Err(e) => Err(e),
                        }
                    } else {
                        Err(ident)
                    }
                },
                None => match subst_body(body.drop_first(), params, args) {
                    Ok(rest) => Ok(seq![t] + rest),
                    Err(e) => Err(e),
                },
            },
            _ => match subst_body(body.drop_first(), params, args) {
                Ok(rest) => Ok(seq![t] + rest),
                Err(e) => Err(e),
            },
        }
    }
}

/// The first parameter group opening with the given identifier.
fn find_param(params: &Vec<Vec<Token>>, ident: &str) -> (r: Option<usize>)
    ensures
        match r {
            Some(i) => param_index(argss_view(params@), ident@) == Some(i as int),
            None => param_index(argss_view(params@), ident@) is None,
        },
{
    let n = params.len();
    let mut i: usize = 0;
    proof {
        assert(argss_view(params@).skip(0) =~= argss_view(params@));
    }
    loop
        invariant
            i <= n,
            n == params@.len(),
            ({
                let pv = argss_view(params@);
                param_index(pv, ident@) == match param_index(pv.skip(i as int), ident@) {
                    Some(k) => Some(k + i),
                    None => None::<int>,
                }
            }),
        decreases n - i,
    {
        if i == n {
            proof {
                assert(argss_view(params@).skip(n as int) =~= Seq::<Seq<TokenVal>>::empty());
            }
            return None;
        }
        let ghost pv = argss_view(params@);
        proof {
            assert(pv.skip(i as int).drop_first() =~= pv.skip(i + 1));
            assert(pv.skip(i as int)[0] == pv[i as int]);
            assert(pv[i as int] == toks_view(params@[i as int]@));
        }
        let grp = &params[i];
        if grp.len() > 0 {
            let h = &grp[0];
            match &h.token {
                TokenValue::Identifier(x1) => {
                    if crate::strutil::str_eq(x1.as_str(), ident) {
                        proof {
                            assert(toks_view(grp@)[0] == grp@[0]@);
                        }
                        return Some(i);
                    }
                },
                _ => {},
            }
        }
        proof {
            let g = pv.skip(i as int)[0];
            assert(!(g.len() > 0 && g[0].t == TokV::Identifier(ident@))) by {
                if g.len() > 0 {
                    assert(g[0] == grp@[0]@);
                }
            }
        }
        i = i + 1;
    }
}

/// The substituted body for an `#exec`.
fn substitute(m: &Macro, args: &Vec<Vec<Token>>) -> (r: Result<Vec<Token>, CompileError>)
    ensures
        match r {
            Ok(out) => subst_body(toks_view(m.tokens@), m@.args, argss_view(args@)) == Ok::<
                Seq<TokenVal>,
                Seq<char>,
            >(toks_view(out@)),
            Err(e) => {
                &&& subst_body(toks_view(m.tokens@), m@.args, argss_view(args@)) matches Err(n)
                &&& e@ == (CEV { error: CErrV::MacroArgumentMissing(n), instr: None })
            },
        },
{
    let n = m.tokens.len();
    let mut out: Vec<Token> = Vec::new();
    let mut i: usize = 0;
    proof {
        assert(toks_view(m.tokens@).skip(0) =~= toks_view(m.tokens@));
        assert(toks_view(out@) =~= Seq::<TokenVal>::empty());
    }
    loop
        invariant
            i <= n,
            n == m.tokens@.len(),
            ({
                let body = toks_view(m.tokens@);
                let full = subst_body(body, m@.args, argss_view(args@));
                let rest = subst_body(body.skip(i as int), m@.args, argss_view(args@));
                full == match rest {
                    Ok(rs) => Ok::<Seq<TokenVal>, Seq<char>>(toks_view(out@) + rs),
                    Err(e) => Err::<Seq<TokenVal>, Seq<char>>(e),
                }
            }),
        decreases n - i,
    {
        let ghost body = toks_view(m.tokens@);
        if i == n {
            proof {
                assert(body.skip(n as int) =~= Seq::<TokenVal>::empty());
                assert(toks_view(out@) + Seq::<TokenVal>::empty() =~= toks_view(out@));
            }
            return Ok(out);
        }
        proof {
            assert(body.skip(i as int).drop_first() =~= body.skip(i + 1));
            assert(body.skip(i as int)[0] == m.tokens@[i as int]@);
        }
        let ghost rest_new = subst_body(body.skip(i + 1), m@.args, argss_view(args@));
        let t = &m.tokens[i];
        let mut handled = false;
        match &t.token {
            TokenValue::Identifier(ident) => {
                match find_param(&m.args, ident.as_str()) {
                    Some(pi) => {
                        handled = true;
                        if pi >= args.len() {
                            return Err(
                                CompileError {
                                    error: CompileErrorType::MacroArgumentMissing(ident.clone()),
                                    instr: None,
                                },
                            );
                        }
                        let grp = &args[pi];
                        let gn = grp.len();
                        let ghost out_pre = out@;
                        let mut j: usize = 0;
                        while j < gn
                            invariant
                                j <= gn,
                                gn == grp@.len(),
                                toks_view(out@) =~= toks_view(out_pre) + toks_view(grp@).take(
                                    j as int,
                                ),
                            decreases gn - j,
                        {
                            let ghost o_pre = out@;
                            out.push(grp[j].clone());
                            j = j + 1;
                            proof {
                                assert(toks_view(out@) =~= toks_view(o_pre) + seq![
                                    out@.last()@,
                                ]);
                                assert(out@.last()@ == grp@[j - 1]@);
                                assert(toks_view(grp@).take(j as int) =~= toks_view(grp@).take(
                                    j - 1,
                                ) + seq![grp@[j - 1]@]);
                                assert(toks_view(out@) =~= toks_view(out_pre) + toks_view(
                                    grp@,
                                ).take(j as int));
                            }
                        }
                        proof {
                            assert(toks_view(grp@).take(gn as int) =~= toks_view(grp@));
                            assert(argss_view(args@)[pi as int] == toks_view(args@[pi as int]@));
                            assert(toks_view(out@) =~= toks_view(out_pre) + argss_view(
                                args@,
                            )[pi as int]);
                            if rest_new is Ok {
                                assert((toks_view(out_pre) + argss_view(args@)[pi as int])
                                    + rest_new->Ok_0 =~= toks_view(out_pre) + (argss_view(
                                    args@,
                                )[pi as int] + rest_new->Ok_0));
                            }
                        }
                    },
                    None => {},
                }
            },
            _ => {},
        }
        if !handled {
            let ghost out_pre = out@;
            out.push(t.clone());
            proof {
                assert(toks_view(out@) =~= toks_view(out_pre) + seq![m.tokens@[i as int]@]);
                if rest_new is Ok {
                    assert((toks_view(out_pre) + seq![m.tokens@[i as int]@]) + rest_new->Ok_0
                        =~= toks_view(out_pre) + (seq![m.tokens@[i as int]@] + rest_new->Ok_0));
                }
            }
        }
        i = i + 1;
    }
}

/// One directive, handled by the macro engine: `#defm` stores a macro,
/// `#exec` splices an expansion in front of the token stream, and anything
/// else is refused.
pub open spec fn m_compile_macro(
    cmd: Seq<char>,
    tokens: Seq<TokenVal>,
    v: BTView,
    macros: Map<Seq<char>, MacroV>,
) -> Result<(BTView, Map<Seq<char>, MacroV>), CEV> {
    if cmd == "#defm"@ {
        match spec_name_and_args(tokens) {
            Err(e) => Err(e),
            Ok((name, args)) => match m_defm_body(v, Seq::<TokenVal>::empty()) {
                Err(e) => Err(e),
                Ok((body, v2)) => Ok(
                    (v2, macros.insert(name, MacroV { name, args, tokens: body })),
                ),
            },
        }
    } else if cmd == "#exec"@ {
        match spec_name_and_args(tokens) {
            Err(e) => Err(e),
            Ok((name, args)) => {
                if !macros.contains_key(name) {
                    Err(CEV { error: CErrV::MacroNotFound(name), instr: None })
                } else {
                    let m = macros[name];
                    match subst_body(m.tokens, m.args, args) {
                        Err(ident) => Err(
                            CEV { error: CErrV::MacroArgumentMissing(ident), instr: None },
                        ),
                        Ok(out) => Ok(
                            (BTView { buf: out + v.buf, lex: v.lex }, macros),
                        ),
                    }
                }
            },
        }
    } else {
        Err(CEV { error: CErrV::UnknownDirective(cmd), instr: None })
    }
}

pub fn compile_macro(
    cmd: String,
    tokens: Vec<Token>,
    tokenizer: &mut BufferedTokenizer,
    macros: &mut Dict<Macro>,
) -> (r: Result<(), CompileError>)
    requires
        old(tokenizer).wf(),
    ensures
        final(tokenizer).wf(),
        match r {
            Ok(_) => m_compile_macro(cmd@, toks_view(tokens@), old(tokenizer)@, old(macros)@)
                == Ok::<(BTView, Map<Seq<char>, MacroV>), CEV>(
                (final(tokenizer)@, final(macros)@),
            ),
            Err(e) => m_compile_macro(cmd@, toks_view(tokens@), old(tokenizer)@, old(macros)@)
                == Err::<(BTView, Map<Seq<char>, MacroV>), CEV>(e@),
        },
{
    if crate::strutil::str_eq(cmd.as_str(), "#defm") {
        let (name, args) = match get_macro_name_and_args(&tokens) {
            Ok(na) => na,
            Err(e) => {
                return Err(e);
            },
        };
        let mut body: Vec<Token> = Vec::new();
        proof {
            assert(toks_view(body@) =~= Seq::<TokenVal>::empty());
        }
        loop
            invariant
                old(tokenizer).wf(),
                tokenizer.wf(),
                cmd@ == "#defm"@,
                *macros == *old(macros),
                spec_name_and_args(toks_view(tokens@)) == Ok::<
                    (Seq<char>, Seq<Seq<TokenVal>>),
                    CEV,
                >((name@, argss_view(args@))),
                m_defm_body(old(tokenizer)@, Seq::<TokenVal>::empty()) == m_defm_body(
                    tokenizer@,
                    toks_view(body@),
                ),
            decreases tokenizer@.measure(),
        {
            let ghost pre = tokenizer@;
            let t = match tokenizer.next() {
                Ok(t) => t,
                Err(e) => {
                    return Err(
                        CompileError { error: CompileErrorType::ParseError(e), instr: None },
                    );
                },
            };
            proof {
                lemma_b_next_measure(pre);
            }
            match &t.token {
                TokenValue::Directive(d) => {
                    if str_starts_with(d.as_str(), "#endm") {
                        macros.insert(
                            name.clone(),
                            Macro { name, args, tokens: body },
                        );
                        return Ok(());
                    }
                },
                TokenValue::EOF => {
                    return Err(
                        CompileError {
                            error: CompileErrorType::ParseError(ParseError::UnexpectedEOF(t.line)),
                            instr: None,
                        },
                    );
                },
                _ => {},
            }
            let ghost body_pre = body@;
            body.push(t);
            proof {
                assert(toks_view(body@) =~= toks_view(body_pre) + seq![body@.last()@]);
            }
        }
    } else if crate::strutil::str_eq(cmd.as_str(), "#exec") {
        let (name, args) = match get_macro_name_and_args(&tokens) {
            Ok(na) => na,
            Err(e) => {
                return Err(e);
            },
        };
        let m = match macros.get(name.as_str()) {
            Some(m) => m,
            None => {
                return Err(
                    CompileError { error: CompileErrorType::MacroNotFound(name), instr: None },
                );
            },
        };
        let out = match substitute(m, &args) {
            Ok(out) => out,
            Err(e) => {
                return Err(e);
            },
        };
        tokenizer.push_front(&out);
        Ok(())
    } else {
        Err(CompileError { error: CompileErrorType::UnknownDirective(cmd), instr: None })
    }
}

} // verus!
