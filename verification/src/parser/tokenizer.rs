//! The lazy tokenizer over a source string, in two shapes: a simple one with
//! one-token look-ahead, and a buffered one whose front queue lets macro
//! expansion re-inject tokens ahead of the lexer.
//!
//! The lexical rules are stated once, as the recursive specification
//! `spec_lex`, and both tokenizers are proved against it.

use crate::parser::errors::{PErrV, ParseError, UnexpectedToken};
use crate::parser::token::{TokV, Token, TokenVal, TokenValue, toks_view};
use crate::strutil::{
    hex_digit_val, inc_line, is_hex_digit, is_ident_char, is_ident_start, is_space,
    spec_hex_digit_val, spec_inc_line, spec_is_hex_digit, spec_is_ident_char, spec_is_ident_start,
    spec_is_space,
};
use std::collections::VecDeque;
use vstd::prelude::*;

verus! {

/// Outcome of lexing one token: the token or a fault, and the character
/// position and line counter afterwards.
pub struct LexOut {
    pub res: Result<TokenVal, PErrV>,
    pub pos2: int,
    pub line2: int,
}

/// First position at or after `i` that does not continue an identifier.
pub open spec fn spec_scan_ident_end(chars: Seq<char>, i: int) -> int
    decreases chars.len() - i,
    when 0 <= i <= chars.len()
{
    if i == chars.len() {
        i
    } else if spec_is_ident_char(chars[i]) {
        spec_scan_ident_end(chars, i + 1)
    } else {
        i
    }
}

/// First position at or after `i` holding a space or a newline, which ends
/// directive text.
pub open spec fn spec_scan_dir_end(chars: Seq<char>, i: int) -> int
    decreases chars.len() - i,
    when 0 <= i <= chars.len()
{
    if i == chars.len() {
        i
    } else if chars[i] == ' ' || chars[i] == '\n' {
        i
    } else {
        spec_scan_dir_end(chars, i + 1)
    }
}

pub open spec fn spec_all_hex(s: Seq<char>) -> bool {
    forall|i: int| 0 <= i < s.len() ==> spec_is_hex_digit(s[i])
}

/// Value of a run of hexadecimal digits, accumulated left to right and
/// wrapped to 16 bits.
pub open spec fn spec_hex_wrap(s: Seq<char>) -> u16
    decreases s.len(),
{
    if s.len() == 0 {
        0u16
    } else {
        (((spec_hex_wrap(s.drop_last()) * 16) + spec_hex_digit_val(s.last())) % 0x10000) as u16
    }
}

/// Classification of an identifier-shaped run: a hex literal ending in `h`
/// becomes a `Value` whose width in bytes is half the run length, truncated;
/// anything else is an `Identifier`.
pub open spec fn spec_classify(text: Seq<char>) -> TokV {
    if text.len() > 0 && text.last() == 'h' && spec_all_hex(text.drop_last()) {
        TokV::Value(spec_hex_wrap(text.drop_last()), (((text.len() as int) / 2) % 256) as u8)
    } else {
        TokV::Identifier(text)
    }
}

pub open spec fn spec_is_single_char(c: char) -> bool {
    c == ',' || c == '(' || c == ')' || c == '+' || c == '-' || c == '.' || c == ':' || c == '&'
        || c == '*' || c == '@'
}

pub open spec fn spec_single_char_tok(c: char) -> TokV {
    if c == ',' {
        TokV::Comma
    } else if c == '(' {
        TokV::OpenParen
    } else if c == ')' {
        TokV::CloseParen
    } else if c == '+' {
        TokV::Plus
    } else if c == '-' {
        TokV::Minus
    } else if c == '.' {
        TokV::Dot
    } else if c == ':' {
        TokV::Colon
    } else if c == '&' {
        TokV::Amp
    } else if c == '*' {
        TokV::Asterisk
    } else {
        TokV::At
    }
}

/// Rest of a comment: everything up to the newline (which is emitted, with
/// the line counter advanced) or the end of the source.
pub open spec fn spec_lex_comment(chars: Seq<char>, pos: int, line: int, file: int) -> LexOut
    decreases chars.len() - pos,
    when 0 <= pos <= chars.len()
{
    if pos == chars.len() {
        LexOut { res: Ok(TokenVal { t: TokV::EOF, line, file }), pos2: pos, line2: line }
    } else if chars[pos] == '\n' {
        LexOut {
            res: Ok(TokenVal { t: TokV::NewLine, line: spec_inc_line(line), file }),
            pos2: pos + 1,
            line2: spec_inc_line(line),
        }
    } else {
        spec_lex_comment(chars, pos + 1, line, file)
    }
}

/// One step of the lexer: the next token starting at `pos`, skipping
/// whitespace and comments.
pub open spec fn spec_lex(chars: Seq<char>, pos: int, line: int, file: int) -> LexOut
    decreases chars.len() - pos,
    when 0 <= pos <= chars.len()
{
    if pos == chars.len() {
        LexOut { res: Ok(TokenVal { t: TokV::EOF, line, file }), pos2: pos, line2: line }
    } else {
        let c = chars[pos];
        if c == '\n' {
            LexOut {
                res: Ok(TokenVal { t: TokV::NewLine, line: spec_inc_line(line), file }),
                pos2: pos + 1,
                line2: spec_inc_line(line),
            }
        } else if c == ';' {
            spec_lex_comment(chars, pos + 1, line, file)
        } else if spec_is_space(c) {
            spec_lex(chars, pos + 1, line, file)
        } else if c == '#' {
            let end = spec_scan_dir_end(chars, pos + 1);
            LexOut {
                res: Ok(TokenVal { t: TokV::Directive(chars.subrange(pos, end)), line, file }),
                pos2: end,
                line2: line,
            }
        } else if spec_is_single_char(c) {
            LexOut {
                res: Ok(TokenVal { t: spec_single_char_tok(c), line, file }),
                pos2: pos + 1,
                line2: line,
            }
        } else if spec_is_ident_start(c) {
            let end = spec_scan_ident_end(chars, pos + 1);
            LexOut {
                res: Ok(TokenVal { t: spec_classify(chars.subrange(pos, end)), line, file }),
                pos2: end,
                line2: line,
            }
        } else {
            LexOut { res: Err(PErrV::UnexpectedChar(c, line)), pos2: pos, line2: line }
        }
    }
}

/// Mathematical view of a `SimpleTokenizer`.
pub struct SimpleLexV {
    pub chars: Seq<char>,
    pub pos: int,
    pub line: int,
    pub file: int,
    pub head: Option<TokenVal>,
}

impl SimpleLexV {
    pub open spec fn wf(self) -> bool {
        0 <= self.pos <= self.chars.len()
    }

    /// Tokens pending before the lexer reaches the end of the source; the
    /// termination measure of every loop that drains a tokenizer.  A stashed
    /// `EOF` does not count: fetching it makes no progress.
    pub open spec fn measure(self) -> int {
        (match self.head {
            Some(t) => if t.t is EOF {
                0int
            } else {
                1int
            },
            None => 0int,
        }) + self.chars.len() - self.pos
    }
}

/// Effective `next` on the view: the stashed look-ahead token if there is
/// one, else one lexer step.
pub open spec fn s_next(v: SimpleLexV) -> (Result<TokenVal, PErrV>, SimpleLexV) {
    match v.head {
        Some(t) => (Ok(t), SimpleLexV { head: None, ..v }),
        None => {
            let o = spec_lex(v.chars, v.pos, v.line, v.file);
            (o.res, SimpleLexV { pos: o.pos2, line: o.line2, head: None, ..v })
        },
    }
}

/// Effective `peek` on the view: as `next`, with the token stashed back.
pub open spec fn s_peek(v: SimpleLexV) -> (Result<TokenVal, PErrV>, SimpleLexV) {
    let (r, v2) = s_next(v);
    match r {
        Ok(t) => (Ok(t), SimpleLexV { head: Some(t), ..v2 }),
        Err(e) => (Err(e), v2),
    }
}

/// Comparing a fetched token against an expected value, as `expect` and
/// `expect_peek` do; the fault carries the line the lexer has reached.
pub open spec fn s_check(t: TokenVal, expected: TokV, line: int, file: int) -> Result<
    (),
    PErrV,
> {
    if t.t == expected {
        Ok(())
    } else {
        Err(PErrV::UnexpectedToken { expected, actual: t.t, line, file, ch: 0 })
    }
}

pub open spec fn s_expect(v: SimpleLexV, expected: TokV) -> (Result<(), PErrV>, SimpleLexV) {
    let (r, v2) = s_next(v);
    match r {
        Ok(t) => (s_check(t, expected, v2.line, v2.file), v2),
        Err(e) => (Err(e), v2),
    }
}

pub open spec fn s_expect_peek(v: SimpleLexV, expected: TokV) -> (Result<(), PErrV>, SimpleLexV) {
    let (r, v2) = s_peek(v);
    match r {
        Ok(t) => (s_check(t, expected, v2.line, v2.file), v2),
        Err(e) => (Err(e), v2),
    }
}

pub open spec fn tok_res_view(r: Result<Token, ParseError>) -> Result<TokenVal, PErrV> {
    match r {
        Ok(t) => Ok(t@),
        Err(e) => Err(e@),
    }
}

pub open spec fn unit_res_view(r: Result<(), ParseError>) -> Result<(), PErrV> {
    match r {
        Ok(u) => Ok(u),
        Err(e) => Err(e@),
    }
}

/// A lexer step never moves backwards, and strictly consumes input whenever
/// it yields a token other than `EOF`.
pub proof fn lemma_lex_comment_bounds(chars: Seq<char>, pos: int, line: int, file: int)
    requires
        0 <= pos <= chars.len(),
    ensures
        pos <= spec_lex_comment(chars, pos, line, file).pos2 <= chars.len(),
        spec_lex_comment(chars, pos, line, file).res matches Ok(t) && !(t.t is EOF)
            ==> spec_lex_comment(chars, pos, line, file).pos2 > pos,
    decreases chars.len() - pos,
{
    if pos == chars.len() {
    } else if chars[pos] == '\n' {
    } else {
        lemma_lex_comment_bounds(chars, pos + 1, line, file);
    }
}

pub proof fn lemma_scan_ident_end_bounds(chars: Seq<char>, i: int)
    requires
        0 <= i <= chars.len(),
    ensures
        i <= spec_scan_ident_end(chars, i) <= chars.len(),
    decreases chars.len() - i,
{
    if i < chars.len() && spec_is_ident_char(chars[i]) {
        lemma_scan_ident_end_bounds(chars, i + 1);
    }
}

pub proof fn lemma_scan_dir_end_bounds(chars: Seq<char>, i: int)
    requires
        0 <= i <= chars.len(),
    ensures
        i <= spec_scan_dir_end(chars, i) <= chars.len(),
    decreases chars.len() - i,
{
    if i < chars.len() && !(chars[i] == ' ' || chars[i] == '\n') {
        lemma_scan_dir_end_bounds(chars, i + 1);
    }
}

pub proof fn lemma_lex_bounds(chars: Seq<char>, pos: int, line: int, file: int)
    requires
        0 <= pos <= chars.len(),
    ensures
        pos <= spec_lex(chars, pos, line, file).pos2 <= chars.len(),
        spec_lex(chars, pos, line, file).res matches Ok(t) && !(t.t is EOF) ==> spec_lex(
            chars,
            pos,
            line,
            file,
        ).pos2 > pos,
    decreases chars.len() - pos,
{
    if pos == chars.len() {
    } else {
        let c = chars[pos];
        if c == '\n' {
        } else if c == ';' {
            lemma_lex_comment_bounds(chars, pos + 1, line, file);
        } else if spec_is_space(c) {
            lemma_lex_bounds(chars, pos + 1, line, file);
        } else if c == '#' {
            lemma_scan_dir_end_bounds(chars, pos + 1);
        } else if spec_is_single_char(c) {
        } else if spec_is_ident_start(c) {
            lemma_scan_ident_end_bounds(chars, pos + 1);
        } else {
        }
    }
}

/// `s_next` keeps the view well formed, never grows the measure, and
/// strictly shrinks it whenever it yields a token other than `EOF`.
pub proof fn lemma_s_next_measure(v: SimpleLexV)
    requires
        v.wf(),
    ensures
        s_next(v).1.wf(),
        s_next(v).1.chars == v.chars,
        s_next(v).1.file == v.file,
        s_next(v).1.measure() <= v.measure(),
        s_next(v).0 matches Ok(t) && !(t.t is EOF) ==> s_next(v).1.measure() < v.measure(),
{
    match v.head {
        Some(t) => {},
        None => {
            lemma_lex_bounds(v.chars, v.pos, v.line, v.file);
        },
    }
}

/// `s_peek` keeps the view well formed and never grows the measure.
pub proof fn lemma_s_peek_measure(v: SimpleLexV)
    requires
        v.wf(),
    ensures
        s_peek(v).1.wf(),
        s_peek(v).1.chars == v.chars,
        s_peek(v).1.file == v.file,
        s_peek(v).1.measure() <= v.measure(),
{
    lemma_s_next_measure(v);
}

#[derive(Debug)]
pub struct SimpleTokenizer {
    pub src: String,
    pub src_len: usize,
    pub file_id: usize,
    pub pos: usize,
    pub curr_line: usize,
    pub head: Option<Token>,
}

impl View for SimpleTokenizer {
    type V = SimpleLexV;

    open spec fn view(&self) -> SimpleLexV {
        SimpleLexV {
            chars: self.src@,
            pos: self.pos as int,
            line: self.curr_line as int,
            file: self.file_id as int,
            head: match self.head {
                Some(t) => Some(t@),
                None => None,
            },
        }
    }
}

impl SimpleTokenizer {
    pub open spec fn wf(&self) -> bool {
        &&& self.src_len == self.src@.len()
        &&& self.pos <= self.src_len
    }

    pub fn new(source: &str, file_id: usize) -> (r: SimpleTokenizer)
        ensures
            r.wf(),
            r@ == (SimpleLexV {
                chars: source@,
                pos: 0,
                line: 1,
                file: file_id as int,
                head: None,
            }),
    {
        let n = source.unicode_len();
        SimpleTokenizer {
            src: String::from_str(source),
            src_len: n,
            file_id,
            pos: 0,
            curr_line: 1,
            head: None,
        }
    }

    fn make_token(&self, token: TokenValue) -> (r: Token)
        ensures
            r@ == (TokenVal {
                t: token@,
                line: self.curr_line as int,
                file: self.file_id as int,
            }),
    {
        Token { token, line: self.curr_line, file_id: self.file_id }
    }

    pub fn next(&mut self) -> (r: Result<Token, ParseError>)
        requires
            old(self).wf(),
        ensures
            final(self).wf(),
            final(self)@ == s_next(old(self)@).1,
            tok_res_view(r) == s_next(old(self)@).0,
    {
        match &self.head {
            Some(t) => {
                let tok = t.clone();
                self.head = None;
                return Ok(tok);
            },
            None => {},
        }
        loop
            invariant
                old(self).wf(),
                old(self).head is None,
                self.wf(),
                self.head is None,
                self.src == old(self).src,
                self.src_len == old(self).src_len,
                self.file_id == old(self).file_id,
                spec_lex(self.src@, self.pos as int, self.curr_line as int, self.file_id as int)
                    == spec_lex(
                    old(self).src@,
                    old(self).pos as int,
                    old(self).curr_line as int,
                    old(self).file_id as int,
                ),
            decreases self.src_len - self.pos,
        {
            if self.pos == self.src_len {
                return Ok(self.make_token(TokenValue::EOF));
            }
            let c = self.src.as_str().get_char(self.pos);
            if c == '\n' {
                self.curr_line = inc_line(self.curr_line);
                self.pos = self.pos + 1;
                return Ok(self.make_token(TokenValue::NewLine));
            }
            if c == ';' {
                self.pos = self.pos + 1;
                loop
                    invariant
                        old(self).wf(),
                        old(self).head is None,
                        self.wf(),
                        self.head is None,
                        self.src == old(self).src,
                        self.src_len == old(self).src_len,
                        self.file_id == old(self).file_id,
                        spec_lex_comment(
                            self.src@,
                            self.pos as int,
                            self.curr_line as int,
                            self.file_id as int,
                        ) == spec_lex(
                            old(self).src@,
                            old(self).pos as int,
                            old(self).curr_line as int,
                            old(self).file_id as int,
                        ),
                    decreases self.src_len - self.pos,
                {
                    if self.pos == self.src_len {
                        return Ok(self.make_token(TokenValue::EOF));
                    }
                    let c2 = self.src.as_str().get_char(self.pos);
                    if c2 == '\n' {
                        self.curr_line = inc_line(self.curr_line);
                        self.pos = self.pos + 1;
                        return Ok(self.make_token(TokenValue::NewLine));
                    }
                    self.pos = self.pos + 1;
                }
            }
            if is_space(c) {
                self.pos = self.pos + 1;
                continue;
            }
            if c == '#' {
            let start = self.pos;
            let end = scan_directive(self.src.as_str(), self.pos + 1);
            let text = self.src.as_str().substring_char(start, end);
            let tok = self.make_token(TokenValue::Directive(String::from_str(text)));
            self.pos = end;
            return Ok(tok);
        } else if c == ',' {
            self.pos = self.pos + 1;
            return Ok(self.make_token(TokenValue::Comma));
        } else if c == '(' {
            self.pos = self.pos + 1;
            return Ok(self.make_token(TokenValue::OpenParen));
        } else if c == ')' {
            self.pos = self.pos + 1;
            return Ok(self.make_token(TokenValue::CloseParen));
        } else if c == '+' {
            self.pos = self.pos + 1;
            return Ok(self.make_token(TokenValue::Plus));
        } else if c == '-' {
            self.pos = self.pos + 1;
            return Ok(self.make_token(TokenValue::Minus));
        } else if c == '.' {
            self.pos = self.pos + 1;
            return Ok(self.make_token(TokenValue::Dot));
        } else if c == ':' {
            self.pos = self.pos + 1;
            return Ok(self.make_token(TokenValue::Colon));
        } else if c == '&' {
            self.pos = self.pos + 1;
            return Ok(self.make_token(TokenValue::Amp));
        } else if c == '*' {
            self.pos = self.pos + 1;
            return Ok(self.make_token(TokenValue::Asterisk));
        } else if c == '@' {
            self.pos = self.pos + 1;
            return Ok(self.make_token(TokenValue::At));
        } else if is_ident_start(c) {
            let start = self.pos;
            let end = scan_identifier(self.src.as_str(), self.pos + 1);
            let text = self.src.as_str().substring_char(start, end);
            let tok = self.make_token(parse_identifier_or_value(text));
            self.pos = end;
            return Ok(tok);
        } else {
            return Err(ParseError::UnexpectedChar(c, self.curr_line));
        }
        }
    }

    pub fn peek(&mut self) -> (r: Result<Token, ParseError>)
        requires
            old(self).wf(),
        ensures
            final(self).wf(),
            final(self)@ == s_peek(old(self)@).1,
            tok_res_view(r) == s_peek(old(self)@).0,
    {
        match &self.head {
            Some(t) => {
                return Ok(t.clone());
            },
            None => {},
        }
        let t = match self.next() {
            Ok(t) => t,
            Err(e) => {
                return Err(e);
            },
        };
        self.head = Some(t.clone());
        Ok(t)
    }

    fn expect_token(&self, actual: Token, expected: TokenValue) -> (r: Result<(), ParseError>)
        ensures
            unit_res_view(r) == s_check(
                actual@,
                expected@,
                self.curr_line as int,
                self.file_id as int,
            ),
    {
        if actual.token == expected {
            Ok(())
        } else {
            Err(
                ParseError::UnexpectedToken(
                    UnexpectedToken {
                        expected,
                        actual: actual.token,
                        line: self.curr_line,
                        file_id: self.file_id,
                        ch: 0,
                    },
                ),
            )
        }
    }

    pub fn expect(&mut self, expected: TokenValue) -> (r: Result<(), ParseError>)
        requires
            old(self).wf(),
        ensures
            final(self).wf(),
            final(self)@ == s_expect(old(self)@, expected@).1,
            unit_res_view(r) == s_expect(old(self)@, expected@).0,
    {
        let actual = match self.next() {
            Ok(t) => t,
            Err(e) => {
                return Err(e);
            },
        };
        self.expect_token(actual, expected)
    }

    pub fn expect_peek(&mut self, expected: TokenValue) -> (r: Result<(), ParseError>)
        requires
            old(self).wf(),
        ensures
            final(self).wf(),
            final(self)@ == s_expect_peek(old(self)@, expected@).1,
            unit_res_view(r) == s_expect_peek(old(self)@, expected@).0,
    {
        let actual = match self.peek() {
            Ok(t) => t,
            Err(e) => {
                return Err(e);
            },
        };
        self.expect_token(actual, expected)
    }
}

/// All tokens up to (and not including) `EOF`, in order; the specification
/// of `collect_all`.
pub open spec fn s_collect(v: SimpleLexV) -> (Result<Seq<TokenVal>, PErrV>, SimpleLexV)
    decreases v.measure(),
    when v.wf()
    via s_collect_dec
{
    let (r, v2) = s_next(v);
    match r {
        Err(e) => (Err(e), v2),
        Ok(t) => {
            if t.t is EOF {
                (Ok(Seq::<TokenVal>::empty()), v2)
            } else {
                let (r2, v3) = s_collect(v2);
                match r2 {
                    Err(e) => (Err(e), v3),
                    Ok(rest) => (Ok(seq![t] + rest), v3),
                }
            }
        },
    }
}

#[via_fn]
proof fn s_collect_dec(v: SimpleLexV) {
    lemma_s_next_measure(v);
}

/// First position at or after `from` that ends an identifier run.
fn scan_identifier(s: &str, from: usize) -> (end: usize)
    requires
        from <= s@.len(),
    ensures
        end == spec_scan_ident_end(s@, from as int),
        from <= end <= s@.len(),
{
    let n = s.unicode_len();
    let mut i = from;
    while i < n && is_ident_char(s.get_char(i))
        invariant
            n == s@.len(),
            from <= i <= n,
            spec_scan_ident_end(s@, from as int) == spec_scan_ident_end(s@, i as int),
        decreases n - i,
    {
        i = i + 1;
    }
    i
}

/// First position at or after `from` holding a space or newline.
fn scan_directive(s: &str, from: usize) -> (end: usize)
    requires
        from <= s@.len(),
    ensures
        end == spec_scan_dir_end(s@, from as int),
        from <= end <= s@.len(),
{
    let n = s.unicode_len();
    let mut i = from;
    while i < n && !is_dir_stop(s.get_char(i))
        invariant
            n == s@.len(),
            from <= i <= n,
            spec_scan_dir_end(s@, from as int) == spec_scan_dir_end(s@, i as int),
        decreases n - i,
    {
        i = i + 1;
    }
    i
}

fn is_dir_stop(c: char) -> (r: bool)
    ensures
        r == (c == ' ' || c == '\n'),
{
    c == ' ' || c == '\n'
}

/// An identifier-shaped run is either a hexadecimal literal with a trailing
/// `h`, which yields a `Value`, or an identifier.
pub fn parse_identifier_or_value(s: &str) -> (r: TokenValue)
    ensures
        r@ == spec_classify(s@),
{
    let n = s.unicode_len();
    if n == 0 {
        return TokenValue::Identifier(String::from_str(s));
    }
    if s.get_char(n - 1) != 'h' {
        proof {
            assert(s@.last() == s@[n - 1]);
        }
        return TokenValue::Identifier(String::from_str(s));
    }
    let ghost digits = s@.drop_last();
    let mut acc: u16 = 0;
    let mut i: usize = 0;
    while i < n - 1
        invariant
            n == s@.len(),
            n >= 1,
            digits == s@.drop_last(),
            i <= n - 1,
            spec_all_hex(digits.take(i as int)),
            acc == spec_hex_wrap(digits.take(i as int)),
        decreases n - 1 - i,
    {
        let c = s.get_char(i);
        if !is_hex_digit(c) {
            proof {
                assert(digits[i as int] == c);
                assert(!spec_all_hex(digits));
            }
            return TokenValue::Identifier(String::from_str(s));
        }
        let v = hex_digit_val(c);
        acc = ((((acc as u32) * 16) + (v as u32)) % 0x10000) as u16;
        i = i + 1;
        proof {
            assert(digits.take(i as int).drop_last() =~= digits.take(i - 1));
            assert(digits.take(i as int).last() == c);
        }
    }
    proof {
        assert(digits.take(n - 1) =~= digits);
    }
    TokenValue::Value(acc, ((n / 2) % 256) as u8)
}

impl SimpleTokenizer {
    /// Drains the tokenizer: every token before `EOF`, in order.
    pub fn collect_all(&mut self) -> (r: Result<Vec<Token>, ParseError>)
        requires
            old(self).wf(),
        ensures
            final(self).wf(),
            final(self)@ == s_collect(old(self)@).1,
            match r {
                Ok(ts) => s_collect(old(self)@).0 == Ok::<Seq<TokenVal>, PErrV>(toks_view(ts@)),
                Err(e) => s_collect(old(self)@).0 == Err::<Seq<TokenVal>, PErrV>(e@),
            },
    {
        let mut out: Vec<Token> = Vec::new();
        proof {
            assert(toks_view(out@) =~= Seq::<TokenVal>::empty());
        }
        loop
            invariant
                old(self).wf(),
                self.wf(),
                ({
                    let (res, vf) = s_collect(self@);
                    let (res0, vf0) = s_collect(old(self)@);
                    vf0 == vf && res0 == (match res {
                        Ok(rest) => Ok::<Seq<TokenVal>, PErrV>(toks_view(out@) + rest),
                        Err(e) => Err::<Seq<TokenVal>, PErrV>(e),
                    })
                }),
            decreases self@.measure(),
        {
            let ghost pre = self@;
            let t = match self.next() {
                Ok(t) => t,
                Err(e) => {
                    return Err(e);
                },
            };
            proof {
                lemma_s_next_measure(pre);
            }
            match t.token {
                TokenValue::EOF => {
                    proof {
                        assert(toks_view(out@) + Seq::<TokenVal>::empty() =~= toks_view(out@));
                    }
                    return Ok(out);
                },
                _ => {},
            }
            let ghost out_pre = out@;
            out.push(t);
            proof {
                assert(toks_view(out@) =~= toks_view(out_pre) + seq![out@.last()@]);
                assert(toks_view(out_pre) + (seq![out@.last()@] + s_collect(self@).0->Ok_0)
                    =~= toks_view(out@) + s_collect(self@).0->Ok_0) by {
                    if s_collect(self@).0 is Ok {
                        assert(toks_view(out_pre) + (seq![out@.last()@] + s_collect(
                            self@,
                        ).0->Ok_0) =~= toks_view(out@) + s_collect(self@).0->Ok_0);
                    }
                }
            }
        }
    }
}

/// Mathematical view of a `BufferedTokenizer`: the queued tokens in front of
/// the wrapped lexer.
pub struct BTView {
    pub buf: Seq<TokenVal>,
    pub lex: SimpleLexV,
}

impl BTView {
    pub open spec fn wf(self) -> bool {
        self.lex.wf()
    }

    pub open spec fn measure(self) -> int {
        self.buf.len() + self.lex.measure()
    }
}

/// Effective `next` on the buffered view: the queue drains first.
pub open spec fn b_next(v: BTView) -> (Result<TokenVal, PErrV>, BTView) {
    if v.buf.len() > 0 {
        (Ok(v.buf[0]), BTView { buf: v.buf.drop_first(), lex: v.lex })
    } else {
        let (r, lex2) = s_next(v.lex);
        (r, BTView { buf: v.buf, lex: lex2 })
    }
}

pub open spec fn b_peek(v: BTView) -> (Result<TokenVal, PErrV>, BTView) {
    if v.buf.len() > 0 {
        (Ok(v.buf[0]), v)
    } else {
        let (r, lex2) = s_peek(v.lex);
        (r, BTView { buf: v.buf, lex: lex2 })
    }
}

pub open spec fn b_expect(v: BTView, expected: TokV) -> (Result<(), PErrV>, BTView) {
    let (r, v2) = b_next(v);
    match r {
        Ok(t) => (s_check(t, expected, v2.lex.line, v2.lex.file), v2),
        Err(e) => (Err(e), v2),
    }
}

pub open spec fn b_expect_peek(v: BTView, expected: TokV) -> (Result<(), PErrV>, BTView) {
    let (r, v2) = b_peek(v);
    match r {
        Ok(t) => (s_check(t, expected, v2.lex.line, v2.lex.file), v2),
        Err(e) => (Err(e), v2),
    }
}

/// `b_next` keeps the view well formed, leaves the source alone, never grows
/// the measure, and strictly shrinks it on any token other than `EOF`.
pub proof fn lemma_b_next_measure(v: BTView)
    requires
        v.wf(),
    ensures
        b_next(v).1.wf(),
        b_next(v).1.lex.chars == v.lex.chars,
        b_next(v).1.lex.file == v.lex.file,
        b_next(v).1.measure() <= v.measure(),
        b_next(v).0 matches Ok(t) && !(t.t is EOF) ==> b_next(v).1.measure() < v.measure(),
{
    if v.buf.len() > 0 {
    } else {
        lemma_s_next_measure(v.lex);
    }
}

/// `b_peek` keeps the view well formed and never grows the measure.
pub proof fn lemma_b_peek_measure(v: BTView)
    requires
        v.wf(),
    ensures
        b_peek(v).1.wf(),
        b_peek(v).1.lex.chars == v.lex.chars,
        b_peek(v).1.lex.file == v.lex.file,
        b_peek(v).1.measure() <= v.measure(),
        b_peek(v).1.buf == v.buf || b_peek(v).1.buf.len() == 0,
{
    if v.buf.len() > 0 {
    } else {
        lemma_s_peek_measure(v.lex);
    }
}

#[derive(Debug)]
pub struct BufferedTokenizer {
    pub tokenizer: SimpleTokenizer,
    pub buffer: VecDeque<Token>,
}

impl View for BufferedTokenizer {
    type V = BTView;

    open spec fn view(&self) -> BTView {
        BTView { buf: toks_view(self.buffer@), lex: self.tokenizer@ }
    }
}

impl BufferedTokenizer {
    pub open spec fn wf(&self) -> bool {
        self.tokenizer.wf()
    }

    pub fn new(source: &str, file_id: usize) -> (r: BufferedTokenizer)
        ensures
            r.wf(),
            r@ == (BTView {
                buf: Seq::<TokenVal>::empty(),
                lex: SimpleLexV {
                    chars: source@,
                    pos: 0,
                    line: 1,
                    file: file_id as int,
                    head: None,
                },
            }),
    {
        let r = BufferedTokenizer {
            tokenizer: SimpleTokenizer::new(source, file_id),
            buffer: VecDeque::new(),
        };
        proof {
            assert(toks_view(r.buffer@) =~= Seq::<TokenVal>::empty());
        }
        r
    }

    /// Prepends the tokens, in order, ahead of everything queued so far; how
    /// a macro expansion is replayed to the parser.
    pub fn push_front(&mut self, tokens: &Vec<Token>)
        requires
            old(self).wf(),
        ensures
            final(self).wf(),
            final(self)@.buf == toks_view(tokens@) + old(self)@.buf,
            final(self)@.lex == old(self)@.lex,
    {
        let n = tokens.len();
        let mut i: usize = n;
        while i > 0
            invariant
                self.wf(),
                i <= n,
                n == tokens@.len(),
                self.tokenizer == old(self).tokenizer,
                toks_view(self.buffer@) =~= toks_view(tokens@).skip(i as int) + old(self)@.buf,
            decreases i,
        {
            i = i - 1;
            let t = tokens[i].clone();
            let ghost tv = t@;
            let ghost pre = self.buffer@;
            self.buffer.push_front(t);
            proof {
                assert(self.buffer@.len() == 1 + pre.len());
                assert(tv == tokens@[i as int]@);
                assert(toks_view(tokens@)[i as int] == tokens@[i as int]@);
                assert(toks_view(self.buffer@)[0] == tv);
                assert(forall|k: int|
                    1 <= k < self.buffer@.len() ==> toks_view(self.buffer@)[k] == toks_view(
                        pre,
                    )[k - 1]);
                let ghost lhs = toks_view(self.buffer@);
                let ghost rhs = toks_view(tokens@).skip(i as int) + old(self)@.buf;
                assert(toks_view(pre) == toks_view(tokens@).skip(i + 1) + old(self)@.buf);
                assert forall|k: int| 0 <= k < lhs.len() implies lhs[k] == rhs[k] by {
                    if k == 0 {
                        assert(rhs[0] == toks_view(tokens@).skip(i as int)[0]);
                        assert(toks_view(tokens@).skip(i as int)[0] == toks_view(
                            tokens@,
                        )[i as int]);
                    } else {
                        assert(lhs[k] == toks_view(pre)[k - 1]);
                        assert(rhs[k] == (toks_view(tokens@).skip(i + 1) + old(self)@.buf)[k - 1]);
                    }
                }
                assert(lhs =~= rhs);
            }
        }
        proof {
            assert(toks_view(tokens@).skip(0) =~= toks_view(tokens@));
        }
    }

    pub fn next(&mut self) -> (r: Result<Token, ParseError>)
        requires
            old(self).wf(),
        ensures
            final(self).wf(),
            final(self)@ == b_next(old(self)@).1,
            tok_res_view(r) == b_next(old(self)@).0,
    {
        match self.buffer.pop_front() {
            Some(t) => {
                proof {
                    assert(toks_view(self.buffer@) =~= old(self)@.buf.drop_first());
                }
                Ok(t)
            },
            None => {
                proof {
                    assert(toks_view(self.buffer@) =~= old(self)@.buf);
                }
                self.tokenizer.next()
            },
        }
    }

    pub fn peek(&mut self) -> (r: Result<Token, ParseError>)
        requires
            old(self).wf(),
        ensures
            final(self).wf(),
            final(self)@ == b_peek(old(self)@).1,
            tok_res_view(r) == b_peek(old(self)@).0,
    {
        if self.buffer.len() > 0 {
            let t = &self.buffer[0];
            Ok(t.clone())
        } else {
            proof {
                assert(self@.buf.len() == 0);
            }
            self.tokenizer.peek()
        }
    }

    fn expect_token(&self, actual: Token, expected: TokenValue) -> (r: Result<(), ParseError>)
        ensures
            unit_res_view(r) == s_check(
                actual@,
                expected@,
                self.tokenizer.curr_line as int,
                self.tokenizer.file_id as int,
            ),
    {
        if actual.token == expected {
            Ok(())
        } else {
            Err(
                ParseError::UnexpectedToken(
                    UnexpectedToken {
                        expected,
                        actual: actual.token,
                        line: self.tokenizer.curr_line,
                        file_id: self.tokenizer.file_id,
                        ch: 0,
                    },
                ),
            )
        }
    }

    pub fn expect(&mut self, expected: TokenValue) -> (r: Result<(), ParseError>)
        requires
            old(self).wf(),
        ensures
            final(self).wf(),
            final(self)@ == b_expect(old(self)@, expected@).1,
            unit_res_view(r) == b_expect(old(self)@, expected@).0,
    {
        let actual = match self.next() {
            Ok(t) => t,
            Err(e) => {
                return Err(e);
            },
        };
        self.expect_token(actual, expected)
    }

    pub fn expect_peek(&mut self, expected: TokenValue) -> (r: Result<(), ParseError>)
        requires
            old(self).wf(),
        ensures
            final(self).wf(),
            final(self)@ == b_expect_peek(old(self)@, expected@).1,
            unit_res_view(r) == b_expect_peek(old(self)@, expected@).0,
    {
        let actual = match self.peek() {
            Ok(t) => t,
            Err(e) => {
                return Err(e);
            },
        };
        self.expect_token(actual, expected)
    }
}

/// The shared surface of the two tokenizers.
pub trait Tokenizer {
    spec fn t_wf(&self) -> bool;

    fn peek(&mut self) -> (r: Result<Token, ParseError>)
        requires
            old(self).t_wf(),
        ensures
            final(self).t_wf(),
    ;

    fn expect(&mut self, expected: TokenValue) -> (r: Result<(), ParseError>)
        requires
            old(self).t_wf(),
        ensures
            final(self).t_wf(),
    ;

    fn expect_peek(&mut self, expected: TokenValue) -> (r: Result<(), ParseError>)
        requires
            old(self).t_wf(),
        ensures
            final(self).t_wf(),
    ;

    fn next(&mut self) -> (r: Result<Token, ParseError>)
        requires
            old(self).t_wf(),
        ensures
            final(self).t_wf(),
    ;
}

impl Tokenizer for SimpleTokenizer {
    open spec fn t_wf(&self) -> bool {
        self.wf()
    }

    fn peek(&mut self) -> Result<Token, ParseError> {
        SimpleTokenizer::peek(self)
    }

    fn expect(&mut self, expected: TokenValue) -> Result<(), ParseError> {
        SimpleTokenizer::expect(self, expected)
    }

    fn expect_peek(&mut self, expected: TokenValue) -> Result<(), ParseError> {
        SimpleTokenizer::expect_peek(self, expected)
    }

    fn next(&mut self) -> Result<Token, ParseError> {
        SimpleTokenizer::next(self)
    }
}

impl Tokenizer for BufferedTokenizer {
    open spec fn t_wf(&self) -> bool {
        self.wf()
    }

    fn peek(&mut self) -> Result<Token, ParseError> {
        BufferedTokenizer::peek(self)
    }

    fn expect(&mut self, expected: TokenValue) -> Result<(), ParseError> {
        BufferedTokenizer::expect(self, expected)
    }

    fn expect_peek(&mut self, expected: TokenValue) -> Result<(), ParseError> {
        BufferedTokenizer::expect_peek(self, expected)
    }

    fn next(&mut self) -> Result<Token, ParseError> {
        BufferedTokenizer::next(self)
    }
}

} // verus!
