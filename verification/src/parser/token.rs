//! Tokens of the assembler surface syntax, with their mathematical view.

use vstd::prelude::*;

verus! {

/// Mathematical view of a `TokenValue`: identifiers and directive text are
/// sequences of characters.
pub enum TokV {
    Identifier(Seq<char>),
    OpenParen,
    CloseParen,
    Plus,
    Minus,
    Value(u16, u8),
    Comma,
    Dot,
    Colon,
    Amp,
    Asterisk,
    At,
    NewLine,
    EOF,
    Directive(Seq<char>),
}

/// Mathematical view of a `Token`: its value together with its origin.
pub struct TokenVal {
    pub t: TokV,
    pub line: int,
    pub file: int,
}

#[derive(Debug)]
pub enum TokenValue {
    Identifier(String),
    OpenParen,
    CloseParen,
    Plus,
    Minus,
    Value(u16, u8),
    Comma,
    Dot,
    Colon,
    Amp,
    Asterisk,
    At,
    NewLine,
    EOF,
    Directive(String),
}

impl View for TokenValue {
    type V = TokV;

    open spec fn view(&self) -> TokV {
        match self {
            TokenValue::Identifier(s) => TokV::Identifier(s@),
            TokenValue::OpenParen => TokV::OpenParen,
            TokenValue::CloseParen => TokV::CloseParen,
            TokenValue::Plus => TokV::Plus,
            TokenValue::Minus => TokV::Minus,
            TokenValue::Value(v, w) => TokV::Value(*v, *w),
            TokenValue::Comma => TokV::Comma,
            TokenValue::Dot => TokV::Dot,
            TokenValue::Colon => TokV::Colon,
            TokenValue::Amp => TokV::Amp,
            TokenValue::Asterisk => TokV::Asterisk,
            TokenValue::At => TokV::At,
            TokenValue::NewLine => TokV::NewLine,
            TokenValue::EOF => TokV::EOF,
            TokenValue::Directive(s) => TokV::Directive(s@),
        }
    }
}

impl Clone for TokenValue {
    fn clone(&self) -> (r: TokenValue)
        ensures
            r@ == self@,
    {
        match self {
            TokenValue::Identifier(s) => TokenValue::Identifier(s.clone()),
            TokenValue::OpenParen => TokenValue::OpenParen,
            TokenValue::CloseParen => TokenValue::CloseParen,
            TokenValue::Plus => TokenValue::Plus,
            TokenValue::Minus => TokenValue::Minus,
            TokenValue::Value(v, w) => TokenValue::Value(*v, *w),
            TokenValue::Comma => TokenValue::Comma,
            TokenValue::Dot => TokenValue::Dot,
            TokenValue::Colon => TokenValue::Colon,
            TokenValue::Amp => TokenValue::Amp,
            TokenValue::Asterisk => TokenValue::Asterisk,
            TokenValue::At => TokenValue::At,
            TokenValue::NewLine => TokenValue::NewLine,
            TokenValue::EOF => TokenValue::EOF,
            TokenValue::Directive(s) => TokenValue::Directive(s.clone()),
        }
    }
}

impl PartialEq for TokenValue {
    fn eq(&self, other: &TokenValue) -> (r: bool)
        ensures
            r == (self@ == other@),
    {
        match (self, other) {
            (TokenValue::Identifier(a), TokenValue::Identifier(b)) => crate::strutil::str_eq(
                a.as_str(),
                b.as_str(),
            ),
            (TokenValue::OpenParen, TokenValue::OpenParen) => true,
            (TokenValue::CloseParen, TokenValue::CloseParen) => true,
            (TokenValue::Plus, TokenValue::Plus) => true,
            (TokenValue::Minus, TokenValue::Minus) => true,
            (TokenValue::Value(v1, w1), TokenValue::Value(v2, w2)) => v1 == v2 && w1 == w2,
            (TokenValue::Comma, TokenValue::Comma) => true,
            (TokenValue::Dot, TokenValue::Dot) => true,
            (TokenValue::Colon, TokenValue::Colon) => true,
            (TokenValue::Amp, TokenValue::Amp) => true,
            (TokenValue::Asterisk, TokenValue::Asterisk) => true,
            (TokenValue::At, TokenValue::At) => true,
            (TokenValue::NewLine, TokenValue::NewLine) => true,
            (TokenValue::EOF, TokenValue::EOF) => true,
            (TokenValue::Directive(a), TokenValue::Directive(b)) => crate::strutil::str_eq(
                a.as_str(),
                b.as_str(),
            ),
            _ => false,
        }
    }
}

impl vstd::std_specs::cmp::PartialEqSpecImpl for TokenValue {
    open spec fn obeys_eq_spec() -> bool {
        true
    }

    open spec fn eq_spec(&self, other: &TokenValue) -> bool {
        self@ == other@
    }
}

impl Eq for TokenValue {

}

#[derive(Debug)]
pub struct Token {
    pub token: TokenValue,
    pub line: usize,
    pub file_id: usize,
}

impl View for Token {
    type V = TokenVal;

    open spec fn view(&self) -> TokenVal {
        TokenVal { t: self.token@, line: self.line as int, file: self.file_id as int }
    }
}

impl Clone for Token {
    fn clone(&self) -> (r: Token)
        ensures
            r@ == self@,
    {
        Token { token: self.token.clone(), line: self.line, file_id: self.file_id }
    }
}

impl PartialEq for Token {
    fn eq(&self, other: &Token) -> (r: bool)
        ensures
            r == (self@ == other@),
    {
        self.token == other.token && self.line == other.line && self.file_id == other.file_id
    }
}

impl vstd::std_specs::cmp::PartialEqSpecImpl for Token {
    open spec fn obeys_eq_spec() -> bool {
        true
    }

    open spec fn eq_spec(&self, other: &Token) -> bool {
        self@ == other@
    }
}

impl Eq for Token {

}

/// View of a sequence of tokens.
pub open spec fn toks_view(ts: Seq<Token>) -> Seq<TokenVal> {
    ts.map_values(|t: Token| t@)
}

} // verus!
