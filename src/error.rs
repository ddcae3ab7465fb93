use vstd::prelude::*;
use crate::session::{Interned, Parser};
use crate::token::{Location, PegTok, Tok};

verus! {

/// Why a parse failed.
#[derive(Debug)]
pub enum ParseErrorType {
    /// The input ended where more was needed.
    Eof,
    /// The furthest point reached holds a token that no rule could take.
    UnrecognizedToken(Tok, Option<String>),
}

/// A syntax error at a position of the token stream.
#[derive(Debug)]
pub struct PegParseError {
    pub location: Location,
    pub error: ParseErrorType,
}

/// A syntax error as callers see it, with the name of the source it came from.
#[derive(Debug)]
pub struct ParseError {
    pub error: ParseErrorType,
    pub location: Location,
    pub source_path: String,
}

impl Interned {
    /// The lexer token that an interned token stands for.
    pub open spec fn rebuilt(self, t: PegTok) -> Tok {
        match t {
            PegTok::Name(i) => Tok::Name { name: self.names[i as int] },
            PegTok::Int(i) => Tok::Int { value: self.ints[i as int] },
            PegTok::Float(i) => Tok::Float { value: self.floats[i as int] },
            PegTok::Complex(i) => Tok::Complex {
                real: self.complexes[i as int].0,
                imag: self.complexes[i as int].1,
            },
            PegTok::String(i) => Tok::String {
                value: self.strings[i as int].0,
                kind: self.strings[i as int].1,
                triple_quoted: self.strings[i as int].2,
            },
            PegTok::Sym(s) => Tok::Sym(s),
        }
    }

    /// The error reported for a failure whose furthest point is `p`.
    pub open spec fn error_at(self, p: int) -> PegParseError {
        if p >= self.tokens.len() {
            PegParseError { location: Location { row: 0, column: 0 }, error: ParseErrorType::Eof }
        } else {
            PegParseError {
                location: self.locations[p].0,
                error: ParseErrorType::UnrecognizedToken(self.rebuilt(self.tokens[p]), None),
            }
        }
    }
}

impl Parser {
    /// The lexer token behind the token at position `p`, with its literal payload copied back
    /// out of its table.
    pub fn rebuild_token(&self, p: usize) -> (r: Tok)
        requires
            self.wf(),
            p < self.len(),
        ensures
            r == self.view().rebuilt(self.view().tokens[p as int]),
    {
        assert(self.view().tok_ok(self.tokens@[p as int]));
        match self.tokens[p] {
            PegTok::Name(i) => Tok::Name { name: self.names[i].clone() },
            PegTok::Int(i) => Tok::Int { value: self.ints[i].clone() },
            PegTok::Float(i) => Tok::Float { value: self.floats[i] },
            PegTok::Complex(i) => Tok::Complex { real: self.complexes[i].0, imag: self.complexes[i].1 },
            PegTok::String(i) => Tok::String {
                value: self.strings[i].0.clone(),
                kind: self.strings[i].1,
                triple_quoted: self.strings[i].2,
            },
            PegTok::Sym(s) => Tok::Sym(s),
        }
    }

    /// Maps the furthest failure position to the error that reports it: past the last token
    /// it is the end of input, otherwise the token found there and its start location.
    pub fn position_repr(&self, p: usize) -> (r: PegParseError)
        requires
            self.wf(),
        ensures
            r == self.view().error_at(p as int),
    {
        if p >= self.tokens.len() {
            PegParseError { location: Location::origin(), error: ParseErrorType::Eof }
        } else {
            let tok = self.rebuild_token(p);
            PegParseError {
                location: self.locations[p].0,
                error: ParseErrorType::UnrecognizedToken(tok, None),
            }
        }
    }
}

} // verus!
