use vstd::prelude::*;

verus! {

/// A position in the source text, as the lexer reports it.
#[derive(Clone, Copy, Debug, PartialEq, Eq, Structural)]
pub struct Location {
    pub row: usize,
    pub column: usize,
}

impl Location {
    pub fn new(row: usize, column: usize) -> (r: Location)
        ensures
            r.row == row,
            r.column == column,
    {
        Location { row, column }
    }

    /// Line 0, column 0: the location reported for the end of the input.
    pub fn origin() -> (r: Location)
        ensures
            r.row == 0 && r.column == 0,
    {
        Location { row: 0, column: 0 }
    }
}

/// The prefix of a string literal.
#[derive(Clone, Copy, Debug, PartialEq, Eq, Structural)]
pub enum StringKind {
    Normal,
    Unicode,
    Bytes,
    FString,
}

/// Punctuation, operators, keywords and layout tokens: every token that carries no payload.
#[derive(Clone, Copy, Debug, PartialEq, Eq, Structural)]
pub enum Sym {
    Newline,
    Indent,
    Dedent,
    EndOfFile,
    Lpar,
    Rpar,
    Lsqb,
    Rsqb,
    Colon,
    Comma,
    Semi,
    Plus,
    Minus,
    Star,
    Slash,
    Vbar,
    Amper,
    Less,
    Greater,
    Equal,
    Dot,
    Percent,
    Lbrace,
    Rbrace,
    EqEqual,
    NotEqual,
    LessEqual,
    GreaterEqual,
    Tilde,
    CircumFlex,
    LeftShift,
    RightShift,
    DoubleStar,
    DoubleStarEqual,
    PlusEqual,
    MinusEqual,
    StarEqual,
    SlashEqual,
    PercentEqual,
    AmperEqual,
    VbarEqual,
    CircumflexEqual,
    LeftShiftEqual,
    RightShiftEqual,
    DoubleSlash,
    DoubleSlashEqual,
    ColonEqual,
    At,
    AtEqual,
    Rarrow,
    Ellipsis,
    False,
    NoneKw,
    True,
    And,
    As,
    Assert,
    Async,
    Await,
    Break,
    Class,
    Continue,
    Def,
    Del,
    Elif,
    Else,
    Except,
    Finally,
    For,
    From,
    Global,
    If,
    Import,
    In,
    Is,
    Lambda,
    Nonlocal,
    Not,
    Or,
    Pass,
    Raise,
    Return,
    Try,
    While,
    With,
    Yield,
}

/// A token as the lexer hands it over. Floating-point payloads travel as their IEEE-754 bit
/// patterns.
#[derive(Debug)]
pub enum Tok {
    Name { name: String },
    Int { value: num_bigint::BigInt },
    Float { value: u64 },
    Complex { real: u64, imag: u64 },
    String { value: String, kind: StringKind, triple_quoted: bool },
    Comment(String),
    NonLogicalNewline,
    StartModule,
    StartInteractive,
    StartExpression,
    Sym(Sym),
}

/// A token of the parser's own stream: a payload-free symbol, or an index into one of the
/// literal tables of the session.
#[derive(Clone, Copy, Debug, PartialEq, Eq, Structural)]
pub enum PegTok {
    Name(usize),
    Int(usize),
    Float(usize),
    Complex(usize),
    String(usize),
    Sym(Sym),
}

/// One lexer result: (start, token, end), or the lexer's error.
pub type LexResult<E> = Result<(Location, Tok, Location), E>;

} // verus!
