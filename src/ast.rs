use vstd::prelude::*;
use crate::token::Location;

verus! {

#[derive(Clone, Copy, Debug, PartialEq, Eq, Structural)]
pub enum ExprContext {
    Load,
    Store,
    Del,
}

#[derive(Clone, Copy, Debug, PartialEq, Eq, Structural)]
pub enum Boolop {
    And,
    Or,
}

#[derive(Clone, Copy, Debug, PartialEq, Eq, Structural)]
pub enum Operator {
    Add,
    Sub,
    Mult,
    MatMult,
    Div,
    Mod,
    Pow,
    LShift,
    RShift,
    BitOr,
    BitXor,
    BitAnd,
    FloorDiv,
}

#[derive(Clone, Copy, Debug, PartialEq, Eq, Structural)]
pub enum Unaryop {
    Invert,
    Not,
    UAdd,
    USub,
}

#[derive(Clone, Copy, Debug, PartialEq, Eq, Structural)]
pub enum Cmpop {
    Eq,
    NotEq,
    Lt,
    LtE,
    Gt,
    GtE,
    Is,
    IsNot,
    In,
    NotIn,
}

/// A literal value. Floating-point values are held as their IEEE-754 bit patterns.
#[derive(Debug)]
pub enum Constant {
    NoneValue,
    Bool(bool),
    Str(String),
    Bytes(String),
    Int(num_bigint::BigInt),
    Float(u64),
    Complex { real: u64, imag: u64 },
    Ellipsis,
}

/// An expression node with its source span.
#[derive(Debug)]
pub struct Expr {
    pub location: Location,
    pub end_location: Location,
    pub node: ExprKind,
}

#[derive(Debug)]
pub enum ExprKind {
    BoolOp { op: Boolop, values: Vec<Expr> },
    NamedExpr { target: Box<Expr>, value: Box<Expr> },
    BinOp { left: Box<Expr>, op: Operator, right: Box<Expr> },
    UnaryOp { op: Unaryop, operand: Box<Expr> },
    Lambda { args: Box<Arguments>, body: Box<Expr> },
    IfExp { test: Box<Expr>, body: Box<Expr>, orelse: Box<Expr> },
    Dict { keys: Vec<Option<Expr>>, values: Vec<Expr> },
    SetDisplay { elts: Vec<Expr> },
    ListComp { elt: Box<Expr>, generators: Vec<Comprehension> },
    SetComp { elt: Box<Expr>, generators: Vec<Comprehension> },
    DictComp { key: Box<Expr>, value: Box<Expr>, generators: Vec<Comprehension> },
    GeneratorExp { elt: Box<Expr>, generators: Vec<Comprehension> },
    Await { value: Box<Expr> },
    Yield { value: Option<Box<Expr>> },
    YieldFrom { value: Box<Expr> },
    Compare { left: Box<Expr>, ops: Vec<Cmpop>, comparators: Vec<Expr> },
    Call { func: Box<Expr>, args: Vec<Expr>, keywords: Vec<Keyword> },
    JoinedStr { values: Vec<Expr> },
    Constant { value: Constant, kind: Option<String> },
    Attribute { value: Box<Expr>, attr: String, ctx: ExprContext },
    Subscript { value: Box<Expr>, slice: Box<Expr>, ctx: ExprContext },
    Starred { value: Box<Expr>, ctx: ExprContext },
    Name { id: String, ctx: ExprContext },
    List { elts: Vec<Expr>, ctx: ExprContext },
    Tuple { elts: Vec<Expr>, ctx: ExprContext },
    Slice { lower: Option<Box<Expr>>, upper: Option<Box<Expr>>, step: Option<Box<Expr>> },
}

#[derive(Debug)]
pub struct Comprehension {
    pub target: Expr,
    pub iter: Expr,
    pub ifs: Vec<Expr>,
    pub is_async: usize,
}

#[derive(Debug)]
pub struct Arguments {
    pub posonlyargs: Vec<Arg>,
    pub args: Vec<Arg>,
    pub vararg: Option<Box<Arg>>,
    pub kwonlyargs: Vec<Arg>,
    pub kw_defaults: Vec<Expr>,
    pub kwarg: Option<Box<Arg>>,
    pub defaults: Vec<Expr>,
}

/// A parameter with its source span.
#[derive(Debug)]
pub struct Arg {
    pub location: Location,
    pub end_location: Location,
    pub node: ArgData,
}

#[derive(Debug)]
pub struct ArgData {
    pub arg: String,
    pub annotation: Option<Box<Expr>>,
    pub type_comment: Option<String>,
}

/// A keyword argument (`name=value`, or `**value` when `arg` is absent) with its span.
#[derive(Debug)]
pub struct Keyword {
    pub location: Location,
    pub end_location: Location,
    pub node: KeywordData,
}

#[derive(Debug)]
pub struct KeywordData {
    pub arg: Option<String>,
    pub value: Expr,
}

/// An imported name with its span.
#[derive(Debug)]
pub struct Alias {
    pub location: Location,
    pub end_location: Location,
    pub node: AliasData,
}

#[derive(Debug)]
pub struct AliasData {
    pub name: String,
    pub asname: Option<String>,
}

#[derive(Debug)]
pub struct Withitem {
    pub context_expr: Expr,
    pub optional_vars: Option<Box<Expr>>,
}

/// An `except` clause with its span.
#[derive(Debug)]
pub struct Excepthandler {
    pub location: Location,
    pub end_location: Location,
    pub node: ExcepthandlerKind,
}

#[derive(Debug)]
pub enum ExcepthandlerKind {
    ExceptHandler { type_: Option<Box<Expr>>, name: Option<String>, body: Vec<Stmt> },
}

/// A statement node with its source span.
#[derive(Debug)]
pub struct Stmt {
    pub location: Location,
    pub end_location: Location,
    pub node: StmtKind,
}

#[derive(Debug)]
pub enum StmtKind {
    FunctionDef {
        name: String,
        args: Box<Arguments>,
        body: Vec<Stmt>,
        decorator_list: Vec<Expr>,
        return_type: Option<Box<Expr>>,
        type_comment: Option<String>,
    },
    AsyncFunctionDef {
        name: String,
        args: Box<Arguments>,
        body: Vec<Stmt>,
        decorator_list: Vec<Expr>,
        return_type: Option<Box<Expr>>,
        type_comment: Option<String>,
    },
    ClassDef {
        name: String,
        bases: Vec<Expr>,
        keywords: Vec<Keyword>,
        body: Vec<Stmt>,
        decorator_list: Vec<Expr>,
    },
    Return { value: Option<Box<Expr>> },
    Delete { targets: Vec<Expr> },
    Assign { targets: Vec<Expr>, value: Box<Expr>, type_comment: Option<String> },
    AugAssign { target: Box<Expr>, op: Operator, value: Box<Expr> },
    AnnAssign { target: Box<Expr>, annotation: Box<Expr>, value: Option<Box<Expr>>, simple: usize },
    For {
        target: Box<Expr>,
        iter: Box<Expr>,
        body: Vec<Stmt>,
        orelse: Vec<Stmt>,
        type_comment: Option<String>,
    },
    AsyncFor {
        target: Box<Expr>,
        iter: Box<Expr>,
        body: Vec<Stmt>,
        orelse: Vec<Stmt>,
        type_comment: Option<String>,
    },
    While { test: Box<Expr>, body: Vec<Stmt>, orelse: Vec<Stmt> },
    If { test: Box<Expr>, body: Vec<Stmt>, orelse: Vec<Stmt> },
    With { items: Vec<Withitem>, body: Vec<Stmt>, type_comment: Option<String> },
    AsyncWith { items: Vec<Withitem>, body: Vec<Stmt>, type_comment: Option<String> },
    Raise { exc: Option<Box<Expr>>, cause: Option<Box<Expr>> },
    Try { body: Vec<Stmt>, handlers: Vec<Excepthandler>, orelse: Vec<Stmt>, finalbody: Vec<Stmt> },
    Assert { test: Box<Expr>, msg: Option<Box<Expr>> },
    Import { names: Vec<Alias> },
    ImportFrom { module: Option<String>, names: Vec<Alias>, level: Option<usize> },
    Global { names: Vec<String> },
    Nonlocal { names: Vec<String> },
    Expr { value: Box<Expr> },
    Pass,
    Break,
    Continue,
}

/// A `# type: ignore` comment of a module; the lexer does not report these, so the list stays
/// empty.
#[derive(Debug)]
pub struct TypeIgnore {
    pub lineno: usize,
    pub tag: String,
}

/// The root of a parse: a module, one interactive statement, or one expression.
#[derive(Debug)]
pub enum Mod {
    Module { body: Vec<Stmt>, type_ignores: Vec<TypeIgnore> },
    Interactive { body: Vec<Stmt> },
    Expression { body: Box<Expr> },
}

impl ExprKind {
    /// The load/store/delete tag of a context-bearing expression.
    pub open spec fn ctx_of(&self) -> Option<ExprContext> {
        match *self {
            ExprKind::Attribute { ctx, .. } => Some(ctx),
            ExprKind::Subscript { ctx, .. } => Some(ctx),
            ExprKind::Starred { ctx, .. } => Some(ctx),
            ExprKind::Name { ctx, .. } => Some(ctx),
            ExprKind::List { ctx, .. } => Some(ctx),
            ExprKind::Tuple { ctx, .. } => Some(ctx),
            _ => None,
        }
    }
}

} // verus!
