use num_bigint::BigInt;
use rustpython_parser::ast::{Constant, Expr, ExprContext, ExprKind, Mod, Operator, Stmt, StmtKind, Unaryop};
use rustpython_parser::entry::Mode;
use rustpython_parser::session::Parser;
use rustpython_parser::token::{LexResult, Location, StringKind, Sym, Tok};

fn nm(s: &str) -> Tok {
    Tok::Name { name: s.to_string() }
}

fn lit(v: i64) -> Tok {
    Tok::Int { value: BigInt::from(v) }
}

fn sy(s: Sym) -> Tok {
    Tok::Sym(s)
}

fn lex(toks: Vec<Tok>) -> Vec<LexResult<String>> {
    toks.into_iter()
        .enumerate()
        .map(|(i, t)| Ok((Location::new(1, 2 * i), t, Location::new(1, 2 * i + 1))))
        .collect()
}

fn stmts(toks: Vec<Tok>) -> Vec<Stmt> {
    let p = Parser::from(lex(toks)).unwrap();
    match p.parse(Mode::Module, "<test>") {
        Ok(Mod::Module { body, type_ignores }) => {
            assert!(type_ignores.is_empty());
            body
        }
        other => panic!("unexpected {:?}", other),
    }
}

fn expr(toks: Vec<Tok>) -> Expr {
    let p = Parser::from(lex(toks)).unwrap();
    match p.parse(Mode::Expression, "<test>") {
        Ok(Mod::Expression { body }) => *body,
        other => panic!("unexpected {:?}", other),
    }
}

fn fails(toks: Vec<Tok>, mode: Mode) -> bool {
    Parser::from(lex(toks)).unwrap().parse(mode, "<test>").is_err()
}

#[test]
fn decorated_class_and_async_def() {
    let body = stmts(vec![
        sy(Sym::At), nm("dec"), sy(Sym::Newline),
        sy(Sym::Class), nm("C"), sy(Sym::Lpar), nm("B"), sy(Sym::Comma), nm("metaclass"), sy(Sym::Equal), nm("M"),
        sy(Sym::Rpar), sy(Sym::Colon), sy(Sym::Newline), sy(Sym::Indent),
        sy(Sym::Async), sy(Sym::Def), nm("f"), sy(Sym::Lpar), sy(Sym::Rpar), sy(Sym::Colon),
        sy(Sym::Await), nm("g"), sy(Sym::Newline), sy(Sym::Dedent),
    ]);
    assert_eq!(body.len(), 1);
    match &body[0].node {
        StmtKind::ClassDef { name, bases, keywords, body, decorator_list } => {
            assert_eq!(name, "C");
            assert_eq!(bases.len(), 1);
            assert_eq!(keywords.len(), 1);
            assert_eq!(decorator_list.len(), 1);
            match &body[0].node {
                StmtKind::AsyncFunctionDef { body, args, .. } => {
                    assert!(args.args.is_empty());
                    assert!(matches!(&body[0].node, StmtKind::Expr { value } if matches!(value.node, ExprKind::Await { .. })));
                }
                other => panic!("unexpected {:?}", other),
            }
        }
        other => panic!("unexpected {:?}", other),
    }
    // The class statement starts at `class`, after its decorator.
    assert_eq!(body[0].location, Location::new(1, 6));
}

#[test]
fn elif_else_chain() {
    // if a: pass\nelif b: pass\nelse: pass
    let body = stmts(vec![
        sy(Sym::If), nm("a"), sy(Sym::Colon), sy(Sym::Pass), sy(Sym::Newline),
        sy(Sym::Elif), nm("b"), sy(Sym::Colon), sy(Sym::Pass), sy(Sym::Newline),
        sy(Sym::Else), sy(Sym::Colon), sy(Sym::Pass), sy(Sym::Newline),
    ]);
    assert_eq!(body.len(), 1);
    match &body[0].node {
        StmtKind::If { orelse, .. } => {
            assert_eq!(orelse.len(), 1);
            match &orelse[0].node {
                StmtKind::If { orelse, .. } => assert_eq!(orelse.len(), 1),
                other => panic!("unexpected {:?}", other),
            }
            // The elif ends at its own block; the if spans the whole chain.
            assert_eq!(orelse[0].end_location, Location::new(1, 17));
        }
        other => panic!("unexpected {:?}", other),
    }
    assert_eq!(body[0].end_location, Location::new(1, 25));
}

#[test]
fn loops_with_else() {
    let body = stmts(vec![
        sy(Sym::For), nm("a"), sy(Sym::Comma), nm("b"), sy(Sym::In), nm("c"), sy(Sym::Colon), sy(Sym::Pass),
        sy(Sym::Newline), sy(Sym::Else), sy(Sym::Colon), sy(Sym::Pass), sy(Sym::Newline),
        sy(Sym::While), nm("x"), sy(Sym::Colon), sy(Sym::Pass), sy(Sym::Newline), sy(Sym::Else), sy(Sym::Colon),
        sy(Sym::Pass), sy(Sym::Newline),
    ]);
    match &body[0].node {
        StmtKind::For { target, orelse, .. } => {
            assert!(matches!(&target.node, ExprKind::Tuple { elts, ctx: ExprContext::Store } if elts.len() == 2));
            assert_eq!(orelse.len(), 1);
        }
        other => panic!("unexpected {:?}", other),
    }
    assert!(matches!(&body[1].node, StmtKind::While { orelse, .. } if orelse.len() == 1));
}

#[test]
fn simple_statement_forms() {
    let body = stmts(vec![
        sy(Sym::Return), nm("a"), sy(Sym::Comma), nm("b"), sy(Sym::Newline),
        sy(Sym::Raise), nm("E"), sy(Sym::From), nm("e"), sy(Sym::Newline),
        sy(Sym::Raise), sy(Sym::Newline),
        sy(Sym::Assert), nm("x"), sy(Sym::Comma), nm("m"), sy(Sym::Newline),
        sy(Sym::Global), nm("g"), sy(Sym::Comma), nm("h"), sy(Sym::Newline),
        sy(Sym::Nonlocal), nm("n"), sy(Sym::Newline),
        sy(Sym::Yield), sy(Sym::From), nm("it"), sy(Sym::Newline),
        sy(Sym::Continue), sy(Sym::Newline),
    ]);
    assert_eq!(body.len(), 8);
    assert!(matches!(&body[0].node, StmtKind::Return { value: Some(v) } if matches!(v.node, ExprKind::Tuple { .. })));
    assert!(matches!(&body[1].node, StmtKind::Raise { exc: Some(_), cause: Some(_) }));
    assert!(matches!(&body[2].node, StmtKind::Raise { exc: None, cause: None }));
    assert!(matches!(&body[3].node, StmtKind::Assert { msg: Some(_), .. }));
    assert!(matches!(&body[4].node, StmtKind::Global { names } if names.len() == 2));
    assert!(matches!(&body[5].node, StmtKind::Nonlocal { names } if names[0] == "n"));
    assert!(matches!(&body[6].node, StmtKind::Expr { value } if matches!(value.node, ExprKind::YieldFrom { .. })));
    assert!(matches!(body[7].node, StmtKind::Continue));
}

#[test]
fn import_forms() {
    let body = stmts(vec![
        sy(Sym::Import), nm("a"), sy(Sym::Dot), nm("b"), sy(Sym::As), nm("c"), sy(Sym::Comma), nm("d"),
        sy(Sym::Newline),
        sy(Sym::From), sy(Sym::Dot), sy(Sym::Import), sy(Sym::Lpar), nm("x"), sy(Sym::Comma), nm("y"),
        sy(Sym::Comma), sy(Sym::Rpar), sy(Sym::Newline),
        sy(Sym::From), nm("m"), sy(Sym::Import), sy(Sym::Star), sy(Sym::Newline),
    ]);
    match &body[0].node {
        StmtKind::Import { names } => {
            assert_eq!(names.len(), 2);
            assert_eq!(names[0].node.name, "a.b");
            assert_eq!(names[0].node.asname.as_deref(), Some("c"));
        }
        other => panic!("unexpected {:?}", other),
    }
    match &body[1].node {
        StmtKind::ImportFrom { module, names, level } => {
            assert!(module.is_none());
            assert_eq!(names.len(), 2);
            assert_eq!(*level, Some(1));
        }
        other => panic!("unexpected {:?}", other),
    }
    match &body[2].node {
        StmtKind::ImportFrom { module, names, level } => {
            assert_eq!(module.as_deref(), Some("m"));
            assert_eq!(names[0].node.name, "*");
            assert_eq!(*level, None);
        }
        other => panic!("unexpected {:?}", other),
    }
}

#[test]
fn with_parenthesized_items_and_bare_except() {
    let body = stmts(vec![
        sy(Sym::With), sy(Sym::Lpar), nm("a"), sy(Sym::As), nm("b"), sy(Sym::Comma), nm("c"), sy(Sym::Comma),
        sy(Sym::Rpar), sy(Sym::Colon), sy(Sym::Pass), sy(Sym::Newline),
        sy(Sym::Try), sy(Sym::Colon), sy(Sym::Pass), sy(Sym::Newline),
        sy(Sym::Except), sy(Sym::Colon), sy(Sym::Pass), sy(Sym::Newline),
        sy(Sym::Else), sy(Sym::Colon), sy(Sym::Pass), sy(Sym::Newline),
    ]);
    assert!(matches!(&body[0].node, StmtKind::With { items, .. } if items.len() == 2));
    match &body[1].node {
        StmtKind::Try { handlers, orelse, finalbody, .. } => {
            assert_eq!(handlers.len(), 1);
            assert_eq!(orelse.len(), 1);
            assert!(finalbody.is_empty());
        }
        other => panic!("unexpected {:?}", other),
    }
}

#[test]
fn parameter_groups() {
    // def f(a, /, b, *, c=1): pass
    let body = stmts(vec![
        sy(Sym::Def), nm("f"), sy(Sym::Lpar), nm("a"), sy(Sym::Comma), sy(Sym::Slash), sy(Sym::Comma), nm("b"),
        sy(Sym::Comma), sy(Sym::Star), sy(Sym::Comma), nm("c"), sy(Sym::Equal), lit(1), sy(Sym::Rpar),
        sy(Sym::Colon), sy(Sym::Pass), sy(Sym::Newline),
    ]);
    match &body[0].node {
        StmtKind::FunctionDef { args, .. } => {
            assert_eq!(args.posonlyargs.len(), 1);
            assert_eq!(args.args.len(), 1);
            assert!(args.vararg.is_none());
            assert_eq!(args.kwonlyargs.len(), 1);
            assert_eq!(args.kw_defaults.len(), 1);
        }
        other => panic!("unexpected {:?}", other),
    }
}

#[test]
fn lambda_with_defaults() {
    // lambda a, b=2, *c: a
    let e = expr(vec![
        sy(Sym::Lambda), nm("a"), sy(Sym::Comma), nm("b"), sy(Sym::Equal), lit(2), sy(Sym::Comma), sy(Sym::Star),
        nm("c"), sy(Sym::Colon), nm("a"),
    ]);
    match &e.node {
        ExprKind::Lambda { args, .. } => {
            assert_eq!(args.args.len(), 2);
            assert_eq!(args.defaults.len(), 1);
            assert!(args.vararg.is_some());
        }
        other => panic!("unexpected {:?}", other),
    }
}

#[test]
fn walrus_and_generator_call() {
    // f(x for x in y) if (n := 3) else -~+k
    let e = expr(vec![
        nm("f"), sy(Sym::Lpar), nm("x"), sy(Sym::For), nm("x"), sy(Sym::In), nm("y"), sy(Sym::Rpar),
        sy(Sym::If), sy(Sym::Lpar), nm("n"), sy(Sym::ColonEqual), lit(3), sy(Sym::Rpar),
        sy(Sym::Else), sy(Sym::Minus), sy(Sym::Tilde), sy(Sym::Plus), nm("k"),
    ]);
    match &e.node {
        ExprKind::IfExp { test, body, orelse } => {
            assert!(matches!(&test.node, ExprKind::NamedExpr { target, .. } if matches!(target.node, ExprKind::Name { ctx: ExprContext::Store, .. })));
            assert!(matches!(&body.node, ExprKind::Call { args, .. } if matches!(args[0].node, ExprKind::GeneratorExp { .. })));
            assert!(matches!(&orelse.node, ExprKind::UnaryOp { op: Unaryop::USub, .. }));
        }
        other => panic!("unexpected {:?}", other),
    }
}

#[test]
fn slices_and_tuples_in_subscripts() {
    // a[1:2:3, ::, b]
    let e = expr(vec![
        nm("a"), sy(Sym::Lsqb), lit(1), sy(Sym::Colon), lit(2), sy(Sym::Colon), lit(3), sy(Sym::Comma),
        sy(Sym::Colon), sy(Sym::Colon), sy(Sym::Comma), nm("b"), sy(Sym::Rsqb),
    ]);
    match &e.node {
        ExprKind::Subscript { slice, .. } => match &slice.node {
            ExprKind::Tuple { elts, .. } => {
                assert_eq!(elts.len(), 3);
                assert!(matches!(&elts[0].node, ExprKind::Slice { lower: Some(_), upper: Some(_), step: Some(_) }));
                assert!(matches!(&elts[1].node, ExprKind::Slice { lower: None, upper: None, step: None }));
            }
            other => panic!("unexpected {:?}", other),
        },
        other => panic!("unexpected {:?}", other),
    }
}

#[test]
fn operator_levels() {
    // a | b ^ c & d << e + f
    let e = expr(vec![
        nm("a"), sy(Sym::Vbar), nm("b"), sy(Sym::CircumFlex), nm("c"), sy(Sym::Amper), nm("d"),
        sy(Sym::LeftShift), nm("e"), sy(Sym::Plus), nm("f"),
    ]);
    match &e.node {
        ExprKind::BinOp { op: Operator::BitOr, right, .. } => match &right.node {
            ExprKind::BinOp { op: Operator::BitXor, right, .. } => match &right.node {
                ExprKind::BinOp { op: Operator::BitAnd, right, .. } => match &right.node {
                    ExprKind::BinOp { op: Operator::LShift, right, .. } => {
                        assert!(matches!(right.node, ExprKind::BinOp { op: Operator::Add, .. }));
                    }
                    other => panic!("unexpected {:?}", other),
                },
                other => panic!("unexpected {:?}", other),
            },
            other => panic!("unexpected {:?}", other),
        },
        other => panic!("unexpected {:?}", other),
    }
}

#[test]
fn set_dict_comprehensions_and_fstrings() {
    let e = expr(vec![
        sy(Sym::Lbrace), nm("k"), sy(Sym::Colon), nm("v"), sy(Sym::For), nm("k"), sy(Sym::In), nm("d"),
        sy(Sym::Rbrace),
    ]);
    assert!(matches!(e.node, ExprKind::DictComp { .. }));
    let e = expr(vec![sy(Sym::Lbrace), nm("a"), sy(Sym::Comma), sy(Sym::Star), nm("b"), sy(Sym::Rbrace)]);
    assert!(matches!(&e.node, ExprKind::SetDisplay { elts } if elts.len() == 2));
    let e = expr(vec![
        sy(Sym::Lbrace), nm("a"), sy(Sym::Async), sy(Sym::For), nm("a"), sy(Sym::In), nm("b"), sy(Sym::Rbrace),
    ]);
    assert!(matches!(&e.node, ExprKind::SetComp { generators, .. } if generators[0].is_async == 1));
    let e = expr(vec![Tok::String { value: "x{y}".to_string(), kind: StringKind::FString, triple_quoted: false }]);
    assert!(matches!(&e.node, ExprKind::JoinedStr { values } if matches!(&values[0].node, ExprKind::Constant { value: Constant::Str(s), .. } if s == "x{y}")));
}

#[test]
fn rejected_inputs() {
    assert!(fails(vec![sy(Sym::Lpar), nm("a")], Mode::Expression));
    assert!(fails(vec![nm("a"), sy(Sym::Equal)], Mode::Module));
    assert!(fails(vec![sy(Sym::Del), lit(1), sy(Sym::Newline)], Mode::Module));
    assert!(fails(vec![nm("a"), sy(Sym::PlusEqual), nm("b"), sy(Sym::Equal), nm("c"), sy(Sym::Newline)], Mode::Module));
    assert!(fails(vec![], Mode::Expression));
    assert!(fails(vec![], Mode::Interactive));
}

#[test]
fn chained_assignment_targets() {
    // a = b = c
    let body = stmts(vec![nm("a"), sy(Sym::Equal), nm("b"), sy(Sym::Equal), nm("c"), sy(Sym::Newline)]);
    match &body[0].node {
        StmtKind::Assign { targets, value, .. } => {
            assert_eq!(targets.len(), 2);
            assert!(matches!(&value.node, ExprKind::Name { id, ctx: ExprContext::Load } if id == "c"));
        }
        other => panic!("unexpected {:?}", other),
    }
}

#[test]
fn expression_mode_allows_trailing_newlines() {
    let e = expr(vec![nm("a"), sy(Sym::Newline), sy(Sym::Newline)]);
    assert!(matches!(&e.node, ExprKind::Name { id, .. } if id == "a"));
}
