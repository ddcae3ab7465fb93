use num_bigint::BigInt;
use rustpython_parser::ast::{Cmpop, Constant, Expr, ExprContext, ExprKind, Mod, Operator, StmtKind};
use rustpython_parser::entry::Mode;
use rustpython_parser::error::ParseErrorType;
use rustpython_parser::session::Parser;
use rustpython_parser::token::{LexResult, Location, StringKind, Sym, Tok};

fn name(s: &str) -> Tok {
    Tok::Name { name: s.to_string() }
}

fn num(v: i64) -> Tok {
    Tok::Int { value: BigInt::from(v) }
}

fn sym(s: Sym) -> Tok {
    Tok::Sym(s)
}

/// Lays the tokens out on one line, two columns each.
fn lex(toks: Vec<Tok>) -> Vec<LexResult<String>> {
    toks.into_iter()
        .enumerate()
        .map(|(i, t)| Ok((Location::new(1, 2 * i), t, Location::new(1, 2 * i + 1))))
        .collect()
}

fn session(toks: Vec<Tok>) -> Parser {
    match Parser::from(lex(toks)) {
        Ok(p) => p,
        Err(e) => panic!("lexer error {}", e),
    }
}

fn parse_expr(toks: Vec<Tok>) -> Expr {
    match session(toks).parse(Mode::Expression, "<test>") {
        Ok(Mod::Expression { body }) => *body,
        other => panic!("unexpected {:?}", other),
    }
}

fn module(toks: Vec<Tok>) -> Vec<rustpython_parser::ast::Stmt> {
    match session(toks).parse(Mode::Module, "<test>") {
        Ok(Mod::Module { body, type_ignores }) => {
            assert!(type_ignores.is_empty());
            body
        }
        other => panic!("unexpected {:?}", other),
    }
}

fn is_name(e: &Expr, id: &str, ctx: ExprContext) -> bool {
    matches!(&e.node, ExprKind::Name { id: i, ctx: c } if i == id && *c == ctx)
}

fn is_int(e: &Expr, v: i64) -> bool {
    matches!(&e.node, ExprKind::Constant { value: Constant::Int(i), .. } if *i == BigInt::from(v))
}

#[test]
fn module_statement_count() {
    let body = module(vec![
        name("x"), sym(Sym::Equal), num(1), sym(Sym::Newline),
        name("y"), sym(Sym::Newline),
        sym(Sym::If), name("x"), sym(Sym::Colon), sym(Sym::Newline), sym(Sym::Indent),
        sym(Sym::Pass), sym(Sym::Newline), name("z"), sym(Sym::Newline), sym(Sym::Dedent),
    ]);
    assert_eq!(body.len(), 3);
    match &body[2].node {
        StmtKind::If { body, orelse, .. } => {
            assert_eq!(body.len(), 2);
            assert!(orelse.is_empty());
        }
        other => panic!("unexpected {:?}", other),
    }
    // The if statement's span ends at `z`, not at the trailing newline and dedent.
    assert_eq!(body[2].location, Location::new(1, 12));
    assert_eq!(body[2].end_location, Location::new(1, 27));
}

#[test]
fn semicolons_separate_statements() {
    let body = module(vec![
        sym(Sym::Pass), sym(Sym::Semi), sym(Sym::Break), sym(Sym::Semi), sym(Sym::Newline),
    ]);
    assert_eq!(body.len(), 2);
    assert!(matches!(body[0].node, StmtKind::Pass));
    assert!(matches!(body[1].node, StmtKind::Break));
}

#[test]
fn empty_module() {
    assert_eq!(module(vec![]).len(), 0);
}

#[test]
fn subtraction_is_left_nested() {
    let e = parse_expr(vec![name("a"), sym(Sym::Minus), name("b"), sym(Sym::Minus), name("c")]);
    match &e.node {
        ExprKind::BinOp { left, op: Operator::Sub, right } => {
            assert!(is_name(right, "c", ExprContext::Load));
            match &left.node {
                ExprKind::BinOp { left: l, op: Operator::Sub, right: r } => {
                    assert!(is_name(l, "a", ExprContext::Load));
                    assert!(is_name(r, "b", ExprContext::Load));
                }
                other => panic!("unexpected {:?}", other),
            }
            assert_eq!(left.location, Location::new(1, 0));
            assert_eq!(left.end_location, Location::new(1, 5));
        }
        other => panic!("unexpected {:?}", other),
    }
    assert_eq!(e.location, Location::new(1, 0));
    assert_eq!(e.end_location, Location::new(1, 9));
}

#[test]
fn power_is_right_nested() {
    let e = parse_expr(vec![name("a"), sym(Sym::DoubleStar), name("b"), sym(Sym::DoubleStar), name("c")]);
    match &e.node {
        ExprKind::BinOp { left, op: Operator::Pow, right } => {
            assert!(is_name(left, "a", ExprContext::Load));
            match &right.node {
                ExprKind::BinOp { left: l, op: Operator::Pow, right: r } => {
                    assert!(is_name(l, "b", ExprContext::Load));
                    assert!(is_name(r, "c", ExprContext::Load));
                }
                other => panic!("unexpected {:?}", other),
            }
        }
        other => panic!("unexpected {:?}", other),
    }
}

#[test]
fn chained_comparison_is_one_node() {
    let e = parse_expr(vec![name("a"), sym(Sym::Less), name("b"), sym(Sym::Less), name("c")]);
    match &e.node {
        ExprKind::Compare { left, ops, comparators } => {
            assert!(is_name(left, "a", ExprContext::Load));
            assert_eq!(ops, &vec![Cmpop::Lt, Cmpop::Lt]);
            assert_eq!(comparators.len(), 2);
            assert!(is_name(&comparators[0], "b", ExprContext::Load));
            assert!(is_name(&comparators[1], "c", ExprContext::Load));
        }
        other => panic!("unexpected {:?}", other),
    }
}

#[test]
fn two_token_comparisons() {
    let e = parse_expr(vec![
        name("a"), sym(Sym::Not), sym(Sym::In), name("b"), sym(Sym::Is), sym(Sym::Not), name("c"),
    ]);
    match &e.node {
        ExprKind::Compare { ops, .. } => assert_eq!(ops, &vec![Cmpop::NotIn, Cmpop::IsNot]),
        other => panic!("unexpected {:?}", other),
    }
}

#[test]
fn trailing_comma_makes_tuple() {
    let e = parse_expr(vec![name("x"), sym(Sym::Comma)]);
    match &e.node {
        ExprKind::Tuple { elts, ctx: ExprContext::Load } => {
            assert_eq!(elts.len(), 1);
            assert!(is_name(&elts[0], "x", ExprContext::Load));
        }
        other => panic!("unexpected {:?}", other),
    }
    let e = parse_expr(vec![name("x")]);
    assert!(is_name(&e, "x", ExprContext::Load));
}

#[test]
fn primary_chain_nests_left() {
    // a.b[0](1).c
    let e = parse_expr(vec![
        name("a"), sym(Sym::Dot), name("b"), sym(Sym::Lsqb), num(0), sym(Sym::Rsqb),
        sym(Sym::Lpar), num(1), sym(Sym::Rpar), sym(Sym::Dot), name("c"),
    ]);
    match &e.node {
        ExprKind::Attribute { value, attr, ctx: ExprContext::Load } => {
            assert_eq!(attr, "c");
            match &value.node {
                ExprKind::Call { func, args, keywords } => {
                    assert_eq!(args.len(), 1);
                    assert!(is_int(&args[0], 1));
                    assert!(keywords.is_empty());
                    match &func.node {
                        ExprKind::Subscript { value, slice, ctx: ExprContext::Load } => {
                            assert!(is_int(slice, 0));
                            match &value.node {
                                ExprKind::Attribute { value, attr, .. } => {
                                    assert_eq!(attr, "b");
                                    assert!(is_name(value, "a", ExprContext::Load));
                                }
                                other => panic!("unexpected {:?}", other),
                            }
                        }
                        other => panic!("unexpected {:?}", other),
                    }
                }
                other => panic!("unexpected {:?}", other),
            }
        }
        other => panic!("unexpected {:?}", other),
    }
}

#[test]
fn literal_is_not_a_target() {
    let p = session(vec![num(1), sym(Sym::Equal), num(2), sym(Sym::Newline)]);
    assert!(p.parse(Mode::Module, "<test>").is_err());
}

#[test]
fn attribute_target_has_store_context() {
    let body = module(vec![name("a"), sym(Sym::Dot), name("b"), sym(Sym::Equal), num(1), sym(Sym::Newline)]);
    match &body[0].node {
        StmtKind::Assign { targets, value, .. } => {
            assert_eq!(targets.len(), 1);
            match &targets[0].node {
                ExprKind::Attribute { value: inner, attr, ctx: ExprContext::Store } => {
                    assert_eq!(attr, "b");
                    assert!(is_name(inner, "a", ExprContext::Load));
                }
                other => panic!("unexpected {:?}", other),
            }
            assert!(is_int(value, 1));
        }
        other => panic!("unexpected {:?}", other),
    }
}

#[test]
fn subscript_target_has_store_context() {
    let body = module(vec![
        name("a"), sym(Sym::Lsqb), name("i"), sym(Sym::Rsqb), sym(Sym::Equal), num(1), sym(Sym::Newline),
    ]);
    match &body[0].node {
        StmtKind::Assign { targets, .. } => match &targets[0].node {
            ExprKind::Subscript { value, slice, ctx: ExprContext::Store } => {
                assert!(is_name(value, "a", ExprContext::Load));
                assert!(is_name(slice, "i", ExprContext::Load));
            }
            other => panic!("unexpected {:?}", other),
        },
        other => panic!("unexpected {:?}", other),
    }
}

#[test]
fn error_at_furthest_position() {
    // def f(:
    let p = session(vec![
        sym(Sym::Def), name("f"), sym(Sym::Lpar), sym(Sym::Colon), sym(Sym::Newline),
    ]);
    match p.parse(Mode::Module, "m.py") {
        Err(e) => {
            assert_eq!(e.location, Location::new(1, 6));
            assert!(matches!(e.error, ParseErrorType::UnrecognizedToken(Tok::Sym(Sym::Colon), None)));
            assert_eq!(e.source_path, "m.py");
        }
        Ok(m) => panic!("unexpected {:?}", m),
    }
}

#[test]
fn end_of_input_error() {
    let p = session(vec![name("a"), sym(Sym::Plus)]);
    match p.parse(Mode::Expression, "<test>") {
        Err(e) => {
            assert!(matches!(e.error, ParseErrorType::Eof));
            assert_eq!(e.location, Location::new(0, 0));
        }
        Ok(m) => panic!("unexpected {:?}", m),
    }
}

fn spans(e: &Expr, out: &mut Vec<(Location, Location)>) {
    out.push((e.location, e.end_location));
    match &e.node {
        ExprKind::BinOp { left, right, .. } => {
            spans(left, out);
            spans(right, out);
        }
        ExprKind::Call { func, args, .. } => {
            spans(func, out);
            for a in args {
                spans(a, out);
            }
        }
        ExprKind::Attribute { value, .. } => spans(value, out),
        _ => {}
    }
}

#[test]
fn reparsing_gives_same_spans() {
    let toks = || {
        vec![
            name("f"), sym(Sym::Lpar), name("a"), sym(Sym::Plus), num(2), sym(Sym::Rpar),
            sym(Sym::Dot), name("g"), sym(Sym::Star), num(3),
        ]
    };
    let mut first = Vec::new();
    let mut second = Vec::new();
    spans(&parse_expr(toks()), &mut first);
    spans(&parse_expr(toks()), &mut second);
    assert_eq!(first, second);
    assert!(first.len() >= 6);
}

#[test]
fn assignment_with_precedence() {
    // x = 1 + 2 * 3
    let body = module(vec![
        name("x"), sym(Sym::Equal), num(1), sym(Sym::Plus), num(2), sym(Sym::Star), num(3), sym(Sym::Newline),
    ]);
    assert_eq!(body.len(), 1);
    match &body[0].node {
        StmtKind::Assign { targets, value, .. } => {
            assert_eq!(targets.len(), 1);
            assert!(is_name(&targets[0], "x", ExprContext::Store));
            match &value.node {
                ExprKind::BinOp { left, op: Operator::Add, right } => {
                    assert!(is_int(left, 1));
                    match &right.node {
                        ExprKind::BinOp { left, op: Operator::Mult, right } => {
                            assert!(is_int(left, 2));
                            assert!(is_int(right, 3));
                        }
                        other => panic!("unexpected {:?}", other),
                    }
                }
                other => panic!("unexpected {:?}", other),
            }
        }
        other => panic!("unexpected {:?}", other),
    }
    assert_eq!(body[0].location, Location::new(1, 0));
    assert_eq!(body[0].end_location, Location::new(1, 13));
}

#[test]
fn augmented_and_annotated_assignment() {
    let body = module(vec![
        name("x"), sym(Sym::PlusEqual), num(1), sym(Sym::Newline),
        name("y"), sym(Sym::Colon), name("int"), sym(Sym::Equal), num(2), sym(Sym::Newline),
    ]);
    assert!(matches!(&body[0].node, StmtKind::AugAssign { op: Operator::Add, .. }));
    match &body[1].node {
        StmtKind::AnnAssign { target, annotation, value, simple } => {
            assert!(is_name(target, "y", ExprContext::Store));
            assert!(is_name(annotation, "int", ExprContext::Load));
            assert!(value.is_some());
            assert_eq!(*simple, 1);
        }
        other => panic!("unexpected {:?}", other),
    }
}

#[test]
fn function_definition() {
    // def f(a, b=1, *c, d, **e) -> r:\n    return a
    let body = module(vec![
        sym(Sym::Def), name("f"), sym(Sym::Lpar), name("a"), sym(Sym::Comma), name("b"), sym(Sym::Equal), num(1),
        sym(Sym::Comma), sym(Sym::Star), name("c"), sym(Sym::Comma), name("d"), sym(Sym::Comma),
        sym(Sym::DoubleStar), name("e"), sym(Sym::Rpar), sym(Sym::Rarrow), name("r"), sym(Sym::Colon),
        sym(Sym::Newline), sym(Sym::Indent), sym(Sym::Return), name("a"), sym(Sym::Newline), sym(Sym::Dedent),
    ]);
    assert_eq!(body.len(), 1);
    match &body[0].node {
        StmtKind::FunctionDef { name, args, body, return_type, .. } => {
            assert_eq!(name, "f");
            assert_eq!(args.args.len(), 2);
            assert_eq!(args.defaults.len(), 1);
            assert_eq!(args.vararg.as_ref().map(|a| a.node.arg.clone()), Some("c".to_string()));
            assert_eq!(args.kwonlyargs.len(), 1);
            assert!(args.kw_defaults.is_empty());
            assert_eq!(args.kwarg.as_ref().map(|a| a.node.arg.clone()), Some("e".to_string()));
            assert!(return_type.is_some());
            assert_eq!(body.len(), 1);
            assert!(matches!(body[0].node, StmtKind::Return { value: Some(_) }));
        }
        other => panic!("unexpected {:?}", other),
    }
}

#[test]
fn relative_import_level() {
    let body = module(vec![
        sym(Sym::From), sym(Sym::Ellipsis), sym(Sym::Dot), name("pkg"), sym(Sym::Dot), name("mod"),
        sym(Sym::Import), name("x"), sym(Sym::As), name("y"), sym(Sym::Newline),
    ]);
    match &body[0].node {
        StmtKind::ImportFrom { module, names, level } => {
            assert_eq!(module.as_deref(), Some("pkg.mod"));
            assert_eq!(*level, Some(4));
            assert_eq!(names.len(), 1);
            assert_eq!(names[0].node.name, "x");
            assert_eq!(names[0].node.asname.as_deref(), Some("y"));
        }
        other => panic!("unexpected {:?}", other),
    }
}

#[test]
fn call_arguments_and_keywords() {
    // f(a, *b, c=1, **d)
    let e = parse_expr(vec![
        name("f"), sym(Sym::Lpar), name("a"), sym(Sym::Comma), sym(Sym::Star), name("b"), sym(Sym::Comma),
        name("c"), sym(Sym::Equal), num(1), sym(Sym::Comma), sym(Sym::DoubleStar), name("d"), sym(Sym::Rpar),
    ]);
    match &e.node {
        ExprKind::Call { args, keywords, .. } => {
            assert_eq!(args.len(), 2);
            assert!(matches!(args[1].node, ExprKind::Starred { .. }));
            assert_eq!(keywords.len(), 2);
            assert_eq!(keywords[0].node.arg.as_deref(), Some("c"));
            assert_eq!(keywords[1].node.arg, None);
        }
        other => panic!("unexpected {:?}", other),
    }
}

#[test]
fn displays_and_comprehensions() {
    // [x for x in y if x]
    let e = parse_expr(vec![
        sym(Sym::Lsqb), name("x"), sym(Sym::For), name("x"), sym(Sym::In), name("y"), sym(Sym::If), name("x"),
        sym(Sym::Rsqb),
    ]);
    match &e.node {
        ExprKind::ListComp { generators, .. } => {
            assert_eq!(generators.len(), 1);
            assert!(is_name(&generators[0].target, "x", ExprContext::Store));
            assert_eq!(generators[0].ifs.len(), 1);
        }
        other => panic!("unexpected {:?}", other),
    }
    // {1: 2, **m}
    let e = parse_expr(vec![
        sym(Sym::Lbrace), num(1), sym(Sym::Colon), num(2), sym(Sym::Comma), sym(Sym::DoubleStar), name("m"),
        sym(Sym::Rbrace),
    ]);
    match &e.node {
        ExprKind::Dict { keys, values } => {
            assert_eq!(keys.len(), 2);
            assert!(keys[1].is_none());
            assert_eq!(values.len(), 2);
        }
        other => panic!("unexpected {:?}", other),
    }
    // ()
    let e = parse_expr(vec![sym(Sym::Lpar), sym(Sym::Rpar)]);
    assert!(matches!(&e.node, ExprKind::Tuple { elts, .. } if elts.is_empty()));
}

#[test]
fn conditional_lambda_and_boolean_chain() {
    // lambda x: a if not b or c and d else x
    let e = parse_expr(vec![
        sym(Sym::Lambda), name("x"), sym(Sym::Colon), name("a"), sym(Sym::If), sym(Sym::Not), name("b"),
        sym(Sym::Or), name("c"), sym(Sym::And), name("d"), sym(Sym::Else), name("x"),
    ]);
    match &e.node {
        ExprKind::Lambda { args, body } => {
            assert_eq!(args.args.len(), 1);
            match &body.node {
                ExprKind::IfExp { test, .. } => {
                    assert!(matches!(&test.node, ExprKind::BoolOp { values, .. } if values.len() == 2));
                }
                other => panic!("unexpected {:?}", other),
            }
        }
        other => panic!("unexpected {:?}", other),
    }
}

#[test]
fn adjacent_strings_join() {
    let s = |v: &str, kind: StringKind| Tok::String { value: v.to_string(), kind, triple_quoted: false };
    let e = parse_expr(vec![s("ab", StringKind::Normal), s("cd", StringKind::Normal)]);
    assert!(matches!(&e.node, ExprKind::Constant { value: Constant::Str(t), kind: None } if t == "abcd"));
    let e = parse_expr(vec![s("ab", StringKind::Unicode), s("cd", StringKind::Normal)]);
    assert!(matches!(&e.node, ExprKind::Constant { kind: Some(k), .. } if k == "u"));
    let p = session(vec![s("ab", StringKind::Bytes), s("cd", StringKind::Normal)]);
    assert!(p.parse(Mode::Expression, "<test>").is_err());
}

#[test]
fn lexer_error_passes_through() {
    let mut items = lex(vec![name("a"), sym(Sym::Plus)]);
    items.push(Err("bad token".to_string()));
    items.push(Err("second".to_string()));
    match Parser::from(items) {
        Err(e) => assert_eq!(e, "bad token"),
        Ok(_) => panic!("expected the lexer error"),
    }
}

#[test]
fn interning_drops_layout_noise() {
    let p = session(vec![
        Tok::Comment("# c".to_string()), name("a"), Tok::NonLogicalNewline, num(7), name("b"),
    ]);
    assert_eq!(p.tokens.len(), 3);
    assert_eq!(p.names, vec!["a".to_string(), "b".to_string()]);
    assert_eq!(p.locations[0].0, Location::new(1, 2));
    assert_eq!(p.ints, vec![BigInt::from(7)]);
}

#[test]
fn delete_and_star_targets() {
    // del a, b[0]
    let body = module(vec![
        sym(Sym::Del), name("a"), sym(Sym::Comma), name("b"), sym(Sym::Lsqb), num(0), sym(Sym::Rsqb),
        sym(Sym::Newline),
        // *a, b = c
        sym(Sym::Star), name("a"), sym(Sym::Comma), name("b"), sym(Sym::Equal), name("c"), sym(Sym::Newline),
    ]);
    match &body[0].node {
        StmtKind::Delete { targets } => {
            assert!(is_name(&targets[0], "a", ExprContext::Del));
            assert!(matches!(targets[1].node, ExprKind::Subscript { ctx: ExprContext::Del, .. }));
        }
        other => panic!("unexpected {:?}", other),
    }
    match &body[1].node {
        StmtKind::Assign { targets, .. } => match &targets[0].node {
            ExprKind::Tuple { elts, ctx: ExprContext::Store } => {
                assert!(matches!(elts[0].node, ExprKind::Starred { ctx: ExprContext::Store, .. }));
            }
            other => panic!("unexpected {:?}", other),
        },
        other => panic!("unexpected {:?}", other),
    }
}

#[test]
fn try_while_with_for() {
    // try:\n pass\nexcept E as e:\n pass\nfinally:\n pass
    let body = module(vec![
        sym(Sym::Try), sym(Sym::Colon), sym(Sym::Pass), sym(Sym::Newline),
        sym(Sym::Except), name("E"), sym(Sym::As), name("e"), sym(Sym::Colon), sym(Sym::Pass), sym(Sym::Newline),
        sym(Sym::Finally), sym(Sym::Colon), sym(Sym::Pass), sym(Sym::Newline),
        sym(Sym::While), name("x"), sym(Sym::Colon), sym(Sym::Break), sym(Sym::Newline),
        sym(Sym::With), name("f"), sym(Sym::As), name("g"), sym(Sym::Colon), sym(Sym::Pass), sym(Sym::Newline),
        sym(Sym::For), name("i"), sym(Sym::In), name("r"), sym(Sym::Colon), sym(Sym::Continue), sym(Sym::Newline),
    ]);
    assert_eq!(body.len(), 4);
    match &body[0].node {
        StmtKind::Try { handlers, finalbody, .. } => {
            assert_eq!(handlers.len(), 1);
            assert_eq!(finalbody.len(), 1);
        }
        other => panic!("unexpected {:?}", other),
    }
    assert!(matches!(body[1].node, StmtKind::While { .. }));
    assert!(matches!(&body[2].node, StmtKind::With { items, .. } if items[0].optional_vars.is_some()));
    assert!(matches!(body[3].node, StmtKind::For { .. }));
}

#[test]
fn interactive_statement() {
    let p = session(vec![name("x"), sym(Sym::Newline)]);
    assert!(matches!(p.parse(Mode::Interactive, "<stdin>"), Ok(Mod::Interactive { body }) if body.len() == 1));
}

#[test]
fn float_literals_keep_their_bits() {
    let bits = 2.5f64.to_bits();
    let e = parse_expr(vec![Tok::Float { value: bits }, sym(Sym::Plus), Tok::Complex { real: 0, imag: bits }]);
    match &e.node {
        ExprKind::BinOp { left, right, .. } => {
            assert!(matches!(left.node, ExprKind::Constant { value: Constant::Float(b), .. } if b == bits));
            assert!(matches!(right.node, ExprKind::Constant { value: Constant::Complex { imag, .. }, .. } if imag == bits));
        }
        other => panic!("unexpected {:?}", other),
    }
}

#[test]
fn packing_rule() {
    let p = session(vec![name("a"), sym(Sym::Comma), name("b")]);
    let first = Expr {
        location: Location::new(1, 0),
        end_location: Location::new(1, 1),
        node: ExprKind::Name { id: "a".to_string(), ctx: ExprContext::Load },
    };
    let single = p.pack_tuple(0, 1, first, Vec::new(), false, ExprContext::Load);
    assert!(is_name(&single, "a", ExprContext::Load));
    let one = p.pack_tuple(0, 2, single, Vec::new(), true, ExprContext::Store);
    assert!(matches!(&one.node, ExprKind::Tuple { elts, ctx: ExprContext::Store } if elts.len() == 1));
    assert_eq!(one.end_location, Location::new(1, 3));
}

#[test]
fn error_token_is_rebuilt() {
    let p = session(vec![name("a"), name("b")]);
    match p.parse(Mode::Expression, "<test>") {
        Err(e) => {
            assert!(matches!(&e.error, ParseErrorType::UnrecognizedToken(Tok::Name { name }, None) if name == "b"));
            assert_eq!(e.location, Location::new(1, 2));
        }
        Ok(m) => panic!("unexpected {:?}", m),
    }
}
