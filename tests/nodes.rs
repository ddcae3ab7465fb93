use rustpython_parser::ast::{Arg, ArgData, Cmpop, Constant, Expr, ExprKind, Keyword, KeywordData};
use rustpython_parser::nodes::{
    comparison_ops_comparators, count_dots, dict_kvpairs, insert_front, join_strings, keyword_or_starred_partition,
    make_arguments, make_empty_arguments, option_box, KeywordOrStarred,
};
use rustpython_parser::token::{Location, PegTok, StringKind, Sym};

fn loc(c: usize) -> Location {
    Location::new(1, c)
}

fn constant(v: bool) -> Expr {
    Expr { location: loc(0), end_location: loc(1), node: ExprKind::Constant { value: Constant::Bool(v), kind: None } }
}

fn arg(name: &str) -> Arg {
    Arg {
        location: loc(0),
        end_location: loc(1),
        node: ArgData { arg: name.to_string(), annotation: None, type_comment: None },
    }
}

fn names(v: &[Arg]) -> Vec<String> {
    v.iter().map(|a| a.node.arg.clone()).collect()
}

#[test]
fn insert_front_prepends() {
    assert_eq!(insert_front(vec![2, 3], 1), vec![1, 2, 3]);
    assert_eq!(insert_front(Vec::new(), 7), vec![7]);
}

#[test]
fn count_dots_levels() {
    assert_eq!(count_dots(vec![]), None);
    assert_eq!(count_dots(vec![PegTok::Sym(Sym::Dot)]), Some(1));
    assert_eq!(
        count_dots(vec![PegTok::Sym(Sym::Ellipsis), PegTok::Sym(Sym::Dot), PegTok::Sym(Sym::Ellipsis)]),
        Some(7)
    );
}

#[test]
fn option_box_boxes() {
    assert_eq!(option_box(Some(3)), Some(Box::new(3)));
    assert_eq!(option_box::<u8>(None), None);
}

#[test]
fn comparison_pairs_split() {
    let (ops, comparators) = comparison_ops_comparators(vec![(Cmpop::Lt, constant(true)), (Cmpop::In, constant(false))]);
    assert_eq!(ops, vec![Cmpop::Lt, Cmpop::In]);
    assert!(matches!(comparators[1].node, ExprKind::Constant { value: Constant::Bool(false), .. }));
}

#[test]
fn dict_pairs_split() {
    let (keys, values) = dict_kvpairs(vec![(Some(constant(true)), constant(false)), (None, constant(true))]);
    assert_eq!(keys.len(), 2);
    assert!(keys[0].is_some());
    assert!(keys[1].is_none());
    assert!(matches!(values[0].node, ExprKind::Constant { value: Constant::Bool(false), .. }));
}

#[test]
fn keyword_partition_keeps_order() {
    let kw = |n: &str| Keyword {
        location: loc(0),
        end_location: loc(1),
        node: KeywordData { arg: Some(n.to_string()), value: constant(true) },
    };
    let (starred, keywords) = keyword_or_starred_partition(vec![
        KeywordOrStarred::Keyword(kw("a")),
        KeywordOrStarred::Starred(constant(false)),
        KeywordOrStarred::Keyword(kw("b")),
    ]);
    assert_eq!(starred.len(), 1);
    assert_eq!(keywords.len(), 2);
    assert_eq!(keywords[0].node.arg.as_deref(), Some("a"));
    assert_eq!(keywords[1].node.arg.as_deref(), Some("b"));
}

#[test]
fn arguments_assembled_in_order() {
    let a = make_arguments(
        vec![arg("p")],
        (vec![arg("q")], vec![(arg("r"), constant(true))]),
        vec![arg("s")],
        vec![(arg("t"), constant(false))],
        Some((Some(arg("args")), vec![(arg("k"), None), (arg("m"), Some(constant(true)))], Some(arg("kw")))),
    );
    assert_eq!(names(&a.posonlyargs), vec!["p", "q", "r"]);
    assert_eq!(names(&a.args), vec!["s", "t"]);
    assert_eq!(a.defaults.len(), 2);
    assert!(matches!(a.defaults[0].node, ExprKind::Constant { value: Constant::Bool(true), .. }));
    assert_eq!(a.vararg.as_ref().map(|v| v.node.arg.clone()), Some("args".to_string()));
    assert_eq!(names(&a.kwonlyargs), vec!["k", "m"]);
    assert_eq!(a.kw_defaults.len(), 1);
    assert_eq!(a.kwarg.as_ref().map(|v| v.node.arg.clone()), Some("kw".to_string()));
}

#[test]
fn empty_arguments() {
    let a = make_empty_arguments();
    assert!(a.posonlyargs.is_empty() && a.args.is_empty() && a.kwonlyargs.is_empty());
    assert!(a.vararg.is_none() && a.kwarg.is_none());
    assert!(a.defaults.is_empty() && a.kw_defaults.is_empty());
}

#[test]
fn strings_join_by_kind() {
    let part = |v: &str, k: StringKind| (loc(0), (v.to_string(), k, false), loc(1));
    match join_strings(&vec![part("a", StringKind::Bytes), part("b", StringKind::Bytes)]) {
        Ok(ExprKind::Constant { value: Constant::Bytes(b), kind: None }) => assert_eq!(b, "ab"),
        other => panic!("unexpected {:?}", other),
    }
    match join_strings(&vec![part("x", StringKind::FString), part("y", StringKind::Normal)]) {
        Ok(ExprKind::JoinedStr { values }) => assert_eq!(values.len(), 2),
        other => panic!("unexpected {:?}", other),
    }
    assert!(join_strings(&vec![part("x", StringKind::Normal), part("y", StringKind::Bytes)]).is_err());
}
