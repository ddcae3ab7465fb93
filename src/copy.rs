use vstd::prelude::*;
use crate::ast::{Arg, ArgData, Arguments, Cmpop, Comprehension, Constant, Expr, ExprKind, Keyword, KeywordData};

verus! {

/// `num_bigint::BigInt`, the value of an integer literal, carried through the parser unread.
#[verifier::external_type_specification]
#[verifier::external_body]
pub struct ExBigInt(num_bigint::BigInt);

/// Relies on `Clone for num_bigint::BigInt`: it copies the sign and the digit vector, so the
/// copy is the same integer.
pub assume_specification[ <num_bigint::BigInt as Clone>::clone ](b: &num_bigint::BigInt) -> (r: num_bigint::BigInt)
    ensures
        r == *b,
;

impl Constant {
    pub fn copy(&self) -> (r: Constant)
        ensures
            r == *self,
    {
        match self {
            Constant::NoneValue => Constant::NoneValue,
            Constant::Bool(b) => Constant::Bool(*b),
            Constant::Str(s) => Constant::Str(s.clone()),
            Constant::Bytes(s) => Constant::Bytes(s.clone()),
            Constant::Int(i) => Constant::Int(i.clone()),
            Constant::Float(f) => Constant::Float(*f),
            Constant::Complex { real: re, imag: im } => Constant::Complex { real: *re, imag: *im },
            Constant::Ellipsis => Constant::Ellipsis,
        }
    }
}

fn copy_string_opt(s: &Option<String>) -> (r: Option<String>)
    ensures
        r == *s,
{
    match s {
        Some(s) => Some(s.clone()),
        None => None,
    }
}

impl Expr {
    /// An independent copy of the tree, with the same spans.
    pub fn copy(&self) -> (r: Expr)
        ensures
            r.location == self.location,
            r.end_location == self.end_location,
            r.node.ctx_of() == self.node.ctx_of(),
            crate::fragment::plain_kind(self.node) ==> r == *self,
            crate::fragment::plain_compare(self.node) ==> crate::fragment::same_compare(self.node, r.node),
        decreases self, 0nat,
    {
        Expr { location: self.location, end_location: self.end_location, node: self.node.copy() }
    }
}

fn copy_box(e: &Box<Expr>) -> (r: Box<Expr>)
    ensures
        crate::fragment::plain_kind(e.node) ==> r == *e,
    decreases e, 1nat,
{
    Box::new((**e).copy())
}

fn copy_box_opt(e: &Option<Box<Expr>>) -> (r: Option<Box<Expr>>)
    ensures
        e is None || crate::fragment::plain_tree(*e->Some_0) ==> r == *e,
    decreases e, 2nat,
{
    match e {
        Some(b) => Some(copy_box(b)),
        None => None,
    }
}

fn copy_exprs(v: &Vec<Expr>) -> (r: Vec<Expr>)
    ensures
        r@.len() == v@.len(),
        forall|j: int| 0 <= j < v@.len() && crate::fragment::plain_tree(v@[j]) ==> r@[j] == v@[j],
    decreases v, 2nat,
{
    let mut out: Vec<Expr> = Vec::new();
    let mut i: usize = 0;
    while i < v.len()
        invariant
            i <= v@.len(),
            out@.len() == i,
            forall|j: int| 0 <= j < i && crate::fragment::plain_tree(v@[j]) ==> out@[j] == v@[j],
        decreases v@.len() - i,
    {
        proof {
            assert(decreases_to!(v => v[i as int]));
        }
        out.push(v[i].copy());
        i = i + 1;
    }
    out
}

fn copy_ops(v: &Vec<Cmpop>) -> (r: Vec<Cmpop>)
    ensures
        r@ == v@,
{
    let mut out: Vec<Cmpop> = Vec::new();
    let mut i: usize = 0;
    while i < v.len()
        invariant
            i <= v@.len(),
            out@ == v@.take(i as int),
        decreases v@.len() - i,
    {
        out.push(v[i]);
        i = i + 1;
        assert(out@ =~= v@.take(i as int));
    }
    assert(v@.take(v@.len() as int) =~= v@);
    out
}

fn copy_expr_opts(v: &Vec<Option<Expr>>) -> (r: Vec<Option<Expr>>)
    ensures
        r@.len() == v@.len(),
        forall|j: int| 0 <= j < v@.len() && (v@[j] is None || crate::fragment::plain_tree(v@[j]->Some_0)) ==> r@[j] == v@[j],
    decreases v, 2nat,
{
    let mut out: Vec<Option<Expr>> = Vec::new();
    let mut i: usize = 0;
    while i < v.len()
        invariant
            i <= v@.len(),
            out@.len() == i,
            forall|j: int| 0 <= j < i && (v@[j] is None || crate::fragment::plain_tree(v@[j]->Some_0)) ==> out@[j] == v@[j],
        decreases v@.len() - i,
    {
        proof {
            assert(decreases_to!(v => v[i as int]));
        }
        match &v[i] {
            Some(e) => out.push(Some(e.copy())),
            None => out.push(None),
        }
        i = i + 1;
    }
    out
}

fn copy_comprehensions(v: &Vec<Comprehension>) -> (r: Vec<Comprehension>)
    ensures
        r@.len() == v@.len(),
        forall|j: int| 0 <= j < v@.len() ==> (#[trigger] r@[j]).is_async == v@[j].is_async && r@[j].ifs@.len() == v@[j].ifs@.len(),
    decreases v, 2nat,
{
    let mut out: Vec<Comprehension> = Vec::new();
    let mut i: usize = 0;
    while i < v.len()
        invariant
            i <= v@.len(),
            out@.len() == i,
            forall|j: int| 0 <= j < i ==> (#[trigger] out@[j]).is_async == v@[j].is_async && out@[j].ifs@.len() == v@[j].ifs@.len(),
        decreases v@.len() - i,
    {
        proof {
            assert(decreases_to!(v => v[i as int]));
        }
        let c = &v[i];
        out.push(
            Comprehension {
                target: c.target.copy(),
                iter: c.iter.copy(),
                ifs: copy_exprs(&c.ifs),
                is_async: c.is_async,
            },
        );
        i = i + 1;
    }
    out
}

fn copy_keywords(v: &Vec<Keyword>) -> (r: Vec<Keyword>)
    ensures
        r@.len() == v@.len(),
        forall|j: int| 0 <= j < v@.len() && crate::fragment::plain_tree(v@[j].node.value) ==> r@[j] == v@[j],
    decreases v, 2nat,
{
    let mut out: Vec<Keyword> = Vec::new();
    let mut i: usize = 0;
    while i < v.len()
        invariant
            i <= v@.len(),
            out@.len() == i,
            forall|j: int| 0 <= j < i && crate::fragment::plain_tree(v@[j].node.value) ==> out@[j] == v@[j],
        decreases v@.len() - i,
    {
        proof {
            assert(decreases_to!(v => v[i as int]));
        }
        let k = &v[i];
        out.push(
            Keyword {
                location: k.location,
                end_location: k.end_location,
                node: KeywordData { arg: copy_string_opt(&k.node.arg), value: k.node.value.copy() },
            },
        );
        i = i + 1;
    }
    out
}

fn copy_arg(a: &Arg) -> (r: Arg)
    ensures
        a.node.annotation is None || crate::fragment::plain_tree(*a.node.annotation->Some_0) ==> r == *a,
    decreases a, 2nat,
{
    Arg {
        location: a.location,
        end_location: a.end_location,
        node: ArgData {
            arg: a.node.arg.clone(),
            annotation: copy_box_opt(&a.node.annotation),
            type_comment: copy_string_opt(&a.node.type_comment),
        },
    }
}

fn copy_arg_opt(a: &Option<Box<Arg>>) -> (r: Option<Box<Arg>>)
    ensures
        r is Some <==> a is Some,
        a is None || a->Some_0.node.annotation is None || crate::fragment::plain_tree(*a->Some_0.node.annotation->Some_0) ==> r == *a,
    decreases a, 2nat,
{
    match a {
        Some(b) => Some(Box::new(copy_arg(&**b))),
        None => None,
    }
}

fn copy_arg_vec(v: &Vec<Arg>) -> (r: Vec<Arg>)
    ensures
        r@.len() == v@.len(),
        forall|j: int| 0 <= j < v@.len() && (v@[j].node.annotation is None || crate::fragment::plain_tree(*v@[j].node.annotation->Some_0)) ==> r@[j] == v@[j],
    decreases v, 2nat,
{
    let mut out: Vec<Arg> = Vec::new();
    let mut i: usize = 0;
    while i < v.len()
        invariant
            i <= v@.len(),
            out@.len() == i,
            forall|j: int| 0 <= j < i && (v@[j].node.annotation is None || crate::fragment::plain_tree(*v@[j].node.annotation->Some_0)) ==> out@[j] == v@[j],
        decreases v@.len() - i,
    {
        proof {
            assert(decreases_to!(v => v[i as int]));
        }
        out.push(copy_arg(&v[i]));
        i = i + 1;
    }
    out
}

fn copy_arguments(a: &Arguments) -> (r: Arguments)
    ensures
        r.posonlyargs@.len() == a.posonlyargs@.len(),
        r.args@.len() == a.args@.len(),
        r.kwonlyargs@.len() == a.kwonlyargs@.len(),
        r.kw_defaults@.len() == a.kw_defaults@.len(),
        r.defaults@.len() == a.defaults@.len(),
        r.vararg is Some <==> a.vararg is Some,
        r.kwarg is Some <==> a.kwarg is Some,
    decreases a, 2nat,
{
    Arguments {
        posonlyargs: copy_arg_vec(&a.posonlyargs),
        args: copy_arg_vec(&a.args),
        vararg: copy_arg_opt(&a.vararg),
        kwonlyargs: copy_arg_vec(&a.kwonlyargs),
        kw_defaults: copy_exprs(&a.kw_defaults),
        kwarg: copy_arg_opt(&a.kwarg),
        defaults: copy_exprs(&a.defaults),
    }
}

impl ExprKind {
    pub fn copy(&self) -> (r: ExprKind)
        ensures
            r.ctx_of() == self.ctx_of(),
            crate::fragment::plain_kind(*self) ==> r == *self,
            crate::fragment::plain_compare(*self) ==> crate::fragment::same_compare(*self, r),
        decreases self, 2nat,
    {
        match self {
            ExprKind::BoolOp { op, values } => ExprKind::BoolOp { op: *op, values: copy_exprs(values) },
            ExprKind::NamedExpr { target, value } => ExprKind::NamedExpr {
                target: copy_box(target),
                value: copy_box(value),
            },
            ExprKind::BinOp { left, op, right } => ExprKind::BinOp {
                left: copy_box(left),
                op: *op,
                right: copy_box(right),
            },
            ExprKind::UnaryOp { op, operand } => ExprKind::UnaryOp { op: *op, operand: copy_box(operand) },
            ExprKind::Lambda { args, body } => ExprKind::Lambda {
                args: Box::new(copy_arguments(&**args)),
                body: copy_box(body),
            },
            ExprKind::IfExp { test, body, orelse } => ExprKind::IfExp {
                test: copy_box(test),
                body: copy_box(body),
                orelse: copy_box(orelse),
            },
            ExprKind::Dict { keys, values } => ExprKind::Dict {
                keys: copy_expr_opts(keys),
                values: copy_exprs(values),
            },
            ExprKind::SetDisplay { elts } => ExprKind::SetDisplay { elts: copy_exprs(elts) },
            ExprKind::ListComp { elt, generators } => ExprKind::ListComp {
                elt: copy_box(elt),
                generators: copy_comprehensions(generators),
            },
            ExprKind::SetComp { elt, generators } => ExprKind::SetComp {
                elt: copy_box(elt),
                generators: copy_comprehensions(generators),
            },
            ExprKind::DictComp { key, value, generators } => ExprKind::DictComp {
                key: copy_box(key),
                value: copy_box(value),
                generators: copy_comprehensions(generators),
            },
            ExprKind::GeneratorExp { elt, generators } => ExprKind::GeneratorExp {
                elt: copy_box(elt),
                generators: copy_comprehensions(generators),
            },
            ExprKind::Await { value } => ExprKind::Await { value: copy_box(value) },
            ExprKind::Yield { value } => ExprKind::Yield { value: copy_box_opt(value) },
            ExprKind::YieldFrom { value } => ExprKind::YieldFrom { value: copy_box(value) },
            ExprKind::Compare { left, ops, comparators } => {
                let l = copy_box(left);
                let o = copy_ops(ops);
                let c = copy_exprs(comparators);
                proof {
                    if crate::fragment::plain_compare(*self) {
                        assert(c@ =~= comparators@);
                    }
                }
                ExprKind::Compare { left: l, ops: o, comparators: c }
            },
            ExprKind::Call { func, args, keywords } => ExprKind::Call {
                func: copy_box(func),
                args: copy_exprs(args),
                keywords: copy_keywords(keywords),
            },
            ExprKind::JoinedStr { values } => ExprKind::JoinedStr { values: copy_exprs(values) },
            ExprKind::Constant { value, kind } => ExprKind::Constant {
                value: value.copy(),
                kind: copy_string_opt(kind),
            },
            ExprKind::Attribute { value, attr, ctx } => ExprKind::Attribute {
                value: copy_box(value),
                attr: attr.clone(),
                ctx: *ctx,
            },
            ExprKind::Subscript { value, slice, ctx } => ExprKind::Subscript {
                value: copy_box(value),
                slice: copy_box(slice),
                ctx: *ctx,
            },
            ExprKind::Starred { value, ctx } => ExprKind::Starred { value: copy_box(value), ctx: *ctx },
            ExprKind::Name { id, ctx } => ExprKind::Name { id: id.clone(), ctx: *ctx },
            ExprKind::List { elts, ctx } => ExprKind::List { elts: copy_exprs(elts), ctx: *ctx },
            ExprKind::Tuple { elts, ctx } => ExprKind::Tuple { elts: copy_exprs(elts), ctx: *ctx },
            ExprKind::Slice { lower, upper, step } => ExprKind::Slice {
                lower: copy_box_opt(lower),
                upper: copy_box_opt(upper),
                step: copy_box_opt(step),
            },
        }
    }
}

} // verus!
