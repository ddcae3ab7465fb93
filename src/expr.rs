use vstd::prelude::*;
use crate::ast::{Boolop, Cmpop, Expr, ExprContext, ExprKind, Operator, Unaryop};
use crate::engine::{advances, expr_outcome, loads, ParseState, Rule};
use crate::fragment::level_num;
use crate::nodes::{comparison_ops_comparators, insert_front};
use crate::session::Parser;
use crate::token::{PegTok, Sym};

verus! {

impl Parser {
    /// An expression node spanning tokens `begin .. end`.
    pub fn node(&self, begin: usize, end: usize, kind: ExprKind) -> (r: Expr)
        requires
            self.wf(),
            begin < end <= self.len(),
        ensures
            r.location == self.locations@[begin as int].0,
            r.end_location == self.locations@[end - 1].1,
            r.node == kind,
    {
        let (location, end_location) = self.span(begin, end);
        Expr { location, end_location, node: kind }
    }

    /// Packs a comma-separated list: one element without a trailing comma stands alone,
    /// anything else becomes a tuple with context `ctx` spanning `begin .. end`.
    pub fn pack_tuple(
        &self,
        begin: usize,
        end: usize,
        first: Expr,
        rest: Vec<Expr>,
        trailing: bool,
        ctx: ExprContext,
    ) -> (r: Expr)
        requires
            self.wf(),
            begin < end <= self.len(),
        ensures
            !trailing && rest@.len() == 0 ==> r == first,
            trailing || rest@.len() > 0 ==> {
                &&& r.node matches ExprKind::Tuple { elts, ctx: c } && elts@ == seq![first] + rest@
                    && c == ctx
                &&& r.location == self.locations@[begin as int].0
                &&& r.end_location == self.locations@[end - 1].1
            },
    {
        if !trailing && rest.len() == 0 {
            first
        } else {
            let elts = insert_front(rest, first);
            self.node(begin, end, ExprKind::Tuple { elts, ctx })
        }
    }

    /// `NAME`: the identifier.
    pub fn name(&self, st: &mut ParseState, pos: usize) -> (r: Option<(usize, String)>)
        requires
            self.ready(*old(st), pos),
        ensures
            old(st).follows(*final(st), self.len()),
            self.memo_ok(*final(st)),
            r is Some ==> r->Some_0.0 == pos + 1 && pos < self.len(),
            r is Some <==> pos < self.len() && self.tokens@[pos as int] is Name,
            r is Some ==> r->Some_0.1 == self.names@[self.tokens@[pos as int]->Name_0 as int],
    {
        if pos < self.tokens.len() {
            if let PegTok::Name(id) = self.tokens[pos] {
                proof {
                    self.lemma_tok(pos as int);
                }
                return Some((pos + 1, self.names[id].clone()));
            }
        }
        st.fail_at(pos);
        None
    }

    /// `NAME` as a name expression with context `ctx`.
    pub fn name_expr(&self, st: &mut ParseState, pos: usize, ctx: ExprContext) -> (r: Option<(usize, Expr)>)
        requires
            self.ready(*old(st), pos),
        ensures
            old(st).follows(*final(st), self.len()),
            self.memo_ok(*final(st)),
            expr_outcome(pos as int, r, self.len(), Some(ctx)),
            r is Some ==> r->Some_0.0 == pos + 1,
            self.name_outcome(pos as int, r, ctx),
            self.name_at(pos as int) ==> r == Some(((pos + 1) as usize, self.name_node(pos as int, ctx))),
            r is Some ==> self.name_at(pos as int),
    {
        match self.name(st, pos) {
            Some((end, id)) => Some((end, self.node(pos, end, ExprKind::Name { id, ctx }))),
            None => None,
        }
    }

    /// Comma-separated expressions packed into a tuple where there is more than one or a
    /// trailing comma.
    pub fn expressions(&self, st: &mut ParseState, pos: usize) -> (r: Option<(usize, Expr)>)
        requires
            self.ready(*old(st), pos),
        ensures
            old(st).follows(*final(st), self.len()),
            self.memo_ok(*final(st)),
            expr_outcome(pos as int, r, self.len(), None),
            self.packed_name(pos as int, r, ExprContext::Load),
            self.level_tree(5, pos as int) is Some && self.cmp_chain(self.level_tree(5, pos as int)->Some_0.0).1.len() > 0 && self.cont_rank(self.cmp_chain(self.level_tree(5, pos as int)->Some_0.0).0) < 1 && !self.sym_at(self.cmp_chain(self.level_tree(5, pos as int)->Some_0.0).0, Sym::Comma) ==> r is Some && r->Some_0.0 == self.cmp_chain(self.level_tree(5, pos as int)->Some_0.0).0 && self.compare_node(r->Some_0.1, pos as int, self.cmp_chain(self.level_tree(5, pos as int)->Some_0.0).0, self.level_tree(5, pos as int)->Some_0.1, self.cmp_chain(self.level_tree(5, pos as int)->Some_0.0).1),
            self.level_tree(5, pos as int) is Some && self.cont_rank(self.level_tree(5, pos as int)->Some_0.0) < 1 && !self.sym_at(self.level_tree(5, pos as int)->Some_0.0, Sym::Comma) ==> r is Some && r->Some_0.0 == self.level_tree(5, pos as int)->Some_0.0 && r->Some_0.1 == self.level_tree(5, pos as int)->Some_0.1,
            self.item_list(pos as int) is Some ==> r is Some && r->Some_0.0 == self.item_list(pos as int)->Some_0.0 && self.packed(r->Some_0.1, pos as int, self.item_list(pos as int)->Some_0),
        decreases self.len() - pos, 190nat,
    {
        let (mut end, first) = match self.expression(st, pos) {
            Some(x) => x,
            None => return None,
        };
        let mut rest: Vec<Expr> = Vec::new();
        loop
            invariant
                pos < end <= self.len(),
                self.level_tree(5, pos as int) is Some && self.cmp_chain(self.level_tree(5, pos as int)->Some_0.0).1.len() > 0 && self.cont_rank(self.cmp_chain(self.level_tree(5, pos as int)->Some_0.0).0) < 1 && !self.sym_at(self.cmp_chain(self.level_tree(5, pos as int)->Some_0.0).0, Sym::Comma) ==> end == self.cmp_chain(self.level_tree(5, pos as int)->Some_0.0).0 && self.compare_node(first, pos as int, self.cmp_chain(self.level_tree(5, pos as int)->Some_0.0).0, self.level_tree(5, pos as int)->Some_0.1, self.cmp_chain(self.level_tree(5, pos as int)->Some_0.0).1) && rest@.len() == 0,
                self.level_tree(5, pos as int) is Some && self.cont_rank(self.level_tree(5, pos as int)->Some_0.0) < 1 && !self.sym_at(self.level_tree(5, pos as int)->Some_0.0, Sym::Comma) ==> end == self.level_tree(5, pos as int)->Some_0.0 && first == self.level_tree(5, pos as int)->Some_0.1 && rest@.len() == 0,
                self.name_at(pos as int) && self.stops(pos + 1) ==> first == self.name_node(pos as int, ExprContext::Load),
                self.name_at(pos as int) && self.stops(pos + 1) && (self.sym_at(pos + 1, Sym::Comma) ==> self.stops(pos + 2))
                    ==> end == pos + 1 && rest@.len() == 0,
                self.item_list(pos as int) is Some ==> self.tail_from(end as int) is Some && seq![first] + rest@ + self.tail_from(end as int)->Some_0.1 == self.item_list(pos as int)->Some_0.1 && self.tail_from(end as int)->Some_0.0 == self.item_list(pos as int)->Some_0.0 && self.tail_from(end as int)->Some_0.2 == self.item_list(pos as int)->Some_0.2,
                self.wf(),
                self.len() <= usize::MAX,
                old(st).follows(*st, self.len()),
                self.memo_ok(*st),
            ensures
                self.item_list(pos as int) is Some ==> seq![first] + rest@ == self.item_list(pos as int)->Some_0.1 && ((!self.sym_at(end as int, Sym::Comma) && self.item_list(pos as int)->Some_0.0 == end && !self.item_list(pos as int)->Some_0.2) || (self.sym_at(end as int, Sym::Comma) && self.item_list(pos as int)->Some_0.0 == end + 1 && self.item_list(pos as int)->Some_0.2)),
            decreases self.len() - end,
        {
            if !self.expect(st, end, Sym::Comma) {
                proof {
                    if self.item_list(pos as int) is Some {
                        assert(seq![first] + rest@ + Seq::<Expr>::empty() =~= seq![first] + rest@);
                    }
                }
                break;
            }
            proof {
                self.lemma_trees_plain(end + 1);
            }
            let ghost before = rest@;
            match self.expression(st, end + 1) {
                Some((e, x)) => {
                    rest.push(x);
                    end = e;
                    proof {
                        if self.item_list(pos as int) is Some {
                            let t = self.tail_from(e as int)->Some_0.1;
                            assert(seq![first] + rest@ + t =~= seq![first] + before + (seq![x] + t));
                        }
                    }
                },
                None => {
                    proof {
                        if self.item_list(pos as int) is Some {
                            assert(seq![first] + rest@ + Seq::<Expr>::empty() =~= seq![first] + rest@);
                        }
                    }
                    break;
                },
            }
        }
        let trailing = self.expect(st, end, Sym::Comma);
        if trailing {
            end = end + 1;
        }
        Some((end, self.pack_tuple(pos, end, first, rest, trailing, ExprContext::Load)))
    }

    /// `a if b else c`, a disjunction, or a lambda.
    pub fn expression(&self, st: &mut ParseState, pos: usize) -> (r: Option<(usize, Expr)>)
        requires
            self.ready(*old(st), pos),
        ensures
            old(st).follows(*final(st), self.len()),
            self.memo_ok(*final(st)),
            expr_outcome(pos as int, r, self.len(), None),
            self.name_outcome(pos as int, r, ExprContext::Load),
            self.tree_claim(r, self.level_tree(5, pos as int), 1),
            self.cmp_claim(pos as int, r, 1),
        decreases self.len() - pos, 180nat,
    {
        if let Some((e1, body)) = self.disjunction(st, pos) {
            if self.expect(st, e1, Sym::If) {
                if let Some((e2, test)) = self.disjunction(st, e1 + 1) {
                    if self.expect(st, e2, Sym::Else) {
                        if let Some((e3, orelse)) = self.expression(st, e2 + 1) {
                            let kind = ExprKind::IfExp {
                                test: Box::new(test),
                                body: Box::new(body),
                                orelse: Box::new(orelse),
                            };
                            return Some((e3, self.node(pos, e3, kind)));
                        }
                    }
                }
            }
        }
        if let Some(r) = self.disjunction(st, pos) {
            return Some(r);
        }
        self.lambdef(st, pos)
    }

    /// `yield from e`, or `yield` with optional values.
    pub fn yield_expr(&self, st: &mut ParseState, pos: usize) -> (r: Option<(usize, Expr)>)
        requires
            self.ready(*old(st), pos),
        ensures
            old(st).follows(*final(st), self.len()),
            self.memo_ok(*final(st)),
            expr_outcome(pos as int, r, self.len(), None),
            r is Some ==> self.sym_at(pos as int, Sym::Yield),
            self.sym_at(pos as int, Sym::Yield) && self.stops(pos + 1) ==> r is Some && r->Some_0.0 == pos + 1
                && r->Some_0.1.node == (ExprKind::Yield { value: None }),
        decreases self.len() - pos, 10nat,
    {
        if self.expect(st, pos, Sym::Yield) && self.expect(st, pos + 1, Sym::From) {
            if let Some((e, value)) = self.expression(st, pos + 2) {
                return Some((e, self.node(pos, e, ExprKind::YieldFrom { value: Box::new(value) })));
            }
        }
        if self.expect(st, pos, Sym::Yield) {
            return match self.star_expressions(st, pos + 1) {
                Some((e, value)) => Some(
                    (e, self.node(pos, e, ExprKind::Yield { value: Some(Box::new(value)) })),
                ),
                None => Some((pos + 1, self.node(pos, pos + 1, ExprKind::Yield { value: None }))),
            };
        }
        None
    }

    /// Comma-separated star expressions, packed as for `expressions`.
    pub fn star_expressions(&self, st: &mut ParseState, pos: usize) -> (r: Option<(usize, Expr)>)
        requires
            self.ready(*old(st), pos),
        ensures
            old(st).follows(*final(st), self.len()),
            self.memo_ok(*final(st)),
            expr_outcome(pos as int, r, self.len(), None),
            self.packed_name(pos as int, r, ExprContext::Load),
            self.level_tree(5, pos as int) is Some && self.cont_rank(self.level_tree(5, pos as int)->Some_0.0) < 1 && !self.sym_at(self.level_tree(5, pos as int)->Some_0.0, Sym::Comma) ==> r is Some && r->Some_0.0 == self.level_tree(5, pos as int)->Some_0.0 && r->Some_0.1 == self.level_tree(5, pos as int)->Some_0.1,
            self.item_list(pos as int) is Some ==> r is Some && r->Some_0.0 == self.item_list(pos as int)->Some_0.0 && self.packed(r->Some_0.1, pos as int, self.item_list(pos as int)->Some_0),
        decreases self.len() - pos, 200nat,
    {
        let (mut end, first) = match self.star_expression(st, pos) {
            Some(x) => x,
            None => return None,
        };
        let mut rest: Vec<Expr> = Vec::new();
        loop
            invariant
                pos < end <= self.len(),
                self.level_tree(5, pos as int) is Some && self.cont_rank(self.level_tree(5, pos as int)->Some_0.0) < 1 && !self.sym_at(self.level_tree(5, pos as int)->Some_0.0, Sym::Comma) ==> end == self.level_tree(5, pos as int)->Some_0.0 && first == self.level_tree(5, pos as int)->Some_0.1 && rest@.len() == 0,
                self.name_at(pos as int) && self.stops(pos + 1) ==> first == self.name_node(pos as int, ExprContext::Load),
                self.name_at(pos as int) && self.stops(pos + 1) && (self.sym_at(pos + 1, Sym::Comma) ==> self.stops(pos + 2))
                    ==> end == pos + 1 && rest@.len() == 0,
                self.item_list(pos as int) is Some ==> self.tail_from(end as int) is Some && seq![first] + rest@ + self.tail_from(end as int)->Some_0.1 == self.item_list(pos as int)->Some_0.1 && self.tail_from(end as int)->Some_0.0 == self.item_list(pos as int)->Some_0.0 && self.tail_from(end as int)->Some_0.2 == self.item_list(pos as int)->Some_0.2,
                self.wf(),
                self.len() <= usize::MAX,
                old(st).follows(*st, self.len()),
                self.memo_ok(*st),
            ensures
                self.item_list(pos as int) is Some ==> seq![first] + rest@ == self.item_list(pos as int)->Some_0.1 && ((!self.sym_at(end as int, Sym::Comma) && self.item_list(pos as int)->Some_0.0 == end && !self.item_list(pos as int)->Some_0.2) || (self.sym_at(end as int, Sym::Comma) && self.item_list(pos as int)->Some_0.0 == end + 1 && self.item_list(pos as int)->Some_0.2)),
            decreases self.len() - end,
        {
            if !self.expect(st, end, Sym::Comma) {
                proof {
                    if self.item_list(pos as int) is Some {
                        assert(seq![first] + rest@ + Seq::<Expr>::empty() =~= seq![first] + rest@);
                    }
                }
                break;
            }
            proof {
                self.lemma_trees_plain(end + 1);
            }
            let ghost before = rest@;
            match self.star_expression(st, end + 1) {
                Some((e, x)) => {
                    rest.push(x);
                    end = e;
                    proof {
                        if self.item_list(pos as int) is Some {
                            let t = self.tail_from(e as int)->Some_0.1;
                            assert(seq![first] + rest@ + t =~= seq![first] + before + (seq![x] + t));
                        }
                    }
                },
                None => {
                    proof {
                        if self.item_list(pos as int) is Some {
                            assert(seq![first] + rest@ + Seq::<Expr>::empty() =~= seq![first] + rest@);
                        }
                    }
                    break;
                },
            }
        }
        let trailing = self.expect(st, end, Sym::Comma);
        if trailing {
            end = end + 1;
        }
        Some((end, self.pack_tuple(pos, end, first, rest, trailing, ExprContext::Load)))
    }

    /// `*e` or an expression.
    pub fn star_expression(&self, st: &mut ParseState, pos: usize) -> (r: Option<(usize, Expr)>)
        requires
            self.ready(*old(st), pos),
        ensures
            old(st).follows(*final(st), self.len()),
            self.memo_ok(*final(st)),
            expr_outcome(pos as int, r, self.len(), None),
            self.name_outcome(pos as int, r, ExprContext::Load),
            self.tree_claim(r, self.level_tree(5, pos as int), 1),
        decreases self.len() - pos, 190nat,
    {
        proof {
            self.lemma_tree_start(5, pos as int);
        }
        if self.expect(st, pos, Sym::Star) {
            if let Some((e, value)) = self.bitwise_or(st, pos + 1) {
                let kind = ExprKind::Starred { value: Box::new(value), ctx: ExprContext::Load };
                return Some((e, self.node(pos, e, kind)));
            }
        }
        self.expression(st, pos)
    }

    /// Comma-separated star-named expressions with an optional trailing comma.
    pub fn star_named_expressions(&self, st: &mut ParseState, pos: usize) -> (r: Option<(usize, Vec<Expr>)>)
        requires
            self.ready(*old(st), pos),
        ensures
            old(st).follows(*final(st), self.len()),
            self.memo_ok(*final(st)),
            advances(pos as int, r, self.len()),
            self.stops(pos as int) ==> r is None,
            r is Some ==> r->Some_0.1@.len() > 0,
        decreases self.len() - pos, 210nat,
    {
        let (mut end, first) = match self.star_named_expression(st, pos) {
            Some(x) => x,
            None => return None,
        };
        let mut items: Vec<Expr> = Vec::new();
        items.push(first);
        loop
            invariant
                pos < end <= self.len(),
                self.wf(),
                self.len() <= usize::MAX,
                old(st).follows(*st, self.len()),
                self.memo_ok(*st),
                items@.len() > 0,
            decreases self.len() - end,
        {
            if !self.expect(st, end, Sym::Comma) {
                break;
            }
            match self.star_named_expression(st, end + 1) {
                Some((e, x)) => {
                    items.push(x);
                    end = e;
                },
                None => break,
            }
        }
        if self.expect(st, end, Sym::Comma) {
            end = end + 1;
        }
        Some((end, items))
    }

    /// `*e` or a named expression.
    pub fn star_named_expression(&self, st: &mut ParseState, pos: usize) -> (r: Option<(usize, Expr)>)
        requires
            self.ready(*old(st), pos),
        ensures
            old(st).follows(*final(st), self.len()),
            self.memo_ok(*final(st)),
            expr_outcome(pos as int, r, self.len(), None),
            self.lone_outcome(pos as int, r, ExprContext::Load),
        decreases self.len() - pos, 200nat,
    {
        if self.expect(st, pos, Sym::Star) {
            if let Some((e, value)) = self.bitwise_or(st, pos + 1) {
                let kind = ExprKind::Starred { value: Box::new(value), ctx: ExprContext::Load };
                return Some((e, self.node(pos, e, kind)));
            }
        }
        self.named_expression(st, pos)
    }

    /// `NAME := e`.
    pub fn assignment_expression(&self, st: &mut ParseState, pos: usize) -> (r: Option<(usize, Expr)>)
        requires
            self.ready(*old(st), pos),
        ensures
            old(st).follows(*final(st), self.len()),
            self.memo_ok(*final(st)),
            expr_outcome(pos as int, r, self.len(), None),
            self.stops(pos as int) || (self.name_at(pos as int) && self.stops(pos + 1)) ==> r is None,
            r is Some ==> self.name_at(pos as int) && self.sym_at(pos + 1, Sym::ColonEqual),
        decreases self.len() - pos, 30nat,
    {
        if let Some((e1, target)) = self.name_expr(st, pos, ExprContext::Store) {
            if self.expect(st, e1, Sym::ColonEqual) {
                if let Some((e2, value)) = self.expression(st, e1 + 1) {
                    let kind = ExprKind::NamedExpr { target: Box::new(target), value: Box::new(value) };
                    return Some((e2, self.node(pos, e2, kind)));
                }
            }
        }
        None
    }

    /// An assignment expression, or an expression not followed by `:=`.
    pub fn named_expression(&self, st: &mut ParseState, pos: usize) -> (r: Option<(usize, Expr)>)
        requires
            self.ready(*old(st), pos),
        ensures
            old(st).follows(*final(st), self.len()),
            self.memo_ok(*final(st)),
            expr_outcome(pos as int, r, self.len(), None),
            self.lone_outcome(pos as int, r, ExprContext::Load),
            self.level_tree(5, pos as int) is Some && self.cont_rank(self.level_tree(5, pos as int)->Some_0.0) < 1 && !self.sym_at(self.level_tree(5, pos as int)->Some_0.0, Sym::ColonEqual)
                ==> r is Some && r->Some_0.0 == self.level_tree(5, pos as int)->Some_0.0 && r->Some_0.1 == self.level_tree(5, pos as int)->Some_0.1,
        decreases self.len() - pos, 190nat,
    {
        proof {
            self.lemma_trees_plain(pos as int);
            if self.name_at(pos as int) && self.sym_at(pos + 1, Sym::ColonEqual) {
                self.lemma_simple_level(5, pos as int);
            }
        }
        if let Some(r) = self.assignment_expression(st, pos) {
            return Some(r);
        }
        self.expression_not_walrus(st, pos)
    }

    /// An expression that is not followed by `:=`.
    pub fn expression_not_walrus(&self, st: &mut ParseState, pos: usize) -> (r: Option<(usize, Expr)>)
        requires
            self.ready(*old(st), pos),
        ensures
            old(st).follows(*final(st), self.len()),
            self.memo_ok(*final(st)),
            expr_outcome(pos as int, r, self.len(), None),
            self.lone_outcome(pos as int, r, ExprContext::Load),
            self.level_tree(5, pos as int) is Some && self.cont_rank(self.level_tree(5, pos as int)->Some_0.0) < 1 && !self.sym_at(self.level_tree(5, pos as int)->Some_0.0, Sym::ColonEqual)
                ==> r is Some && r->Some_0.0 == self.level_tree(5, pos as int)->Some_0.0 && r->Some_0.1 == self.level_tree(5, pos as int)->Some_0.1,
            r is Some ==> !self.sym_at(r->Some_0.0 as int, Sym::ColonEqual),
        decreases self.len() - pos, 185nat,
    {
        match self.expression(st, pos) {
            Some((e, x)) => {
                if self.peek(e, Sym::ColonEqual) {
                    None
                } else {
                    Some((e, x))
                }
            },
            None => None,
        }
    }

    /// `*e` as a call argument.
    pub fn starred_expression(&self, st: &mut ParseState, pos: usize) -> (r: Option<(usize, Expr)>)
        requires
            self.ready(*old(st), pos),
        ensures
            old(st).follows(*final(st), self.len()),
            self.memo_ok(*final(st)),
            expr_outcome(pos as int, r, self.len(), None),
            self.sym_at(pos as int, Sym::Star) && self.name_at(pos + 1) && self.stops(pos + 2) ==> r is Some && r->Some_0.0 == pos + 2
                && r->Some_0.1.node == (ExprKind::Starred {
                    value: Box::new(self.name_node(pos + 1, ExprContext::Load)),
                    ctx: ExprContext::Load,
                }),
        decreases self.len() - pos, 10nat,
    {
        if self.expect(st, pos, Sym::Star) {
            if let Some((e, value)) = self.expression(st, pos + 1) {
                let kind = ExprKind::Starred { value: Box::new(value), ctx: ExprContext::Load };
                return Some((e, self.node(pos, e, kind)));
            }
        }
        None
    }

    /// `a or b or ...`: one boolean node for the whole chain.
    pub fn disjunction(&self, st: &mut ParseState, pos: usize) -> (r: Option<(usize, Expr)>)
        requires
            self.ready(*old(st), pos),
        ensures
            old(st).follows(*final(st), self.len()),
            self.memo_ok(*final(st)),
            self.fits(0, pos as int, r),
        decreases self.len() - pos, 170nat,
    {
        if pos < self.tokens.len() {
            if let Some(r) = st.recall(Rule::Disjunction, pos, self) {
                return r;
            }
        }
        let r = self.bool_chain(st, pos, Boolop::Or);
        if pos < self.tokens.len() {
            st.remember(Rule::Disjunction, pos, &r, self);
        }
        r
    }

    /// `a and b and ...`: one boolean node for the whole chain.
    pub fn conjunction(&self, st: &mut ParseState, pos: usize) -> (r: Option<(usize, Expr)>)
        requires
            self.ready(*old(st), pos),
        ensures
            old(st).follows(*final(st), self.len()),
            self.memo_ok(*final(st)),
            self.fits(1, pos as int, r),
        decreases self.len() - pos, 160nat,
    {
        if pos < self.tokens.len() {
            if let Some(r) = st.recall(Rule::Conjunction, pos, self) {
                return r;
            }
        }
        let r = self.bool_chain(st, pos, Boolop::And);
        if pos < self.tokens.len() {
            st.remember(Rule::Conjunction, pos, &r, self);
        }
        r
    }

    /// The operand of a boolean chain: a conjunction for `or`, an inversion for `and`.
    fn bool_operand(&self, st: &mut ParseState, pos: usize, op: Boolop) -> (r: Option<(usize, Expr)>)
        requires
            self.ready(*old(st), pos),
        ensures
            old(st).follows(*final(st), self.len()),
            self.memo_ok(*final(st)),
            expr_outcome(pos as int, r, self.len(), None),
            self.name_outcome(pos as int, r, ExprContext::Load),
            self.tree_claim(r, self.level_tree(5, pos as int), if op == Boolop::Or { 3nat } else { 4nat }),
            self.cmp_claim(pos as int, r, if op == Boolop::Or { 3nat } else { 4nat }),
        decreases self.len() - pos, if op == Boolop::Or { 163nat } else { 153nat },
    {
        match op {
            Boolop::Or => self.conjunction(st, pos),
            Boolop::And => self.inversion(st, pos),
        }
    }

    fn bool_chain(&self, st: &mut ParseState, pos: usize, op: Boolop) -> (r: Option<(usize, Expr)>)
        requires
            self.ready(*old(st), pos),
        ensures
            old(st).follows(*final(st), self.len()),
            self.memo_ok(*final(st)),
            expr_outcome(pos as int, r, self.len(), None),
            self.name_outcome(pos as int, r, ExprContext::Load),
            self.tree_claim(r, self.level_tree(5, pos as int), if op == Boolop::Or { 2nat } else { 3nat }),
            self.cmp_claim(pos as int, r, if op == Boolop::Or { 2nat } else { 3nat }),
        decreases self.len() - pos, if op == Boolop::Or { 165nat } else { 155nat },
    {
        let sym = match op {
            Boolop::Or => Sym::Or,
            Boolop::And => Sym::And,
        };
        let (mut end, first) = match self.bool_operand(st, pos, op) {
            Some(x) => x,
            None => return None,
        };
        let mut rest: Vec<Expr> = Vec::new();
        loop
            invariant
                pos < end <= self.len(),
                self.name_at(pos as int) && self.stops(pos + 1) ==> end == pos + 1 && first == self.name_node(pos as int, ExprContext::Load) && rest@.len() == 0,
                sym == Sym::Or || sym == Sym::And,
                sym == Sym::Or <==> op == Boolop::Or,
                self.level_tree(5, pos as int) is Some && self.cmp_chain(self.level_tree(5, pos as int)->Some_0.0).1.len() > 0 && self.cont_rank(self.cmp_chain(self.level_tree(5, pos as int)->Some_0.0).0) < if op == Boolop::Or { 2nat } else { 3nat } ==> end == self.cmp_chain(self.level_tree(5, pos as int)->Some_0.0).0 && self.compare_node(first, pos as int, self.cmp_chain(self.level_tree(5, pos as int)->Some_0.0).0, self.level_tree(5, pos as int)->Some_0.1, self.cmp_chain(self.level_tree(5, pos as int)->Some_0.0).1) && rest@.len() == 0,
                self.level_tree(5, pos as int) is Some && self.cont_rank(self.level_tree(5, pos as int)->Some_0.0) < if op == Boolop::Or { 2nat } else { 3nat } ==> end == self.level_tree(5, pos as int)->Some_0.0 && first == self.level_tree(5, pos as int)->Some_0.1 && rest@.len() == 0,
                self.wf(),
                self.len() <= usize::MAX,
                old(st).follows(*st, self.len()),
                self.memo_ok(*st),
            decreases self.len() - end,
        {
            if !self.expect(st, end, sym) {
                break;
            }
            match self.bool_operand(st, end + 1, op) {
                Some((e, x)) => {
                    rest.push(x);
                    end = e;
                },
                None => break,
            }
        }
        if rest.len() == 0 {
            Some((end, first))
        } else {
            let values = insert_front(rest, first);
            Some((end, self.node(pos, end, ExprKind::BoolOp { op, values })))
        }
    }

    /// `not e`, or a comparison.
    pub fn inversion(&self, st: &mut ParseState, pos: usize) -> (r: Option<(usize, Expr)>)
        requires
            self.ready(*old(st), pos),
        ensures
            old(st).follows(*final(st), self.len()),
            self.memo_ok(*final(st)),
            self.fits(2, pos as int, r),
        decreases self.len() - pos, 150nat,
    {
        if pos < self.tokens.len() {
            if let Some(r) = st.recall(Rule::Inversion, pos, self) {
                return r;
            }
        }
        let r = self.inversion_body(st, pos);
        if pos < self.tokens.len() {
            st.remember(Rule::Inversion, pos, &r, self);
        }
        r
    }

    fn inversion_body(&self, st: &mut ParseState, pos: usize) -> (r: Option<(usize, Expr)>)
        requires
            self.ready(*old(st), pos),
        ensures
            old(st).follows(*final(st), self.len()),
            self.memo_ok(*final(st)),
            self.fits(2, pos as int, r),
        decreases self.len() - pos, 145nat,
    {
        proof {
            self.lemma_tree_start(5, pos as int);
        }
        if self.expect(st, pos, Sym::Not) {
            if let Some((e, operand)) = self.inversion(st, pos + 1) {
                let kind = ExprKind::UnaryOp { op: Unaryop::Not, operand: Box::new(operand) };
                return Some((e, self.node(pos, e, kind)));
            }
        }
        self.comparison(st, pos)
    }

    /// A bitwise-or operand followed by any number of (comparison operator, operand) pairs,
    /// all in one comparison node.
    pub fn comparison(&self, st: &mut ParseState, pos: usize) -> (r: Option<(usize, Expr)>)
        requires
            self.ready(*old(st), pos),
        ensures
            old(st).follows(*final(st), self.len()),
            self.memo_ok(*final(st)),
            self.fits(3, pos as int, r),
        decreases self.len() - pos, 140nat,
    {
        if pos < self.tokens.len() {
            if let Some(r) = st.recall(Rule::Comparison, pos, self) {
                return r;
            }
        }
        let r = self.comparison_body(st, pos);
        if pos < self.tokens.len() {
            st.remember(Rule::Comparison, pos, &r, self);
        }
        r
    }

    fn comparison_body(&self, st: &mut ParseState, pos: usize) -> (r: Option<(usize, Expr)>)
        requires
            self.ready(*old(st), pos),
        ensures
            old(st).follows(*final(st), self.len()),
            self.memo_ok(*final(st)),
            self.fits(3, pos as int, r),
        decreases self.len() - pos, 135nat,
    {
        let (mut end, left) = match self.bitwise_or(st, pos) {
            Some(x) => x,
            None => return None,
        };
        let mut pairs: Vec<(Cmpop, Expr)> = Vec::new();
        loop
            invariant
                pos < end <= self.len(),
                self.level_tree(5, pos as int) is Some && self.cmp_chain(self.level_tree(5, pos as int)->Some_0.0).1.len() > 0 && self.cont_rank(self.cmp_chain(self.level_tree(5, pos as int)->Some_0.0).0) < 4 ==> left == self.level_tree(5, pos as int)->Some_0.1 && pairs@ + self.cmp_chain(end as int).1 == self.cmp_chain(self.level_tree(5, pos as int)->Some_0.0).1 && self.cmp_chain(end as int).0 == self.cmp_chain(self.level_tree(5, pos as int)->Some_0.0).0,
                self.level_tree(5, pos as int) is Some && self.cont_rank(self.level_tree(5, pos as int)->Some_0.0) < 4 ==> end == self.level_tree(5, pos as int)->Some_0.0 && left == self.level_tree(5, pos as int)->Some_0.1 && pairs@.len() == 0,
                self.name_at(pos as int) && self.stops(pos + 1) ==> end == pos + 1 && left == self.name_node(pos as int, ExprContext::Load) && pairs@.len() == 0,
                self.wf(),
                self.len() <= usize::MAX,
                old(st).follows(*st, self.len()),
                self.memo_ok(*st),
            ensures
                self.level_tree(5, pos as int) is Some && self.cmp_chain(self.level_tree(5, pos as int)->Some_0.0).1.len() > 0 && self.cont_rank(self.cmp_chain(self.level_tree(5, pos as int)->Some_0.0).0) < 4 ==> self.cmp_chain(end as int).1.len() == 0,
            decreases self.len() - end,
        {
            proof {
                self.lemma_cmp_rank(end as int);
                self.lemma_chain_plain(end as int);
                if let Some((op, w)) = self.cmp_at(end as int) {
                    self.lemma_trees_plain(end + w);
                    if let Some((e2, y)) = self.level_tree(5, end + w) {
                        self.lemma_cmp_rank(e2);
                        self.lemma_chain_plain(e2);
                    }
                }
            }
            let ghost before = pairs@;
            match self.compare_op_bitwise_or_pair(st, end) {
                Some((e, pair)) => {
                    pairs.push(pair);
                    proof {
                        if self.level_tree(5, pos as int) is Some && self.cmp_chain(self.level_tree(5, pos as int)->Some_0.0).1.len() > 0 && self.cont_rank(self.cmp_chain(self.level_tree(5, pos as int)->Some_0.0).0) < 4 {
                            let rest = self.cmp_chain(e as int).1;
                            assert(self.cmp_chain(end as int).1 == seq![pair] + rest);
                            assert(pairs@ + rest =~= before + (seq![pair] + rest));
                        }
                    }
                    end = e;
                },
                None => break,
            }
        }
        if pairs.len() == 0 {
            return Some((end, left));
        }
        proof {
            if self.level_tree(5, pos as int) is Some && self.cmp_chain(self.level_tree(5, pos as int)->Some_0.0).1.len() > 0 && self.cont_rank(self.cmp_chain(self.level_tree(5, pos as int)->Some_0.0).0) < 4 {
                assert(pairs@ + self.cmp_chain(end as int).1 =~= pairs@);
                assert(pairs@ =~= self.cmp_chain(self.level_tree(5, pos as int)->Some_0.0).1);
            }
        }
        let (ops, comparators) = comparison_ops_comparators(pairs);
        let kind = ExprKind::Compare { left: Box::new(left), ops, comparators };
        Some((end, self.node(pos, end, kind)))
    }

    /// A comparison operator (`not in` and `is not` take two tokens) and its right operand.
    pub fn compare_op_bitwise_or_pair(&self, st: &mut ParseState, pos: usize) -> (r: Option<(usize, (Cmpop, Expr))>)
        requires
            self.ready(*old(st), pos),
        ensures
            old(st).follows(*final(st), self.len()),
            self.memo_ok(*final(st)),
            advances(pos as int, r, self.len()),
            r is Some ==> !self.stops(pos as int) && self.cont_rank(pos as int) == 4,
            self.cmp_at(pos as int) is None ==> r is None,
            self.pair_claim(pos as int, r),
        decreases self.len() - pos, 10nat,
    {
        if pos >= self.tokens.len() {
            st.fail_at(pos);
            return None;
        }
        let (op, width): (Cmpop, usize) = match self.tokens[pos] {
            PegTok::Sym(Sym::EqEqual) => (Cmpop::Eq, 1),
            PegTok::Sym(Sym::NotEqual) => (Cmpop::NotEq, 1),
            PegTok::Sym(Sym::LessEqual) => (Cmpop::LtE, 1),
            PegTok::Sym(Sym::Less) => (Cmpop::Lt, 1),
            PegTok::Sym(Sym::GreaterEqual) => (Cmpop::GtE, 1),
            PegTok::Sym(Sym::Greater) => (Cmpop::Gt, 1),
            PegTok::Sym(Sym::Not) => {
                if self.expect(st, pos + 1, Sym::In) {
                    (Cmpop::NotIn, 2)
                } else {
                    return None;
                }
            },
            PegTok::Sym(Sym::In) => (Cmpop::In, 1),
            PegTok::Sym(Sym::Is) => {
                if self.expect(st, pos + 1, Sym::Not) {
                    (Cmpop::IsNot, 2)
                } else {
                    (Cmpop::Is, 1)
                }
            },
            _ => {
                st.fail_at(pos);
                return None;
            },
        };
        match self.bitwise_or(st, pos + width) {
            Some((e, operand)) => Some((e, (op, operand))),
            None => None,
        }
    }

    /// The operator of a left-associative binary level that the token at `pos` stands for.
    pub fn level_op(&self, level: Rule, pos: usize) -> (r: Option<Operator>)
        requires
            self.wf(),
        ensures
            r is Some ==> pos < self.len() && !self.stops(pos as int),
            r == self.binop_at(level_num(level), pos as int),
    {
        if pos >= self.tokens.len() {
            return None;
        }
        match (level, self.tokens[pos]) {
            (Rule::BitwiseOr, PegTok::Sym(Sym::Vbar)) => Some(Operator::BitOr),
            (Rule::BitwiseXor, PegTok::Sym(Sym::CircumFlex)) => Some(Operator::BitXor),
            (Rule::BitwiseAnd, PegTok::Sym(Sym::Amper)) => Some(Operator::BitAnd),
            (Rule::ShiftExpr, PegTok::Sym(Sym::LeftShift)) => Some(Operator::LShift),
            (Rule::ShiftExpr, PegTok::Sym(Sym::RightShift)) => Some(Operator::RShift),
            (Rule::Sum, PegTok::Sym(Sym::Plus)) => Some(Operator::Add),
            (Rule::Sum, PegTok::Sym(Sym::Minus)) => Some(Operator::Sub),
            (Rule::Term, PegTok::Sym(Sym::Star)) => Some(Operator::Mult),
            (Rule::Term, PegTok::Sym(Sym::Slash)) => Some(Operator::Div),
            (Rule::Term, PegTok::Sym(Sym::DoubleSlash)) => Some(Operator::FloorDiv),
            (Rule::Term, PegTok::Sym(Sym::Percent)) => Some(Operator::Mod),
            (Rule::Term, PegTok::Sym(Sym::At)) => Some(Operator::MatMult),
            _ => None,
        }
    }
}

impl Parser {
    /// `a | b`, left-associative.
    pub fn bitwise_or(&self, st: &mut ParseState, pos: usize) -> (r: Option<(usize, Expr)>)
        requires
            self.ready(*old(st), pos),
        ensures
            old(st).follows(*final(st), self.len()),
            self.memo_ok(*final(st)),
            expr_outcome(pos as int, r, self.len(), None),
            self.name_outcome(pos as int, r, ExprContext::Load),
            self.tree_claim(r, self.level_tree(5, pos as int), 5),
        decreases self.len() - pos, 131nat,
    {
        self.binary(st, pos, Rule::BitwiseOr)
    }

    /// A left-associative binary level, memoized per start position.
    fn binary(&self, st: &mut ParseState, pos: usize, level: Rule) -> (r: Option<(usize, Expr)>)
        requires
            self.ready(*old(st), pos),
            level_rank(level) >= 10,
        ensures
            old(st).follows(*final(st), self.len()),
            self.memo_ok(*final(st)),
            self.fits(level.spec_index() as int, pos as int, r),
        decreases self.len() - pos, level_rank(level),
    {
        if pos < self.tokens.len() {
            if let Some(r) = st.recall(level, pos, self) {
                return r;
            }
        }
        let r = self.binary_grow(st, pos, level);
        if pos < self.tokens.len() {
            st.remember(level, pos, &r, self);
        }
        r
    }

    /// Seed and grow: the operand alone is the first match; each round lets the recursive
    /// alternative take the best match so far as its left operand, and stops when it cannot
    /// extend it. (The non-recursive alternative would then only give back the shorter seed.)
    fn binary_grow(&self, st: &mut ParseState, pos: usize, level: Rule) -> (r: Option<(usize, Expr)>)
        requires
            self.ready(*old(st), pos),
            level_rank(level) >= 10,
        ensures
            old(st).follows(*final(st), self.len()),
            self.memo_ok(*final(st)),
            expr_outcome(pos as int, r, self.len(), None),
            self.name_outcome(pos as int, r, ExprContext::Load),
            self.tree_claim(r, self.level_tree(level_num(level), pos as int), level_num(level)),
        decreases self.len() - pos, (level_rank(level) - 5) as nat,
    {
        proof {
            self.lemma_trees_plain(pos as int);
        }
        let (mut end, mut best) = match self.binary_operand(st, pos, level) {
            Some(x) => x,
            None => return None,
        };
        loop
            invariant
                pos < end <= self.len(),
                5 <= level_num(level) <= 10,
                self.level_tree(level_num(level), pos as int) is Some && self.cont_rank(self.level_tree(level_num(level), pos as int)->Some_0.0) < level_num(level) ==> self.grow_tree(level_num(level), pos as int, end as int, best) == self.level_tree(level_num(level), pos as int)->Some_0,
                self.name_at(pos as int) && self.stops(pos + 1) ==> end == pos + 1 && best == self.name_node(pos as int, ExprContext::Load),
                loads(best),
                self.wf(),
                level_rank(level) >= 10,
                self.len() <= usize::MAX,
                old(st).follows(*st, self.len()),
                self.memo_ok(*st),
            ensures
                pos < end <= self.len(),
                self.level_tree(level_num(level), pos as int) is Some && self.cont_rank(self.level_tree(level_num(level), pos as int)->Some_0.0) < level_num(level) ==> (end as int, best) == self.level_tree(level_num(level), pos as int)->Some_0,
            decreases self.len() - end,
        {
            let op = match self.level_op(level, end) {
                Some(op) => op,
                None => {
                    st.fail_at(end);
                    break;
                },
            };
            proof {
                let k = level_num(level);
                self.lemma_trees_plain(end + 1);
                self.lemma_binop_rank(k, end as int);
                if let Some((e2, y)) = self.operand_tree(k, end + 1) {
                    self.lemma_binop_rank(k, e2);
                    let z = self.spec_node(pos as int, e2, ExprKind::BinOp { left: Box::new(best), op, right: Box::new(y) });
                    if self.binop_at(k, e2) is None {
                        assert(self.grow_tree(k, pos as int, e2, z) == (e2, z));
                    }
                    assert(self.grow_tree(k, pos as int, end as int, best) == self.grow_tree(k, pos as int, e2, z));
                }
            }
            match self.binary_operand(st, end + 1, level) {
                Some((e, right)) => {
                    let kind = ExprKind::BinOp { left: Box::new(best), op, right: Box::new(right) };
                    best = self.node(pos, e, kind);
                    end = e;
                },
                None => break,
            }
        }
        Some((end, best))
    }

    /// The operand of a binary level: the next level up, or a factor under `*`.
    fn binary_operand(&self, st: &mut ParseState, pos: usize, level: Rule) -> (r: Option<(usize, Expr)>)
        requires
            self.ready(*old(st), pos),
            level_rank(level) >= 10,
        ensures
            old(st).follows(*final(st), self.len()),
            self.memo_ok(*final(st)),
            expr_outcome(pos as int, r, self.len(), None),
            self.name_outcome(pos as int, r, ExprContext::Load),
            self.tree_claim(r, self.operand_tree(level_num(level), pos as int), level_num(level) + 1),
        decreases self.len() - pos, (level_rank(level) - 7) as nat,
    {
        match level {
            Rule::BitwiseOr => self.binary(st, pos, Rule::BitwiseXor),
            Rule::BitwiseXor => self.binary(st, pos, Rule::BitwiseAnd),
            Rule::BitwiseAnd => self.binary(st, pos, Rule::ShiftExpr),
            Rule::ShiftExpr => self.binary(st, pos, Rule::Sum),
            Rule::Sum => self.binary(st, pos, Rule::Term),
            _ => self.factor(st, pos),
        }
    }

    /// `+e`, `-e`, `~e`, or a power.
    pub fn factor(&self, st: &mut ParseState, pos: usize) -> (r: Option<(usize, Expr)>)
        requires
            self.ready(*old(st), pos),
        ensures
            old(st).follows(*final(st), self.len()),
            self.memo_ok(*final(st)),
            self.fits(10, pos as int, r),
        decreases self.len() - pos, 70nat,
    {
        if pos < self.tokens.len() {
            if let Some(r) = st.recall(Rule::Factor, pos, self) {
                return r;
            }
        }
        let r = self.factor_body(st, pos);
        if pos < self.tokens.len() {
            st.remember(Rule::Factor, pos, &r, self);
        }
        r
    }

    fn factor_body(&self, st: &mut ParseState, pos: usize) -> (r: Option<(usize, Expr)>)
        requires
            self.ready(*old(st), pos),
        ensures
            old(st).follows(*final(st), self.len()),
            self.memo_ok(*final(st)),
            self.fits(10, pos as int, r),
        decreases self.len() - pos, 65nat,
    {
        let op = if pos < self.tokens.len() {
            match self.tokens[pos] {
                PegTok::Sym(Sym::Plus) => Some(Unaryop::UAdd),
                PegTok::Sym(Sym::Minus) => Some(Unaryop::USub),
                PegTok::Sym(Sym::Tilde) => Some(Unaryop::Invert),
                _ => None,
            }
        } else {
            None
        };
        match op {
            Some(op) => {
                if let Some((e, operand)) = self.factor(st, pos + 1) {
                    let kind = ExprKind::UnaryOp { op, operand: Box::new(operand) };
                    return Some((e, self.node(pos, e, kind)));
                }
            },
            None => st.fail_at(pos),
        }
        self.power(st, pos)
    }

    /// `a ** b`, where `b` is a factor: right-associative.
    pub fn power(&self, st: &mut ParseState, pos: usize) -> (r: Option<(usize, Expr)>)
        requires
            self.ready(*old(st), pos),
        ensures
            old(st).follows(*final(st), self.len()),
            self.memo_ok(*final(st)),
            expr_outcome(pos as int, r, self.len(), None),
            self.name_outcome(pos as int, r, ExprContext::Load),
            self.simple_node(pos as int) is Some ==> self.tree_claim(r, self.factor_tree(pos as int), 11),
        decreases self.len() - pos, 60nat,
    {
        let (e1, left) = match self.await_primary(st, pos) {
            Some(x) => x,
            None => return None,
        };
        if self.expect(st, e1, Sym::DoubleStar) {
            if let Some((e2, right)) = self.factor(st, e1 + 1) {
                let kind = ExprKind::BinOp { left: Box::new(left), op: Operator::Pow, right: Box::new(right) };
                return Some((e2, self.node(pos, e2, kind)));
            }
        }
        Some((e1, left))
    }

    /// `await p`, or a primary.
    pub fn await_primary(&self, st: &mut ParseState, pos: usize) -> (r: Option<(usize, Expr)>)
        requires
            self.ready(*old(st), pos),
        ensures
            old(st).follows(*final(st), self.len()),
            self.memo_ok(*final(st)),
            self.fits(11, pos as int, r),
        decreases self.len() - pos, 50nat,
    {
        if pos < self.tokens.len() {
            if let Some(r) = st.recall(Rule::AwaitPrimary, pos, self) {
                return r;
            }
        }
        let r = self.await_primary_body(st, pos);
        if pos < self.tokens.len() {
            st.remember(Rule::AwaitPrimary, pos, &r, self);
        }
        r
    }

    fn await_primary_body(&self, st: &mut ParseState, pos: usize) -> (r: Option<(usize, Expr)>)
        requires
            self.ready(*old(st), pos),
        ensures
            old(st).follows(*final(st), self.len()),
            self.memo_ok(*final(st)),
            self.fits(11, pos as int, r),
        decreases self.len() - pos, 45nat,
    {
        if self.expect(st, pos, Sym::Await) {
            if let Some((e, value)) = self.primary(st, pos + 1) {
                return Some((e, self.node(pos, e, ExprKind::Await { value: Box::new(value) })));
            }
        }
        self.primary(st, pos)
    }

    /// An atom followed by any chain of `.name`, calls and subscripts, left-associative.
    pub fn primary(&self, st: &mut ParseState, pos: usize) -> (r: Option<(usize, Expr)>)
        requires
            self.ready(*old(st), pos),
        ensures
            old(st).follows(*final(st), self.len()),
            self.memo_ok(*final(st)),
            self.fits(12, pos as int, r),
        decreases self.len() - pos, 40nat,
    {
        if pos < self.tokens.len() {
            if let Some(r) = st.recall(Rule::Primary, pos, self) {
                return r;
            }
        }
        let r = self.primary_grow(st, pos);
        if pos < self.tokens.len() {
            st.remember(Rule::Primary, pos, &r, self);
        }
        r
    }

    /// Seed and grow for `primary`, as for the binary levels.
    fn primary_grow(&self, st: &mut ParseState, pos: usize) -> (r: Option<(usize, Expr)>)
        requires
            self.ready(*old(st), pos),
        ensures
            old(st).follows(*final(st), self.len()),
            self.memo_ok(*final(st)),
            self.fits(12, pos as int, r),
        decreases self.len() - pos, 35nat,
    {
        let (mut end, mut best) = match self.atom(st, pos) {
            Some(x) => x,
            None => return None,
        };
        loop
            invariant
                pos < end <= self.len(),
                self.simple_node(pos as int) is Some && self.cont_rank(pos + 1) < 12 ==> end == pos + 1 && best == self.simple_node(pos as int)->Some_0,
                self.name_at(pos as int) && self.stops(pos + 1) ==> end == pos + 1 && best == self.name_node(pos as int, ExprContext::Load),
                loads(best),
                self.wf(),
                self.len() <= usize::MAX,
                old(st).follows(*st, self.len()),
                self.memo_ok(*st),
            decreases self.len() - end,
        {
            match self.primary_step(st, pos, end, best) {
                Ok((e, x)) => {
                    best = x;
                    end = e;
                },
                Err(x) => {
                    best = x;
                    break;
                },
            }
        }
        Some((end, best))
    }

    /// The recursive alternatives of `primary`, with `left` (spanning `pos .. end`) as the
    /// primary they extend: the extended node, or `left` given back.
    fn primary_step(&self, st: &mut ParseState, pos: usize, end: usize, left: Expr) -> (r: Result<(usize, Expr), Expr>)
        requires
            self.ready(*old(st), end),
            pos < end,
        ensures
            old(st).follows(*final(st), self.len()),
            self.memo_ok(*final(st)),
            r is Ok ==> end < r->Ok_0.0 <= self.len() && loads(r->Ok_0.1) && !self.stops(end as int) && self.cont_rank(end as int) == 12,
            r is Err ==> r->Err_0 == left,
        decreases self.len() - end, 30nat,
    {
        if self.expect(st, end, Sym::Dot) {
            if let Some((e, attr)) = self.name(st, end + 1) {
                let kind = ExprKind::Attribute { value: Box::new(left), attr, ctx: ExprContext::Load };
                return Ok((e, self.node(pos, e, kind)));
            }
        }
        if let Some((e, g)) = self.genexp(st, end) {
            let mut args: Vec<Expr> = Vec::new();
            args.push(g);
            let kind = ExprKind::Call { func: Box::new(left), args, keywords: Vec::new() };
            return Ok((e, self.node(pos, e, kind)));
        }
        if self.expect(st, end, Sym::Lpar) {
            let (inner, args, keywords) = match self.arguments(st, end + 1) {
                Some((e, (a, k))) => (e, a, k),
                None => (end + 1, Vec::new(), Vec::new()),
            };
            if self.expect(st, inner, Sym::Rpar) {
                let kind = ExprKind::Call { func: Box::new(left), args, keywords };
                return Ok((inner + 1, self.node(pos, inner + 1, kind)));
            }
        }
        if self.expect(st, end, Sym::Lsqb) {
            if let Some((e, slice)) = self.slices(st, end + 1) {
                if self.expect(st, e, Sym::Rsqb) {
                    let kind = ExprKind::Subscript {
                        value: Box::new(left),
                        slice: Box::new(slice),
                        ctx: ExprContext::Load,
                    };
                    return Ok((e + 1, self.node(pos, e + 1, kind)));
                }
            }
        }
        Err(left)
    }
}

/// The rank of a binary level in the precedence ladder.
pub open spec fn level_rank(level: Rule) -> nat {
    match level {
        Rule::BitwiseOr => 130,
        Rule::BitwiseXor => 120,
        Rule::BitwiseAnd => 110,
        Rule::ShiftExpr => 100,
        Rule::Sum => 90,
        Rule::Term => 80,
        _ => 0,
    }
}

} // verus!
