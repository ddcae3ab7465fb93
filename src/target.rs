use vstd::prelude::*;
use crate::ast::{Expr, ExprContext, ExprKind};
use crate::engine::{advances, expr_outcome, loads, ParseState, Rule};
use crate::nodes::insert_front;
use crate::session::Parser;
use crate::token::Sym;

verus! {

impl Parser {
    /// Assignment targets: one target, or a comma-separated list packed into a tuple.
    pub fn star_targets(&self, st: &mut ParseState, pos: usize) -> (r: Option<(usize, Expr)>)
        requires
            self.ready(*old(st), pos),
        ensures
            old(st).follows(*final(st), self.len()),
            self.memo_ok(*final(st)),
            expr_outcome(pos as int, r, self.len(), Some(ExprContext::Store)),
            self.stops(pos as int) ==> r is None,
            self.name_at(pos as int) && self.cont_rank(pos + 1) < 12 && !self.sym_at(pos + 1, Sym::Comma) ==> r == Some(
                ((pos + 1) as usize, self.name_node(pos as int, ExprContext::Store)),
            ),
            (self.simple_node(pos as int) is Some && !self.name_at(pos as int) && self.cont_rank(pos + 1) < 12) || self.unary_at(pos as int) is Some
                ==> r is None,
            self.lone_target(pos as int) && !self.sym_at(self.target_at(pos as int, ExprContext::Store)->Some_0.0, Sym::Comma) ==> r == Some(
                (self.target_at(pos as int, ExprContext::Store)->Some_0.0 as usize, self.target_at(pos as int, ExprContext::Store)->Some_0.1),
            ),
            self.name_at(pos as int) && self.stops(pos + 1) && !self.sym_at(pos + 1, Sym::Comma) ==> r == Some(
                ((pos + 1) as usize, self.name_node(pos as int, ExprContext::Store)),
            ),
        decreases self.len() - pos, 80nat,
    {
        let (e1, first) = match self.star_target(st, pos) {
            Some(x) => x,
            None => return None,
        };
        if !self.peek(e1, Sym::Comma) {
            return Some((e1, first));
        }
        let (mut end, first) = match self.star_target(st, pos) {
            Some(x) => x,
            None => return None,
        };
        let mut rest: Vec<Expr> = Vec::new();
        loop
            invariant
                pos < end <= self.len(),
                self.wf(),
                self.len() <= usize::MAX,
                old(st).follows(*st, self.len()),
                self.memo_ok(*st),
            decreases self.len() - end,
        {
            if !self.expect(st, end, Sym::Comma) {
                break;
            }
            match self.star_target(st, end + 1) {
                Some((e, x)) => {
                    rest.push(x);
                    end = e;
                },
                None => break,
            }
        }
        if self.expect(st, end, Sym::Comma) {
            end = end + 1;
        }
        let elts = insert_front(rest, first);
        Some((end, self.node(pos, end, ExprKind::Tuple { elts, ctx: ExprContext::Store })))
    }

    /// `*target`, or a target.
    pub fn star_target(&self, st: &mut ParseState, pos: usize) -> (r: Option<(usize, Expr)>)
        requires
            self.ready(*old(st), pos),
        ensures
            old(st).follows(*final(st), self.len()),
            self.memo_ok(*final(st)),
            self.fits(14, pos as int, r),
        decreases self.len() - pos, 70nat,
    {
        if pos < self.tokens.len() {
            if let Some(r) = st.recall(Rule::StarTarget, pos, self) {
                return r;
            }
        }
        let r = self.star_target_body(st, pos);
        if pos < self.tokens.len() {
            st.remember(Rule::StarTarget, pos, &r, self);
        }
        r
    }

    fn star_target_body(&self, st: &mut ParseState, pos: usize) -> (r: Option<(usize, Expr)>)
        requires
            self.ready(*old(st), pos),
        ensures
            old(st).follows(*final(st), self.len()),
            self.memo_ok(*final(st)),
            self.fits(14, pos as int, r),
        decreases self.len() - pos, 65nat,
    {
        if self.expect(st, pos, Sym::Star) && !self.peek(pos + 1, Sym::Star) {
            if let Some((e, value)) = self.star_target(st, pos + 1) {
                let kind = ExprKind::Starred { value: Box::new(value), ctx: ExprContext::Store };
                return Some((e, self.node(pos, e, kind)));
            }
        }
        self.target_with_star_atom(st, pos)
    }

    /// An attribute or subscript target, or a star atom.
    pub fn target_with_star_atom(&self, st: &mut ParseState, pos: usize) -> (r: Option<(usize, Expr)>)
        requires
            self.ready(*old(st), pos),
        ensures
            old(st).follows(*final(st), self.len()),
            self.memo_ok(*final(st)),
            self.fits(15, pos as int, r),
        decreases self.len() - pos, 60nat,
    {
        if pos < self.tokens.len() {
            if let Some(r) = st.recall(Rule::TargetWithStarAtom, pos, self) {
                return r;
            }
        }
        let r = match self.single_subscript_attribute_target(st, pos, ExprContext::Store) {
            Some(x) => Some(x),
            None => self.star_atom(st, pos),
        };
        if pos < self.tokens.len() {
            st.remember(Rule::TargetWithStarAtom, pos, &r, self);
        }
        r
    }

    /// A name, a parenthesised target, or a parenthesised or bracketed list of targets.
    pub fn star_atom(&self, st: &mut ParseState, pos: usize) -> (r: Option<(usize, Expr)>)
        requires
            self.ready(*old(st), pos),
        ensures
            old(st).follows(*final(st), self.len()),
            self.memo_ok(*final(st)),
            expr_outcome(pos as int, r, self.len(), Some(ExprContext::Store)),
            self.name_outcome(pos as int, r, ExprContext::Store),
            self.name_at(pos as int) ==> r == Some(((pos + 1) as usize, self.name_node(pos as int, ExprContext::Store))),
            (self.simple_node(pos as int) is Some && !self.name_at(pos as int)) || self.unary_at(pos as int) is Some ==> r is None,
        decreases self.len() - pos, 30nat,
    {
        if let Some(r) = self.name_expr(st, pos, ExprContext::Store) {
            return Some(r);
        }
        if self.expect(st, pos, Sym::Lpar) {
            if let Some((e, x)) = self.target_with_star_atom(st, pos + 1) {
                if self.expect(st, e, Sym::Rpar) {
                    return Some((e + 1, x));
                }
            }
            let (inner, elts) = match self.star_targets_tuple(st, pos + 1) {
                Some(x) => x,
                None => (pos + 1, Vec::new()),
            };
            if self.expect(st, inner, Sym::Rpar) {
                let kind = ExprKind::Tuple { elts, ctx: ExprContext::Store };
                return Some((inner + 1, self.node(pos, inner + 1, kind)));
            }
        }
        if self.expect(st, pos, Sym::Lsqb) {
            let (inner, elts) = match self.star_targets_list(st, pos + 1) {
                Some(x) => x,
                None => (pos + 1, Vec::new()),
            };
            if self.expect(st, inner, Sym::Rsqb) {
                let kind = ExprKind::List { elts, ctx: ExprContext::Store };
                return Some((inner + 1, self.node(pos, inner + 1, kind)));
            }
        }
        None
    }

    /// Comma-separated targets with an optional trailing comma.
    fn star_targets_list(&self, st: &mut ParseState, pos: usize) -> (r: Option<(usize, Vec<Expr>)>)
        requires
            self.ready(*old(st), pos),
        ensures
            old(st).follows(*final(st), self.len()),
            self.memo_ok(*final(st)),
            advances(pos as int, r, self.len()),
        decreases self.len() - pos, 75nat,
    {
        let (mut end, first) = match self.star_target(st, pos) {
            Some(x) => x,
            None => return None,
        };
        let mut items: Vec<Expr> = Vec::new();
        items.push(first);
        loop
            invariant
                pos < end <= self.len(),
                self.wf(),
                self.len() <= usize::MAX,
                old(st).follows(*st, self.len()),
                self.memo_ok(*st),
            decreases self.len() - end,
        {
            if !self.expect(st, end, Sym::Comma) {
                break;
            }
            match self.star_target(st, end + 1) {
                Some((e, x)) => {
                    items.push(x);
                    end = e;
                },
                None => break,
            }
        }
        if self.expect(st, end, Sym::Comma) {
            end = end + 1;
        }
        Some((end, items))
    }

    /// A target and a comma, then more comma-separated targets; a second trailing comma
    /// right after the first is an error.
    fn star_targets_tuple(&self, st: &mut ParseState, pos: usize) -> (r: Option<(usize, Vec<Expr>)>)
        requires
            self.ready(*old(st), pos),
        ensures
            old(st).follows(*final(st), self.len()),
            self.memo_ok(*final(st)),
            advances(pos as int, r, self.len()),
        decreases self.len() - pos, 75nat,
    {
        let (e1, first) = match self.star_target(st, pos) {
            Some(x) => x,
            None => return None,
        };
        if !self.expect(st, e1, Sym::Comma) {
            return None;
        }
        let mut end = e1 + 1;
        let mut items: Vec<Expr> = Vec::new();
        items.push(first);
        if let Some((e2, second)) = self.star_target(st, end) {
            items.push(second);
            end = e2;
            loop
                invariant
                    pos < end <= self.len(),
                    self.wf(),
                    self.len() <= usize::MAX,
                    old(st).follows(*st, self.len()),
                    self.memo_ok(*st),
                decreases self.len() - end,
            {
                if !self.expect(st, end, Sym::Comma) {
                    break;
                }
                match self.star_target(st, end + 1) {
                    Some((e, x)) => {
                        items.push(x);
                        end = e;
                    },
                    None => break,
                }
            }
        }
        if self.expect(st, end, Sym::Comma) {
            if items.len() == 1 {
                st.fail_at(end + 1);
                return None;
            }
            end = end + 1;
        }
        Some((end, items))
    }

    /// The target of an augmented or annotated assignment: an attribute, a subscript, a name,
    /// or one of these in parentheses.
    pub fn single_target(&self, st: &mut ParseState, pos: usize) -> (r: Option<(usize, Expr)>)
        requires
            self.ready(*old(st), pos),
        ensures
            old(st).follows(*final(st), self.len()),
            self.memo_ok(*final(st)),
            expr_outcome(pos as int, r, self.len(), Some(ExprContext::Store)),
            self.stops(pos as int) ==> r is None,
            self.simple_node(pos as int) is Some && self.cont_rank(pos + 1) < 12 ==> r is None || r->Some_0.0 == pos + 1,
            self.unary_at(pos as int) is Some ==> r is None,
        decreases self.len() - pos, 60nat,
    {
        if let Some(r) = self.single_subscript_attribute_target(st, pos, ExprContext::Store) {
            return Some(r);
        }
        if let Some(r) = self.name_expr(st, pos, ExprContext::Store) {
            return Some(r);
        }
        if self.expect(st, pos, Sym::Lpar) {
            if let Some((e, x)) = self.single_target(st, pos + 1) {
                if self.expect(st, e, Sym::Rpar) {
                    return Some((e + 1, x));
                }
            }
        }
        None
    }

    /// `p.name` or `p[slices]` with context `ctx`, not followed by another `.`, `[` or `(`;
    /// the inner parts keep the load context.
    pub fn single_subscript_attribute_target(&self, st: &mut ParseState, pos: usize, ctx: ExprContext) -> (r: Option<(usize, Expr)>)
        requires
            self.ready(*old(st), pos),
        ensures
            old(st).follows(*final(st), self.len()),
            self.memo_ok(*final(st)),
            expr_outcome(pos as int, r, self.len(), Some(ctx)),
            self.stops(pos as int) || (self.name_at(pos as int) && self.stops(pos + 1)) ==> r is None,
            self.target_claim(pos as int, r, ctx),
            (self.simple_node(pos as int) is Some && self.cont_rank(pos + 1) < 12) || self.unary_at(pos as int) is Some ==> r is None,
            r is Some ==> match r->Some_0.1.node {
                ExprKind::Attribute { value, .. } => loads(*value),
                ExprKind::Subscript { value, slice, .. } => loads(*value) && loads(*slice),
                _ => false,
            },
        decreases self.len() - pos, 50nat,
    {
        if let Some((e1, value)) = self.t_primary(st, pos) {
            if self.expect(st, e1, Sym::Dot) {
                if let Some((e2, attr)) = self.name(st, e1 + 1) {
                    if !self.t_lookahead(e2) {
                        let kind = ExprKind::Attribute { value: Box::new(value), attr, ctx };
                        return Some((e2, self.node(pos, e2, kind)));
                    }
                }
            }
        }
        if let Some((e1, value)) = self.t_primary(st, pos) {
            if self.expect(st, e1, Sym::Lsqb) {
                if let Some((e2, slice)) = self.slices(st, e1 + 1) {
                    if self.expect(st, e2, Sym::Rsqb) && !self.t_lookahead(e2 + 1) {
                        let kind = ExprKind::Subscript { value: Box::new(value), slice: Box::new(slice), ctx };
                        return Some((e2 + 1, self.node(pos, e2 + 1, kind)));
                    }
                }
            }
        }
        None
    }

    /// Whether the token at `pos` continues a primary: `(`, `[` or `.`.
    pub fn t_lookahead(&self, pos: usize) -> (r: bool)
        ensures
            r == (self.sym_at(pos as int, Sym::Lpar) || self.sym_at(pos as int, Sym::Lsqb)
                || self.sym_at(pos as int, Sym::Dot)),
    {
        self.peek(pos, Sym::Lpar) || self.peek(pos, Sym::Lsqb) || self.peek(pos, Sym::Dot)
    }

    /// The prefix of an attribute or subscript target: a primary that is followed by `.`, `[`
    /// or `(`.
    pub fn t_primary(&self, st: &mut ParseState, pos: usize) -> (r: Option<(usize, Expr)>)
        requires
            self.ready(*old(st), pos),
        ensures
            old(st).follows(*final(st), self.len()),
            self.memo_ok(*final(st)),
            self.fits(16, pos as int, r),
        decreases self.len() - pos, 40nat,
    {
        if pos < self.tokens.len() {
            if let Some(r) = st.recall(Rule::TPrimary, pos, self) {
                return r;
            }
        }
        let r = self.t_primary_grow(st, pos);
        if pos < self.tokens.len() {
            st.remember(Rule::TPrimary, pos, &r, self);
        }
        r
    }

    /// Seed and grow for `t_primary`.
    fn t_primary_grow(&self, st: &mut ParseState, pos: usize) -> (r: Option<(usize, Expr)>)
        requires
            self.ready(*old(st), pos),
        ensures
            old(st).follows(*final(st), self.len()),
            self.memo_ok(*final(st)),
            self.fits(16, pos as int, r),
        decreases self.len() - pos, 35nat,
    {
        let (mut end, mut best) = match self.atom(st, pos) {
            Some(x) => x,
            None => return None,
        };
        if !self.t_lookahead(end) {
            return None;
        }
        loop
            invariant
                pos < end <= self.len(),
                self.lone_target(pos as int) ==> end == pos + 1 && best == self.name_node(pos as int, ExprContext::Load),
                loads(best),
                self.wf(),
                self.len() <= usize::MAX,
                old(st).follows(*st, self.len()),
                self.memo_ok(*st),
            decreases self.len() - end,
        {
            match self.t_primary_step(st, pos, end, best) {
                Ok((e, x)) => {
                    best = x;
                    end = e;
                },
                Err(x) => {
                    best = x;
                    break;
                },
            }
        }
        Some((end, best))
    }

    /// The recursive alternatives of `t_primary` applied to `left`, each required to be
    /// followed by `.`, `[` or `(`.
    fn t_primary_step(&self, st: &mut ParseState, pos: usize, end: usize, left: Expr) -> (r: Result<(usize, Expr), Expr>)
        requires
            self.ready(*old(st), end),
            pos < end,
        ensures
            old(st).follows(*final(st), self.len()),
            self.memo_ok(*final(st)),
            r is Ok ==> end < r->Ok_0.0 <= self.len() && loads(r->Ok_0.1),
            r is Err ==> r->Err_0 == left,
            self.lone_target(pos as int) && end == pos + 1 ==> r is Err,
        decreases self.len() - end, 30nat,
    {
        if self.expect(st, end, Sym::Dot) {
            if let Some((e, attr)) = self.name(st, end + 1) {
                if self.t_lookahead(e) {
                    let kind = ExprKind::Attribute { value: Box::new(left), attr, ctx: ExprContext::Load };
                    return Ok((e, self.node(pos, e, kind)));
                }
            }
        }
        if self.expect(st, end, Sym::Lsqb) {
            if let Some((e, slice)) = self.slices(st, end + 1) {
                if self.expect(st, e, Sym::Rsqb) && self.t_lookahead(e + 1) {
                    let kind = ExprKind::Subscript {
                        value: Box::new(left),
                        slice: Box::new(slice),
                        ctx: ExprContext::Load,
                    };
                    return Ok((e + 1, self.node(pos, e + 1, kind)));
                }
            }
        }
        if let Some((e, g)) = self.genexp(st, end) {
            if self.t_lookahead(e) {
                let mut args: Vec<Expr> = Vec::new();
                args.push(g);
                let kind = ExprKind::Call { func: Box::new(left), args, keywords: Vec::new() };
                return Ok((e, self.node(pos, e, kind)));
            }
        }
        if self.expect(st, end, Sym::Lpar) {
            let (inner, args, keywords) = match self.arguments(st, end + 1) {
                Some((e, (a, k))) => (e, a, k),
                None => (end + 1, Vec::new(), Vec::new()),
            };
            if self.expect(st, inner, Sym::Rpar) && self.t_lookahead(inner + 1) {
                let kind = ExprKind::Call { func: Box::new(left), args, keywords };
                return Ok((inner + 1, self.node(pos, inner + 1, kind)));
            }
        }
        Err(left)
    }

    /// Comma-separated deletion targets with an optional trailing comma.
    pub fn del_targets(&self, st: &mut ParseState, pos: usize) -> (r: Option<(usize, Vec<Expr>)>)
        requires
            self.ready(*old(st), pos),
        ensures
            old(st).follows(*final(st), self.len()),
            self.memo_ok(*final(st)),
            advances(pos as int, r, self.len()),
            self.del_items(pos as int) is Some ==> r is Some && r->Some_0.0 == self.del_items(pos as int)->Some_0.0 && r->Some_0.1@ == self.del_items(pos as int)->Some_0.1,
        decreases self.len() - pos, 70nat,
    {
        let (mut end, first) = match self.del_target(st, pos) {
            Some(x) => x,
            None => return None,
        };
        let mut items: Vec<Expr> = Vec::new();
        items.push(first);
        loop
            invariant
                pos < end <= self.len(),
                self.del_items(pos as int) is Some ==> self.del_rest(end as int) is Some && items@ + self.del_rest(end as int)->Some_0.1 == self.del_items(pos as int)->Some_0.1 && self.del_rest(end as int)->Some_0.0 == self.del_items(pos as int)->Some_0.0,
                self.wf(),
                self.len() <= usize::MAX,
                old(st).follows(*st, self.len()),
                self.memo_ok(*st),
            ensures
                self.del_items(pos as int) is Some ==> items@ == self.del_items(pos as int)->Some_0.1 && ((!self.sym_at(end as int, Sym::Comma) && self.del_items(pos as int)->Some_0.0 == end) || (self.sym_at(end as int, Sym::Comma) && self.del_items(pos as int)->Some_0.0 == end + 1)),
            decreases self.len() - end,
        {
            if !self.expect(st, end, Sym::Comma) {
                proof {
                    if self.del_items(pos as int) is Some {
                        assert(items@ + Seq::<Expr>::empty() =~= items@);
                    }
                }
                break;
            }
            let ghost before = items@;
            match self.del_target(st, end + 1) {
                Some((e, x)) => {
                    items.push(x);
                    end = e;
                    proof {
                        if self.del_items(pos as int) is Some {
                            let t = self.del_rest(e as int)->Some_0.1;
                            assert(items@ + t =~= before + (seq![x] + t));
                        }
                    }
                },
                None => {
                    proof {
                        if self.del_items(pos as int) is Some {
                            assert(items@ + Seq::<Expr>::empty() =~= items@);
                        }
                    }
                    break;
                },
            }
        }
        if self.expect(st, end, Sym::Comma) {
            end = end + 1;
        }
        Some((end, items))
    }

    /// An attribute or subscript, a name, or a parenthesised or bracketed group of targets,
    /// all with the delete context.
    pub fn del_target(&self, st: &mut ParseState, pos: usize) -> (r: Option<(usize, Expr)>)
        requires
            self.ready(*old(st), pos),
        ensures
            old(st).follows(*final(st), self.len()),
            self.memo_ok(*final(st)),
            self.fits(17, pos as int, r),
        decreases self.len() - pos, 60nat,
    {
        if pos < self.tokens.len() {
            if let Some(r) = st.recall(Rule::DelTarget, pos, self) {
                return r;
            }
        }
        let r = match self.single_subscript_attribute_target(st, pos, ExprContext::Del) {
            Some(x) => Some(x),
            None => self.del_t_atom(st, pos),
        };
        if pos < self.tokens.len() {
            st.remember(Rule::DelTarget, pos, &r, self);
        }
        r
    }

    fn del_t_atom(&self, st: &mut ParseState, pos: usize) -> (r: Option<(usize, Expr)>)
        requires
            self.ready(*old(st), pos),
        ensures
            old(st).follows(*final(st), self.len()),
            self.memo_ok(*final(st)),
            expr_outcome(pos as int, r, self.len(), Some(ExprContext::Del)),
            self.name_outcome(pos as int, r, ExprContext::Del),
        decreases self.len() - pos, 30nat,
    {
        if let Some(r) = self.name_expr(st, pos, ExprContext::Del) {
            return Some(r);
        }
        if self.expect(st, pos, Sym::Lpar) {
            if let Some((e, x)) = self.del_target(st, pos + 1) {
                if self.expect(st, e, Sym::Rpar) {
                    return Some((e + 1, x));
                }
            }
            if let Some((e, elts)) = self.del_targets(st, pos + 1) {
                if self.expect(st, e, Sym::Rpar) {
                    let kind = ExprKind::Tuple { elts, ctx: ExprContext::Del };
                    return Some((e + 1, self.node(pos, e + 1, kind)));
                }
            }
        }
        if self.expect(st, pos, Sym::Lsqb) {
            if let Some((e, elts)) = self.del_targets(st, pos + 1) {
                if self.expect(st, e, Sym::Rsqb) {
                    let kind = ExprKind::List { elts, ctx: ExprContext::Del };
                    return Some((e + 1, self.node(pos, e + 1, kind)));
                }
            }
        }
        None
    }
}

} // verus!
