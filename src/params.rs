use vstd::prelude::*;
use crate::ast::{Arg, ArgData, Arguments, Expr, ExprKind};
use crate::engine::{advances, expr_outcome, ParseState};
use crate::nodes::{make_arguments, make_empty_arguments, StarEtc};
use crate::session::Parser;
use crate::token::Sym;

verus! {

impl Parser {
    /// `lambda params: body`.
    pub fn lambdef(&self, st: &mut ParseState, pos: usize) -> (r: Option<(usize, Expr)>)
        requires
            self.ready(*old(st), pos),
        ensures
            old(st).follows(*final(st), self.len()),
            self.memo_ok(*final(st)),
            expr_outcome(pos as int, r, self.len(), None),
            r is Some ==> self.sym_at(pos as int, Sym::Lambda),
        decreases self.len() - pos, 10nat,
    {
        if !self.expect(st, pos, Sym::Lambda) {
            return None;
        }
        let (e1, args) = match self.parameters(st, pos + 1, true) {
            Some(x) => x,
            None => (pos + 1, make_empty_arguments()),
        };
        if !self.expect(st, e1, Sym::Colon) {
            return None;
        }
        match self.expression(st, e1 + 1) {
            Some((e2, body)) => {
                let kind = ExprKind::Lambda { args: Box::new(args), body: Box::new(body) };
                Some((e2, self.node(pos, e2, kind)))
            },
            None => None,
        }
    }

    /// A parameter list: of a `def` (parameters may be annotated, the list ends at `)`) or of
    /// a `lambda` (no annotations, the list ends at `:`).
    pub fn parameters(&self, st: &mut ParseState, pos: usize, lambda: bool) -> (r: Option<(usize, Arguments)>)
        requires
            self.ready(*old(st), pos),
        ensures
            old(st).follows(*final(st), self.len()),
            self.memo_ok(*final(st)),
            advances(pos as int, r, self.len()),
        decreases self.len() - pos, 50nat,
    {
        if let Some((e1, a)) = self.slash_no_default(st, pos, lambda) {
            let (e2, c) = self.params_no_default(st, e1, lambda);
            let (e3, d) = self.params_with_default(st, e2, lambda);
            let (e4, e) = self.star_etc_opt(st, e3, lambda);
            return Some((e4, make_arguments(a, (Vec::new(), Vec::new()), c, d, e)));
        }
        if let Some((e1, b)) = self.slash_with_default(st, pos, lambda) {
            let (e2, d) = self.params_with_default(st, e1, lambda);
            let (e3, e) = self.star_etc_opt(st, e2, lambda);
            return Some((e3, make_arguments(Vec::new(), b, Vec::new(), d, e)));
        }
        let (e1, c) = self.params_no_default(st, pos, lambda);
        if c.len() > 0 {
            let (e2, d) = self.params_with_default(st, e1, lambda);
            let (e3, e) = self.star_etc_opt(st, e2, lambda);
            return Some((e3, make_arguments(Vec::new(), (Vec::new(), Vec::new()), c, d, e)));
        }
        let (e1, d) = self.params_with_default(st, pos, lambda);
        if d.len() > 0 {
            let (e2, e) = self.star_etc_opt(st, e1, lambda);
            return Some((e2, make_arguments(Vec::new(), (Vec::new(), Vec::new()), Vec::new(), d, e)));
        }
        match self.star_etc(st, pos, lambda) {
            Some((e1, e)) => Some(
                (e1, make_arguments(Vec::new(), (Vec::new(), Vec::new()), Vec::new(), Vec::new(), Some(e))),
            ),
            None => None,
        }
    }

    /// Parameters without defaults followed by `/`.
    fn slash_no_default(&self, st: &mut ParseState, pos: usize, lambda: bool) -> (r: Option<(usize, Vec<Arg>)>)
        requires
            self.ready(*old(st), pos),
        ensures
            old(st).follows(*final(st), self.len()),
            self.memo_ok(*final(st)),
            advances(pos as int, r, self.len()),
        decreases self.len() - pos, 40nat,
    {
        let (e1, a) = self.params_no_default(st, pos, lambda);
        if a.len() == 0 || !self.expect(st, e1, Sym::Slash) {
            return None;
        }
        match self.param_split(st, e1 + 1, lambda) {
            Some(e2) => Some((e2, a)),
            None => None,
        }
    }

    /// Parameters without defaults, then at least one with a default, followed by `/`.
    fn slash_with_default(&self, st: &mut ParseState, pos: usize, lambda: bool) -> (r: Option<(usize, (Vec<Arg>, Vec<(Arg, Expr)>))>)
        requires
            self.ready(*old(st), pos),
        ensures
            old(st).follows(*final(st), self.len()),
            self.memo_ok(*final(st)),
            advances(pos as int, r, self.len()),
        decreases self.len() - pos, 40nat,
    {
        let (e1, a) = self.params_no_default(st, pos, lambda);
        let (e2, b) = self.params_with_default(st, e1, lambda);
        if b.len() == 0 || !self.expect(st, e2, Sym::Slash) {
            return None;
        }
        match self.param_split(st, e2 + 1, lambda) {
            Some(e3) => Some((e3, (a, b))),
            None => None,
        }
    }

    /// Zero or more parameters without defaults.
    fn params_no_default(&self, st: &mut ParseState, pos: usize, lambda: bool) -> (r: (usize, Vec<Arg>))
        requires
            self.ready(*old(st), pos),
        ensures
            old(st).follows(*final(st), self.len()),
            self.memo_ok(*final(st)),
            pos <= r.0 <= self.len(),
            r.1@.len() > 0 ==> pos < r.0,
        decreases self.len() - pos, 35nat,
    {
        let mut end = pos;
        let mut items: Vec<Arg> = Vec::new();
        loop
            invariant
                pos <= end <= self.len(),
                items@.len() > 0 ==> pos < end,
                self.wf(),
                self.len() <= usize::MAX,
                old(st).follows(*st, self.len()),
                self.memo_ok(*st),
            decreases self.len() - end,
        {
            match self.param_no_default(st, end, lambda) {
                Some((e, x)) => {
                    items.push(x);
                    end = e;
                },
                None => break,
            }
        }
        (end, items)
    }

    /// Zero or more parameters with defaults.
    fn params_with_default(&self, st: &mut ParseState, pos: usize, lambda: bool) -> (r: (usize, Vec<(Arg, Expr)>))
        requires
            self.ready(*old(st), pos),
        ensures
            old(st).follows(*final(st), self.len()),
            self.memo_ok(*final(st)),
            pos <= r.0 <= self.len(),
            r.1@.len() > 0 ==> pos < r.0,
        decreases self.len() - pos, 35nat,
    {
        let mut end = pos;
        let mut items: Vec<(Arg, Expr)> = Vec::new();
        loop
            invariant
                pos <= end <= self.len(),
                items@.len() > 0 ==> pos < end,
                self.wf(),
                self.len() <= usize::MAX,
                old(st).follows(*st, self.len()),
                self.memo_ok(*st),
            decreases self.len() - end,
        {
            match self.param_with_default(st, end, lambda) {
                Some((e, x)) => {
                    items.push(x);
                    end = e;
                },
                None => break,
            }
        }
        (end, items)
    }

    /// Zero or more parameters with optional defaults.
    fn params_maybe_default(&self, st: &mut ParseState, pos: usize, lambda: bool) -> (r: (usize, Vec<(Arg, Option<Expr>)>))
        requires
            self.ready(*old(st), pos),
        ensures
            old(st).follows(*final(st), self.len()),
            self.memo_ok(*final(st)),
            pos <= r.0 <= self.len(),
            r.1@.len() > 0 ==> pos < r.0,
        decreases self.len() - pos, 35nat,
    {
        let mut end = pos;
        let mut items: Vec<(Arg, Option<Expr>)> = Vec::new();
        loop
            invariant
                pos <= end <= self.len(),
                items@.len() > 0 ==> pos < end,
                self.wf(),
                self.len() <= usize::MAX,
                old(st).follows(*st, self.len()),
                self.memo_ok(*st),
            decreases self.len() - end,
        {
            match self.param_maybe_default(st, end, lambda) {
                Some((e, x)) => {
                    items.push(x);
                    end = e;
                },
                None => break,
            }
        }
        (end, items)
    }

    /// The optional `*`-part of a parameter list.
    fn star_etc_opt(&self, st: &mut ParseState, pos: usize, lambda: bool) -> (r: (usize, Option<StarEtc>))
        requires
            self.ready(*old(st), pos),
        ensures
            old(st).follows(*final(st), self.len()),
            self.memo_ok(*final(st)),
            pos <= r.0 <= self.len(),
        decreases self.len() - pos, 45nat,
    {
        match self.star_etc(st, pos, lambda) {
            Some((e, x)) => (e, Some(x)),
            None => (pos, None),
        }
    }

    /// `*args` or a bare `*`, the keyword-only parameters, and `**kwargs`; or `**kwargs` alone.
    fn star_etc(&self, st: &mut ParseState, pos: usize, lambda: bool) -> (r: Option<(usize, StarEtc)>)
        requires
            self.ready(*old(st), pos),
        ensures
            old(st).follows(*final(st), self.len()),
            self.memo_ok(*final(st)),
            advances(pos as int, r, self.len()),
        decreases self.len() - pos, 40nat,
    {
        if self.expect(st, pos, Sym::Star) {
            if let Some((e1, a)) = self.param_no_default(st, pos + 1, lambda) {
                let (e2, b) = self.params_maybe_default(st, e1, lambda);
                let (e3, c) = match self.kwds(st, e2, lambda) {
                    Some((e, k)) => (e, Some(k)),
                    None => (e2, None),
                };
                return Some((e3, (Some(a), b, c)));
            }
        }
        if self.expect(st, pos, Sym::Star) && self.expect(st, pos + 1, Sym::Comma) {
            let (e1, b) = self.params_maybe_default(st, pos + 2, lambda);
            if b.len() > 0 {
                let (e2, c) = match self.kwds(st, e1, lambda) {
                    Some((e, k)) => (e, Some(k)),
                    None => (e1, None),
                };
                return Some((e2, (None, b, c)));
            }
        }
        match self.kwds(st, pos, lambda) {
            Some((e, c)) => Some((e, (None, Vec::new(), Some(c)))),
            None => None,
        }
    }

    /// `**kwargs`.
    fn kwds(&self, st: &mut ParseState, pos: usize, lambda: bool) -> (r: Option<(usize, Arg)>)
        requires
            self.ready(*old(st), pos),
        ensures
            old(st).follows(*final(st), self.len()),
            self.memo_ok(*final(st)),
            advances(pos as int, r, self.len()),
        decreases self.len() - pos, 10nat,
    {
        if !self.expect(st, pos, Sym::DoubleStar) {
            return None;
        }
        self.param_no_default(st, pos + 1, lambda)
    }

    /// A parameter and the comma or closing token after it.
    fn param_no_default(&self, st: &mut ParseState, pos: usize, lambda: bool) -> (r: Option<(usize, Arg)>)
        requires
            self.ready(*old(st), pos),
        ensures
            old(st).follows(*final(st), self.len()),
            self.memo_ok(*final(st)),
            advances(pos as int, r, self.len()),
        decreases self.len() - pos, 30nat,
    {
        let (e1, a) = match self.param(st, pos, lambda) {
            Some(x) => x,
            None => return None,
        };
        match self.param_split(st, e1, lambda) {
            Some(e2) => Some((e2, a)),
            None => None,
        }
    }

    /// A parameter with `= default`.
    fn param_with_default(&self, st: &mut ParseState, pos: usize, lambda: bool) -> (r: Option<(usize, (Arg, Expr))>)
        requires
            self.ready(*old(st), pos),
        ensures
            old(st).follows(*final(st), self.len()),
            self.memo_ok(*final(st)),
            advances(pos as int, r, self.len()),
        decreases self.len() - pos, 30nat,
    {
        let (e1, a) = match self.param(st, pos, lambda) {
            Some(x) => x,
            None => return None,
        };
        let (e2, d) = match self.default(st, e1) {
            Some(x) => x,
            None => return None,
        };
        match self.param_split(st, e2, lambda) {
            Some(e3) => Some((e3, (a, d))),
            None => None,
        }
    }

    /// A parameter with an optional `= default`.
    fn param_maybe_default(&self, st: &mut ParseState, pos: usize, lambda: bool) -> (r: Option<(usize, (Arg, Option<Expr>))>)
        requires
            self.ready(*old(st), pos),
        ensures
            old(st).follows(*final(st), self.len()),
            self.memo_ok(*final(st)),
            advances(pos as int, r, self.len()),
        decreases self.len() - pos, 30nat,
    {
        let (e1, a) = match self.param(st, pos, lambda) {
            Some(x) => x,
            None => return None,
        };
        let (e2, d) = match self.default(st, e1) {
            Some((e, d)) => (e, Some(d)),
            None => (e1, None),
        };
        match self.param_split(st, e2, lambda) {
            Some(e3) => Some((e3, (a, d))),
            None => None,
        }
    }

    /// A parameter name, with `: annotation` outside lambdas.
    fn param(&self, st: &mut ParseState, pos: usize, lambda: bool) -> (r: Option<(usize, Arg)>)
        requires
            self.ready(*old(st), pos),
        ensures
            old(st).follows(*final(st), self.len()),
            self.memo_ok(*final(st)),
            advances(pos as int, r, self.len()),
        decreases self.len() - pos, 20nat,
    {
        let (e1, arg) = match self.name(st, pos) {
            Some(x) => x,
            None => return None,
        };
        let mut end = e1;
        let mut annotation: Option<Box<Expr>> = None;
        if !lambda && self.expect(st, e1, Sym::Colon) {
            if let Some((e2, a)) = self.expression(st, e1 + 1) {
                annotation = Some(Box::new(a));
                end = e2;
            }
        }
        let (location, end_location) = self.span(pos, end);
        Some((end, Arg { location, end_location, node: ArgData { arg, annotation, type_comment: None } }))
    }

    /// `= expression`.
    fn default(&self, st: &mut ParseState, pos: usize) -> (r: Option<(usize, Expr)>)
        requires
            self.ready(*old(st), pos),
        ensures
            old(st).follows(*final(st), self.len()),
            self.memo_ok(*final(st)),
            advances(pos as int, r, self.len()),
        decreases self.len() - pos, 10nat,
    {
        if !self.expect(st, pos, Sym::Equal) {
            return None;
        }
        self.expression(st, pos + 1)
    }

    /// After a parameter: a comma (taken), or the closing `)` (or `:` of a lambda), left for
    /// the caller.
    fn param_split(&self, st: &mut ParseState, pos: usize, lambda: bool) -> (r: Option<usize>)
        requires
            old(st).inv(self.len()),
            self.memo_ok(*old(st)),
            old(st).furthest <= self.len(),
            pos <= self.len(),
            self.len() <= usize::MAX,
        ensures
            old(st).follows(*final(st), self.len()),
            self.memo_ok(*final(st)),
            r is Some ==> pos <= r->Some_0 <= self.len(),
    {
        if self.expect(st, pos, Sym::Comma) {
            return Some(pos + 1);
        }
        let close = if lambda {
            Sym::Colon
        } else {
            Sym::Rpar
        };
        if self.peek(pos, close) {
            Some(pos)
        } else {
            None
        }
    }
}

} // verus!
