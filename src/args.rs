use vstd::prelude::*;
use crate::ast::{Expr, ExprContext, ExprKind, Keyword, KeywordData};
use crate::engine::{advances, expr_outcome, ParseState};
use crate::nodes::{keyword_or_starred_partition, KeywordOrStarred};
use crate::session::Parser;
use crate::token::Sym;

verus! {

impl Parser {
    /// The arguments of a call, up to (not including) the closing `)`: positional arguments,
    /// then starred and keyword arguments.
    pub fn arguments(&self, st: &mut ParseState, pos: usize) -> (r: Option<(usize, (Vec<Expr>, Vec<Keyword>))>)
        requires
            self.ready(*old(st), pos),
        ensures
            old(st).follows(*final(st), self.len()),
            self.memo_ok(*final(st)),
            advances(pos as int, r, self.len()),
        decreases self.len() - pos, 195nat,
    {
        let (mut end, a) = match self.args(st, pos) {
            Some(x) => x,
            None => return None,
        };
        if self.expect(st, end, Sym::Comma) {
            end = end + 1;
        }
        if self.peek(end, Sym::Rpar) {
            Some((end, a))
        } else {
            None
        }
    }

    /// A positional call argument: `*e`, `NAME := e`, or an expression, not followed by `=`.
    fn positional_arg(&self, st: &mut ParseState, pos: usize) -> (r: Option<(usize, Expr)>)
        requires
            self.ready(*old(st), pos),
        ensures
            old(st).follows(*final(st), self.len()),
            self.memo_ok(*final(st)),
            expr_outcome(pos as int, r, self.len(), None),
        decreases self.len() - pos, 188nat,
    {
        if let Some(r) = self.starred_expression(st, pos) {
            return Some(r);
        }
        let r = match self.assignment_expression(st, pos) {
            Some(x) => Some(x),
            None => self.expression_not_walrus(st, pos),
        };
        match r {
            Some((e, x)) => {
                if self.peek(e, Sym::Equal) {
                    None
                } else {
                    Some((e, x))
                }
            },
            None => None,
        }
    }

    fn args(&self, st: &mut ParseState, pos: usize) -> (r: Option<(usize, (Vec<Expr>, Vec<Keyword>))>)
        requires
            self.ready(*old(st), pos),
        ensures
            old(st).follows(*final(st), self.len()),
            self.memo_ok(*final(st)),
            advances(pos as int, r, self.len()),
        decreases self.len() - pos, 190nat,
    {
        if let Some((e1, first)) = self.positional_arg(st, pos) {
            let mut end = e1;
            let mut positional: Vec<Expr> = Vec::new();
            positional.push(first);
            loop
                invariant
                    pos < end <= self.len(),
                    self.wf(),
                    self.len() <= usize::MAX,
                    old(st).follows(*st, self.len()),
                    self.memo_ok(*st),
                decreases self.len() - end,
            {
                if !self.expect(st, end, Sym::Comma) {
                    break;
                }
                match self.positional_arg(st, end + 1) {
                    Some((e, x)) => {
                        positional.push(x);
                        end = e;
                    },
                    None => break,
                }
            }
            let (e2, rest) = if self.expect(st, end, Sym::Comma) {
                match self.kwargs(st, end + 1) {
                    Some(x) => x,
                    None => (end, Vec::new()),
                }
            } else {
                (end, Vec::new())
            };
            let (mut starred, keywords) = keyword_or_starred_partition(rest);
            positional.append(&mut starred);
            return Some((e2, (positional, keywords)));
        }
        match self.kwargs(st, pos) {
            Some((e, items)) => Some((e, keyword_or_starred_partition(items))),
            None => None,
        }
    }

    /// Keyword and starred arguments: `name=e` and `*e` items, then `name=e` and `**e` items.
    fn kwargs(&self, st: &mut ParseState, pos: usize) -> (r: Option<(usize, Vec<KeywordOrStarred>)>)
        requires
            self.ready(*old(st), pos),
        ensures
            old(st).follows(*final(st), self.len()),
            self.memo_ok(*final(st)),
            advances(pos as int, r, self.len()),
        decreases self.len() - pos, 30nat,
    {
        if let Some((e1, mut a)) = self.kwarg_list(st, pos, false) {
            if self.expect(st, e1, Sym::Comma) {
                if let Some((e2, mut b)) = self.kwarg_list(st, e1 + 1, true) {
                    a.append(&mut b);
                    return Some((e2, a));
                }
            }
        }
        if let Some(r) = self.kwarg_list(st, pos, false) {
            return Some(r);
        }
        self.kwarg_list(st, pos, true)
    }

    /// Comma-separated keyword arguments, with `*e` items (`double` false) or `**e` items
    /// (`double` true) among them.
    fn kwarg_list(&self, st: &mut ParseState, pos: usize, double: bool) -> (r: Option<(usize, Vec<KeywordOrStarred>)>)
        requires
            self.ready(*old(st), pos),
        ensures
            old(st).follows(*final(st), self.len()),
            self.memo_ok(*final(st)),
            advances(pos as int, r, self.len()),
        decreases self.len() - pos, 25nat,
    {
        let (mut end, first) = match self.kwarg(st, pos, double) {
            Some(x) => x,
            None => return None,
        };
        let mut items: Vec<KeywordOrStarred> = Vec::new();
        items.push(first);
        loop
            invariant
                pos < end <= self.len(),
                self.wf(),
                self.len() <= usize::MAX,
                old(st).follows(*st, self.len()),
                self.memo_ok(*st),
            decreases self.len() - end,
        {
            if !self.expect(st, end, Sym::Comma) {
                break;
            }
            match self.kwarg(st, end + 1, double) {
                Some((e, x)) => {
                    items.push(x);
                    end = e;
                },
                None => break,
            }
        }
        Some((end, items))
    }

    /// `name=e`, or `*e` (`double` false) or `**e` (`double` true).
    fn kwarg(&self, st: &mut ParseState, pos: usize, double: bool) -> (r: Option<(usize, KeywordOrStarred)>)
        requires
            self.ready(*old(st), pos),
        ensures
            old(st).follows(*final(st), self.len()),
            self.memo_ok(*final(st)),
            advances(pos as int, r, self.len()),
        decreases self.len() - pos, 20nat,
    {
        if let Some((e1, arg)) = self.name(st, pos) {
            if self.expect(st, e1, Sym::Equal) {
                if let Some((e2, value)) = self.expression(st, e1 + 1) {
                    let (location, end_location) = self.span(pos, e2);
                    let kw = Keyword { location, end_location, node: KeywordData { arg: Some(arg), value } };
                    return Some((e2, KeywordOrStarred::Keyword(kw)));
                }
            }
        }
        if !double {
            return match self.starred_expression(st, pos) {
                Some((e, x)) => Some((e, KeywordOrStarred::Starred(x))),
                None => None,
            };
        }
        if self.expect(st, pos, Sym::DoubleStar) {
            if let Some((e, value)) = self.expression(st, pos + 1) {
                let (location, end_location) = self.span(pos, e);
                let kw = Keyword { location, end_location, node: KeywordData { arg: None, value } };
                return Some((e, KeywordOrStarred::Keyword(kw)));
            }
        }
        None
    }

    /// The inside of a subscript: one slice, or several (or a trailing comma) as a tuple.
    pub fn slices(&self, st: &mut ParseState, pos: usize) -> (r: Option<(usize, Expr)>)
        requires
            self.ready(*old(st), pos),
        ensures
            old(st).follows(*final(st), self.len()),
            self.memo_ok(*final(st)),
            expr_outcome(pos as int, r, self.len(), None),
            self.simple_node(pos as int) is Some && self.sym_at(pos + 1, Sym::Rsqb) ==> r == Some(
                ((pos + 1) as usize, self.simple_node(pos as int)->Some_0),
            ),
        decreases self.len() - pos, 210nat,
    {
        if let Some((e, x)) = self.slice(st, pos) {
            if !self.peek(e, Sym::Comma) {
                return Some((e, x));
            }
        }
        let (mut end, first) = match self.slice_or_starred(st, pos) {
            Some(x) => x,
            None => return None,
        };
        let mut elts: Vec<Expr> = Vec::new();
        elts.push(first);
        loop
            invariant
                pos < end <= self.len(),
                self.wf(),
                self.len() <= usize::MAX,
                old(st).follows(*st, self.len()),
                self.memo_ok(*st),
            decreases self.len() - end,
        {
            if !self.expect(st, end, Sym::Comma) {
                break;
            }
            match self.slice_or_starred(st, end + 1) {
                Some((e, x)) => {
                    elts.push(x);
                    end = e;
                },
                None => break,
            }
        }
        if self.expect(st, end, Sym::Comma) {
            end = end + 1;
        }
        Some((end, self.node(pos, end, ExprKind::Tuple { elts, ctx: ExprContext::Load })))
    }

    fn slice_or_starred(&self, st: &mut ParseState, pos: usize) -> (r: Option<(usize, Expr)>)
        requires
            self.ready(*old(st), pos),
        ensures
            old(st).follows(*final(st), self.len()),
            self.memo_ok(*final(st)),
            expr_outcome(pos as int, r, self.len(), None),
        decreases self.len() - pos, 205nat,
    {
        if let Some(r) = self.slice(st, pos) {
            return Some(r);
        }
        self.starred_expression(st, pos)
    }

    /// `lower:upper:step` with every part optional, or a named expression.
    pub fn slice(&self, st: &mut ParseState, pos: usize) -> (r: Option<(usize, Expr)>)
        requires
            self.ready(*old(st), pos),
        ensures
            old(st).follows(*final(st), self.len()),
            self.memo_ok(*final(st)),
            expr_outcome(pos as int, r, self.len(), None),
            self.simple_node(pos as int) is Some && self.sym_at(pos + 1, Sym::Rsqb) ==> r == Some(
                ((pos + 1) as usize, self.simple_node(pos as int)->Some_0),
            ),
        decreases self.len() - pos, 200nat,
    {
        proof {
            if self.simple_node(pos as int) is Some && self.sym_at(pos + 1, Sym::Rsqb) {
                self.lemma_simple_level(5, pos as int);
            }
        }
        let (e1, lower) = match self.expression(st, pos) {
            Some((e, x)) => (e, Some(Box::new(x))),
            None => (pos, None),
        };
        if self.expect(st, e1, Sym::Colon) {
            let (e2, upper) = match self.expression(st, e1 + 1) {
                Some((e, x)) => (e, Some(Box::new(x))),
                None => (e1 + 1, None),
            };
            let (e3, step) = if self.expect(st, e2, Sym::Colon) {
                match self.expression(st, e2 + 1) {
                    Some((e, x)) => (e, Some(Box::new(x))),
                    None => (e2 + 1, None),
                }
            } else {
                (e2, None)
            };
            return Some((e3, self.node(pos, e3, ExprKind::Slice { lower, upper, step })));
        }
        self.named_expression(st, pos)
    }
}

} // verus!
