use vstd::prelude::*;
use crate::ast::{Comprehension, Constant, Expr, ExprContext, ExprKind};
use crate::engine::{advances, expr_outcome, ParseState, Rule};
use crate::nodes::{dict_kvpairs, insert_front, join_strings, StrPart};
use crate::session::Parser;
use crate::token::{PegTok, Sym};

verus! {

impl Parser {
    /// A name, a literal, adjacent strings, or a parenthesised, bracketed or braced form.
    pub fn atom(&self, st: &mut ParseState, pos: usize) -> (r: Option<(usize, Expr)>)
        requires
            self.ready(*old(st), pos),
        ensures
            old(st).follows(*final(st), self.len()),
            self.memo_ok(*final(st)),
            expr_outcome(pos as int, r, self.len(), None),
            self.name_outcome(pos as int, r, ExprContext::Load),
            self.simple_node(pos as int) is Some ==> r == Some(((pos + 1) as usize, self.simple_node(pos as int)->Some_0)),
            self.unary_at(pos as int) is Some ==> r is None,
        decreases self.len() - pos, 25nat,
    {
        if let Some(r) = self.name_expr(st, pos, ExprContext::Load) {
            return Some(r);
        }
        if let Some(value) = self.literal(pos) {
            let kind = ExprKind::Constant { value, kind: None };
            return Some((pos + 1, self.node(pos, pos + 1, kind)));
        }
        st.fail_at(pos);
        if let Some(r) = self.strings(st, pos) {
            return Some(r);
        }
        if self.peek(pos, Sym::Lpar) {
            if let Some(r) = self.tuple(st, pos) {
                return Some(r);
            }
            if let Some(r) = self.group(st, pos) {
                return Some(r);
            }
            return self.genexp(st, pos);
        }
        if self.peek(pos, Sym::Lsqb) {
            if let Some(r) = self.list(st, pos) {
                return Some(r);
            }
            return self.comprehension(st, pos, Sym::Lsqb);
        }
        if self.peek(pos, Sym::Lbrace) {
            if let Some(r) = self.dict(st, pos) {
                return Some(r);
            }
            if let Some(r) = self.set(st, pos) {
                return Some(r);
            }
            if let Some(r) = self.dictcomp(st, pos) {
                return Some(r);
            }
            return self.comprehension(st, pos, Sym::Lbrace);
        }
        None
    }

    /// The constant that a keyword or number token at `pos` stands for.
    pub fn literal(&self, pos: usize) -> (r: Option<Constant>)
        requires
            self.wf(),
        ensures
            r is Some ==> pos < self.len() && !self.stops(pos as int) && !(self.tokens@[pos as int] is Name),
            r is Some ==> self.unary_at(pos as int) is None,
            pos < self.len() && self.tokens@[pos as int] is Int ==> r == Some(
                Constant::Int(self.ints@[self.tokens@[pos as int]->Int_0 as int]),
            ),
    {
        if pos >= self.tokens.len() {
            return None;
        }
        proof {
            self.lemma_tok(pos as int);
        }
        match self.tokens[pos] {
            PegTok::Sym(Sym::True) => Some(Constant::Bool(true)),
            PegTok::Sym(Sym::False) => Some(Constant::Bool(false)),
            PegTok::Sym(Sym::NoneKw) => Some(Constant::NoneValue),
            PegTok::Int(id) => Some(Constant::Int(self.ints[id].clone())),
            PegTok::Float(id) => Some(Constant::Float(self.floats[id])),
            PegTok::Complex(id) => Some(Constant::Complex { real: self.complexes[id].0, imag: self.complexes[id].1 }),
            PegTok::Sym(Sym::Ellipsis) => Some(Constant::Ellipsis),
            _ => None,
        }
    }

    /// One or more adjacent string literals, joined.
    pub fn strings(&self, st: &mut ParseState, pos: usize) -> (r: Option<(usize, Expr)>)
        requires
            self.ready(*old(st), pos),
        ensures
            old(st).follows(*final(st), self.len()),
            self.memo_ok(*final(st)),
            self.fits(13, pos as int, r),
    {
        if pos < self.tokens.len() {
            if let Some(r) = st.recall(Rule::Strings, pos, self) {
                return r;
            }
        }
        let r = self.strings_body(st, pos);
        if pos < self.tokens.len() {
            st.remember(Rule::Strings, pos, &r, self);
        }
        r
    }

    fn strings_body(&self, st: &mut ParseState, pos: usize) -> (r: Option<(usize, Expr)>)
        requires
            self.ready(*old(st), pos),
        ensures
            old(st).follows(*final(st), self.len()),
            self.memo_ok(*final(st)),
            self.fits(13, pos as int, r),
    {
        let mut parts: Vec<StrPart> = Vec::new();
        let mut end = pos;
        loop
            invariant
                pos <= end <= self.len(),
                end > pos ==> self.tokens@[pos as int] is String,
                self.wf(),
                self.len() <= usize::MAX,
                old(st).follows(*st, self.len()),
                self.memo_ok(*st),
                parts@.len() == end - pos,
            decreases self.len() - end,
        {
            if end >= self.tokens.len() {
                st.fail_at(end);
                break;
            }
            match self.tokens[end] {
                PegTok::String(id) => {
                    proof {
                        self.lemma_tok(end as int);
                    }
                    let (value, kind, triple) = (self.strings[id].0.clone(), self.strings[id].1, self.strings[id].2);
                    parts.push((self.locations[end].0, (value, kind, triple), self.locations[end].1));
                    end = end + 1;
                },
                _ => {
                    st.fail_at(end);
                    break;
                },
            }
        }
        if end == pos {
            return None;
        }
        match join_strings(&parts) {
            Ok(kind) => Some((end, self.node(pos, end, kind))),
            Err(()) => {
                st.fail_at(end);
                None
            },
        }
    }

    /// `( )`, or `( e , ... )` with at least one comma: a tuple.
    pub fn tuple(&self, st: &mut ParseState, pos: usize) -> (r: Option<(usize, Expr)>)
        requires
            self.ready(*old(st), pos),
        ensures
            old(st).follows(*final(st), self.len()),
            self.memo_ok(*final(st)),
            expr_outcome(pos as int, r, self.len(), None),
            self.sym_at(pos as int, Sym::Lpar) && self.sym_at(pos + 1, Sym::Rpar) ==> r is Some && r->Some_0.0 == pos + 2
                && (r->Some_0.1.node matches ExprKind::Tuple { elts, ctx: ExprContext::Load } && elts@.len() == 0),
        decreases self.len() - pos, 10nat,
    {
        if !self.expect(st, pos, Sym::Lpar) {
            return None;
        }
        let mut inner = pos + 1;
        let mut elts: Vec<Expr> = Vec::new();
        if let Some((e1, first)) = self.star_named_expression(st, pos + 1) {
            if self.expect(st, e1, Sym::Comma) {
                let (e2, rest) = match self.star_named_expressions(st, e1 + 1) {
                    Some(x) => x,
                    None => (e1 + 1, Vec::new()),
                };
                elts = insert_front(rest, first);
                inner = e2;
            }
        }
        if self.expect(st, inner, Sym::Rpar) {
            let kind = ExprKind::Tuple { elts, ctx: ExprContext::Load };
            Some((inner + 1, self.node(pos, inner + 1, kind)))
        } else {
            None
        }
    }

    /// `( yield ... )` or `( named_expression )`: the inner expression itself.
    pub fn group(&self, st: &mut ParseState, pos: usize) -> (r: Option<(usize, Expr)>)
        requires
            self.ready(*old(st), pos),
        ensures
            old(st).follows(*final(st), self.len()),
            self.memo_ok(*final(st)),
            expr_outcome(pos as int, r, self.len(), None),
        decreases self.len() - pos, 10nat,
    {
        if !self.expect(st, pos, Sym::Lpar) {
            return None;
        }
        let inner = match self.yield_expr(st, pos + 1) {
            Some(x) => Some(x),
            None => self.named_expression(st, pos + 1),
        };
        match inner {
            Some((e, x)) => {
                if self.expect(st, e, Sym::Rpar) {
                    Some((e + 1, x))
                } else {
                    None
                }
            },
            None => None,
        }
    }

    /// `( e for ... )`: a generator expression.
    pub fn genexp(&self, st: &mut ParseState, pos: usize) -> (r: Option<(usize, Expr)>)
        requires
            self.ready(*old(st), pos),
        ensures
            old(st).follows(*final(st), self.len()),
            self.memo_ok(*final(st)),
            expr_outcome(pos as int, r, self.len(), None),
            r is Some ==> self.sym_at(pos as int, Sym::Lpar),
        decreases self.len() - pos, 10nat,
    {
        if !self.expect(st, pos, Sym::Lpar) {
            return None;
        }
        let elt = match self.assignment_expression(st, pos + 1) {
            Some(x) => Some(x),
            None => self.expression_not_walrus(st, pos + 1),
        };
        let (e1, elt) = match elt {
            Some(x) => x,
            None => return None,
        };
        let (e2, generators) = match self.for_if_clauses(st, e1) {
            Some(x) => x,
            None => return None,
        };
        if self.expect(st, e2, Sym::Rpar) {
            let kind = ExprKind::GeneratorExp { elt: Box::new(elt), generators };
            Some((e2 + 1, self.node(pos, e2 + 1, kind)))
        } else {
            None
        }
    }

    /// `[ ... ]`: a list display.
    pub fn list(&self, st: &mut ParseState, pos: usize) -> (r: Option<(usize, Expr)>)
        requires
            self.ready(*old(st), pos),
        ensures
            old(st).follows(*final(st), self.len()),
            self.memo_ok(*final(st)),
            expr_outcome(pos as int, r, self.len(), None),
            self.sym_at(pos as int, Sym::Lsqb) && self.sym_at(pos + 1, Sym::Rsqb) ==> r is Some && r->Some_0.0 == pos + 2
                && (r->Some_0.1.node matches ExprKind::List { elts, ctx: ExprContext::Load } && elts@.len() == 0),
        decreases self.len() - pos, 10nat,
    {
        if !self.expect(st, pos, Sym::Lsqb) {
            return None;
        }
        let (inner, elts) = match self.star_named_expressions(st, pos + 1) {
            Some(x) => x,
            None => (pos + 1, Vec::new()),
        };
        if self.expect(st, inner, Sym::Rsqb) {
            let kind = ExprKind::List { elts, ctx: ExprContext::Load };
            Some((inner + 1, self.node(pos, inner + 1, kind)))
        } else {
            None
        }
    }

    /// `[ e for ... ]` or `{ e for ... }`: a list or set comprehension.
    pub fn comprehension(&self, st: &mut ParseState, pos: usize, open: Sym) -> (r: Option<(usize, Expr)>)
        requires
            self.ready(*old(st), pos),
        ensures
            old(st).follows(*final(st), self.len()),
            self.memo_ok(*final(st)),
            expr_outcome(pos as int, r, self.len(), None),
        decreases self.len() - pos, 10nat,
    {
        let close = if open == Sym::Lsqb {
            Sym::Rsqb
        } else {
            Sym::Rbrace
        };
        if !self.expect(st, pos, open) {
            return None;
        }
        let (e1, elt) = match self.named_expression(st, pos + 1) {
            Some(x) => x,
            None => return None,
        };
        let (e2, generators) = match self.for_if_clauses(st, e1) {
            Some(x) => x,
            None => return None,
        };
        if self.expect(st, e2, close) {
            let kind = if open == Sym::Lsqb {
                ExprKind::ListComp { elt: Box::new(elt), generators }
            } else {
                ExprKind::SetComp { elt: Box::new(elt), generators }
            };
            Some((e2 + 1, self.node(pos, e2 + 1, kind)))
        } else {
            None
        }
    }

    /// `{ e, ... }`: a set display.
    pub fn set(&self, st: &mut ParseState, pos: usize) -> (r: Option<(usize, Expr)>)
        requires
            self.ready(*old(st), pos),
        ensures
            old(st).follows(*final(st), self.len()),
            self.memo_ok(*final(st)),
            expr_outcome(pos as int, r, self.len(), None),
        decreases self.len() - pos, 10nat,
    {
        if !self.expect(st, pos, Sym::Lbrace) {
            return None;
        }
        let (inner, elts) = match self.star_named_expressions(st, pos + 1) {
            Some(x) => x,
            None => return None,
        };
        if self.expect(st, inner, Sym::Rbrace) {
            Some((inner + 1, self.node(pos, inner + 1, ExprKind::SetDisplay { elts })))
        } else {
            None
        }
    }

    /// `{ k: v, **m, ... }`: a dict display.
    pub fn dict(&self, st: &mut ParseState, pos: usize) -> (r: Option<(usize, Expr)>)
        requires
            self.ready(*old(st), pos),
        ensures
            old(st).follows(*final(st), self.len()),
            self.memo_ok(*final(st)),
            expr_outcome(pos as int, r, self.len(), None),
            self.sym_at(pos as int, Sym::Lbrace) && self.sym_at(pos + 1, Sym::Rbrace) ==> r is Some && r->Some_0.0 == pos + 2
                && (r->Some_0.1.node matches ExprKind::Dict { keys, values } && keys@.len() == 0 && values@.len() == 0),
        decreases self.len() - pos, 10nat,
    {
        if !self.expect(st, pos, Sym::Lbrace) {
            return None;
        }
        let (inner, pairs) = match self.double_starred_kvpairs(st, pos + 1) {
            Some(x) => x,
            None => (pos + 1, Vec::new()),
        };
        if self.expect(st, inner, Sym::Rbrace) {
            let (keys, values) = dict_kvpairs(pairs);
            Some((inner + 1, self.node(pos, inner + 1, ExprKind::Dict { keys, values })))
        } else {
            None
        }
    }

    /// Comma-separated dict entries with an optional trailing comma.
    pub fn double_starred_kvpairs(&self, st: &mut ParseState, pos: usize) -> (r: Option<(usize, Vec<(Option<Expr>, Expr)>)>)
        requires
            self.ready(*old(st), pos),
        ensures
            old(st).follows(*final(st), self.len()),
            self.memo_ok(*final(st)),
            advances(pos as int, r, self.len()),
            self.stops(pos as int) ==> r is None,
        decreases self.len() - pos, 210nat,
    {
        let (mut end, first) = match self.double_starred_kvpair(st, pos) {
            Some(x) => x,
            None => return None,
        };
        let mut items: Vec<(Option<Expr>, Expr)> = Vec::new();
        items.push(first);
        loop
            invariant
                pos < end <= self.len(),
                self.wf(),
                self.len() <= usize::MAX,
                old(st).follows(*st, self.len()),
                self.memo_ok(*st),
            decreases self.len() - end,
        {
            if !self.expect(st, end, Sym::Comma) {
                break;
            }
            match self.double_starred_kvpair(st, end + 1) {
                Some((e, x)) => {
                    items.push(x);
                    end = e;
                },
                None => break,
            }
        }
        if self.expect(st, end, Sym::Comma) {
            end = end + 1;
        }
        Some((end, items))
    }

    /// `**m` (no key) or `k: v`.
    pub fn double_starred_kvpair(&self, st: &mut ParseState, pos: usize) -> (r: Option<(usize, (Option<Expr>, Expr))>)
        requires
            self.ready(*old(st), pos),
        ensures
            old(st).follows(*final(st), self.len()),
            self.memo_ok(*final(st)),
            advances(pos as int, r, self.len()),
            self.stops(pos as int) ==> r is None,
        decreases self.len() - pos, 200nat,
    {
        if self.expect(st, pos, Sym::DoubleStar) {
            if let Some((e, value)) = self.bitwise_or(st, pos + 1) {
                return Some((e, (None, value)));
            }
        }
        match self.kvpair(st, pos) {
            Some((e, (k, v))) => Some((e, (Some(k), v))),
            None => None,
        }
    }

    /// `k: v`.
    pub fn kvpair(&self, st: &mut ParseState, pos: usize) -> (r: Option<(usize, (Expr, Expr))>)
        requires
            self.ready(*old(st), pos),
        ensures
            old(st).follows(*final(st), self.len()),
            self.memo_ok(*final(st)),
            advances(pos as int, r, self.len()),
            self.stops(pos as int) ==> r is None,
        decreases self.len() - pos, 190nat,
    {
        let (e1, key) = match self.expression(st, pos) {
            Some(x) => x,
            None => return None,
        };
        if !self.expect(st, e1, Sym::Colon) {
            return None;
        }
        match self.expression(st, e1 + 1) {
            Some((e2, value)) => Some((e2, (key, value))),
            None => None,
        }
    }

    /// `{ k: v for ... }`: a dict comprehension.
    pub fn dictcomp(&self, st: &mut ParseState, pos: usize) -> (r: Option<(usize, Expr)>)
        requires
            self.ready(*old(st), pos),
        ensures
            old(st).follows(*final(st), self.len()),
            self.memo_ok(*final(st)),
            expr_outcome(pos as int, r, self.len(), None),
        decreases self.len() - pos, 10nat,
    {
        if !self.expect(st, pos, Sym::Lbrace) {
            return None;
        }
        let (e1, (key, value)) = match self.kvpair(st, pos + 1) {
            Some(x) => x,
            None => return None,
        };
        let (e2, generators) = match self.for_if_clauses(st, e1) {
            Some(x) => x,
            None => return None,
        };
        if self.expect(st, e2, Sym::Rbrace) {
            let kind = ExprKind::DictComp { key: Box::new(key), value: Box::new(value), generators };
            Some((e2 + 1, self.node(pos, e2 + 1, kind)))
        } else {
            None
        }
    }

    /// One or more `for ... in ... if ...` clauses.
    pub fn for_if_clauses(&self, st: &mut ParseState, pos: usize) -> (r: Option<(usize, Vec<Comprehension>)>)
        requires
            self.ready(*old(st), pos),
        ensures
            old(st).follows(*final(st), self.len()),
            self.memo_ok(*final(st)),
            advances(pos as int, r, self.len()),
        decreases self.len() - pos, 20nat,
    {
        let (mut end, first) = match self.for_if_clause(st, pos) {
            Some(x) => x,
            None => return None,
        };
        let mut items: Vec<Comprehension> = Vec::new();
        items.push(first);
        loop
            invariant
                pos < end <= self.len(),
                self.wf(),
                self.len() <= usize::MAX,
                old(st).follows(*st, self.len()),
                self.memo_ok(*st),
            decreases self.len() - end,
        {
            match self.for_if_clause(st, end) {
                Some((e, x)) => {
                    items.push(x);
                    end = e;
                },
                None => break,
            }
        }
        Some((end, items))
    }

    /// `[async] for targets in disjunction (if disjunction)*`.
    pub fn for_if_clause(&self, st: &mut ParseState, pos: usize) -> (r: Option<(usize, Comprehension)>)
        requires
            self.ready(*old(st), pos),
        ensures
            old(st).follows(*final(st), self.len()),
            self.memo_ok(*final(st)),
            advances(pos as int, r, self.len()),
        decreases self.len() - pos, 10nat,
    {
        let is_async = self.expect(st, pos, Sym::Async);
        let p = if is_async {
            pos + 1
        } else {
            pos
        };
        if !self.expect(st, p, Sym::For) {
            return None;
        }
        let (e1, target) = match self.star_targets(st, p + 1) {
            Some(x) => x,
            None => return None,
        };
        if !self.expect(st, e1, Sym::In) {
            return None;
        }
        let (mut end, iter) = match self.disjunction(st, e1 + 1) {
            Some(x) => x,
            None => return None,
        };
        let mut ifs: Vec<Expr> = Vec::new();
        loop
            invariant
                pos < end <= self.len(),
                self.wf(),
                self.len() <= usize::MAX,
                old(st).follows(*st, self.len()),
                self.memo_ok(*st),
            decreases self.len() - end,
        {
            if !self.expect(st, end, Sym::If) {
                break;
            }
            match self.disjunction(st, end + 1) {
                Some((e, x)) => {
                    ifs.push(x);
                    end = e;
                },
                None => break,
            }
        }
        let flag: usize = if is_async {
            1
        } else {
            0
        };
        Some((end, Comprehension { target, iter, ifs, is_async: flag }))
    }
}

} // verus!
