use vstd::prelude::*;
use crate::ast::{Expr, ExprContext, ExprKind};
use crate::session::Parser;
use crate::token::{PegTok, Sym};

verus! {

/// The rules whose outcomes are memoized, per start position.
#[derive(Clone, Copy, Debug, PartialEq, Eq, Structural)]
pub enum Rule {
    Disjunction,
    Conjunction,
    Inversion,
    Comparison,
    BitwiseOr,
    BitwiseXor,
    BitwiseAnd,
    ShiftExpr,
    Sum,
    Term,
    Factor,
    AwaitPrimary,
    Primary,
    Strings,
    StarTarget,
    TargetWithStarAtom,
    TPrimary,
    DelTarget,
}

pub const RULE_COUNT: usize = 18;

impl Rule {
    pub open spec fn spec_index(self) -> nat {
        match self {
            Rule::Disjunction => 0,
            Rule::Conjunction => 1,
            Rule::Inversion => 2,
            Rule::Comparison => 3,
            Rule::BitwiseOr => 4,
            Rule::BitwiseXor => 5,
            Rule::BitwiseAnd => 6,
            Rule::ShiftExpr => 7,
            Rule::Sum => 8,
            Rule::Term => 9,
            Rule::Factor => 10,
            Rule::AwaitPrimary => 11,
            Rule::Primary => 12,
            Rule::Strings => 13,
            Rule::StarTarget => 14,
            Rule::TargetWithStarAtom => 15,
            Rule::TPrimary => 16,
            Rule::DelTarget => 17,
        }
    }

    pub fn index(self) -> (r: usize)
        ensures
            r == self.spec_index(),
            r < RULE_COUNT,
    {
        match self {
            Rule::Disjunction => 0,
            Rule::Conjunction => 1,
            Rule::Inversion => 2,
            Rule::Comparison => 3,
            Rule::BitwiseOr => 4,
            Rule::BitwiseXor => 5,
            Rule::BitwiseAnd => 6,
            Rule::ShiftExpr => 7,
            Rule::Sum => 8,
            Rule::Term => 9,
            Rule::Factor => 10,
            Rule::AwaitPrimary => 11,
            Rule::Primary => 12,
            Rule::Strings => 13,
            Rule::StarTarget => 14,
            Rule::TargetWithStarAtom => 15,
            Rule::TPrimary => 16,
            Rule::DelTarget => 17,
        }
    }
}

/// The context that every result of a rule carries, where the rule fixes one.
pub open spec fn rule_ctx(i: int) -> Option<ExprContext> {
    if i == 14 || i == 15 {
        Some(ExprContext::Store)
    } else if i == 17 {
        Some(ExprContext::Del)
    } else {
        None
    }
}

/// What a rule's outcome at `pos` may be: no match, or a match that ends after `pos` and at
/// most at the end of the `n` tokens.
pub open spec fn advances<T>(pos: int, r: Option<(usize, T)>, n: nat) -> bool {
    r is Some ==> pos < r->Some_0.0 <= n
}

/// The expression is a load, or carries no context at all.
pub open spec fn loads(e: Expr) -> bool {
    e.node.ctx_of() is None || e.node.ctx_of() == Some(ExprContext::Load)
}

/// An expression outcome that advances and carries the context `ctx` when one is given, and
/// otherwise loads.
pub open spec fn expr_outcome(pos: int, r: Option<(usize, Expr)>, n: nat, ctx: Option<ExprContext>) -> bool {
    &&& advances(pos, r, n)
    &&& (r is Some ==> match ctx {
        Some(c) => r->Some_0.1.node.ctx_of() == Some(c),
        None => loads(r->Some_0.1),
    })
}

/// The state of one parse: the furthest position at which a token test failed, whether
/// failures are currently being recorded, and the memo table, one row per memoized rule and
/// one slot per start position (`None`: not tried yet).
pub struct ParseState {
    pub furthest: usize,
    pub quiet: bool,
    pub memo: Vec<Vec<Option<Option<(usize, Expr)>>>>,
}

impl ParseState {
    pub open spec fn inv(&self, n: nat) -> bool {
        &&& self.memo@.len() == RULE_COUNT
        &&& forall|i: int| 0 <= i < RULE_COUNT ==> (#[trigger] self.memo@[i])@.len() == n
        &&& forall|i: int, p: int|
            0 <= i < RULE_COUNT && 0 <= p < n && (#[trigger] self.memo@[i]@[p]) is Some
                ==> expr_outcome(p, self.memo@[i]@[p]->Some_0, n, rule_ctx(i))
    }

    /// `after` follows `before` in one parse: the table stays valid, failures are only added,
    /// none while quiet, and quietness is restored.
    pub open spec fn follows(self, after: ParseState, n: nat) -> bool {
        &&& after.inv(n)
        &&& after.furthest <= n
        &&& self.furthest <= after.furthest
        &&& (self.quiet ==> after.furthest == self.furthest)
        &&& after.quiet == self.quiet
    }

    /// A fresh state for a stream of `n` tokens.
    pub fn new(n: usize) -> (r: ParseState)
        ensures
            r.inv(n as nat),
            forall|i: int, p: int| 0 <= i < RULE_COUNT && 0 <= p < n ==> (#[trigger] r.memo@[i]@[p]) is None,
            r.furthest == 0,
            !r.quiet,
    {
        let mut memo: Vec<Vec<Option<Option<(usize, Expr)>>>> = Vec::new();
        let mut i: usize = 0;
        while i < RULE_COUNT
            invariant
                i <= RULE_COUNT,
                memo@.len() == i,
                forall|k: int| 0 <= k < i ==> (#[trigger] memo@[k])@.len() == n,
                forall|k: int, p: int| 0 <= k < i && 0 <= p < n ==> (#[trigger] memo@[k]@[p]) is None,
            decreases RULE_COUNT - i,
        {
            let mut row: Vec<Option<Option<(usize, Expr)>>> = Vec::new();
            let mut p: usize = 0;
            while p < n
                invariant
                    p <= n,
                    row@.len() == p,
                    forall|q: int| 0 <= q < p ==> (#[trigger] row@[q]) is None,
                decreases n - p,
            {
                row.push(None);
                p = p + 1;
            }
            memo.push(row);
            i = i + 1;
        }
        ParseState { furthest: 0, quiet: false, memo }
    }

    proof fn lemma_fits_copied(&self, parser: &Parser, i: int, pos: int)
        requires
            self.inv(parser.len()),
            parser.memo_ok(*self),
            0 <= i < RULE_COUNT,
            0 <= pos < parser.len(),
            self.memo@[i]@[pos] is Some,
        ensures
            forall|y: Option<(usize, Expr)>| copied(self.memo@[i]@[pos]->Some_0, y) ==> parser.fits(i, pos, y),
    {
        parser.lemma_trees_plain(pos);
        parser.lemma_target_plain(pos);
        if parser.level_tree(5, pos) is Some {
            parser.lemma_chain_plain(parser.level_tree(5, pos)->Some_0.0);
        }
        assert(parser.fits(i, pos, self.memo@[i]@[pos]->Some_0));
    }

    /// Records a failed token test at `pos`, unless failures are not being recorded.
    pub fn fail_at(&mut self, pos: usize)
        ensures
            final(self).memo == old(self).memo,
            final(self).quiet == old(self).quiet,
            final(self).furthest == if !old(self).quiet && pos > old(self).furthest {
                pos
            } else {
                old(self).furthest
            },
    {
        if !self.quiet && pos > self.furthest {
            self.furthest = pos;
        }
    }

    /// The memoized outcome of `rule` at `pos`, if it was computed.
    pub fn recall(&self, rule: Rule, pos: usize, parser: &Parser) -> (r: Option<Option<(usize, Expr)>>)
        requires
            self.inv(parser.len()),
            parser.memo_ok(*self),
            pos < parser.len(),
        ensures
            r is None <==> self.memo@[rule.spec_index() as int]@[pos as int] is None,
            r is Some ==> copied(self.memo@[rule.spec_index() as int]@[pos as int]->Some_0, r->Some_0),
            r is Some ==> parser.fits(rule.spec_index() as int, pos as int, r->Some_0),
    {
        let i = rule.index();
        proof {
            if self.memo@[i as int]@[pos as int] is Some {
                self.lemma_fits_copied(parser, i as int, pos as int);
            }
        }
        match &self.memo[i][pos] {
            Some(Some((end, e))) => Some(Some((*end, e.copy()))),
            Some(None) => Some(None),
            None => None,
        }
    }

    /// Stores the outcome of `rule` at `pos`.
    pub fn remember(&mut self, rule: Rule, pos: usize, r: &Option<(usize, Expr)>, parser: &Parser)
        requires
            old(self).inv(parser.len()),
            parser.memo_ok(*old(self)),
            pos < parser.len(),
            parser.fits(rule.spec_index() as int, pos as int, *r),
        ensures
            final(self).inv(parser.len()),
            parser.memo_ok(*final(self)),
            final(self).memo@[rule.spec_index() as int]@[pos as int] is Some,
            copied(*r, final(self).memo@[rule.spec_index() as int]@[pos as int]->Some_0),
            final(self).furthest == old(self).furthest,
            final(self).quiet == old(self).quiet,
    {
        let i = rule.index();
        let slot = match r {
            Some((end, e)) => Some(Some((*end, e.copy()))),
            None => Some(None),
        };
        let mut row: Vec<Option<Option<(usize, Expr)>>> = Vec::new();
        std::mem::swap(&mut row, &mut self.memo[i]);
        row.set(pos, slot);
        self.memo.set(i, row);
        proof {
            parser.lemma_trees_plain(pos as int);
            parser.lemma_target_plain(pos as int);
            if parser.level_tree(5, pos as int) is Some {
                parser.lemma_chain_plain(parser.level_tree(5, pos as int)->Some_0.0);
            }
        }
        let ghost n = parser.len();
        assert forall|k: int, p: int|
            0 <= k < RULE_COUNT && 0 <= p < n && (#[trigger] self.memo@[k]@[p]) is Some implies expr_outcome(
            p,
            self.memo@[k]@[p]->Some_0,
            n,
            rule_ctx(k),
        ) && parser.fits(k, p, self.memo@[k]@[p]->Some_0) by {
            if k == i && p == pos {
            } else {
                assert(old(self).memo@[k]@[p] == self.memo@[k]@[p]);
            }
        }
    }
}

impl Parser {
    /// Everything a rule needs at entry.
    pub open spec fn ready(&self, st: ParseState, pos: usize) -> bool {
        &&& self.wf()
        &&& st.inv(self.len())
        &&& self.memo_ok(st)
        &&& st.furthest <= self.len()
        &&& pos <= self.len()
        &&& self.len() <= usize::MAX
    }

    pub open spec fn sym_at(&self, pos: int, s: Sym) -> bool {
        0 <= pos < self.len() && self.tokens@[pos] == PegTok::Sym(s)
    }

    /// Whether the token at `pos` is `s`; no failure is recorded.
    pub fn peek(&self, pos: usize, s: Sym) -> (r: bool)
        ensures
            r == self.sym_at(pos as int, s),
    {
        pos < self.tokens.len() && self.tokens[pos] == PegTok::Sym(s)
    }

    /// Tests for the token `s` at `pos`, recording a failure there if it is absent.
    pub fn expect(&self, st: &mut ParseState, pos: usize, s: Sym) -> (r: bool)
        requires
            self.memo_ok(*old(st)),
            old(st).inv(self.len()),
            old(st).furthest <= self.len(),
            pos <= self.len(),
        ensures
            r == self.sym_at(pos as int, s),
            old(st).follows(*final(st), self.len()),
            self.memo_ok(*final(st)),
            final(st).memo == old(st).memo,
            self.memo_ok(*final(st)),
    {
        if pos < self.tokens.len() && self.tokens[pos] == PegTok::Sym(s) {
            true
        } else {
            st.fail_at(pos);
            false
        }
    }

    /// The span from the start of token `begin` to the end of token `end - 1`.
    pub fn span(&self, begin: usize, end: usize) -> (r: (crate::token::Location, crate::token::Location))
        requires
            self.wf(),
            begin < end <= self.len(),
        ensures
            r.0 == self.locations@[begin as int].0,
            r.1 == self.locations@[end - 1].1,
    {
        (self.locations[begin].0, self.locations[end - 1].1)
    }

    pub open spec fn is_layout(&self, p: int) -> bool {
        self.sym_at(p, Sym::Newline) || self.sym_at(p, Sym::Dedent)
    }

    /// `p` with the newlines and dedents before it given back, down to just after `begin`.
    pub open spec fn trim_end(&self, begin: int, p: int) -> int
        decreases p - begin,
    {
        if p > begin + 1 && self.is_layout(p - 1) {
            self.trim_end(begin, p - 1)
        } else {
            p
        }
    }

    /// The end of a block-bodied construct that starts at `begin` and whose match ends at `p`:
    /// `p` with the trailing newlines and dedents given back.
    pub fn block_end(&self, begin: usize, p: usize) -> (r: usize)
        requires
            self.wf(),
            begin < p <= self.len(),
        ensures
            begin < r <= p,
            forall|q: int| r <= q < p ==> self.is_layout(q),
            r == begin + 1 || !self.is_layout(r - 1),
            r == self.trim_end(begin as int, p as int),
    {
        let mut r = p;
        while r > begin + 1 && (self.peek(r - 1, Sym::Newline) || self.peek(r - 1, Sym::Dedent))
            invariant
                begin < r <= p,
                p <= self.len(),
                forall|q: int| r <= q < p ==> self.is_layout(q),
                self.trim_end(begin as int, r as int) == self.trim_end(begin as int, p as int),
            decreases r,
        {
            r = r - 1;
        }
        r
    }
}

/// `y` is a memo copy of `x`: the same end, span and context, and the very same tree where the
/// tree holds only names, constants, unary and binary operations.
pub open spec fn copied(x: Option<(usize, Expr)>, y: Option<(usize, Expr)>) -> bool {
    match (x, y) {
        (None, None) => true,
        (Some((ex, a)), Some((ey, b))) => {
            &&& ex == ey
            &&& b.location == a.location
            &&& b.end_location == a.end_location
            &&& b.node.ctx_of() == a.node.ctx_of()
            &&& (crate::fragment::plain_tree(a) ==> b == a)
            &&& (crate::fragment::plain_compare(a.node) ==> crate::fragment::same_compare(a.node, b.node))
        },
        _ => false,
    }
}

/// Tokens that can neither start nor continue an expression.
pub open spec fn closer(s: Sym) -> bool {
    s == Sym::Comma || s == Sym::Newline || s == Sym::Rpar || s == Sym::Rsqb || s == Sym::Rbrace
        || s == Sym::Colon || s == Sym::Equal || s == Sym::Semi || s == Sym::Pass || s == Sym::Break
        || s == Sym::Continue || s == Sym::Del || s == Sym::Dedent
}

impl Parser {
    /// Position `q` is past the end or holds a closing token.
    pub open spec fn stops(&self, q: int) -> bool {
        q >= self.len() || (0 <= q && self.tokens@[q] is Sym && closer(self.tokens@[q]->Sym_0))
    }

    pub open spec fn name_at(&self, p: int) -> bool {
        0 <= p < self.len() && self.tokens@[p] is Name
    }

    /// The name expression for the name token at `p`, with context `ctx`.
    pub open spec fn name_node(&self, p: int, ctx: ExprContext) -> Expr {
        Expr {
            location: self.locations@[p].0,
            end_location: self.locations@[p].1,
            node: ExprKind::Name { id: self.names@[self.tokens@[p]->Name_0 as int], ctx },
        }
    }

    /// An expression rule's outcome on the simplest inputs: it fails where no expression can
    /// start, matches on any name, and on a name followed by a closing token gives exactly that
    /// name with context `ctx`.
    pub open spec fn name_outcome(&self, pos: int, r: Option<(usize, Expr)>, ctx: ExprContext) -> bool {
        &&& self.lone_outcome(pos, r, ctx)
        &&& (self.name_at(pos) ==> r is Some)
    }

    /// As `name_outcome`, without the promise to match on every name.
    pub open spec fn lone_outcome(&self, pos: int, r: Option<(usize, Expr)>, ctx: ExprContext) -> bool {
        &&& (self.stops(pos) ==> r is None)
        &&& (self.name_at(pos) && self.stops(pos + 1) ==> r == Some(((pos + 1) as usize, self.name_node(pos, ctx))))
    }

    /// Every token from `q` on is a newline.
    pub open spec fn newlines_from(&self, q: int) -> bool {
        forall|k: int| q <= k < self.len() ==> #[trigger] self.sym_at(k, Sym::Newline)
    }

    /// The one-element tuple `x,` for the name token at `pos` followed by a comma, with
    /// context `ctx`, spanning the name and the comma.
    pub open spec fn single_tuple(&self, pos: int, x: Expr, ctx: ExprContext) -> bool {
        &&& x.node matches ExprKind::Tuple { elts, ctx: c } && c == ctx && elts@ == seq![self.name_node(pos, ctx)]
        &&& x.location == self.locations@[pos].0
        &&& x.end_location == self.locations@[pos + 1].1
    }

    /// A comma-separated list rule on the simplest inputs: it fails where no expression can
    /// start; a lone name stands alone; a name with a trailing comma becomes a one-element
    /// tuple.
    pub open spec fn packed_name(&self, pos: int, r: Option<(usize, Expr)>, ctx: ExprContext) -> bool {
        &&& (self.stops(pos) ==> r is None)
        &&& (self.name_at(pos) && self.stops(pos + 1) && !self.sym_at(pos + 1, Sym::Comma)
            ==> r == Some(((pos + 1) as usize, self.name_node(pos, ctx))))
        &&& (self.name_at(pos) && self.sym_at(pos + 1, Sym::Comma) && self.stops(pos + 2)
            ==> (r matches Some((e, x)) && e == pos + 2 && self.single_tuple(pos, x, ctx)))
    }

    /// What the outcome of memoized rule number `i` at `pos` satisfies.
    pub open spec fn fits(&self, i: int, pos: int, r: Option<(usize, Expr)>) -> bool {
        &&& expr_outcome(pos, r, self.len(), rule_ctx(i))
        &&& (0 <= i <= 12 ==> self.name_outcome(pos, r, ExprContext::Load))
        &&& (i == 13 ==> (self.stops(pos) ==> r is None))
        &&& (i == 13 ==> (r is Some ==> 0 <= pos < self.len() && self.tokens@[pos] is String))
        &&& (i == 14 || i == 15 ==> self.name_outcome(pos, r, ExprContext::Store))
        &&& (i == 16 ==> (self.stops(pos) || (self.name_at(pos) && self.stops(pos + 1)) ==> r is None))
        &&& (i == 17 ==> self.name_outcome(pos, r, ExprContext::Del))
        &&& (i == 17 ==> self.target_claim(pos, r, ExprContext::Del))
        &&& (i == 0 ==> self.tree_claim(r, self.level_tree(5, pos), 2))
        &&& (i == 1 ==> self.tree_claim(r, self.level_tree(5, pos), 3))
        &&& (i == 2 || i == 3 ==> self.tree_claim(r, self.level_tree(5, pos), 4))
        &&& (i == 2 || i == 3 ==> self.cmp_claim(pos, r, 4))
        &&& (i == 1 ==> self.cmp_claim(pos, r, 3))
        &&& (i == 0 ==> self.cmp_claim(pos, r, 2))
        &&& (4 <= i <= 9 ==> self.tree_claim(r, self.level_tree((i + 1) as nat, pos), (i + 1) as nat))
        &&& (i == 10 ==> self.tree_claim(r, self.factor_tree(pos), 11))
        &&& (i == 11 || i == 12 ==> self.simple_claim(pos, r))
        &&& (i == 14 || i == 15 ==> self.target_claim(pos, r, ExprContext::Store))
        &&& (i == 14 || i == 15 ==> (self.name_at(pos) && self.cont_rank(pos + 1) < 12 ==> r == Some(
            ((pos + 1) as usize, self.name_node(pos, ExprContext::Store)),
        )))
        &&& (i == 14 || i == 15 ==> ((self.simple_node(pos) is Some && !self.name_at(pos) && self.cont_rank(pos + 1) < 12) || self.unary_at(pos) is Some ==> r is None))
        &&& (i == 16 ==> ((self.simple_node(pos) is Some && self.cont_rank(pos + 1) < 12) || self.unary_at(pos) is Some ==> r is None))
        &&& (i == 16 ==> (self.lone_target(pos) ==> r == Some(((pos + 1) as usize, self.name_node(pos, ExprContext::Load)))))
    }

    /// Every memoized outcome fits its rule.
    pub open spec fn memo_ok(&self, st: ParseState) -> bool {
        forall|i: int, p: int|
            0 <= i < RULE_COUNT && 0 <= p < self.len() && (#[trigger] st.memo@[i]@[p]) is Some
                ==> self.fits(i, p, st.memo@[i]@[p]->Some_0)
    }
}

} // verus!
