use vstd::prelude::*;
use crate::ast::{Cmpop, Constant, Expr, ExprContext, ExprKind, Operator, Unaryop};
use crate::nodes::{firsts, seconds};
use crate::session::Parser;
use crate::token::{PegTok, Sym};

verus! {

/// The tightest precedence level at which a token can continue an expression already
/// parsed: 12 for `.`, `(` and `[`; 11 for `**`; 10 down to 5 for the binary levels from `*` to
/// `|`; 4 for comparison operators; 3 for `and`; 2 for `or`; 1 for `if`; 0 for tokens that
/// continue no expression.
pub open spec fn sym_rank(s: Sym) -> nat {
    if s == Sym::Dot || s == Sym::Lpar || s == Sym::Lsqb {
        12
    } else if s == Sym::DoubleStar {
        11
    } else if s == Sym::Star || s == Sym::Slash || s == Sym::DoubleSlash || s == Sym::Percent || s == Sym::At {
        10
    } else if s == Sym::Plus || s == Sym::Minus {
        9
    } else if s == Sym::LeftShift || s == Sym::RightShift {
        8
    } else if s == Sym::Amper {
        7
    } else if s == Sym::CircumFlex {
        6
    } else if s == Sym::Vbar {
        5
    } else if s == Sym::EqEqual || s == Sym::NotEqual || s == Sym::LessEqual || s == Sym::Less || s
        == Sym::GreaterEqual || s == Sym::Greater || s == Sym::In || s == Sym::Not || s == Sym::Is {
        4
    } else if s == Sym::And {
        3
    } else if s == Sym::Or {
        2
    } else if s == Sym::If {
        1
    } else {
        0
    }
}

/// The operator of binary level `k` (5 for `|` up to 10 for `*`) that a token stands for.
pub open spec fn binop_of(k: nat, s: Sym) -> Option<Operator> {
    if k == 5 && s == Sym::Vbar {
        Some(Operator::BitOr)
    } else if k == 6 && s == Sym::CircumFlex {
        Some(Operator::BitXor)
    } else if k == 7 && s == Sym::Amper {
        Some(Operator::BitAnd)
    } else if k == 8 && s == Sym::LeftShift {
        Some(Operator::LShift)
    } else if k == 8 && s == Sym::RightShift {
        Some(Operator::RShift)
    } else if k == 9 && s == Sym::Plus {
        Some(Operator::Add)
    } else if k == 9 && s == Sym::Minus {
        Some(Operator::Sub)
    } else if k == 10 && s == Sym::Star {
        Some(Operator::Mult)
    } else if k == 10 && s == Sym::Slash {
        Some(Operator::Div)
    } else if k == 10 && s == Sym::DoubleSlash {
        Some(Operator::FloorDiv)
    } else if k == 10 && s == Sym::Percent {
        Some(Operator::Mod)
    } else if k == 10 && s == Sym::At {
        Some(Operator::MatMult)
    } else {
        None
    }
}

/// The binary level of a memoized rule tag: 5 for `|` up to 10 for `*`.
pub open spec fn level_num(level: crate::engine::Rule) -> nat {
    match level {
        crate::engine::Rule::BitwiseOr => 5,
        crate::engine::Rule::BitwiseXor => 6,
        crate::engine::Rule::BitwiseAnd => 7,
        crate::engine::Rule::ShiftExpr => 8,
        crate::engine::Rule::Sum => 9,
        crate::engine::Rule::Term => 10,
        _ => 0,
    }
}

pub open spec fn unary_of(s: Sym) -> Option<Unaryop> {
    if s == Sym::Plus {
        Some(Unaryop::UAdd)
    } else if s == Sym::Minus {
        Some(Unaryop::USub)
    } else if s == Sym::Tilde {
        Some(Unaryop::Invert)
    } else {
        None
    }
}

/// A tree of names, integer constants, unary and binary operations only.
pub open spec fn plain_tree(e: Expr) -> bool {
    plain_kind(e.node)
}

pub open spec fn plain_kind(k: ExprKind) -> bool
    decreases k,
{
    match k {
        ExprKind::Name { .. } => true,
        ExprKind::Constant { .. } => true,
        ExprKind::UnaryOp { operand, .. } => plain_kind(operand.node),
        ExprKind::BinOp { left, right, .. } => plain_kind(left.node) && plain_kind(right.node),
        ExprKind::Attribute { value, .. } => plain_kind(value.node),
        ExprKind::Subscript { value, slice, .. } => plain_kind(value.node) && plain_kind(slice.node),
        _ => false,
    }
}

/// A comparison node whose left operand and comparators are plain trees.
pub open spec fn plain_compare(k: ExprKind) -> bool {
    match k {
        ExprKind::Compare { left, comparators, .. } => plain_tree(*left) && forall|j: int|
            0 <= j < comparators@.len() ==> #[trigger] plain_tree(comparators@[j]),
        _ => false,
    }
}

/// Two comparison nodes with the same left operand, operators and comparators.
pub open spec fn same_compare(a: ExprKind, b: ExprKind) -> bool {
    match (a, b) {
        (
            ExprKind::Compare { left, ops, comparators },
            ExprKind::Compare { left: l2, ops: o2, comparators: c2 },
        ) => *l2 == *left && o2@ == ops@ && c2@ == comparators@,
        _ => false,
    }
}

impl Parser {
    /// The precedence rank of the token at `q` (0 past the end).
    pub open spec fn cont_rank(&self, q: int) -> nat {
        if 0 <= q < self.len() {
            match self.tokens@[q] {
                PegTok::Sym(s) => sym_rank(s),
                _ => 0,
            }
        } else {
            0
        }
    }

    /// The operator that the token at `q` stands for at binary level `k`.
    pub open spec fn binop_at(&self, k: nat, q: int) -> Option<Operator> {
        if 0 <= q < self.len() {
            match self.tokens@[q] {
                PegTok::Sym(s) => binop_of(k, s),
                _ => None,
            }
        } else {
            None
        }
    }

    pub open spec fn unary_at(&self, q: int) -> Option<Unaryop> {
        if 0 <= q < self.len() {
            match self.tokens@[q] {
                PegTok::Sym(s) => unary_of(s),
                _ => None,
            }
        } else {
            None
        }
    }

    /// A node spanning tokens `b .. e`.
    pub open spec fn spec_node(&self, b: int, e: int, kind: ExprKind) -> Expr {
        Expr { location: self.locations@[b].0, end_location: self.locations@[e - 1].1, node: kind }
    }

    /// The operand at `p` when it is a single token: a name (load) or an integer constant.
    pub open spec fn simple_node(&self, p: int) -> Option<Expr> {
        if self.name_at(p) {
            Some(self.name_node(p, ExprContext::Load))
        } else if 0 <= p < self.len() && self.tokens@[p] is Int {
            Some(
                self.spec_node(
                    p,
                    p + 1,
                    ExprKind::Constant {
                        value: Constant::Int(self.ints@[self.tokens@[p]->Int_0 as int]),
                        kind: None,
                    },
                ),
            )
        } else {
            None
        }
    }

    /// The factor at `p` over single-token operands: unary operators, then an operand with an
    /// optional `** factor`, which nests to the right.
    pub open spec fn factor_tree(&self, p: int) -> Option<(int, Expr)>
        decreases self.len() - p,
    {
        if !(0 <= p < self.len()) {
            None
        } else if self.unary_at(p) is Some {
            match self.factor_tree(p + 1) {
                Some((e, x)) => Some(
                    (e, self.spec_node(p, e, ExprKind::UnaryOp { op: self.unary_at(p)->Some_0, operand: Box::new(x) })),
                ),
                None => None,
            }
        } else {
            match self.simple_node(p) {
                Some(a) => if self.sym_at(p + 1, Sym::DoubleStar) {
                    match self.factor_tree(p + 2) {
                        Some((e, y)) => Some(
                            (e, self.spec_node(p, e, ExprKind::BinOp { left: Box::new(a), op: Operator::Pow, right: Box::new(y) })),
                        ),
                        None => Some((p + 1, a)),
                    }
                } else {
                    Some((p + 1, a))
                },
                None => None,
            }
        }
    }

    /// The operand of binary level `k`: the next level up, or a factor under level 10.
    pub open spec fn operand_tree(&self, k: nat, p: int) -> Option<(int, Expr)>
        decreases self.len() - p, 11 - k, 1nat,
    {
        if !(5 <= k <= 10) || !(0 <= p <= self.len()) {
            None
        } else if k == 10 {
            self.factor_tree(p)
        } else {
            self.level_tree((k + 1) as nat, p)
        }
    }

    /// Binary level `k` at `p` over single-token operands: operands joined by the level's
    /// operators, nested to the left.
    pub open spec fn level_tree(&self, k: nat, p: int) -> Option<(int, Expr)>
        decreases self.len() - p, 11 - k, 2nat,
    {
        if !(5 <= k <= 10) || !(0 <= p <= self.len()) {
            None
        } else {
            match self.operand_tree(k, p) {
                Some((e, x)) => if p < e <= self.len() {
                    Some(self.grow_tree(k, p, e, x))
                } else {
                    None
                },
                None => None,
            }
        }
    }

    /// Extends `x` (tokens `p .. e`) with `op operand` rounds of level `k` while they match.
    pub open spec fn grow_tree(&self, k: nat, p: int, e: int, x: Expr) -> (int, Expr)
        decreases self.len() - e, 11 - k, 0nat,
    {
        if !(5 <= k <= 10) || !(0 <= e <= self.len()) {
            (e, x)
        } else {
            match self.binop_at(k, e) {
                Some(op) => match self.operand_tree(k, e + 1) {
                    Some((e2, y)) => if e < e2 <= self.len() {
                        self.grow_tree(k, p, e2, self.spec_node(p, e2, ExprKind::BinOp { left: Box::new(x), op, right: Box::new(y) }))
                    } else {
                        (e, x)
                    },
                    None => (e, x),
                },
                None => (e, x),
            }
        }
    }

    /// `r` is the tree `t` whenever `t` is a match that the token after it cannot continue at
    /// rank `thr` or tighter.
    pub open spec fn tree_claim(&self, r: Option<(usize, Expr)>, t: Option<(int, Expr)>, thr: nat) -> bool {
        t is Some && self.cont_rank(t->Some_0.0) < thr ==> r is Some && r->Some_0.0 == t->Some_0.0 && r->Some_0.1 == t->Some_0.1
    }

    /// The single-token operand at `pos` is the match, unless a `.`, `(` or `[` follows.
    pub open spec fn simple_claim(&self, pos: int, r: Option<(usize, Expr)>) -> bool {
        self.simple_node(pos) is Some && self.cont_rank(pos + 1) < 12 ==> r == Some(((pos + 1) as usize, self.simple_node(pos)->Some_0))
    }

    /// Every tree of the fragment is plain and lies within the input.
    pub proof fn lemma_trees_plain(&self, p: int)
        ensures
            self.factor_tree(p) is Some ==> plain_tree(self.factor_tree(p)->Some_0.1) && p < self.factor_tree(p)->Some_0.0 <= self.len(),
            forall|k: nat| 5 <= k <= 10 && #[trigger] self.level_tree(k, p) is Some ==> plain_tree(self.level_tree(k, p)->Some_0.1)
                && p < self.level_tree(k, p)->Some_0.0 <= self.len(),
            forall|k: nat| 5 <= k <= 10 && #[trigger] self.operand_tree(k, p) is Some ==> plain_tree(self.operand_tree(k, p)->Some_0.1)
                && p < self.operand_tree(k, p)->Some_0.0 <= self.len(),
    {
        self.lemma_factor_plain(p);
        self.lemma_level_plain(5, p);
        self.lemma_level_plain(6, p);
        self.lemma_level_plain(7, p);
        self.lemma_level_plain(8, p);
        self.lemma_level_plain(9, p);
        self.lemma_level_plain(10, p);
    }

    /// A match of a binary level starts where a factor does: at a unary operator or a
    /// single-token operand.
    pub proof fn lemma_tree_start(&self, k: nat, p: int)
        ensures
            self.level_tree(k, p) is Some ==> self.factor_tree(p) is Some,
            self.factor_tree(p) is Some ==> self.unary_at(p) is Some || self.simple_node(p) is Some,
        decreases 11 - k,
    {
        if 5 <= k < 10 {
            self.lemma_tree_start((k + 1) as nat, p);
        }
    }

    /// The comparison operator at `q` and how many tokens it takes (`not in` and `is not`
    /// take two).
    pub open spec fn cmp_at(&self, q: int) -> Option<(Cmpop, int)> {
        if self.sym_at(q, Sym::EqEqual) {
            Some((Cmpop::Eq, 1))
        } else if self.sym_at(q, Sym::NotEqual) {
            Some((Cmpop::NotEq, 1))
        } else if self.sym_at(q, Sym::LessEqual) {
            Some((Cmpop::LtE, 1))
        } else if self.sym_at(q, Sym::Less) {
            Some((Cmpop::Lt, 1))
        } else if self.sym_at(q, Sym::GreaterEqual) {
            Some((Cmpop::GtE, 1))
        } else if self.sym_at(q, Sym::Greater) {
            Some((Cmpop::Gt, 1))
        } else if self.sym_at(q, Sym::Not) {
            if self.sym_at(q + 1, Sym::In) {
                Some((Cmpop::NotIn, 2))
            } else {
                None
            }
        } else if self.sym_at(q, Sym::In) {
            Some((Cmpop::In, 1))
        } else if self.sym_at(q, Sym::Is) {
            if self.sym_at(q + 1, Sym::Not) {
                Some((Cmpop::IsNot, 2))
            } else {
                Some((Cmpop::Is, 1))
            }
        } else {
            None
        }
    }

    /// The (operator, operand) pairs of a comparison chain from `e` over operands of the
    /// binary levels, and where the chain ends.
    pub open spec fn cmp_chain(&self, e: int) -> (int, Seq<(Cmpop, Expr)>)
        decreases self.len() - e,
    {
        if !(0 <= e <= self.len()) {
            (e, Seq::empty())
        } else {
            match self.cmp_at(e) {
                Some((op, w)) => match self.level_tree(5, e + w) {
                    Some((e2, y)) => if e < e2 <= self.len() {
                        let (e3, rest) = self.cmp_chain(e2);
                        (e3, seq![(op, y)] + rest)
                    } else {
                        (e, Seq::empty())
                    },
                    None => (e, Seq::empty()),
                },
                None => (e, Seq::empty()),
            }
        }
    }

    /// `x` is the comparison node with left operand `a` and the operator/operand pairs `pairs`,
    /// spanning tokens `b .. e`.
    pub open spec fn compare_node(&self, x: Expr, b: int, e: int, a: Expr, pairs: Seq<(Cmpop, Expr)>) -> bool {
        &&& x.node matches ExprKind::Compare { left, ops, comparators } && *left == a && ops@ == firsts(pairs)
            && comparators@ == seconds(pairs)
        &&& x.location == self.locations@[b].0
        &&& x.end_location == self.locations@[e - 1].1
    }

    /// A comparison chain over operands of the binary levels, which the token after it cannot
    /// continue at rank `thr` or tighter, is one comparison node holding every operator and
    /// operand in order.
    pub open spec fn cmp_claim(&self, pos: int, r: Option<(usize, Expr)>, thr: nat) -> bool {
        let t = self.level_tree(5, pos);
        let c = self.cmp_chain(t->Some_0.0);
        t is Some && c.1.len() > 0 && self.cont_rank(c.0) < thr ==> r is Some && r->Some_0.0 == c.0
            && self.compare_node(r->Some_0.1, pos, c.0, t->Some_0.1, c.1)
    }

    /// A comparison operator at `pos` followed by an operand of the binary levels that the
    /// next token cannot continue at those levels gives that operator and operand.
    pub open spec fn pair_claim(&self, pos: int, r: Option<(usize, (Cmpop, Expr))>) -> bool {
        let (op, w) = self.cmp_at(pos)->Some_0;
        let t = self.level_tree(5, pos + w);
        self.cmp_at(pos) is Some && t is Some && self.cont_rank(t->Some_0.0) < 5 ==> r is Some && r->Some_0.0
            == t->Some_0.0 && r->Some_0.1.0 == op && r->Some_0.1.1 == t->Some_0.1
    }

    /// The attribute or subscript target at `p`, `NAME . NAME` or `NAME [ operand ]` with a
    /// single-token index: where it ends, and the node with context `ctx` on the target only
    /// (the object and the index keep the load context).
    pub open spec fn target_at(&self, p: int, ctx: ExprContext) -> Option<(int, Expr)> {
        if self.name_at(p) && self.sym_at(p + 1, Sym::Dot) && self.name_at(p + 2) {
            Some(
                (
                    p + 3,
                    self.spec_node(
                        p,
                        p + 3,
                        ExprKind::Attribute {
                            value: Box::new(self.name_node(p, ExprContext::Load)),
                            attr: self.names@[self.tokens@[p + 2]->Name_0 as int],
                            ctx,
                        },
                    ),
                ),
            )
        } else if self.name_at(p) && self.sym_at(p + 1, Sym::Lsqb) && self.simple_node(p + 2) is Some && self.sym_at(
            p + 3,
            Sym::Rsqb,
        ) {
            Some(
                (
                    p + 4,
                    self.spec_node(
                        p,
                        p + 4,
                        ExprKind::Subscript {
                            value: Box::new(self.name_node(p, ExprContext::Load)),
                            slice: Box::new(self.simple_node(p + 2)->Some_0),
                            ctx,
                        },
                    ),
                ),
            )
        } else {
            None
        }
    }

    /// A target of that shape, not followed by `.`, `(` or `[`.
    pub open spec fn lone_target(&self, p: int) -> bool {
        self.target_at(p, ExprContext::Load) is Some && self.cont_rank(self.target_at(p, ExprContext::Load)->Some_0.0) < 12
    }

    /// On a lone target the rule gives that target with context `ctx`.
    pub open spec fn target_claim(&self, p: int, r: Option<(usize, Expr)>, ctx: ExprContext) -> bool {
        self.lone_target(p) ==> r is Some && r->Some_0.0 == self.target_at(p, ctx)->Some_0.0 && r->Some_0.1 == self.target_at(
            p,
            ctx,
        )->Some_0.1
    }

    /// One deletion target at `q`: an attribute or subscript target, or a name followed by a
    /// closing token, with the delete context.
    pub open spec fn del_item(&self, q: int) -> Option<(int, Expr)> {
        if self.lone_target(q) {
            self.target_at(q, ExprContext::Del)
        } else if self.name_at(q) && self.stops(q + 1) {
            Some((q + 1, self.name_node(q, ExprContext::Del)))
        } else {
            None
        }
    }

    /// Comma-separated deletion targets from `q`, each followed by a closing token, with an
    /// optional trailing comma: where the list ends and its targets.
    pub open spec fn del_items(&self, q: int) -> Option<(int, Seq<Expr>)>
        decreases self.len() - q, 1nat,
    {
        match self.del_item(q) {
            Some((e, x)) => if 0 <= q < e <= self.len() && self.stops(e) {
                match self.del_rest(e) {
                    Some((e2, xs)) => Some((e2, seq![x] + xs)),
                    None => None,
                }
            } else {
                None
            },
            None => None,
        }
    }

    /// What follows a deletion target that ends at `e`.
    pub open spec fn del_rest(&self, e: int) -> Option<(int, Seq<Expr>)>
        decreases self.len() - e, 0nat,
    {
        if !self.sym_at(e, Sym::Comma) {
            Some((e, Seq::empty()))
        } else if self.stops(e + 1) {
            Some((e + 1, Seq::empty()))
        } else if 0 <= e < self.len() {
            self.del_items(e + 1)
        } else {
            None
        }
    }

    /// Comma-separated fragment expressions from `q`, each ending where no level continues:
    /// where the list ends, its items, and whether a trailing comma closes it.
    pub open spec fn item_list(&self, q: int) -> Option<(int, Seq<Expr>, bool)>
        decreases self.len() - q, 1nat,
    {
        match self.level_tree(5, q) {
            Some((e, x)) => if 0 <= q < e <= self.len() && self.cont_rank(e) == 0 {
                match self.tail_from(e) {
                    Some((e2, xs, t)) => Some((e2, seq![x] + xs, t)),
                    None => None,
                }
            } else {
                None
            },
            None => None,
        }
    }

    /// What follows an item that ends at `e`: nothing, a trailing comma before a closing token,
    /// or a comma and more items.
    pub open spec fn tail_from(&self, e: int) -> Option<(int, Seq<Expr>, bool)>
        decreases self.len() - e, 0nat,
    {
        if !self.sym_at(e, Sym::Comma) {
            Some((e, Seq::empty(), false))
        } else if self.stops(e + 1) {
            Some((e + 1, Seq::empty(), true))
        } else if 0 <= e < self.len() {
            self.item_list(e + 1)
        } else {
            None
        }
    }

    /// `x` is what a list of items `l` packs into from `pos`: the single item itself when there
    /// is one and no trailing comma, otherwise a load tuple of all items spanning the list.
    pub open spec fn packed(&self, x: Expr, pos: int, l: (int, Seq<Expr>, bool)) -> bool {
        if l.1.len() == 1 && !l.2 {
            x == l.1[0]
        } else {
            &&& x.node matches ExprKind::Tuple { elts, ctx: ExprContext::Load } && elts@ == l.1
            &&& x.location == self.locations@[pos].0
            &&& x.end_location == self.locations@[l.0 - 1].1
        }
    }

    /// Targets of that shape are plain trees.
    pub proof fn lemma_target_plain(&self, p: int)
        ensures
            forall|ctx: ExprContext| #[trigger] self.target_at(p, ctx) is Some ==> plain_tree(self.target_at(p, ctx)->Some_0.1),
    {
        assert forall|ctx: ExprContext| #[trigger] self.target_at(p, ctx) is Some implies plain_tree(self.target_at(p, ctx)->Some_0.1) by {
            assert(plain_tree(self.name_node(p, ExprContext::Load)));
            if self.simple_node(p + 2) is Some {
                assert(plain_tree(self.simple_node(p + 2)->Some_0));
            }
        }
    }

    /// A comparison operator token has rank 4.
    pub proof fn lemma_cmp_rank(&self, q: int)
        ensures
            self.cmp_at(q) is Some ==> self.cont_rank(q) == 4 && q < self.len(),
    {
    }

    /// The operands of a comparison chain are plain trees, and the chain ends after `e`.
    pub proof fn lemma_chain_plain(&self, e: int)
        ensures
            forall|j: int| 0 <= j < self.cmp_chain(e).1.len() ==> #[trigger] plain_tree(self.cmp_chain(e).1[j].1),
            0 <= e <= self.len() ==> e <= self.cmp_chain(e).0 <= self.len(),
        decreases self.len() - e,
    {
        if 0 <= e <= self.len() {
            if let Some((op, w)) = self.cmp_at(e) {
                self.lemma_trees_plain(e + w);
                if let Some((e2, y)) = self.level_tree(5, e + w) {
                    if e < e2 <= self.len() {
                        self.lemma_chain_plain(e2);
                        let rest = self.cmp_chain(e2).1;
                        assert forall|j: int| 0 <= j < self.cmp_chain(e).1.len() implies #[trigger] plain_tree(
                            self.cmp_chain(e).1[j].1,
                        ) by {
                            if j > 0 {
                                assert(self.cmp_chain(e).1[j] == rest[j - 1]);
                            }
                        }
                    }
                }
            }
        }
    }

    /// A binary operator token of level `k` has rank `k`.
    pub proof fn lemma_binop_rank(&self, k: nat, q: int)
        ensures
            self.binop_at(k, q) is Some ==> self.cont_rank(q) == k,
    {
    }

    pub proof fn lemma_factor_plain(&self, p: int)
        ensures
            self.factor_tree(p) is Some ==> plain_tree(self.factor_tree(p)->Some_0.1) && p < self.factor_tree(p)->Some_0.0 <= self.len(),
        decreases self.len() - p,
    {
        if 0 <= p < self.len() {
            if self.unary_at(p) is Some {
                self.lemma_factor_plain(p + 1);
                if let Some((e, x)) = self.factor_tree(p + 1) {
                    let z = self.spec_node(p, e, ExprKind::UnaryOp { op: self.unary_at(p)->Some_0, operand: Box::new(x) });
                    assert(plain_tree(z));
                }
            } else if let Some(a) = self.simple_node(p) {
                assert(plain_tree(a));
                if self.sym_at(p + 1, Sym::DoubleStar) {
                    self.lemma_factor_plain(p + 2);
                    if let Some((e, y)) = self.factor_tree(p + 2) {
                        let z = self.spec_node(p, e, ExprKind::BinOp { left: Box::new(a), op: Operator::Pow, right: Box::new(y) });
                        assert(plain_tree(z));
                    }
                }
            }
        }
    }

    pub proof fn lemma_level_plain(&self, k: nat, p: int)
        ensures
            self.operand_tree(k, p) is Some ==> plain_tree(self.operand_tree(k, p)->Some_0.1) && p < self.operand_tree(k, p)->Some_0.0 <= self.len(),
            self.level_tree(k, p) is Some ==> plain_tree(self.level_tree(k, p)->Some_0.1) && p < self.level_tree(k, p)->Some_0.0 <= self.len(),
        decreases self.len() - p, 11 - k, 2nat,
    {
        if 5 <= k <= 10 && 0 <= p <= self.len() {
            if k == 10 {
                self.lemma_factor_plain(p);
            } else {
                self.lemma_level_plain((k + 1) as nat, p);
            }
            if let Some((e, x)) = self.operand_tree(k, p) {
                if p < e <= self.len() {
                    self.lemma_grow_plain(k, p, e, x);
                }
            }
        }
    }

    pub proof fn lemma_grow_plain(&self, k: nat, p: int, e: int, x: Expr)
        requires
            plain_tree(x),
            p < e <= self.len(),
        ensures
            plain_tree(self.grow_tree(k, p, e, x).1),
            e <= self.grow_tree(k, p, e, x).0 <= self.len(),
        decreases self.len() - e, 11 - k, 0nat,
    {
        if 5 <= k <= 10 {
            if let Some(op) = self.binop_at(k, e) {
                self.lemma_level_plain(k, e + 1);
                if let Some((e2, y)) = self.operand_tree(k, e + 1) {
                    if e < e2 <= self.len() {
                        let z = self.spec_node(p, e2, ExprKind::BinOp { left: Box::new(x), op, right: Box::new(y) });
                        assert(plain_tree(z));
                        self.lemma_grow_plain(k, p, e2, z);
                    }
                }
            }
        }
    }
}

} // verus!
