use vstd::prelude::*;
use crate::ast::{Expr, ExprKind, Operator};
use crate::session::Parser;
use crate::token::Sym;

verus! {

impl Parser {
    /// The binary operation `x op y` spanning tokens `b .. e`.
    pub open spec fn bin_node(&self, b: int, e: int, x: Expr, op: Operator, y: Expr) -> Expr {
        self.spec_node(b, e, ExprKind::BinOp { left: Box::new(x), op, right: Box::new(y) })
    }

    /// At any level from `j` down, a single-token operand whose next token continues no level
    /// from `j` up is that operand alone.
    pub proof fn lemma_simple_operand(&self, j: nat, q: int)
        requires
            5 <= j <= 10,
            self.simple_node(q) is Some,
            self.cont_rank(q + 1) <= j || self.cont_rank(q + 1) == 12,
        ensures
            self.operand_tree(j, q) == Some((q + 1, self.simple_node(q)->Some_0)),
            j < 10 ==> self.level_tree((j + 1) as nat, q) == Some((q + 1, self.simple_node(q)->Some_0)),
        decreases 10 - j,
    {
        if j < 10 {
            self.lemma_simple_operand((j + 1) as nat, q);
            self.lemma_binop_rank((j + 1) as nat, q + 1);
        }
    }

    /// A match of level `k` that the next token cannot continue at level `j < k` is also the
    /// match of level `j`.
    pub proof fn lemma_level_lift(&self, j: nat, k: nat, p: int)
        requires
            5 <= j <= k <= 10,
            self.level_tree(k, p) is Some,
            self.cont_rank(self.level_tree(k, p)->Some_0.0) < j,
        ensures
            self.level_tree(j, p) == self.level_tree(k, p),
        decreases k - j,
    {
        self.lemma_trees_plain(p);
        if j < k {
            self.lemma_level_lift((j + 1) as nat, k, p);
            let (e, x) = self.level_tree(k, p)->Some_0;
            self.lemma_binop_rank(j, e);
            assert(self.grow_tree(j, p, e, x) == (e, x));
        }
    }

    /// Left nesting: at binary level `k`, `a op1 b op2 c` over single-token operands, followed by
    /// a token that continues no level from `k` up, is `(a op1 b) op2 c`.
    pub proof fn lemma_left_nested(&self, k: nat, p: int)
        requires
            5 <= k <= 10,
            self.simple_node(p) is Some,
            self.simple_node(p + 2) is Some,
            self.simple_node(p + 4) is Some,
            self.binop_at(k, p + 1) is Some,
            self.binop_at(k, p + 3) is Some,
            self.cont_rank(p + 5) < k,
            p + 5 <= self.len(),
        ensures
            self.level_tree(k, p) == Some(
                (
                    p + 5,
                    self.bin_node(
                        p,
                        p + 5,
                        self.bin_node(
                            p,
                            p + 3,
                            self.simple_node(p)->Some_0,
                            self.binop_at(k, p + 1)->Some_0,
                            self.simple_node(p + 2)->Some_0,
                        ),
                        self.binop_at(k, p + 3)->Some_0,
                        self.simple_node(p + 4)->Some_0,
                    ),
                ),
            ),
            self.cont_rank(p + 5) < 5 ==> self.level_tree(5, p) == self.level_tree(k, p),
    {
        self.lemma_binop_rank(k, p + 1);
        self.lemma_binop_rank(k, p + 3);
        self.lemma_binop_rank(k, p + 5);
        self.lemma_simple_operand(k, p);
        self.lemma_simple_operand(k, p + 2);
        self.lemma_simple_operand(k, p + 4);
        let a = self.simple_node(p)->Some_0;
        let b = self.simple_node(p + 2)->Some_0;
        let c = self.simple_node(p + 4)->Some_0;
        let ab = self.bin_node(p, p + 3, a, self.binop_at(k, p + 1)->Some_0, b);
        let abc = self.bin_node(p, p + 5, ab, self.binop_at(k, p + 3)->Some_0, c);
        assert(self.grow_tree(k, p, p + 5, abc) == (p + 5, abc));
        assert(self.grow_tree(k, p, p + 3, ab) == (p + 5, abc));
        assert(self.grow_tree(k, p, p + 1, a) == (p + 5, abc));
        if self.cont_rank(p + 5) < 5 {
            self.lemma_level_lift(5, k, p);
        }
    }

    /// A single-token operand followed by a token of rank below `j` is the whole match of
    /// binary level `j`.
    pub proof fn lemma_simple_level(&self, j: nat, q: int)
        requires
            5 <= j <= 10,
            self.simple_node(q) is Some,
            self.cont_rank(q + 1) < j || self.cont_rank(q + 1) == 12,
        ensures
            self.level_tree(j, q) == Some((q + 1, self.simple_node(q)->Some_0)),
    {
        self.lemma_simple_operand(j, q);
        self.lemma_binop_rank(j, q + 1);
        assert(self.grow_tree(j, q, q + 1, self.simple_node(q)->Some_0) == (q + 1, self.simple_node(q)->Some_0));
    }

    /// Chained comparison: `a op1 b op2 c` with single-token comparison operators over
    /// single-token operands, followed by a token that continues no comparison, is one chain
    /// with left operand `a` and the pairs `(op1, b)`, `(op2, c)`: one comparison node, not two
    /// nested ones.
    pub proof fn lemma_comparison_chain(&self, p: int)
        requires
            self.simple_node(p) is Some,
            self.simple_node(p + 2) is Some,
            self.simple_node(p + 4) is Some,
            self.cmp_at(p + 1) is Some && self.cmp_at(p + 1)->Some_0.1 == 1,
            self.cmp_at(p + 3) is Some && self.cmp_at(p + 3)->Some_0.1 == 1,
            self.cont_rank(p + 5) < 4,
            p + 5 <= self.len(),
        ensures
            self.level_tree(5, p) == Some((p + 1, self.simple_node(p)->Some_0)),
            self.cmp_chain(p + 1) == (
                p + 5,
                seq![
                    (self.cmp_at(p + 1)->Some_0.0, self.simple_node(p + 2)->Some_0),
                    (self.cmp_at(p + 3)->Some_0.0, self.simple_node(p + 4)->Some_0),
                ],
            ),
    {
        self.lemma_cmp_rank(p + 1);
        self.lemma_cmp_rank(p + 3);
        self.lemma_cmp_rank(p + 5);
        self.lemma_simple_level(5, p);
        self.lemma_simple_level(5, p + 2);
        self.lemma_simple_level(5, p + 4);
        assert(self.cmp_chain(p + 5) == (p + 5, Seq::<(crate::ast::Cmpop, Expr)>::empty()));
        let c = (self.cmp_at(p + 3)->Some_0.0, self.simple_node(p + 4)->Some_0);
        assert(self.cmp_chain(p + 3) == (p + 5, seq![c] + Seq::<(crate::ast::Cmpop, Expr)>::empty()));
        assert(seq![c] + Seq::<(crate::ast::Cmpop, Expr)>::empty() =~= seq![c]);
        let b = (self.cmp_at(p + 1)->Some_0.0, self.simple_node(p + 2)->Some_0);
        assert(seq![b] + seq![c] =~= seq![b, c]);
    }

    /// Right nesting of powers: `a ** b ** c` over single-token operands, followed by a token
    /// other than `**`, is `a ** (b ** c)`.
    pub proof fn lemma_power_right_nested(&self, p: int)
        requires
            self.simple_node(p) is Some,
            self.simple_node(p + 2) is Some,
            self.simple_node(p + 4) is Some,
            self.sym_at(p + 1, Sym::DoubleStar),
            self.sym_at(p + 3, Sym::DoubleStar),
            !self.sym_at(p + 5, Sym::DoubleStar),
            p + 5 <= self.len(),
        ensures
            self.factor_tree(p) == Some(
                (
                    p + 5,
                    self.bin_node(
                        p,
                        p + 5,
                        self.simple_node(p)->Some_0,
                        Operator::Pow,
                        self.bin_node(
                            p + 2,
                            p + 5,
                            self.simple_node(p + 2)->Some_0,
                            Operator::Pow,
                            self.simple_node(p + 4)->Some_0,
                        ),
                    ),
                ),
            ),
            self.cont_rank(p + 5) < 5 ==> self.level_tree(5, p) == self.factor_tree(p),
    {
        assert(self.unary_at(p + 4) is None);
        assert(self.factor_tree(p + 4) == Some((p + 5, self.simple_node(p + 4)->Some_0)));
        assert(self.unary_at(p + 2) is None);
        let bc = self.bin_node(p + 2, p + 5, self.simple_node(p + 2)->Some_0, Operator::Pow, self.simple_node(p + 4)->Some_0);
        assert(self.factor_tree(p + 2) == Some((p + 5, bc)));
        assert(self.unary_at(p) is None);
        if self.cont_rank(p + 5) < 5 {
            self.lemma_binop_rank(10, p + 5);
            let (e, x) = self.factor_tree(p)->Some_0;
            assert(self.grow_tree(10, p, e, x) == (e, x));
            assert(self.level_tree(10, p) == self.factor_tree(p));
            self.lemma_level_lift(5, 10, p);
        }
    }

    /// Precedence: `a + b * c` (any operator of the sum level, then any of the term level)
    /// over single-token operands, followed by a token that continues no level from the sum
    /// level up, is `a + (b * c)`.
    pub proof fn lemma_term_binds_tighter(&self, p: int)
        requires
            self.simple_node(p) is Some,
            self.simple_node(p + 2) is Some,
            self.simple_node(p + 4) is Some,
            self.binop_at(9, p + 1) is Some,
            self.binop_at(10, p + 3) is Some,
            self.cont_rank(p + 5) < 9,
            p + 5 <= self.len(),
        ensures
            self.level_tree(9, p) == Some(
                (
                    p + 5,
                    self.bin_node(
                        p,
                        p + 5,
                        self.simple_node(p)->Some_0,
                        self.binop_at(9, p + 1)->Some_0,
                        self.bin_node(
                            p + 2,
                            p + 5,
                            self.simple_node(p + 2)->Some_0,
                            self.binop_at(10, p + 3)->Some_0,
                            self.simple_node(p + 4)->Some_0,
                        ),
                    ),
                ),
            ),
            self.cont_rank(p + 5) < 5 ==> self.level_tree(5, p) == self.level_tree(9, p),
    {
        self.lemma_binop_rank(9, p + 1);
        self.lemma_binop_rank(10, p + 3);
        self.lemma_binop_rank(9, p + 5);
        self.lemma_binop_rank(10, p + 5);
        self.lemma_simple_operand(9, p);
        self.lemma_simple_operand(10, p + 2);
        self.lemma_simple_operand(10, p + 4);
        let a = self.simple_node(p)->Some_0;
        let b = self.simple_node(p + 2)->Some_0;
        let c = self.simple_node(p + 4)->Some_0;
        let bc = self.bin_node(p + 2, p + 5, b, self.binop_at(10, p + 3)->Some_0, c);
        assert(self.grow_tree(10, p + 2, p + 5, bc) == (p + 5, bc));
        assert(self.grow_tree(10, p + 2, p + 3, b) == (p + 5, bc));
        assert(self.level_tree(10, p + 2) == Some((p + 5, bc)));
        assert(self.operand_tree(9, p + 2) == Some((p + 5, bc)));
        let abc = self.bin_node(p, p + 5, a, self.binop_at(9, p + 1)->Some_0, bc);
        assert(self.grow_tree(9, p, p + 5, abc) == (p + 5, abc));
        assert(self.grow_tree(9, p, p + 1, a) == (p + 5, abc));
        if self.cont_rank(p + 5) < 5 {
            self.lemma_level_lift(5, 9, p);
        }
    }
}

} // verus!
