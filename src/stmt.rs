use vstd::prelude::*;
use crate::ast::{Expr, ExprContext, Operator, Stmt, StmtKind};
use crate::engine::{advances, expr_outcome, loads, ParseState};
use crate::nodes::option_box;
use crate::session::Parser;
use crate::token::{PegTok, Sym};

verus! {

/// Every expression carries the store context.
pub open spec fn all_store(s: Seq<Expr>) -> bool {
    forall|i: int| 0 <= i < s.len() ==> (#[trigger] s[i]).node.ctx_of() == Some(ExprContext::Store)
}

impl Parser {
    /// The statement that a lone `pass`, `break` or `continue` token at `p` stands for.
    pub open spec fn keyword_stmt(&self, p: int) -> Option<StmtKind> {
        if self.sym_at(p, Sym::Pass) {
            Some(StmtKind::Pass)
        } else if self.sym_at(p, Sym::Break) {
            Some(StmtKind::Break)
        } else if self.sym_at(p, Sym::Continue) {
            Some(StmtKind::Continue)
        } else {
            None
        }
    }

    /// A line holding one keyword statement and its newline starts at `p`.
    pub open spec fn line_at(&self, p: int) -> bool {
        self.keyword_stmt(p) is Some && self.sym_at(p + 1, Sym::Newline)
    }

    /// From `p` to the end, the tokens are one or more keyword-statement lines.
    pub open spec fn lines(&self, p: int) -> bool {
        exists|n: nat| #[trigger] self.lines_n(p, n)
    }

    /// From `p` to the end, the tokens are exactly `n > 0` keyword-statement lines.
    pub open spec fn lines_n(&self, p: int, n: nat) -> bool {
        n > 0 && self.len() == p + 2 * n && forall|j: int| 0 <= j < n ==> #[trigger] self.line_at(p + 2 * j)
    }

    /// `body` holds one statement per keyword line from `p` on, in order.
    pub open spec fn keyword_body(&self, p: int, body: Seq<Stmt>) -> bool {
        &&& self.len() == p + 2 * body.len()
        &&& forall|j: int| 0 <= j < body.len() ==> (#[trigger] body[j]).node == self.keyword_stmt(p + 2 * j)->Some_0
    }

    /// The operator of the augmented-assignment token at `q`.
    pub open spec fn augop_at(&self, q: int) -> Option<Operator> {
        if self.sym_at(q, Sym::PlusEqual) {
            Some(Operator::Add)
        } else if self.sym_at(q, Sym::MinusEqual) {
            Some(Operator::Sub)
        } else if self.sym_at(q, Sym::StarEqual) {
            Some(Operator::Mult)
        } else if self.sym_at(q, Sym::AtEqual) {
            Some(Operator::MatMult)
        } else if self.sym_at(q, Sym::SlashEqual) {
            Some(Operator::Div)
        } else if self.sym_at(q, Sym::PercentEqual) {
            Some(Operator::Mod)
        } else if self.sym_at(q, Sym::AmperEqual) {
            Some(Operator::BitAnd)
        } else if self.sym_at(q, Sym::VbarEqual) {
            Some(Operator::BitOr)
        } else if self.sym_at(q, Sym::CircumflexEqual) {
            Some(Operator::BitXor)
        } else if self.sym_at(q, Sym::LeftShiftEqual) {
            Some(Operator::LShift)
        } else if self.sym_at(q, Sym::RightShiftEqual) {
            Some(Operator::RShift)
        } else if self.sym_at(q, Sym::DoubleStarEqual) {
            Some(Operator::Pow)
        } else if self.sym_at(q, Sym::DoubleSlashEqual) {
            Some(Operator::FloorDiv)
        } else {
            None
        }
    }

    /// No `=` token stands at `q` or after it.
    pub open spec fn no_equal_from(&self, q: int) -> bool {
        forall|k: int| q <= k < self.len() ==> !#[trigger] self.sym_at(k, Sym::Equal)
    }

    /// Where the statement line starting at `p` ends (after its newline), for the lines whose
    /// statement is fixed: simple lines, and `if` statements holding one simple line.
    pub open spec fn line_end(&self, p: int) -> Option<int> {
        if self.simple_line_end(p) is Some {
            self.simple_line_end(p)
        } else if self.if_line(p) {
            Some(self.if_end(p))
        } else {
            None
        }
    }

    /// The statement of the line at `p`, as fixed by its kind.
    pub open spec fn line_stmt(&self, s: Stmt, p: int) -> bool {
        if self.simple_line_end(p) is Some {
            self.simple_line_stmt(s, p)
        } else {
            self.if_line(p) && self.if_of(s, p)
        }
    }

    /// The statement of the simple line at `p`.
    pub open spec fn simple_line_stmt(&self, s: Stmt, p: int) -> bool {
        if self.line_at(p) {
            s.node == self.keyword_stmt(p)->Some_0
        } else if self.assign_line(p) {
            self.assign_of(s, p)
        } else if self.del_line(p) {
            self.del_of(s, p)
        } else {
            self.expr_line(p) && self.expr_of(s, p)
        }
    }

    /// The test of an `if` line at `p` and where it ends.
    pub open spec fn if_test(&self, p: int) -> Option<(int, Expr)> {
        self.level_tree(5, p + 1)
    }

    /// Where the inner line of an `if` statement at `p` ends, before its dedent.
    pub open spec fn if_inner_end(&self, p: int) -> int {
        self.simple_line_end(self.if_test(p)->Some_0.0 + 3)->Some_0
    }

    /// `if test:` with a fragment test, a newline, an indented block of one simple line, and
    /// no `elif` or `else` after it, starts at `p`.
    pub open spec fn if_line(&self, p: int) -> bool {
        &&& self.sym_at(p, Sym::If)
        &&& self.if_test(p) is Some
        &&& self.sym_at(self.if_test(p)->Some_0.0, Sym::Colon)
        &&& self.sym_at(self.if_test(p)->Some_0.0 + 1, Sym::Newline)
        &&& self.sym_at(self.if_test(p)->Some_0.0 + 2, Sym::Indent)
        &&& self.simple_line_end(self.if_test(p)->Some_0.0 + 3) is Some
        &&& self.sym_at(self.if_inner_end(p), Sym::Dedent)
        &&& !self.sym_at(self.if_inner_end(p) + 1, Sym::Elif)
        &&& !self.sym_at(self.if_inner_end(p) + 1, Sym::Else)
    }

    /// Where an `if` line at `p` ends: after the dedent of its block.
    pub open spec fn if_end(&self, p: int) -> int {
        self.if_inner_end(p) + 1
    }

    /// The `if` statement of an `if` line at `p`: its test, its one body statement, no
    /// `else` part, and a span that leaves out the trailing newline and dedent.
    pub open spec fn if_of(&self, s: Stmt, p: int) -> bool {
        &&& s.node matches StmtKind::If { test, body, orelse } && *test == self.if_test(p)->Some_0.1
            && body@.len() == 1 && self.simple_line_stmt(body@[0], self.if_test(p)->Some_0.0 + 3) && orelse@.len()
            == 0
        &&& s.location == self.locations@[p].0
        &&& s.end_location == self.locations@[self.trim_end(p, self.if_end(p)) - 1].1
    }

    /// Where the simple line starting at `p` ends (after its newline): keyword lines,
    /// assignment lines, `del` lines and expression lines.
    pub open spec fn simple_line_end(&self, p: int) -> Option<int> {
        if self.line_at(p) {
            Some(p + 2)
        } else if self.assign_line(p) {
            Some(self.assign_end(p) + 1)
        } else if self.del_line(p) {
            Some(self.del_end(p) + 1)
        } else if self.expr_line(p) {
            Some(self.expr_end(p) + 1)
        } else {
            None
        }
    }

    /// Where the line after `i` lines from `p` starts.
    pub open spec fn nth_start(&self, p: int, i: nat) -> int
        decreases i,
    {
        if i == 0 {
            p
        } else {
            let q = self.nth_start(p, (i - 1) as nat);
            match self.line_end(q) {
                Some(e) => e,
                None => q,
            }
        }
    }

    /// `body` holds the statements of the lines from `p`, one per line, in order.
    pub open spec fn lines_body(&self, p: int, body: Seq<Stmt>) -> bool {
        forall|i: int| 0 <= i < body.len() ==> #[trigger] self.line_stmt(body[i], self.nth_start(p, i as nat))
    }

    /// How many such lines run from `p` exactly to the end of the input.
    pub open spec fn line_count(&self, p: int) -> Option<nat>
        decreases self.len() - p,
    {
        if p == self.len() {
            Some(0)
        } else if 0 <= p < self.len() {
            match self.line_end(p) {
                Some(e) => if p < e <= self.len() {
                    match self.line_count(e) {
                        Some(n) => Some(n + 1),
                        None => None,
                    }
                } else {
                    None
                },
                None => None,
            }
        } else {
            None
        }
    }

    /// An expression of the operator fragment ending with a newline starts at `p`.
    pub open spec fn expr_line(&self, p: int) -> bool {
        self.level_tree(5, p) is Some && self.sym_at(self.level_tree(5, p)->Some_0.0, Sym::Newline)
    }

    /// Where the expression of an expression line at `p` ends.
    pub open spec fn expr_end(&self, p: int) -> int {
        self.level_tree(5, p)->Some_0.0
    }

    /// The expression statement that an expression line at `p` stands for.
    pub open spec fn expr_of(&self, s: Stmt, p: int) -> bool {
        &&& s.node == StmtKind::Expr { value: Box::new(self.level_tree(5, p)->Some_0.1) }
        &&& s.location == self.locations@[p].0
        &&& s.end_location == self.locations@[self.expr_end(p) - 1].1
    }

    /// An expression of the operator fragment that does not start with a name, directly followed
    /// by `=`, starts at `p`: such an expression cannot be assigned to.
    pub open spec fn bad_assign(&self, p: int) -> bool {
        &&& self.level_tree(5, p) is Some
        &&& self.sym_at(self.level_tree(5, p)->Some_0.0, Sym::Equal)
        &&& !self.name_at(p)
    }

    /// After the operand that starts a bad assignment comes `=` or an operator of the
    /// fragment, and the expression is one item.
    pub proof fn lemma_bad_assign(&self, p: int)
        requires
            self.bad_assign(p),
        ensures
            self.simple_node(p) is Some || self.unary_at(p) is Some,
            self.simple_node(p) is Some ==> self.level_tree(5, p)->Some_0.0 == p + 1 || 5 <= self.cont_rank(p + 1) <= 11,
            p < self.level_tree(5, p)->Some_0.0 <= self.len(),
            self.item_list(p) == Some((self.level_tree(5, p)->Some_0.0, seq![self.level_tree(5, p)->Some_0.1], false)),
    {
        self.lemma_tree_start(5, p);
        self.lemma_trees_plain(p);
        if self.simple_node(p) is Some && (self.cont_rank(p + 1) < 5 || self.cont_rank(p + 1) == 12) {
            self.lemma_simple_level(5, p);
        }
        assert(seq![self.level_tree(5, p)->Some_0.1] + Seq::<Expr>::empty() =~= seq![self.level_tree(5, p)->Some_0.1]);
    }

    /// An expression line starts at an operand or a unary operator; after a single-token
    /// operand comes the newline or an operator of the fragment; and the line is one item.
    pub proof fn lemma_expr_line(&self, p: int)
        requires
            self.expr_line(p),
        ensures
            self.simple_node(p) is Some || self.unary_at(p) is Some,
            self.simple_node(p) is Some ==> self.expr_end(p) == p + 1 || 5 <= self.cont_rank(p + 1) <= 11,
            p < self.expr_end(p) <= self.len(),
            self.item_list(p) == Some((self.expr_end(p), seq![self.level_tree(5, p)->Some_0.1], false)),
    {
        self.lemma_tree_start(5, p);
        self.lemma_trees_plain(p);
        if self.simple_node(p) is Some && (self.cont_rank(p + 1) < 5 || self.cont_rank(p + 1) == 12) {
            self.lemma_simple_level(5, p);
        }
        assert(seq![self.level_tree(5, p)->Some_0.1] + Seq::<Expr>::empty() =~= seq![self.level_tree(5, p)->Some_0.1]);
    }

    /// `del targets` ending with a newline starts at `p`.
    pub open spec fn del_line(&self, p: int) -> bool {
        self.sym_at(p, Sym::Del) && self.del_items(p + 1) is Some && self.sym_at(self.del_end(p), Sym::Newline)
    }

    /// Where the targets of a `del` line at `p` end.
    pub open spec fn del_end(&self, p: int) -> int {
        self.del_items(p + 1)->Some_0.0
    }

    /// The deletion that a `del` line at `p` stands for: its targets, in order, with the delete
    /// context.
    pub open spec fn del_of(&self, s: Stmt, p: int) -> bool {
        &&& s.node matches StmtKind::Delete { targets } && targets@ == self.del_items(p + 1)->Some_0.1
        &&& s.location == self.locations@[p].0
        &&& s.end_location == self.locations@[self.del_end(p) - 1].1
    }

    /// The target of an assignment line at `p`: an attribute or subscript target, or a name,
    /// with the store context.
    pub open spec fn line_target(&self, p: int) -> Option<(int, Expr)> {
        if self.target_at(p, ExprContext::Store) is Some {
            self.target_at(p, ExprContext::Store)
        } else if self.name_at(p) {
            Some((p + 1, self.name_node(p, ExprContext::Store)))
        } else {
            None
        }
    }

    /// `target = value` ending with a newline starts at `p`: a target, `=`, an expression of the
    /// operator fragment that ends at a newline, and no further `=`.
    pub open spec fn assign_line(&self, p: int) -> bool {
        &&& self.line_target(p) is Some
        &&& self.sym_at(self.line_target(p)->Some_0.0, Sym::Equal)
        &&& self.level_tree(5, self.line_target(p)->Some_0.0 + 1) is Some
        &&& self.sym_at(self.assign_end(p), Sym::Newline)
        &&& self.no_equal_from(self.line_target(p)->Some_0.0 + 1)
    }

    /// Where the value of an assignment line at `p` ends.
    pub open spec fn assign_end(&self, p: int) -> int {
        self.level_tree(5, self.line_target(p)->Some_0.0 + 1)->Some_0.0
    }

    /// `s` is the assignment of `value` to the single target `target`, spanning tokens `b .. e`.
    pub open spec fn assign_node(&self, s: Stmt, b: int, e: int, target: Expr, value: Expr) -> bool {
        &&& s.node matches StmtKind::Assign { targets, value: v, type_comment: None } && targets@ == seq![target] && *v == value
        &&& s.location == self.locations@[b].0
        &&& s.end_location == self.locations@[e - 1].1
    }

    /// The assignment that an assignment line at `p` stands for.
    pub open spec fn assign_of(&self, s: Stmt, p: int) -> bool {
        self.assign_node(
            s,
            p,
            self.assign_end(p),
            self.line_target(p)->Some_0.1,
            self.level_tree(5, self.line_target(p)->Some_0.0 + 1)->Some_0.1,
        )
    }

    /// A statement node spanning tokens `begin .. end`.
    pub fn stmt(&self, begin: usize, end: usize, kind: StmtKind) -> (r: Stmt)
        requires
            self.wf(),
            begin < end <= self.len(),
        ensures
            r.location == self.locations@[begin as int].0,
            r.end_location == self.locations@[end - 1].1,
            r.node == kind,
    {
        let (location, end_location) = self.span(begin, end);
        Stmt { location, end_location, node: kind }
    }

    /// One or more statements.
    #[verifier::rlimit(60)]
    pub fn statements(&self, st: &mut ParseState, pos: usize) -> (r: Option<(usize, Vec<Stmt>)>)
        requires
            self.ready(*old(st), pos),
        ensures
            old(st).follows(*final(st), self.len()),
            self.memo_ok(*final(st)),
            advances(pos as int, r, self.len()),
            self.bad_assign(pos as int) ==> r is None,
            self.simple_line_end(pos as int) is Some && self.sym_at(self.simple_line_end(pos as int)->Some_0, Sym::Dedent) ==> r is Some && r->Some_0.0 == self.simple_line_end(pos as int)->Some_0
                && r->Some_0.1@.len() == 1 && self.simple_line_stmt(r->Some_0.1@[0], pos as int),
            self.lines(pos as int) ==> r is Some && r->Some_0.0 == self.len() && self.keyword_body(pos as int, r->Some_0.1@),
            self.line_count(pos as int) is Some && self.line_count(pos as int)->Some_0 > 0 ==> r is Some && r->Some_0.0 == self.len() && r->Some_0.1@.len() == self.line_count(pos as int)->Some_0
                && self.lines_body(pos as int, r->Some_0.1@),
            self.assign_line(pos as int) && self.assign_end(pos as int) + 1 == self.len() ==> r is Some && r->Some_0.0 == self.len() && r->Some_0.1@.len() == 1
                && self.assign_of(r->Some_0.1@[0], pos as int),
            self.del_line(pos as int) && self.del_end(pos as int) + 1 == self.len() ==> r is Some && r->Some_0.0 == self.len() && r->Some_0.1@.len() == 1
                && self.del_of(r->Some_0.1@[0], pos as int),
        decreases self.len() - pos, 250nat,
    {
        proof {
            if self.bad_assign(pos as int) {
                self.lemma_bad_assign(pos as int);
            }
        }
        let ghost n: nat = if self.lines(pos as int) {
            choose|n: nat| #[trigger] self.lines_n(pos as int, n)
        } else {
            0
        };
        proof {
            if self.lines(pos as int) {
                assert(self.line_at(pos + 2 * 0));
            }
        }
        let (mut end, mut body) = match self.statement(st, pos) {
            Some(x) => x,
            None => return None,
        };
        proof {
            if self.line_count(pos as int) is Some && self.line_count(pos as int)->Some_0 > 0 {
                assert(self.nth_start(pos as int, 0) == pos);
                assert(self.nth_start(pos as int, 1) == end);
                assert(self.line_stmt(body@[0], self.nth_start(pos as int, 0)));
                assert(self.lines_body(pos as int, body@));
            }
        }
        loop
            invariant
                pos < end <= self.len(),
                self.line_count(pos as int) is Some && self.line_count(pos as int)->Some_0 > 0 ==> end == self.nth_start(pos as int, body@.len()) && self.lines_body(pos as int, body@),
                self.simple_line_end(pos as int) is Some && self.sym_at(self.simple_line_end(pos as int)->Some_0, Sym::Dedent) ==> end == self.simple_line_end(pos as int)->Some_0 && body@.len() == 1
                    && self.simple_line_stmt(body@[0], pos as int),
                self.line_count(pos as int) is Some && self.line_count(pos as int)->Some_0 > 0 ==> self.line_count(end as int) is Some && body@.len() + self.line_count(end as int)->Some_0 == self.line_count(pos as int)->Some_0,
                self.assign_line(pos as int) && self.assign_end(pos as int) + 1 == self.len() ==> end == self.len() && body@.len() == 1 && self.assign_of(body@[0], pos as int),
                self.del_line(pos as int) && self.del_end(pos as int) + 1 == self.len() ==> end == self.len() && body@.len() == 1 && self.del_of(body@[0], pos as int),
                self.lines(pos as int) ==> n > 0 && self.len() == pos + 2 * n && (forall|j: int|
                    0 <= j < n ==> #[trigger] self.line_at(pos + 2 * j)) && end == pos + 2 * body@.len()
                    && body@.len() <= n && (forall|j: int|
                    0 <= j < body@.len() ==> (#[trigger] body@[j]).node == self.keyword_stmt(pos + 2 * j)->Some_0),
                self.wf(),
                self.len() <= usize::MAX,
                old(st).follows(*st, self.len()),
                self.memo_ok(*st),
            ensures
                self.line_count(pos as int) is Some && self.line_count(pos as int)->Some_0 > 0 ==> self.lines_body(pos as int, body@),
                self.line_count(pos as int) is Some && self.line_count(pos as int)->Some_0 > 0 ==> end == self.len() && body@.len() == self.line_count(pos as int)->Some_0,
                self.lines(pos as int) ==> end == self.len() && end == pos + 2 * body@.len() && (forall|j: int|
                    0 <= j < body@.len() ==> (#[trigger] body@[j]).node == self.keyword_stmt(pos + 2 * j)->Some_0),
            decreases self.len() - end,
        {
            proof {
                if self.lines(pos as int) && end < self.len() {
                    assert(self.line_at(pos + 2 * (body@.len() as int)));
                }
            }
            match self.statement(st, end) {
                Some((e, mut more)) => {
                    let ghost before = body@;
                    let ghost start = end as int;
                    let ghost added = more@;
                    body.append(&mut more);
                    end = e;
                    proof {
                        if self.line_count(pos as int) is Some && self.line_count(pos as int)->Some_0 > 0 {
                            assert(self.nth_start(pos as int, body@.len()) == e);
                            assert forall|i: int| 0 <= i < body@.len() implies #[trigger] self.line_stmt(
                                body@[i],
                                self.nth_start(pos as int, i as nat),
                            ) by {
                                if i < before.len() {
                                    assert(body@[i] == before[i]);
                                } else {
                                    assert(body@[i] == added[0]);
                                }
                            }
                        }
                    }
                    proof {
                        if self.lines(pos as int) {
                            assert forall|j: int| 0 <= j < body@.len() implies (#[trigger] body@[j]).node
                                == self.keyword_stmt(pos + 2 * j)->Some_0 by {
                                if j < before.len() {
                                    assert(body@[j] == before[j]);
                                }
                            }
                        }
                    }
                },
                None => break,
            }
        }
        proof {
            if self.lines(pos as int) && end < self.len() {
                assert(self.line_at(pos + 2 * (body@.len() as int)));
            }
        }
        Some((end, body))
    }

    /// A compound statement, or a line of simple statements.
    pub fn statement(&self, st: &mut ParseState, pos: usize) -> (r: Option<(usize, Vec<Stmt>)>)
        requires
            self.ready(*old(st), pos),
        ensures
            old(st).follows(*final(st), self.len()),
            self.memo_ok(*final(st)),
            advances(pos as int, r, self.len()),
            self.bad_assign(pos as int) ==> r is None,
            self.line_end(pos as int) is Some ==> r is Some && r->Some_0.0 == self.line_end(pos as int)->Some_0 && r->Some_0.1@.len() == 1
                && self.line_stmt(r->Some_0.1@[0], pos as int),
            self.sym_at(pos as int, Sym::Dedent) ==> r is None,
            self.expr_line(pos as int) ==> r is Some && r->Some_0.0 == self.expr_end(pos as int) + 1 && r->Some_0.1@.len() == 1
                && self.expr_of(r->Some_0.1@[0], pos as int),
            self.line_at(pos as int) ==> r is Some && r->Some_0.0 == pos + 2 && r->Some_0.1@.len() == 1
                && r->Some_0.1@[0].node == self.keyword_stmt(pos as int)->Some_0,
            self.assign_line(pos as int) ==> r is Some && r->Some_0.0 == self.assign_end(pos as int) + 1
                && r->Some_0.1@.len() == 1 && self.assign_of(r->Some_0.1@[0], pos as int),
            self.del_line(pos as int) ==> r is Some && r->Some_0.0 == self.del_end(pos as int) + 1
                && r->Some_0.1@.len() == 1 && self.del_of(r->Some_0.1@[0], pos as int),
        decreases self.len() - pos, 240nat,
    {
        proof {
            if self.expr_line(pos as int) {
                self.lemma_expr_line(pos as int);
            }
            if self.bad_assign(pos as int) {
                self.lemma_bad_assign(pos as int);
            }
        }
        if let Some((e, s)) = self.compound_stmt(st, pos) {
            let mut body: Vec<Stmt> = Vec::new();
            body.push(s);
            return Some((e, body));
        }
        self.simple_stmts(st, pos)
    }

    /// Simple statements separated by `;`, ending with a newline.
    pub fn simple_stmts(&self, st: &mut ParseState, pos: usize) -> (r: Option<(usize, Vec<Stmt>)>)
        requires
            self.ready(*old(st), pos),
        ensures
            old(st).follows(*final(st), self.len()),
            self.memo_ok(*final(st)),
            advances(pos as int, r, self.len()),
            self.bad_assign(pos as int) ==> r is None,
            self.sym_at(pos as int, Sym::Dedent) ==> r is None,
            self.expr_line(pos as int) ==> r is Some && r->Some_0.0 == self.expr_end(pos as int) + 1 && r->Some_0.1@.len() == 1
                && self.expr_of(r->Some_0.1@[0], pos as int),
            self.line_at(pos as int) ==> r is Some && r->Some_0.0 == pos + 2 && r->Some_0.1@.len() == 1
                && r->Some_0.1@[0].node == self.keyword_stmt(pos as int)->Some_0,
            self.assign_line(pos as int) ==> r is Some && r->Some_0.0 == self.assign_end(pos as int) + 1
                && r->Some_0.1@.len() == 1 && self.assign_of(r->Some_0.1@[0], pos as int),
            self.del_line(pos as int) ==> r is Some && r->Some_0.0 == self.del_end(pos as int) + 1
                && r->Some_0.1@.len() == 1 && self.del_of(r->Some_0.1@[0], pos as int),
        decreases self.len() - pos, 230nat,
    {
        proof {
            if self.bad_assign(pos as int) {
                self.lemma_bad_assign(pos as int);
            }
        }
        let (e1, first) = match self.simple_stmt(st, pos) {
            Some(x) => x,
            None => return None,
        };
        if !self.peek(e1, Sym::Semi) && self.expect(st, e1, Sym::Newline) {
            let mut body: Vec<Stmt> = Vec::new();
            body.push(first);
            return Some((e1 + 1, body));
        }
        let mut end = e1;
        let mut body: Vec<Stmt> = Vec::new();
        body.push(first);
        loop
            invariant
                pos < end <= self.len(),
                self.bad_assign(pos as int) ==> end == self.level_tree(5, pos as int)->Some_0.0,
                self.wf(),
                self.len() <= usize::MAX,
                old(st).follows(*st, self.len()),
                self.memo_ok(*st),
            decreases self.len() - end,
        {
            if !self.expect(st, end, Sym::Semi) {
                break;
            }
            match self.simple_stmt(st, end + 1) {
                Some((e, x)) => {
                    body.push(x);
                    end = e;
                },
                None => break,
            }
        }
        if self.expect(st, end, Sym::Semi) {
            end = end + 1;
        }
        if self.expect(st, end, Sym::Newline) {
            Some((end + 1, body))
        } else {
            None
        }
    }

    /// One simple statement.
    pub fn simple_stmt(&self, st: &mut ParseState, pos: usize) -> (r: Option<(usize, Stmt)>)
        requires
            self.ready(*old(st), pos),
        ensures
            old(st).follows(*final(st), self.len()),
            self.memo_ok(*final(st)),
            advances(pos as int, r, self.len()),
            self.bad_assign(pos as int) ==> r is Some && r->Some_0.0 == self.level_tree(5, pos as int)->Some_0.0,
            self.sym_at(pos as int, Sym::Dedent) ==> r is None,
            self.expr_line(pos as int) ==> r is Some && r->Some_0.0 == self.expr_end(pos as int) && self.expr_of(r->Some_0.1, pos as int),
            self.keyword_stmt(pos as int) is Some ==> r is Some && r->Some_0.0 == pos + 1
                && r->Some_0.1.node == self.keyword_stmt(pos as int)->Some_0,
            self.assign_line(pos as int) ==> r is Some && r->Some_0.0 == self.assign_end(pos as int)
                && self.assign_of(r->Some_0.1, pos as int),
            self.del_line(pos as int) ==> r is Some && r->Some_0.0 == self.del_end(pos as int)
                && self.del_of(r->Some_0.1, pos as int),
        decreases self.len() - pos, 220nat,
    {
        proof {
            if self.expr_line(pos as int) {
                self.lemma_expr_line(pos as int);
            }
            if self.bad_assign(pos as int) {
                self.lemma_bad_assign(pos as int);
            }
        }
        if let Some(r) = self.assignment(st, pos) {
            return Some(r);
        }
        if let Some((e, value)) = self.star_expressions(st, pos) {
            return Some((e, self.stmt(pos, e, StmtKind::Expr { value: Box::new(value) })));
        }
        if self.peek(pos, Sym::Return) {
            if let Some(r) = self.return_stmt(st, pos) {
                return Some(r);
            }
        }
        if self.peek(pos, Sym::Import) || self.peek(pos, Sym::From) {
            if let Some(r) = self.import_stmt(st, pos) {
                return Some(r);
            }
        }
        if self.peek(pos, Sym::Raise) {
            if let Some(r) = self.raise_stmt(st, pos) {
                return Some(r);
            }
        }
        if self.expect(st, pos, Sym::Pass) {
            return Some((pos + 1, self.stmt(pos, pos + 1, StmtKind::Pass)));
        }
        if self.peek(pos, Sym::Del) {
            if let Some(r) = self.del_stmt(st, pos) {
                return Some(r);
            }
        }
        if self.peek(pos, Sym::Yield) {
            if let Some((e, value)) = self.yield_expr(st, pos) {
                return Some((e, self.stmt(pos, e, StmtKind::Expr { value: Box::new(value) })));
            }
        }
        if self.peek(pos, Sym::Assert) {
            if let Some(r) = self.assert_stmt(st, pos) {
                return Some(r);
            }
        }
        if self.expect(st, pos, Sym::Break) {
            return Some((pos + 1, self.stmt(pos, pos + 1, StmtKind::Break)));
        }
        if self.expect(st, pos, Sym::Continue) {
            return Some((pos + 1, self.stmt(pos, pos + 1, StmtKind::Continue)));
        }
        if self.peek(pos, Sym::Global) || self.peek(pos, Sym::Nonlocal) {
            return self.names_stmt(st, pos);
        }
        None
    }

    /// `: annotation [= value]` after the target of an annotated assignment.
    fn annotation_rest(&self, st: &mut ParseState, pos: usize) -> (r: Option<(usize, (Expr, Option<Expr>))>)
        requires
            self.ready(*old(st), pos),
        ensures
            old(st).follows(*final(st), self.len()),
            self.memo_ok(*final(st)),
            advances(pos as int, r, self.len()),
            r is Some ==> self.sym_at(pos as int, Sym::Colon),
        decreases self.len() - pos, 200nat,
    {
        if !self.expect(st, pos, Sym::Colon) {
            return None;
        }
        let (e1, annotation) = match self.expression(st, pos + 1) {
            Some(x) => x,
            None => return None,
        };
        if self.expect(st, e1, Sym::Equal) {
            if let Some((e2, value)) = self.annotated_rhs(st, e1 + 1) {
                return Some((e2, (annotation, Some(value))));
            }
        }
        Some((e1, (annotation, None)))
    }

    /// A yield expression or star expressions, as the value of an assignment.
    pub fn annotated_rhs(&self, st: &mut ParseState, pos: usize) -> (r: Option<(usize, Expr)>)
        requires
            self.ready(*old(st), pos),
        ensures
            old(st).follows(*final(st), self.len()),
            self.memo_ok(*final(st)),
            expr_outcome(pos as int, r, self.len(), None),
            self.level_tree(5, pos as int) is Some && self.cont_rank(self.level_tree(5, pos as int)->Some_0.0) < 1 && !self.sym_at(self.level_tree(5, pos as int)->Some_0.0, Sym::Comma) ==> r is Some && r->Some_0.0 == self.level_tree(5, pos as int)->Some_0.0 && r->Some_0.1 == self.level_tree(5, pos as int)->Some_0.1,
        decreases self.len() - pos, 205nat,
    {
        proof {
            self.lemma_tree_start(5, pos as int);
        }
        if let Some(r) = self.yield_expr(st, pos) {
            return Some(r);
        }
        self.star_expressions(st, pos)
    }

    /// Annotated, plain and augmented assignments.
    pub fn assignment(&self, st: &mut ParseState, pos: usize) -> (r: Option<(usize, Stmt)>)
        requires
            self.ready(*old(st), pos),
        ensures
            old(st).follows(*final(st), self.len()),
            self.memo_ok(*final(st)),
            advances(pos as int, r, self.len()),
            r is Some ==> match r->Some_0.1.node {
                StmtKind::AnnAssign { target, .. } => target.node.ctx_of() == Some(ExprContext::Store),
                StmtKind::AugAssign { target, .. } => target.node.ctx_of() == Some(ExprContext::Store),
                StmtKind::Assign { targets, .. } => all_store(targets@),
                _ => true,
            },
            self.stops(pos as int) ==> r is None,
            self.expr_line(pos as int) ==> r is None,
            self.bad_assign(pos as int) ==> r is None,
            self.assign_line(pos as int) ==> r is Some && r->Some_0.0 == self.assign_end(pos as int)
                && self.assign_of(r->Some_0.1, pos as int),
        decreases self.len() - pos, 210nat,
    {
        proof {
            if self.expr_line(pos as int) {
                self.lemma_expr_line(pos as int);
            }
            if self.bad_assign(pos as int) {
                self.lemma_bad_assign(pos as int);
            }
        }
        if let Some((e1, target)) = self.name_expr(st, pos, ExprContext::Store) {
            if let Some((e2, (annotation, value))) = self.annotation_rest(st, e1) {
                let kind = StmtKind::AnnAssign {
                    target: Box::new(target),
                    annotation: Box::new(annotation),
                    value: option_box(value),
                    simple: 1,
                };
                return Some((e2, self.stmt(pos, e2, kind)));
            }
        }
        let complex_target = match self.parenthesized_single_target(st, pos) {
            Some(x) => Some(x),
            None => self.single_subscript_attribute_target(st, pos, ExprContext::Store),
        };
        if let Some((e1, target)) = complex_target {
            if let Some((e2, (annotation, value))) = self.annotation_rest(st, e1) {
                let kind = StmtKind::AnnAssign {
                    target: Box::new(target),
                    annotation: Box::new(annotation),
                    value: option_box(value),
                    simple: 0,
                };
                return Some((e2, self.stmt(pos, e2, kind)));
            }
        }
        if let Some(r) = self.plain_assignment(st, pos) {
            return Some(r);
        }
        if let Some((e1, target)) = self.single_target(st, pos) {
            if let Some(op) = self.augassign(st, e1) {
                if let Some((e2, value)) = self.annotated_rhs(st, e1 + 1) {
                    let kind = StmtKind::AugAssign { target: Box::new(target), op, value: Box::new(value) };
                    return Some((e2, self.stmt(pos, e2, kind)));
                }
            }
        }
        None
    }

    /// `( single_target )`.
    fn parenthesized_single_target(&self, st: &mut ParseState, pos: usize) -> (r: Option<(usize, Expr)>)
        requires
            self.ready(*old(st), pos),
        ensures
            old(st).follows(*final(st), self.len()),
            self.memo_ok(*final(st)),
            expr_outcome(pos as int, r, self.len(), Some(ExprContext::Store)),
            self.stops(pos as int) ==> r is None,
            r is Some ==> self.sym_at(pos as int, Sym::Lpar),
        decreases self.len() - pos, 10nat,
    {
        if !self.expect(st, pos, Sym::Lpar) {
            return None;
        }
        match self.single_target(st, pos + 1) {
            Some((e, x)) => {
                if self.expect(st, e, Sym::Rpar) {
                    Some((e + 1, x))
                } else {
                    None
                }
            },
            None => None,
        }
    }

    /// `targets = targets = ... = value`, where the value is not followed by another `=`.
    fn plain_assignment(&self, st: &mut ParseState, pos: usize) -> (r: Option<(usize, Stmt)>)
        requires
            self.ready(*old(st), pos),
        ensures
            old(st).follows(*final(st), self.len()),
            self.memo_ok(*final(st)),
            advances(pos as int, r, self.len()),
            r is Some ==> (r->Some_0.1.node matches StmtKind::Assign { targets, value, .. } && all_store(targets@)
                && loads(*value)),
            self.stops(pos as int) ==> r is None,
            self.expr_line(pos as int) ==> r is None,
            self.bad_assign(pos as int) ==> r is None,
            self.assign_line(pos as int) ==> r is Some && r->Some_0.0 == self.assign_end(pos as int)
                && self.assign_of(r->Some_0.1, pos as int),
        decreases self.len() - pos, 208nat,
    {
        proof {
            if self.expr_line(pos as int) {
                self.lemma_expr_line(pos as int);
            }
            if self.bad_assign(pos as int) {
                self.lemma_bad_assign(pos as int);
            }
        }
        let mut end = pos;
        let mut targets: Vec<Expr> = Vec::new();
        loop
            invariant
                pos <= end <= self.len(),
                targets@.len() > 0 ==> pos < end,
                self.stops(pos as int) ==> end == pos && targets@.len() == 0,
                self.expr_line(pos as int) ==> end == pos && targets@.len() == 0,
                self.bad_assign(pos as int) ==> end == pos && targets@.len() == 0,
                self.assign_line(pos as int) ==> (end == pos && targets@.len() == 0) || (end == self.line_target(pos as int)->Some_0.0 + 1 && targets@ == seq![self.line_target(pos as int)->Some_0.1]),
                all_store(targets@),
                self.wf(),
                self.len() <= usize::MAX,
                old(st).follows(*st, self.len()),
                self.memo_ok(*st),
            ensures
                self.assign_line(pos as int) ==> end == self.line_target(pos as int)->Some_0.0 + 1 && targets@ == seq![self.line_target(pos as int)->Some_0.1],
            decreases self.len() - end,
        {
            proof {
                if self.expr_line(pos as int) {
                    self.lemma_expr_line(pos as int);
                }
                if self.bad_assign(pos as int) {
                    self.lemma_bad_assign(pos as int);
                }
            }
            match self.star_targets(st, end) {
                Some((e, t)) => {
                    if self.expect(st, e, Sym::Equal) {
                        targets.push(t);
                        end = e + 1;
                    } else {
                        break;
                    }
                },
                None => break,
            }
        }
        if targets.len() == 0 {
            return None;
        }
        let (e, value) = match self.annotated_rhs(st, end) {
            Some(x) => x,
            None => return None,
        };
        if self.peek(e, Sym::Equal) {
            return None;
        }
        let kind = StmtKind::Assign { targets, value: Box::new(value), type_comment: None };
        Some((e, self.stmt(pos, e, kind)))
    }

    /// The operator of an augmented assignment token at `pos`.
    pub fn augassign(&self, st: &mut ParseState, pos: usize) -> (r: Option<Operator>)
        requires
            old(st).inv(self.len()),
            self.memo_ok(*old(st)),
            old(st).furthest <= self.len(),
            pos <= self.len(),
        ensures
            old(st).follows(*final(st), self.len()),
            self.memo_ok(*final(st)),
            r is Some ==> pos < self.len(),
            r == self.augop_at(pos as int),
    {
        let op = if pos < self.tokens.len() {
            match self.tokens[pos] {
                PegTok::Sym(Sym::PlusEqual) => Some(Operator::Add),
                PegTok::Sym(Sym::MinusEqual) => Some(Operator::Sub),
                PegTok::Sym(Sym::StarEqual) => Some(Operator::Mult),
                PegTok::Sym(Sym::AtEqual) => Some(Operator::MatMult),
                PegTok::Sym(Sym::SlashEqual) => Some(Operator::Div),
                PegTok::Sym(Sym::PercentEqual) => Some(Operator::Mod),
                PegTok::Sym(Sym::AmperEqual) => Some(Operator::BitAnd),
                PegTok::Sym(Sym::VbarEqual) => Some(Operator::BitOr),
                PegTok::Sym(Sym::CircumflexEqual) => Some(Operator::BitXor),
                PegTok::Sym(Sym::LeftShiftEqual) => Some(Operator::LShift),
                PegTok::Sym(Sym::RightShiftEqual) => Some(Operator::RShift),
                PegTok::Sym(Sym::DoubleStarEqual) => Some(Operator::Pow),
                PegTok::Sym(Sym::DoubleSlashEqual) => Some(Operator::FloorDiv),
                _ => None,
            }
        } else {
            None
        };
        if op.is_none() {
            st.fail_at(pos);
        }
        op
    }

    /// `return [values]`.
    fn return_stmt(&self, st: &mut ParseState, pos: usize) -> (r: Option<(usize, Stmt)>)
        requires
            self.ready(*old(st), pos),
        ensures
            old(st).follows(*final(st), self.len()),
            self.memo_ok(*final(st)),
            advances(pos as int, r, self.len()),
        decreases self.len() - pos, 10nat,
    {
        if !self.expect(st, pos, Sym::Return) {
            return None;
        }
        let (e, value) = match self.star_expressions(st, pos + 1) {
            Some((e, v)) => (e, Some(Box::new(v))),
            None => (pos + 1, None),
        };
        Some((e, self.stmt(pos, e, StmtKind::Return { value })))
    }

    /// `raise e [from c]`, or a bare `raise`.
    fn raise_stmt(&self, st: &mut ParseState, pos: usize) -> (r: Option<(usize, Stmt)>)
        requires
            self.ready(*old(st), pos),
        ensures
            old(st).follows(*final(st), self.len()),
            self.memo_ok(*final(st)),
            advances(pos as int, r, self.len()),
        decreases self.len() - pos, 10nat,
    {
        if !self.expect(st, pos, Sym::Raise) {
            return None;
        }
        if let Some((e1, exc)) = self.expression(st, pos + 1) {
            let (e2, cause) = if self.expect(st, e1, Sym::From) {
                match self.expression(st, e1 + 1) {
                    Some((e, c)) => (e, Some(Box::new(c))),
                    None => (e1, None),
                }
            } else {
                (e1, None)
            };
            let kind = StmtKind::Raise { exc: Some(Box::new(exc)), cause };
            return Some((e2, self.stmt(pos, e2, kind)));
        }
        Some((pos + 1, self.stmt(pos, pos + 1, StmtKind::Raise { exc: None, cause: None })))
    }

    /// `global a, b` or `nonlocal a, b`.
    fn names_stmt(&self, st: &mut ParseState, pos: usize) -> (r: Option<(usize, Stmt)>)
        requires
            self.ready(*old(st), pos),
        ensures
            old(st).follows(*final(st), self.len()),
            self.memo_ok(*final(st)),
            advances(pos as int, r, self.len()),
    {
        let global = self.peek(pos, Sym::Global);
        if !global && !self.expect(st, pos, Sym::Nonlocal) {
            return None;
        }
        let (mut end, first) = match self.name(st, pos + 1) {
            Some(x) => x,
            None => return None,
        };
        let mut names: Vec<String> = Vec::new();
        names.push(first);
        loop
            invariant
                pos < end <= self.len(),
                self.wf(),
                self.len() <= usize::MAX,
                old(st).follows(*st, self.len()),
                self.memo_ok(*st),
            decreases self.len() - end,
        {
            if !self.expect(st, end, Sym::Comma) {
                break;
            }
            match self.name(st, end + 1) {
                Some((e, x)) => {
                    names.push(x);
                    end = e;
                },
                None => break,
            }
        }
        let kind = if global {
            StmtKind::Global { names }
        } else {
            StmtKind::Nonlocal { names }
        };
        Some((end, self.stmt(pos, end, kind)))
    }

    /// `del targets`, followed by `;` or a newline.
    fn del_stmt(&self, st: &mut ParseState, pos: usize) -> (r: Option<(usize, Stmt)>)
        requires
            self.ready(*old(st), pos),
        ensures
            old(st).follows(*final(st), self.len()),
            self.memo_ok(*final(st)),
            advances(pos as int, r, self.len()),
            self.del_line(pos as int) ==> r is Some && r->Some_0.0 == self.del_end(pos as int) && self.del_of(r->Some_0.1, pos as int),
        decreases self.len() - pos, 10nat,
    {
        if !self.expect(st, pos, Sym::Del) {
            return None;
        }
        match self.del_targets(st, pos + 1) {
            Some((e, targets)) => {
                if self.peek(e, Sym::Semi) || self.peek(e, Sym::Newline) {
                    Some((e, self.stmt(pos, e, StmtKind::Delete { targets })))
                } else {
                    None
                }
            },
            None => None,
        }
    }

    /// `assert test [, msg]`.
    fn assert_stmt(&self, st: &mut ParseState, pos: usize) -> (r: Option<(usize, Stmt)>)
        requires
            self.ready(*old(st), pos),
        ensures
            old(st).follows(*final(st), self.len()),
            self.memo_ok(*final(st)),
            advances(pos as int, r, self.len()),
        decreases self.len() - pos, 10nat,
    {
        if !self.expect(st, pos, Sym::Assert) {
            return None;
        }
        let (e1, test) = match self.expression(st, pos + 1) {
            Some(x) => x,
            None => return None,
        };
        let (e2, msg) = if self.expect(st, e1, Sym::Comma) {
            match self.expression(st, e1 + 1) {
                Some((e, m)) => (e, Some(Box::new(m))),
                None => (e1, None),
            }
        } else {
            (e1, None)
        };
        let kind = StmtKind::Assert { test: Box::new(test), msg };
        Some((e2, self.stmt(pos, e2, kind)))
    }
}

} // verus!
