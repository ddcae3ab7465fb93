use vstd::prelude::*;
use crate::ast::{ExprContext, Mod};
use crate::engine::ParseState;
use crate::error::{ParseError, PegParseError};
use crate::session::Parser;
use crate::token::Sym;

verus! {

/// Which top rule a parse starts from.
#[derive(Clone, Copy, Debug, PartialEq, Eq, Structural)]
pub enum Mode {
    Module,
    Interactive,
    Expression,
}

/// The root kind that a parse in `mode` produces; a module's list of type-ignore comments is
/// empty.
pub open spec fn root_of(mode: Mode, m: Mod) -> bool {
    match mode {
        Mode::Module => m is Module && m->Module_type_ignores@.len() == 0,
        Mode::Interactive => m is Interactive,
        Mode::Expression => m is Expression,
    }
}

/// The statements at the root of a module parse.
pub open spec fn module_body(m: Mod) -> Option<Seq<crate::ast::Stmt>> {
    match m {
        Mod::Module { body, .. } => Some(body@),
        _ => None,
    }
}

/// The expression at the root of an expression parse.
pub open spec fn body_of(m: Mod) -> Option<crate::ast::Expr> {
    match m {
        Mod::Expression { body } => Some(*body),
        _ => None,
    }
}

impl Parser {
    /// A module: its statements, or none at all.
    pub fn file(&self, st: &mut ParseState, pos: usize) -> (r: Option<(usize, Mod)>)
        requires
            self.ready(*old(st), pos),
        ensures
            old(st).follows(*final(st), self.len()),
            self.memo_ok(*final(st)),
            r is Some,
            pos <= r->Some_0.0 <= self.len(),
            r->Some_0.1 is Module,
            r->Some_0.1->Module_type_ignores@.len() == 0,
            self.bad_assign(pos as int) ==> r->Some_0.0 == pos,
            self.line_count(pos as int) is Some ==> r->Some_0.0 == self.len()
                && module_body(r->Some_0.1)->Some_0.len() == self.line_count(pos as int)->Some_0
                && self.lines_body(pos as int, module_body(r->Some_0.1)->Some_0),
            pos == self.len() ==> r->Some_0.0 == pos && r->Some_0.1->Module_body@.len() == 0,
            self.lines(pos as int) ==> r->Some_0.0 == self.len() && self.keyword_body(
                pos as int,
                module_body(r->Some_0.1)->Some_0,
            ),
            self.assign_line(pos as int) && self.assign_end(pos as int) + 1 == self.len() ==> r->Some_0.0 == self.len()
                && module_body(r->Some_0.1)->Some_0.len() == 1 && self.assign_of(module_body(r->Some_0.1)->Some_0[0], pos as int),
            self.del_line(pos as int) && self.del_end(pos as int) + 1 == self.len() ==> r->Some_0.0 == self.len()
                && module_body(r->Some_0.1)->Some_0.len() == 1 && self.del_of(module_body(r->Some_0.1)->Some_0[0], pos as int),
    {
        match self.statements(st, pos) {
            Some((e, body)) => Some((e, Mod::Module { body, type_ignores: Vec::new() })),
            None => Some((pos, Mod::Module { body: Vec::new(), type_ignores: Vec::new() })),
        }
    }

    /// One statement, as typed at an interactive prompt.
    pub fn interactive(&self, st: &mut ParseState, pos: usize) -> (r: Option<(usize, Mod)>)
        requires
            self.ready(*old(st), pos),
        ensures
            old(st).follows(*final(st), self.len()),
            self.memo_ok(*final(st)),
            r is Some ==> pos < r->Some_0.0 <= self.len() && r->Some_0.1 is Interactive,
            self.line_at(pos as int) ==> r is Some && r->Some_0.0 == pos + 2 && r->Some_0.1->Interactive_body@.len() == 1
                && r->Some_0.1->Interactive_body@[0].node == self.keyword_stmt(pos as int)->Some_0,
            self.assign_line(pos as int) ==> r is Some && r->Some_0.0 == self.assign_end(pos as int) + 1
                && r->Some_0.1->Interactive_body@.len() == 1 && self.assign_of(r->Some_0.1->Interactive_body@[0], pos as int),
            self.del_line(pos as int) ==> r is Some && r->Some_0.0 == self.del_end(pos as int) + 1
                && r->Some_0.1->Interactive_body@.len() == 1 && self.del_of(r->Some_0.1->Interactive_body@[0], pos as int),
    {
        match self.statement(st, pos) {
            Some((e, body)) => Some((e, Mod::Interactive { body })),
            None => None,
        }
    }

    /// Expressions followed by any number of newlines.
    pub fn eval(&self, st: &mut ParseState, pos: usize) -> (r: Option<(usize, Mod)>)
        requires
            self.ready(*old(st), pos),
        ensures
            old(st).follows(*final(st), self.len()),
            self.memo_ok(*final(st)),
            r is Some ==> pos < r->Some_0.0 <= self.len() && r->Some_0.1 is Expression,
            self.name_at(pos as int) && self.newlines_from(pos + 1) ==> r is Some && r->Some_0.0 == self.len()
                && body_of(r->Some_0.1) == Some(self.name_node(pos as int, ExprContext::Load)),
            self.name_at(pos as int) && self.sym_at(pos + 1, Sym::Comma) && self.newlines_from(pos + 2) ==> r is Some
                && r->Some_0.0 == self.len() && body_of(r->Some_0.1) is Some && self.single_tuple(
                pos as int,
                body_of(r->Some_0.1)->Some_0,
                ExprContext::Load,
            ),
            self.level_tree(5, pos as int) is Some && self.newlines_from(self.level_tree(5, pos as int)->Some_0.0) ==> r is Some
                && r->Some_0.0 == self.len() && body_of(r->Some_0.1) == Some(self.level_tree(5, pos as int)->Some_0.1),
            self.level_tree(5, pos as int) is Some && self.cmp_chain(self.level_tree(5, pos as int)->Some_0.0).1.len() > 0 && self.newlines_from(self.cmp_chain(self.level_tree(5, pos as int)->Some_0.0).0) ==> r is Some && r->Some_0.0 == self.len() && body_of(r->Some_0.1) is Some
                && self.compare_node(body_of(r->Some_0.1)->Some_0, pos as int, self.cmp_chain(self.level_tree(5, pos as int)->Some_0.0).0, self.level_tree(5, pos as int)->Some_0.1, self.cmp_chain(self.level_tree(5, pos as int)->Some_0.0).1),
            self.item_list(pos as int) is Some && self.newlines_from(self.item_list(pos as int)->Some_0.0) ==> r is Some && r->Some_0.0 == self.len()
                && body_of(r->Some_0.1) is Some && self.packed(body_of(r->Some_0.1)->Some_0, pos as int, self.item_list(pos as int)->Some_0),
    {
        proof {
            let t = self.level_tree(5, pos as int);
            if t is Some && self.newlines_from(self.cmp_chain(t->Some_0.0).0) && self.cmp_chain(t->Some_0.0).0 < self.len() {
                assert(self.sym_at(self.cmp_chain(t->Some_0.0).0, Sym::Newline));
            }
            if t is Some && self.newlines_from(t->Some_0.0) && t->Some_0.0 < self.len() {
                assert(self.sym_at(t->Some_0.0, Sym::Newline));
            }
            if self.name_at(pos as int) && self.newlines_from(pos + 1) && pos + 1 < self.len() {
                assert(self.sym_at(pos + 1, Sym::Newline));
            }
            if self.name_at(pos as int) && self.sym_at(pos + 1, Sym::Comma) && self.newlines_from(pos + 2) && pos + 2
                < self.len() {
                assert(self.sym_at(pos + 2, Sym::Newline));
            }
        }
        let (mut end, body) = match self.expressions(st, pos) {
            Some(x) => x,
            None => return None,
        };
        let ghost start = end;
        #[verifier::loop_isolation(false)]
        loop
            invariant
                pos < end <= self.len(),
                start <= end,
                self.len() <= usize::MAX,
                old(st).follows(*st, self.len()),
                self.memo_ok(*st),
            decreases self.len() - end,
        {
            if !self.expect(st, end, Sym::Newline) {
                break;
            }
            end = end + 1;
        }
        proof {
            if self.newlines_from(start as int) && end < self.len() {
                assert(self.sym_at(end as int, Sym::Newline));
            }
        }
        Some((end, Mod::Expression { body: Box::new(body) }))
    }

    /// Runs the top rule of `mode` over the whole token stream. It succeeds only if the rule
    /// takes every token; otherwise the error reports the furthest position at which a token
    /// test failed, counting the end of the match as one when tokens are left over.
    ///
    /// The result is fixed exactly for these inputs:
    /// - in expression mode: a lone name, and a name with a trailing comma; a comma-separated
    ///   list of expressions of the operator fragment (single-token operands, unary operators,
    ///   `**` and the binary levels), packed into a tuple exactly when there are several items
    ///   or a trailing comma; and a comparison chain over such operands, as one comparison node;
    /// - in module mode: the empty module; any sequence of lines that are keyword statements,
    ///   assignments to a name, attribute or subscript target, `del` statements, fragment
    ///   expressions, or `if` statements holding one such line, with one statement per line,
    ///   each fixed by its kind; and failure for a fragment expression that does not start with
    ///   a name and is followed by `=`.
    pub fn run(&self, mode: Mode) -> (r: Result<Mod, PegParseError>)
        requires
            self.wf(),
        ensures
            r is Ok ==> root_of(mode, r->Ok_0),
            r is Err ==> exists|p: int| 0 <= p <= self.len() && r->Err_0 == #[trigger] self.view().error_at(p),
            self.len() == 0 && mode == Mode::Module ==> (r matches Ok(Mod::Module { body, .. }) && body@.len() == 0),
            self.len() == 0 && mode != Mode::Module ==> (r matches Err(e) && e.error is Eof),
            mode == Mode::Expression && self.name_at(0) && self.newlines_from(1) ==> r is Ok
                && body_of(r->Ok_0) == Some(self.name_node(0, ExprContext::Load)),
            mode == Mode::Expression && self.name_at(0) && self.sym_at(1, Sym::Comma) && self.newlines_from(2) ==> r is Ok
                && body_of(r->Ok_0) is Some && self.single_tuple(0, body_of(r->Ok_0)->Some_0, ExprContext::Load),
            mode == Mode::Module && self.bad_assign(0) ==> r is Err,
            mode == Mode::Module && self.line_count(0) is Some ==> r is Ok && module_body(r->Ok_0) is Some
                && module_body(r->Ok_0)->Some_0.len() == self.line_count(0)->Some_0
                && self.lines_body(0, module_body(r->Ok_0)->Some_0),
            mode == Mode::Module && self.lines(0) ==> r is Ok && module_body(r->Ok_0) is Some && self.keyword_body(
                0,
                module_body(r->Ok_0)->Some_0,
            ),
            mode == Mode::Module && self.assign_line(0) && self.assign_end(0) + 1 == self.len() ==> r is Ok && module_body(r->Ok_0) is Some
                && module_body(r->Ok_0)->Some_0.len() == 1 && self.assign_of(module_body(r->Ok_0)->Some_0[0], 0),
            mode == Mode::Module && self.del_line(0) && self.del_end(0) + 1 == self.len() ==> r is Ok && module_body(r->Ok_0) is Some
                && module_body(r->Ok_0)->Some_0.len() == 1 && self.del_of(module_body(r->Ok_0)->Some_0[0], 0),
            mode == Mode::Expression && self.level_tree(5, 0) is Some && self.newlines_from(self.level_tree(5, 0)->Some_0.0)
                ==> r is Ok && body_of(r->Ok_0) == Some(self.level_tree(5, 0)->Some_0.1),
            mode == Mode::Expression && self.item_list(0) is Some && self.newlines_from(self.item_list(0)->Some_0.0) ==> r is Ok
                && body_of(r->Ok_0) is Some && self.packed(body_of(r->Ok_0)->Some_0, 0, self.item_list(0)->Some_0),
            mode == Mode::Expression && self.level_tree(5, 0) is Some && self.cmp_chain(self.level_tree(5, 0)->Some_0.0).1.len() > 0 && self.newlines_from(self.cmp_chain(self.level_tree(5, 0)->Some_0.0).0)
                ==> r is Ok && body_of(r->Ok_0) is Some && self.compare_node(body_of(r->Ok_0)->Some_0, 0, self.cmp_chain(self.level_tree(5, 0)->Some_0.0).0, self.level_tree(5, 0)->Some_0.1, self.cmp_chain(self.level_tree(5, 0)->Some_0.0).1),
    {
        let n = self.tokens.len();
        let mut st = ParseState::new(n);
        let outcome = match mode {
            Mode::Module => self.file(&mut st, 0),
            Mode::Interactive => self.interactive(&mut st, 0),
            Mode::Expression => self.eval(&mut st, 0),
        };
        match outcome {
            Some((end, m)) => {
                if end == n {
                    return Ok(m);
                }
                st.fail_at(end);
            },
            None => {},
        }
        let e = self.position_repr(st.furthest);
        assert(e == self.view().error_at(st.furthest as int));
        Err(e)
    }

    /// Parses the session in `mode`. A failure carries `source_path` for display.
    pub fn parse(&self, mode: Mode, source_path: &str) -> (r: Result<Mod, ParseError>)
        requires
            self.wf(),
        ensures
            r is Ok ==> root_of(mode, r->Ok_0),
            r is Err ==> r->Err_0.source_path@ == source_path@ && exists|p: int|
                0 <= p <= self.len() && #[trigger] self.view().error_at(p) == (PegParseError {
                    location: r->Err_0.location,
                    error: r->Err_0.error,
                }),
            self.len() == 0 && mode == Mode::Module ==> (r matches Ok(Mod::Module { body, .. }) && body@.len() == 0),
            self.len() == 0 && mode != Mode::Module ==> (r matches Err(e) && e.error is Eof),
            mode == Mode::Expression && self.name_at(0) && self.newlines_from(1) ==> r is Ok
                && body_of(r->Ok_0) == Some(self.name_node(0, ExprContext::Load)),
            mode == Mode::Expression && self.name_at(0) && self.sym_at(1, Sym::Comma) && self.newlines_from(2) ==> r is Ok
                && body_of(r->Ok_0) is Some && self.single_tuple(0, body_of(r->Ok_0)->Some_0, ExprContext::Load),
            mode == Mode::Module && self.bad_assign(0) ==> r is Err,
            mode == Mode::Module && self.line_count(0) is Some ==> r is Ok && module_body(r->Ok_0) is Some
                && module_body(r->Ok_0)->Some_0.len() == self.line_count(0)->Some_0
                && self.lines_body(0, module_body(r->Ok_0)->Some_0),
            mode == Mode::Module && self.lines(0) ==> r is Ok && module_body(r->Ok_0) is Some && self.keyword_body(
                0,
                module_body(r->Ok_0)->Some_0,
            ),
            mode == Mode::Module && self.assign_line(0) && self.assign_end(0) + 1 == self.len() ==> r is Ok && module_body(r->Ok_0) is Some
                && module_body(r->Ok_0)->Some_0.len() == 1 && self.assign_of(module_body(r->Ok_0)->Some_0[0], 0),
            mode == Mode::Module && self.del_line(0) && self.del_end(0) + 1 == self.len() ==> r is Ok && module_body(r->Ok_0) is Some
                && module_body(r->Ok_0)->Some_0.len() == 1 && self.del_of(module_body(r->Ok_0)->Some_0[0], 0),
            mode == Mode::Expression && self.level_tree(5, 0) is Some && self.newlines_from(self.level_tree(5, 0)->Some_0.0)
                ==> r is Ok && body_of(r->Ok_0) == Some(self.level_tree(5, 0)->Some_0.1),
            mode == Mode::Expression && self.item_list(0) is Some && self.newlines_from(self.item_list(0)->Some_0.0) ==> r is Ok
                && body_of(r->Ok_0) is Some && self.packed(body_of(r->Ok_0)->Some_0, 0, self.item_list(0)->Some_0),
            mode == Mode::Expression && self.level_tree(5, 0) is Some && self.cmp_chain(self.level_tree(5, 0)->Some_0.0).1.len() > 0 && self.newlines_from(self.cmp_chain(self.level_tree(5, 0)->Some_0.0).0)
                ==> r is Ok && body_of(r->Ok_0) is Some && self.compare_node(body_of(r->Ok_0)->Some_0, 0, self.cmp_chain(self.level_tree(5, 0)->Some_0.0).0, self.level_tree(5, 0)->Some_0.1, self.cmp_chain(self.level_tree(5, 0)->Some_0.0).1),
    {
        match self.run(mode) {
            Ok(m) => Ok(m),
            Err(e) => Err(ParseError { error: e.error, location: e.location, source_path: source_path.to_owned() }),
        }
    }
}

} // verus!
