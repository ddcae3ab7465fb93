use vstd::prelude::*;
use crate::ast::{Excepthandler, ExcepthandlerKind, Expr, Keyword, Stmt, StmtKind, Withitem};
use crate::engine::{advances, ParseState};
use crate::nodes::make_empty_arguments;
use crate::session::Parser;
use crate::token::Sym;

verus! {

impl Parser {
    /// A function, class, `if`, `with`, `for`, `try` or `while` statement.
    pub fn compound_stmt(&self, st: &mut ParseState, pos: usize) -> (r: Option<(usize, Stmt)>)
        requires
            self.ready(*old(st), pos),
        ensures
            old(st).follows(*final(st), self.len()),
            self.memo_ok(*final(st)),
            advances(pos as int, r, self.len()),
            self.keyword_stmt(pos as int) is Some ==> r is None,
            self.name_at(pos as int) ==> r is None,
            self.stops(pos as int) ==> r is None,
            self.if_line(pos as int) ==> r is Some && r->Some_0.0 == self.if_end(pos as int) && self.if_of(r->Some_0.1, pos as int),
            self.simple_node(pos as int) is Some || self.unary_at(pos as int) is Some ==> r is None,
        decreases self.len() - pos, 30nat,
    {
        if self.peek(pos, Sym::Def) || self.peek(pos, Sym::At) || self.peek(pos, Sym::Async) {
            if let Some(r) = self.function_def(st, pos) {
                return Some(r);
            }
        }
        if self.peek(pos, Sym::If) {
            if let Some(r) = self.if_stmt(st, pos, Sym::If) {
                return Some(r);
            }
        }
        if self.peek(pos, Sym::Class) || self.peek(pos, Sym::At) {
            if let Some(r) = self.class_def(st, pos) {
                return Some(r);
            }
        }
        if self.peek(pos, Sym::With) || self.peek(pos, Sym::Async) {
            if let Some(r) = self.with_stmt(st, pos) {
                return Some(r);
            }
        }
        if self.peek(pos, Sym::For) || self.peek(pos, Sym::Async) {
            if let Some(r) = self.for_stmt(st, pos) {
                return Some(r);
            }
        }
        if self.peek(pos, Sym::Try) {
            if let Some(r) = self.try_stmt(st, pos) {
                return Some(r);
            }
        }
        if self.peek(pos, Sym::While) {
            return self.while_stmt(st, pos);
        }
        None
    }

    /// An indented block of statements, or simple statements on the same line.
    pub fn block(&self, st: &mut ParseState, pos: usize) -> (r: Option<(usize, Vec<Stmt>)>)
        requires
            self.ready(*old(st), pos),
        ensures
            old(st).follows(*final(st), self.len()),
            self.memo_ok(*final(st)),
            advances(pos as int, r, self.len()),
            self.sym_at(pos as int, Sym::Newline) && self.sym_at(pos + 1, Sym::Indent) && self.simple_line_end(pos + 2) is Some
                && self.sym_at(self.simple_line_end(pos + 2)->Some_0, Sym::Dedent) ==> r is Some && r->Some_0.0 == self.simple_line_end(pos + 2)->Some_0 + 1
                && r->Some_0.1@.len() == 1 && self.simple_line_stmt(r->Some_0.1@[0], pos + 2),
        decreases self.len() - pos, 240nat,
    {
        if self.expect(st, pos, Sym::Newline) && self.expect(st, pos + 1, Sym::Indent) {
            if let Some((e, body)) = self.statements(st, pos + 2) {
                if self.expect(st, e, Sym::Dedent) {
                    return Some((e + 1, body));
                }
            }
        }
        self.simple_stmts(st, pos)
    }

    /// `@expression NEWLINE`, any number of times.
    fn decorators(&self, st: &mut ParseState, pos: usize) -> (r: (usize, Vec<Expr>))
        requires
            self.ready(*old(st), pos),
        ensures
            old(st).follows(*final(st), self.len()),
            self.memo_ok(*final(st)),
            pos <= r.0 <= self.len(),
        decreases self.len() - pos, 15nat,
    {
        let mut end = pos;
        let mut decorators: Vec<Expr> = Vec::new();
        loop
            invariant
                pos <= end <= self.len(),
                self.wf(),
                self.len() <= usize::MAX,
                old(st).follows(*st, self.len()),
                self.memo_ok(*st),
            decreases self.len() - end,
        {
            if !self.expect(st, end, Sym::At) {
                break;
            }
            match self.named_expression(st, end + 1) {
                Some((e, f)) => {
                    if self.expect(st, e, Sym::Newline) {
                        decorators.push(f);
                        end = e + 1;
                    } else {
                        break;
                    }
                },
                None => break,
            }
        }
        (end, decorators)
    }

    /// `[decorators] [async] def name(params) [-> return_type]: block`.
    fn function_def(&self, st: &mut ParseState, pos: usize) -> (r: Option<(usize, Stmt)>)
        requires
            self.ready(*old(st), pos),
        ensures
            old(st).follows(*final(st), self.len()),
            self.memo_ok(*final(st)),
            advances(pos as int, r, self.len()),
        decreases self.len() - pos, 20nat,
    {
        let (begin, decorator_list) = self.decorators(st, pos);
        let is_async = self.expect(st, begin, Sym::Async);
        let p = if is_async {
            begin + 1
        } else {
            begin
        };
        if !self.expect(st, p, Sym::Def) {
            return None;
        }
        let (e1, name) = match self.name(st, p + 1) {
            Some(x) => x,
            None => return None,
        };
        if !self.expect(st, e1, Sym::Lpar) {
            return None;
        }
        let (e2, args) = match self.parameters(st, e1 + 1, false) {
            Some(x) => x,
            None => (e1 + 1, make_empty_arguments()),
        };
        if !self.expect(st, e2, Sym::Rpar) {
            return None;
        }
        let (e3, return_type) = if self.expect(st, e2 + 1, Sym::Rarrow) {
            match self.expression(st, e2 + 2) {
                Some((e, x)) => (e, Some(Box::new(x))),
                None => (e2 + 1, None),
            }
        } else {
            (e2 + 1, None)
        };
        if !self.expect(st, e3, Sym::Colon) {
            return None;
        }
        let (e4, body) = match self.block(st, e3 + 1) {
            Some(x) => x,
            None => return None,
        };
        let end = self.block_end(begin, e4);
        let kind = if is_async {
            StmtKind::AsyncFunctionDef {
                name,
                args: Box::new(args),
                body,
                decorator_list,
                return_type,
                type_comment: None,
            }
        } else {
            StmtKind::FunctionDef { name, args: Box::new(args), body, decorator_list, return_type, type_comment: None }
        };
        Some((e4, self.stmt(begin, end, kind)))
    }

    /// `[decorators] class name[(arguments)]: block`.
    fn class_def(&self, st: &mut ParseState, pos: usize) -> (r: Option<(usize, Stmt)>)
        requires
            self.ready(*old(st), pos),
        ensures
            old(st).follows(*final(st), self.len()),
            self.memo_ok(*final(st)),
            advances(pos as int, r, self.len()),
        decreases self.len() - pos, 20nat,
    {
        let (begin, decorator_list) = self.decorators(st, pos);
        if !self.expect(st, begin, Sym::Class) {
            return None;
        }
        let (e1, name) = match self.name(st, begin + 1) {
            Some(x) => x,
            None => return None,
        };
        let mut e2 = e1;
        let mut bases: Vec<Expr> = Vec::new();
        let mut keywords: Vec<Keyword> = Vec::new();
        if self.expect(st, e1, Sym::Lpar) {
            let (inner, a, k) = match self.arguments(st, e1 + 1) {
                Some((e, (a, k))) => (e, a, k),
                None => (e1 + 1, Vec::new(), Vec::new()),
            };
            if self.expect(st, inner, Sym::Rpar) {
                bases = a;
                keywords = k;
                e2 = inner + 1;
            }
        }
        if !self.expect(st, e2, Sym::Colon) {
            return None;
        }
        let (e3, body) = match self.block(st, e2 + 1) {
            Some(x) => x,
            None => return None,
        };
        let end = self.block_end(begin, e3);
        let kind = StmtKind::ClassDef { name, bases, keywords, body, decorator_list };
        Some((e3, self.stmt(begin, end, kind)))
    }

    /// `if test: block` (or `elif`, with `keyword` `Elif`) and what follows: an `elif`, an
    /// `else` block, or nothing. An `if` spans its whole chain; an `elif` ends at its own block.
    fn if_stmt(&self, st: &mut ParseState, pos: usize, keyword: Sym) -> (r: Option<(usize, Stmt)>)
        requires
            self.ready(*old(st), pos),
        ensures
            old(st).follows(*final(st), self.len()),
            self.memo_ok(*final(st)),
            advances(pos as int, r, self.len()),
            r is Some ==> self.sym_at(pos as int, keyword),
            keyword == Sym::If && self.if_line(pos as int) ==> r is Some && r->Some_0.0 == self.if_end(pos as int) && self.if_of(r->Some_0.1, pos as int),
        decreases self.len() - pos, 10nat,
    {
        if !self.expect(st, pos, keyword) {
            return None;
        }
        let (e1, test) = match self.named_expression(st, pos + 1) {
            Some(x) => x,
            None => return None,
        };
        if !self.expect(st, e1, Sym::Colon) {
            return None;
        }
        let (e2, body) = match self.block(st, e1 + 1) {
            Some(x) => x,
            None => return None,
        };
        let own_end = self.block_end(pos, e2);
        let (e3, orelse) = match self.if_stmt(st, e2, Sym::Elif) {
            Some((e, elif)) => {
                let mut v: Vec<Stmt> = Vec::new();
                v.push(elif);
                (e, v)
            },
            None => self.else_block_opt(st, e2),
        };
        let end = if keyword == Sym::Elif {
            own_end
        } else {
            self.block_end(pos, e3)
        };
        let kind = StmtKind::If { test: Box::new(test), body, orelse };
        Some((e3, self.stmt(pos, end, kind)))
    }

    /// `else: block`, or nothing.
    fn else_block_opt(&self, st: &mut ParseState, pos: usize) -> (r: (usize, Vec<Stmt>))
        requires
            self.ready(*old(st), pos),
        ensures
            old(st).follows(*final(st), self.len()),
            self.memo_ok(*final(st)),
            pos <= r.0 <= self.len(),
            !self.sym_at(pos as int, Sym::Else) ==> r.0 == pos && r.1@.len() == 0,
        decreases self.len() - pos, 10nat,
    {
        match self.keyword_block(st, pos, Sym::Else) {
            Some(x) => x,
            None => (pos, Vec::new()),
        }
    }

    /// `keyword: block`, for `else`, `finally` and `try`.
    fn keyword_block(&self, st: &mut ParseState, pos: usize, keyword: Sym) -> (r: Option<(usize, Vec<Stmt>)>)
        requires
            self.ready(*old(st), pos),
        ensures
            old(st).follows(*final(st), self.len()),
            self.memo_ok(*final(st)),
            advances(pos as int, r, self.len()),
            r is Some ==> self.sym_at(pos as int, keyword),
        decreases self.len() - pos, 5nat,
    {
        if self.expect(st, pos, keyword) && self.expect(st, pos + 1, Sym::Colon) {
            self.block(st, pos + 2)
        } else {
            None
        }
    }

    /// `while test: block [else: block]`.
    fn while_stmt(&self, st: &mut ParseState, pos: usize) -> (r: Option<(usize, Stmt)>)
        requires
            self.ready(*old(st), pos),
        ensures
            old(st).follows(*final(st), self.len()),
            self.memo_ok(*final(st)),
            advances(pos as int, r, self.len()),
        decreases self.len() - pos, 10nat,
    {
        if !self.expect(st, pos, Sym::While) {
            return None;
        }
        let (e1, test) = match self.named_expression(st, pos + 1) {
            Some(x) => x,
            None => return None,
        };
        if !self.expect(st, e1, Sym::Colon) {
            return None;
        }
        let (e2, body) = match self.block(st, e1 + 1) {
            Some(x) => x,
            None => return None,
        };
        let (e3, orelse) = self.else_block_opt(st, e2);
        let end = self.block_end(pos, e3);
        Some((e3, self.stmt(pos, end, StmtKind::While { test: Box::new(test), body, orelse })))
    }

    /// `[async] for targets in values: block [else: block]`.
    fn for_stmt(&self, st: &mut ParseState, pos: usize) -> (r: Option<(usize, Stmt)>)
        requires
            self.ready(*old(st), pos),
        ensures
            old(st).follows(*final(st), self.len()),
            self.memo_ok(*final(st)),
            advances(pos as int, r, self.len()),
        decreases self.len() - pos, 10nat,
    {
        let is_async = self.expect(st, pos, Sym::Async);
        let p = if is_async {
            pos + 1
        } else {
            pos
        };
        if !self.expect(st, p, Sym::For) {
            return None;
        }
        let (e1, target) = match self.star_targets(st, p + 1) {
            Some(x) => x,
            None => return None,
        };
        if !self.expect(st, e1, Sym::In) {
            return None;
        }
        let (e2, iter) = match self.star_expressions(st, e1 + 1) {
            Some(x) => x,
            None => return None,
        };
        if !self.expect(st, e2, Sym::Colon) {
            return None;
        }
        let (e3, body) = match self.block(st, e2 + 1) {
            Some(x) => x,
            None => return None,
        };
        let (e4, orelse) = self.else_block_opt(st, e3);
        let end = self.block_end(pos, e4);
        let kind = if is_async {
            StmtKind::AsyncFor { target: Box::new(target), iter: Box::new(iter), body, orelse, type_comment: None }
        } else {
            StmtKind::For { target: Box::new(target), iter: Box::new(iter), body, orelse, type_comment: None }
        };
        Some((e4, self.stmt(pos, end, kind)))
    }

    /// `[async] with items: block`, the items optionally in parentheses.
    fn with_stmt(&self, st: &mut ParseState, pos: usize) -> (r: Option<(usize, Stmt)>)
        requires
            self.ready(*old(st), pos),
        ensures
            old(st).follows(*final(st), self.len()),
            self.memo_ok(*final(st)),
            advances(pos as int, r, self.len()),
        decreases self.len() - pos, 10nat,
    {
        let is_async = self.expect(st, pos, Sym::Async);
        let p = if is_async {
            pos + 1
        } else {
            pos
        };
        if !self.expect(st, p, Sym::With) {
            return None;
        }
        let mut items_end: Option<(usize, Vec<Withitem>)> = None;
        if self.expect(st, p + 1, Sym::Lpar) {
            if let Some((e1, items)) = self.with_items(st, p + 2) {
                let e2 = if self.expect(st, e1, Sym::Comma) {
                    e1 + 1
                } else {
                    e1
                };
                if self.expect(st, e2, Sym::Rpar) && self.expect(st, e2 + 1, Sym::Colon) {
                    items_end = Some((e2 + 2, items));
                }
            }
        }
        if items_end.is_none() {
            if let Some((e1, items)) = self.with_items(st, p + 1) {
                if self.expect(st, e1, Sym::Colon) {
                    items_end = Some((e1 + 1, items));
                }
            }
        }
        let (e3, items) = match items_end {
            Some(x) => x,
            None => return None,
        };
        let (e4, body) = match self.block(st, e3) {
            Some(x) => x,
            None => return None,
        };
        let end = self.block_end(pos, e4);
        let kind = if is_async {
            StmtKind::AsyncWith { items, body, type_comment: None }
        } else {
            StmtKind::With { items, body, type_comment: None }
        };
        Some((e4, self.stmt(pos, end, kind)))
    }

    /// Comma-separated `with` items.
    fn with_items(&self, st: &mut ParseState, pos: usize) -> (r: Option<(usize, Vec<Withitem>)>)
        requires
            self.ready(*old(st), pos),
        ensures
            old(st).follows(*final(st), self.len()),
            self.memo_ok(*final(st)),
            advances(pos as int, r, self.len()),
        decreases self.len() - pos, 195nat,
    {
        let (mut end, first) = match self.with_item(st, pos) {
            Some(x) => x,
            None => return None,
        };
        let mut items: Vec<Withitem> = Vec::new();
        items.push(first);
        loop
            invariant
                pos < end <= self.len(),
                self.wf(),
                self.len() <= usize::MAX,
                old(st).follows(*st, self.len()),
                self.memo_ok(*st),
            decreases self.len() - end,
        {
            if !self.expect(st, end, Sym::Comma) {
                break;
            }
            match self.with_item(st, end + 1) {
                Some((e, x)) => {
                    items.push(x);
                    end = e;
                },
                None => break,
            }
        }
        Some((end, items))
    }

    /// `expression [as target]`, the target followed by `,`, `)` or `:`.
    fn with_item(&self, st: &mut ParseState, pos: usize) -> (r: Option<(usize, Withitem)>)
        requires
            self.ready(*old(st), pos),
        ensures
            old(st).follows(*final(st), self.len()),
            self.memo_ok(*final(st)),
            advances(pos as int, r, self.len()),
        decreases self.len() - pos, 190nat,
    {
        let (e1, context_expr) = match self.expression(st, pos) {
            Some(x) => x,
            None => return None,
        };
        if self.expect(st, e1, Sym::As) {
            if let Some((e2, t)) = self.star_target(st, e1 + 1) {
                if self.peek(e2, Sym::Comma) || self.peek(e2, Sym::Rpar) || self.peek(e2, Sym::Colon) {
                    return Some((e2, Withitem { context_expr, optional_vars: Some(Box::new(t)) }));
                }
            }
        }
        Some((e1, Withitem { context_expr, optional_vars: None }))
    }

    /// `try: block` with a `finally` block, or with `except` blocks, an optional `else`
    /// block and an optional `finally` block.
    fn try_stmt(&self, st: &mut ParseState, pos: usize) -> (r: Option<(usize, Stmt)>)
        requires
            self.ready(*old(st), pos),
        ensures
            old(st).follows(*final(st), self.len()),
            self.memo_ok(*final(st)),
            advances(pos as int, r, self.len()),
        decreases self.len() - pos, 10nat,
    {
        let (e1, body) = match self.keyword_block(st, pos, Sym::Try) {
            Some(x) => x,
            None => return None,
        };
        if let Some((e2, finalbody)) = self.keyword_block(st, e1, Sym::Finally) {
            let end = self.block_end(pos, e2);
            let kind = StmtKind::Try { body, handlers: Vec::new(), orelse: Vec::new(), finalbody };
            return Some((e2, self.stmt(pos, end, kind)));
        }
        let mut e2 = e1;
        let mut handlers: Vec<Excepthandler> = Vec::new();
        loop
            invariant
                pos < e2 <= self.len(),
                self.wf(),
                self.len() <= usize::MAX,
                old(st).follows(*st, self.len()),
                self.memo_ok(*st),
            decreases self.len() - e2,
        {
            match self.except_block(st, e2) {
                Some((e, h)) => {
                    handlers.push(h);
                    e2 = e;
                },
                None => break,
            }
        }
        if handlers.len() == 0 {
            return None;
        }
        let (e3, orelse) = self.else_block_opt(st, e2);
        let (e4, finalbody) = match self.keyword_block(st, e3, Sym::Finally) {
            Some(x) => x,
            None => (e3, Vec::new()),
        };
        let end = self.block_end(pos, e4);
        let kind = StmtKind::Try { body, handlers, orelse, finalbody };
        Some((e4, self.stmt(pos, end, kind)))
    }

    /// `except [type [as name]]: block`.
    fn except_block(&self, st: &mut ParseState, pos: usize) -> (r: Option<(usize, Excepthandler)>)
        requires
            self.ready(*old(st), pos),
        ensures
            old(st).follows(*final(st), self.len()),
            self.memo_ok(*final(st)),
            advances(pos as int, r, self.len()),
        decreases self.len() - pos, 10nat,
    {
        if !self.expect(st, pos, Sym::Except) {
            return None;
        }
        if let Some((e1, t)) = self.expression(st, pos + 1) {
            let (e2, name) = if self.expect(st, e1, Sym::As) {
                match self.name(st, e1 + 1) {
                    Some((e, n)) => (e, Some(n)),
                    None => (e1, None),
                }
            } else {
                (e1, None)
            };
            if self.expect(st, e2, Sym::Colon) {
                if let Some((e3, body)) = self.block(st, e2 + 1) {
                    let end = self.block_end(pos, e3);
                    let (location, end_location) = self.span(pos, end);
                    let node = ExcepthandlerKind::ExceptHandler { type_: Some(Box::new(t)), name, body };
                    return Some((e3, Excepthandler { location, end_location, node }));
                }
            }
        }
        if self.expect(st, pos + 1, Sym::Colon) {
            if let Some((e3, body)) = self.block(st, pos + 2) {
                let end = self.block_end(pos, e3);
                let (location, end_location) = self.span(pos, end);
                let node = ExcepthandlerKind::ExceptHandler { type_: None, name: None, body };
                return Some((e3, Excepthandler { location, end_location, node }));
            }
        }
        None
    }
}

} // verus!
