use vstd::prelude::*;
use crate::ast::{Alias, AliasData, Stmt, StmtKind};
use crate::engine::{advances, ParseState};
use crate::nodes::{all_dots, count_dots};
use crate::session::Parser;
use crate::token::{PegTok, Sym};

verus! {

impl Parser {
    /// `import ...` or `from ... import ...`.
    pub fn import_stmt(&self, st: &mut ParseState, pos: usize) -> (r: Option<(usize, Stmt)>)
        requires
            self.ready(*old(st), pos),
        ensures
            old(st).follows(*final(st), self.len()),
            self.memo_ok(*final(st)),
            advances(pos as int, r, self.len()),
    {
        if self.expect(st, pos, Sym::Import) {
            if let Some((e, names)) = self.dotted_as_names(st, pos + 1) {
                return Some((e, self.stmt(pos, e, StmtKind::Import { names })));
            }
        }
        self.import_from(st, pos)
    }

    /// `from [dots] module import targets`, or `from dots import targets`.
    fn import_from(&self, st: &mut ParseState, pos: usize) -> (r: Option<(usize, Stmt)>)
        requires
            self.ready(*old(st), pos),
        ensures
            old(st).follows(*final(st), self.len()),
            self.memo_ok(*final(st)),
            advances(pos as int, r, self.len()),
    {
        if !self.expect(st, pos, Sym::From) {
            return None;
        }
        let mut end = pos + 1;
        let mut dots: Vec<PegTok> = Vec::new();
        loop
            invariant
                pos < end <= self.len(),
                dots@.len() == end - pos - 1,
                all_dots(dots@),
                self.len() <= usize::MAX,
                old(st).follows(*st, self.len()),
                self.memo_ok(*st),
            decreases self.len() - end,
        {
            if self.peek(end, Sym::Dot) {
                dots.push(PegTok::Sym(Sym::Dot));
            } else if self.peek(end, Sym::Ellipsis) {
                dots.push(PegTok::Sym(Sym::Ellipsis));
            } else {
                st.fail_at(end);
                break;
            }
            end = end + 1;
        }
        // A relative level that does not fit in a machine word cannot be represented.
        if dots.len() > usize::MAX / 3 {
            return None;
        }
        let level = count_dots(dots);
        if let Some((e1, module)) = self.dotted_name(st, end) {
            if self.expect(st, e1, Sym::Import) {
                if let Some((e2, names)) = self.import_from_targets(st, e1 + 1) {
                    let kind = StmtKind::ImportFrom { module: Some(module), names, level };
                    return Some((e2, self.stmt(pos, e2, kind)));
                }
            }
        }
        if level.is_some() && self.expect(st, end, Sym::Import) {
            if let Some((e2, names)) = self.import_from_targets(st, end + 1) {
                let kind = StmtKind::ImportFrom { module: None, names, level };
                return Some((e2, self.stmt(pos, e2, kind)));
            }
        }
        None
    }

    /// `( names [,] )`, names not followed by a comma, or `*`.
    fn import_from_targets(&self, st: &mut ParseState, pos: usize) -> (r: Option<(usize, Vec<Alias>)>)
        requires
            self.ready(*old(st), pos),
        ensures
            old(st).follows(*final(st), self.len()),
            self.memo_ok(*final(st)),
            advances(pos as int, r, self.len()),
    {
        if self.expect(st, pos, Sym::Lpar) {
            if let Some((e1, names)) = self.aliases(st, pos + 1, false) {
                let e2 = if self.expect(st, e1, Sym::Comma) {
                    e1 + 1
                } else {
                    e1
                };
                if self.expect(st, e2, Sym::Rpar) {
                    return Some((e2 + 1, names));
                }
            }
        }
        if let Some((e, names)) = self.aliases(st, pos, false) {
            if !self.peek(e, Sym::Comma) {
                return Some((e, names));
            }
        }
        if self.expect(st, pos, Sym::Star) {
            let (location, end_location) = self.span(pos, pos + 1);
            let star = Alias { location, end_location, node: AliasData { name: String::from_str("*"), asname: None } };
            let mut names: Vec<Alias> = Vec::new();
            names.push(star);
            return Some((pos + 1, names));
        }
        None
    }

    /// `import` names: dotted names (`dotted` true) or plain names, each with an optional
    /// `as` name, separated by commas.
    fn aliases(&self, st: &mut ParseState, pos: usize, dotted: bool) -> (r: Option<(usize, Vec<Alias>)>)
        requires
            self.ready(*old(st), pos),
        ensures
            old(st).follows(*final(st), self.len()),
            self.memo_ok(*final(st)),
            advances(pos as int, r, self.len()),
    {
        let (mut end, first) = match self.alias(st, pos, dotted) {
            Some(x) => x,
            None => return None,
        };
        let mut names: Vec<Alias> = Vec::new();
        names.push(first);
        loop
            invariant
                pos < end <= self.len(),
                self.wf(),
                self.len() <= usize::MAX,
                old(st).follows(*st, self.len()),
                self.memo_ok(*st),
            decreases self.len() - end,
        {
            if !self.expect(st, end, Sym::Comma) {
                break;
            }
            match self.alias(st, end + 1, dotted) {
                Some((e, x)) => {
                    names.push(x);
                    end = e;
                },
                None => break,
            }
        }
        Some((end, names))
    }

    /// `import a.b, c as d`: the dotted names of an `import` statement.
    pub fn dotted_as_names(&self, st: &mut ParseState, pos: usize) -> (r: Option<(usize, Vec<Alias>)>)
        requires
            self.ready(*old(st), pos),
        ensures
            old(st).follows(*final(st), self.len()),
            self.memo_ok(*final(st)),
            advances(pos as int, r, self.len()),
    {
        self.aliases(st, pos, true)
    }

    /// A (dotted) name with an optional `as` name.
    fn alias(&self, st: &mut ParseState, pos: usize, dotted: bool) -> (r: Option<(usize, Alias)>)
        requires
            self.ready(*old(st), pos),
        ensures
            old(st).follows(*final(st), self.len()),
            self.memo_ok(*final(st)),
            advances(pos as int, r, self.len()),
    {
        let first = if dotted {
            self.dotted_name(st, pos)
        } else {
            self.name(st, pos)
        };
        let (e1, name) = match first {
            Some(x) => x,
            None => return None,
        };
        let (e2, asname) = if self.expect(st, e1, Sym::As) {
            match self.name(st, e1 + 1) {
                Some((e, a)) => (e, Some(a)),
                None => (e1, None),
            }
        } else {
            (e1, None)
        };
        let (location, end_location) = self.span(pos, e2);
        Some((e2, Alias { location, end_location, node: AliasData { name, asname } }))
    }

    /// `a.b.c`, grown from the first name one `.name` at a time.
    pub fn dotted_name(&self, st: &mut ParseState, pos: usize) -> (r: Option<(usize, String)>)
        requires
            self.ready(*old(st), pos),
        ensures
            old(st).follows(*final(st), self.len()),
            self.memo_ok(*final(st)),
            advances(pos as int, r, self.len()),
            self.name_at(pos as int) && !self.sym_at(pos + 1, Sym::Dot) ==> r is Some && r->Some_0.0 == pos + 1
                && r->Some_0.1 == self.names@[self.tokens@[pos as int]->Name_0 as int],
    {
        let (mut end, mut best) = match self.name(st, pos) {
            Some(x) => x,
            None => return None,
        };
        loop
            invariant
                pos < end <= self.len(),
                self.name_at(pos as int) && !self.sym_at(pos + 1, Sym::Dot) ==> end == pos + 1 && best == self.names@[self.tokens@[pos as int]->Name_0 as int],
                self.wf(),
                self.len() <= usize::MAX,
                old(st).follows(*st, self.len()),
                self.memo_ok(*st),
            decreases self.len() - end,
        {
            if !self.expect(st, end, Sym::Dot) {
                break;
            }
            match self.name(st, end + 1) {
                Some((e, part)) => {
                    best.append(".");
                    best.append(part.as_str());
                    end = e;
                },
                None => break,
            }
        }
        Some((end, best))
    }
}

} // verus!
