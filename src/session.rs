use vstd::prelude::*;
use crate::token::{LexResult, Location, PegTok, StringKind, Sym, Tok};

verus! {

/// The parser's session: the dense token stream, one span per token, and the literal tables
/// that literal tokens index into.
pub struct Parser {
    pub tokens: Vec<PegTok>,
    pub locations: Vec<(Location, Location)>,
    pub names: Vec<String>,
    pub ints: Vec<num_bigint::BigInt>,
    pub floats: Vec<u64>,
    pub complexes: Vec<(u64, u64)>,
    pub strings: Vec<(String, StringKind, bool)>,
}

/// The mathematical content of a session.
pub struct Interned {
    pub tokens: Seq<PegTok>,
    pub locations: Seq<(Location, Location)>,
    pub names: Seq<String>,
    pub ints: Seq<num_bigint::BigInt>,
    pub floats: Seq<u64>,
    pub complexes: Seq<(u64, u64)>,
    pub strings: Seq<(String, StringKind, bool)>,
}

impl Interned {
    pub open spec fn empty() -> Interned {
        Interned {
            tokens: Seq::empty(),
            locations: Seq::empty(),
            names: Seq::empty(),
            ints: Seq::empty(),
            floats: Seq::empty(),
            complexes: Seq::empty(),
            strings: Seq::empty(),
        }
    }

    /// A literal token indexes an existing entry of its table.
    pub open spec fn tok_ok(self, t: PegTok) -> bool {
        match t {
            PegTok::Name(i) => i < self.names.len(),
            PegTok::Int(i) => i < self.ints.len(),
            PegTok::Float(i) => i < self.floats.len(),
            PegTok::Complex(i) => i < self.complexes.len(),
            PegTok::String(i) => i < self.strings.len(),
            PegTok::Sym(_) => true,
        }
    }

    pub open spec fn wf(self) -> bool {
        &&& self.locations.len() == self.tokens.len()
        &&& forall|i: int| 0 <= i < self.tokens.len() ==> self.tok_ok(#[trigger] self.tokens[i])
    }

    /// Appends one lexed token: a literal goes to the end of its table and the stream gets its
    /// index; a payload-free token goes to the stream as it is; comments, non-logical newlines and
    /// start markers are dropped.
    pub open spec fn step(self, begin: Location, tok: Tok, end: Location) -> Interned {
        let locs = self.locations.push((begin, end));
        match tok {
            Tok::Name { name } => Interned {
                tokens: self.tokens.push(PegTok::Name(self.names.len() as usize)),
                locations: locs,
                names: self.names.push(name),
                ..self
            },
            Tok::Int { value } => Interned {
                tokens: self.tokens.push(PegTok::Int(self.ints.len() as usize)),
                locations: locs,
                ints: self.ints.push(value),
                ..self
            },
            Tok::Float { value } => Interned {
                tokens: self.tokens.push(PegTok::Float(self.floats.len() as usize)),
                locations: locs,
                floats: self.floats.push(value),
                ..self
            },
            Tok::Complex { real: re, imag: im } => Interned {
                tokens: self.tokens.push(PegTok::Complex(self.complexes.len() as usize)),
                locations: locs,
                complexes: self.complexes.push((re, im)),
                ..self
            },
            Tok::String { value, kind, triple_quoted } => Interned {
                tokens: self.tokens.push(PegTok::String(self.strings.len() as usize)),
                locations: locs,
                strings: self.strings.push((value, kind, triple_quoted)),
                ..self
            },
            Tok::Sym(s) => Interned { tokens: self.tokens.push(PegTok::Sym(s)), locations: locs, ..self },
            _ => self,
        }
    }
}

/// The session built from a sequence of lexed tokens, taken in order.
pub open spec fn interned(s: Seq<(Location, Tok, Location)>) -> Interned
    decreases s.len(),
{
    if s.len() == 0 {
        Interned::empty()
    } else {
        let (b, t, e) = s.last();
        interned(s.drop_last()).step(b, t, e)
    }
}

/// The success values of lexer results that all succeeded.
pub open spec fn ok_items<E>(s: Seq<LexResult<E>>) -> Seq<(Location, Tok, Location)> {
    s.map_values(|r: LexResult<E>| r->Ok_0)
}

pub open spec fn all_ok<E>(s: Seq<LexResult<E>>) -> bool {
    forall|j: int| 0 <= j < s.len() ==> (#[trigger] s[j]) is Ok
}

/// `e` is the first lexer error of `s`.
pub open spec fn first_error<E>(s: Seq<LexResult<E>>, e: E) -> bool {
    exists|j: int|
        0 <= j < s.len() && s[j] == Err::<(Location, Tok, Location), E>(e) && all_ok(#[trigger] s.take(j))
}

pub proof fn lemma_step_wf(acc: Interned, b: Location, t: Tok, e: Location)
    requires
        acc.wf(),
    ensures
        acc.step(b, t, e).wf(),
{
    let n = acc.step(b, t, e);
    assert forall|i: int| 0 <= i < n.tokens.len() implies n.tok_ok(#[trigger] n.tokens[i]) by {
        if i < acc.tokens.len() {
            assert(acc.tok_ok(acc.tokens[i]));
        }
    }
}

impl Parser {
    pub open spec fn view(&self) -> Interned {
        Interned {
            tokens: self.tokens@,
            locations: self.locations@,
            names: self.names@,
            ints: self.ints@,
            floats: self.floats@,
            complexes: self.complexes@,
            strings: self.strings@,
        }
    }

    pub open spec fn wf(&self) -> bool {
        self.view().wf()
    }

    pub open spec fn len(&self) -> nat {
        self.tokens@.len()
    }

    /// A token of a well-formed session indexes an existing table entry.
    pub proof fn lemma_tok(&self, p: int)
        requires
            self.wf(),
            0 <= p < self.len(),
        ensures
            self.view().tok_ok(self.tokens@[p]),
    {
        assert(self.view().tokens[p] == self.tokens@[p]);
    }

    /// Interns a finished lexer output into a session. The first lexer error, if any, is
    /// returned unchanged and nothing is parsed.
    pub fn from<E>(lexer: Vec<LexResult<E>>) -> (r: Result<Parser, E>)
        ensures
            r is Ok ==> all_ok(lexer@),
            r is Ok ==> r->Ok_0.view() == interned(ok_items(lexer@)) && r->Ok_0.wf(),
            r is Err ==> first_error(lexer@, r->Err_0),
    {
        let ghost input = lexer@;
        let mut items = lexer;
                let mut tokens: Vec<PegTok> = Vec::new();
        let mut locations: Vec<(Location, Location)> = Vec::new();
        let mut names: Vec<String> = Vec::new();
        let mut ints: Vec<num_bigint::BigInt> = Vec::new();
        let mut floats: Vec<u64> = Vec::new();
        let mut complexes: Vec<(u64, u64)> = Vec::new();
        let mut strings: Vec<(String, StringKind, bool)> = Vec::new();
        let mut i: usize = 0;
        while i < items.len()
            invariant
                input == lexer@,
                items@.len() == input.len(),
                i <= input.len(),
                forall|j: int| i <= j < input.len() ==> items@[j] == input[j],
                all_ok(input.take(i as int)),
                (Interned {
                    tokens: tokens@,
                    locations: locations@,
                    names: names@,
                    ints: ints@,
                    floats: floats@,
                    complexes: complexes@,
                    strings: strings@,
                }) == interned(ok_items(input.take(i as int))),
                interned(ok_items(input.take(i as int))).wf(),
            decreases input.len() - i,
        {
            let start = Location { row: 0, column: 0 };
            let mut item: LexResult<E> = Ok((start, Tok::NonLogicalNewline, start));
            std::mem::swap(&mut item, &mut items[i]);
            assert(item == input[i as int]);
            let ghost prefix = input.take(i as int);
            assert(input.take(i + 1) == prefix.push(input[i as int]));
            match item {
                Err(e) => {
                    assert(input[i as int] == Err::<(Location, Tok, Location), E>(e));
                    assert(all_ok(input.take(i as int)));
                    assert(first_error(input, e));
                    return Err(e);
                },
                Ok((begin, tok, end)) => {
                    assert(all_ok(input.take(i + 1)));
                    assert(ok_items(input.take(i + 1)).drop_last() == ok_items(prefix));
                    proof {
                        lemma_step_wf(interned(ok_items(prefix)), begin, tok, end);
                    }
                    let t = match tok {
                        Tok::Name { name } => {
                            let k = names.len();
                            names.push(name);
                            Some(PegTok::Name(k))
                        },
                        Tok::Int { value } => {
                            let k = ints.len();
                            ints.push(value);
                            Some(PegTok::Int(k))
                        },
                        Tok::Float { value } => {
                            let k = floats.len();
                            floats.push(value);
                            Some(PegTok::Float(k))
                        },
                        Tok::Complex { real: re, imag: im } => {
                            let k = complexes.len();
                            complexes.push((re, im));
                            Some(PegTok::Complex(k))
                        },
                        Tok::String { value, kind, triple_quoted } => {
                            let k = strings.len();
                            strings.push((value, kind, triple_quoted));
                            Some(PegTok::String(k))
                        },
                        Tok::Sym(s) => Some(PegTok::Sym(s)),
                        _ => None,
                    };
                    if let Some(t) = t {
                        tokens.push(t);
                        locations.push((begin, end));
                    }
                },
            }
            i = i + 1;
        }
        assert(input.take(input.len() as int) == input);
        Ok(Parser { tokens, locations, names, ints, floats, complexes, strings })
    }
}

} // verus!
