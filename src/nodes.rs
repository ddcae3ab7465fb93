use vstd::prelude::*;
use crate::ast::{Arg, Arguments, Cmpop, Constant, Expr, ExprKind, Keyword};
use crate::token::{Location, PegTok, StringKind, Sym};

verus! {

/// `v` with `a` put in front of it.
pub fn insert_front<T>(v: Vec<T>, a: T) -> (r: Vec<T>)
    ensures
        r@ == seq![a] + v@,
{
    let ghost rest = v@;
    let mut v = v;
    v.insert(0, a);
    assert(v@ =~= seq![a] + rest);
    v
}

/// The import level that a run of `.` and `...` tokens stands for.
pub open spec fn dots_value(toks: Seq<PegTok>) -> int
    decreases toks.len(),
{
    if toks.len() == 0 {
        0
    } else {
        dots_value(toks.drop_last()) + if toks.last() == PegTok::Sym(Sym::Ellipsis) {
            3int
        } else {
            1int
        }
    }
}

pub open spec fn all_dots(toks: Seq<PegTok>) -> bool {
    forall|i: int|
        0 <= i < toks.len() ==> (#[trigger] toks[i] == PegTok::Sym(Sym::Dot) || toks[i] == PegTok::Sym(
            Sym::Ellipsis,
        ))
}

/// The relative-import level of `from ... import`: absent for no dots, otherwise one for each
/// `.` and three for each `...`.
pub fn count_dots(toks: Vec<PegTok>) -> (r: Option<usize>)
    requires
        all_dots(toks@),
        toks@.len() <= usize::MAX / 3,
    ensures
        toks@.len() == 0 ==> r is None,
        toks@.len() > 0 ==> r == Some(dots_value(toks@) as usize),
{
    if toks.len() == 0 {
        return None;
    }
    let mut count: usize = 0;
    let mut i: usize = 0;
    while i < toks.len()
        invariant
            i <= toks@.len(),
            toks@.len() <= usize::MAX / 3,
            all_dots(toks@),
            count == dots_value(toks@.take(i as int)),
            count <= 3 * i,
        decreases toks@.len() - i,
    {
        assert(toks@.take(i + 1).drop_last() == toks@.take(i as int));
        if toks[i] == PegTok::Sym(Sym::Ellipsis) {
            count = count + 3;
        } else {
            count = count + 1;
        }
        i = i + 1;
    }
    assert(toks@.take(toks@.len() as int) == toks@);
    Some(count)
}

/// Boxes the value of an option.
pub fn option_box<T>(val: Option<T>) -> (r: Option<Box<T>>)
    ensures
        r == match val {
            Some(x) => Some(Box::new(x)),
            None => None::<Box<T>>,
        },
{
    match val {
        Some(x) => Some(Box::new(x)),
        None => None,
    }
}

pub open spec fn firsts<A, B>(s: Seq<(A, B)>) -> Seq<A> {
    s.map_values(|p: (A, B)| p.0)
}

pub open spec fn seconds<A, B>(s: Seq<(A, B)>) -> Seq<B> {
    s.map_values(|p: (A, B)| p.1)
}

/// Splits a sequence of pairs into the sequence of first and the sequence of second components.
pub fn unzip<A, B>(v: Vec<(A, B)>) -> (r: (Vec<A>, Vec<B>))
    ensures
        r.0@ == firsts(v@),
        r.1@ == seconds(v@),
{
    let ghost orig = v@;
    let mut v = v;
    let mut xs: Vec<A> = Vec::new();
    let mut ys: Vec<B> = Vec::new();
    let n = v.len();
    while v.len() > 0
        invariant
            v@.len() <= n,
            n == orig.len(),
            v@ == orig.subrange(n - v@.len(), n as int),
            xs@ == firsts(orig.take(n - v@.len())),
            ys@ == seconds(orig.take(n - v@.len())),
        decreases v@.len(),
    {
        let ghost k = n - v@.len();
        let (x, y) = v.remove(0);
        assert(orig.take(k + 1) == orig.take(k).push(orig[k]));
        xs.push(x);
        ys.push(y);
        assert(xs@ =~= firsts(orig.take(k + 1)));
        assert(ys@ =~= seconds(orig.take(k + 1)));
        assert(v@ =~= orig.subrange(n - v@.len(), n as int));
    }
    assert(orig.take(n as int) == orig);
    (xs, ys)
}

/// Splits the key/value pairs of a dict display into its keys (absent for `**` entries) and its
/// values.
pub fn dict_kvpairs(v: Vec<(Option<Expr>, Expr)>) -> (r: (Vec<Option<Expr>>, Vec<Expr>))
    ensures
        r.0@ == firsts(v@),
        r.1@ == seconds(v@),
{
    unzip(v)
}

/// Splits the (operator, operand) pairs of a chained comparison into the operators and the
/// operands.
pub fn comparison_ops_comparators(v: Vec<(Cmpop, Expr)>) -> (r: (Vec<Cmpop>, Vec<Expr>))
    ensures
        r.0@ == firsts(v@),
        r.1@ == seconds(v@),
{
    unzip(v)
}

/// A call argument after the positional ones: `name=value` or `**value`, or `*value`.
pub enum KeywordOrStarred {
    Keyword(Keyword),
    Starred(Expr),
}

pub open spec fn starred_of(s: Seq<KeywordOrStarred>) -> Seq<Expr>
    decreases s.len(),
{
    if s.len() == 0 {
        Seq::empty()
    } else {
        match s.last() {
            KeywordOrStarred::Starred(e) => starred_of(s.drop_last()).push(e),
            KeywordOrStarred::Keyword(_) => starred_of(s.drop_last()),
        }
    }
}

pub open spec fn keywords_of(s: Seq<KeywordOrStarred>) -> Seq<Keyword>
    decreases s.len(),
{
    if s.len() == 0 {
        Seq::empty()
    } else {
        match s.last() {
            KeywordOrStarred::Keyword(k) => keywords_of(s.drop_last()).push(k),
            KeywordOrStarred::Starred(_) => keywords_of(s.drop_last()),
        }
    }
}

/// Separates starred arguments from keyword arguments, keeping the order within each.
pub fn keyword_or_starred_partition(v: Vec<KeywordOrStarred>) -> (r: (Vec<Expr>, Vec<Keyword>))
    ensures
        r.0@ == starred_of(v@),
        r.1@ == keywords_of(v@),
{
    let ghost orig = v@;
    let mut v = v;
    let mut ex_vec: Vec<Expr> = Vec::new();
    let mut kw_vec: Vec<Keyword> = Vec::new();
    let n = v.len();
    while v.len() > 0
        invariant
            v@.len() <= n,
            n == orig.len(),
            v@ == orig.subrange(n - v@.len(), n as int),
            ex_vec@ == starred_of(orig.take(n - v@.len())),
            kw_vec@ == keywords_of(orig.take(n - v@.len())),
        decreases v@.len(),
    {
        let ghost k = n - v@.len();
        let x = v.remove(0);
        assert(orig.take(k + 1).drop_last() == orig.take(k));
        match x {
            KeywordOrStarred::Keyword(kw) => kw_vec.push(kw),
            KeywordOrStarred::Starred(ex) => ex_vec.push(ex),
        }
        assert(v@ =~= orig.subrange(n - v@.len(), n as int));
    }
    assert(orig.take(n as int) == orig);
    (ex_vec, kw_vec)
}

/// The values that are present, in order.
pub open spec fn present<A, B>(s: Seq<(A, Option<B>)>) -> Seq<B>
    decreases s.len(),
{
    if s.len() == 0 {
        Seq::empty()
    } else {
        match s.last().1 {
            Some(b) => present(s.drop_last()).push(b),
            None => present(s.drop_last()),
        }
    }
}

/// The pieces of a `*`-part of a parameter list: the `*args` parameter, the keyword-only
/// parameters with their optional defaults, and the `**kwargs` parameter.
pub type StarEtc = (Option<Arg>, Vec<(Arg, Option<Expr>)>, Option<Arg>);

pub open spec fn boxed<T>(o: Option<T>) -> Option<Box<T>> {
    match o {
        Some(x) => Some(Box::new(x)),
        None => None,
    }
}

/// The positional-only parameters, the other positional ones, the defaults of both groups in
/// order, and what the `*`-part gives.
pub open spec fn arguments_of(
    slash_no_default: Seq<Arg>,
    slash_with_default: (Seq<Arg>, Seq<(Arg, Expr)>),
    param_no_default: Seq<Arg>,
    param_with_default: Seq<(Arg, Expr)>,
    star: Option<(Option<Arg>, Seq<(Arg, Option<Expr>)>, Option<Arg>)>,
    a: Arguments,
) -> bool {
    &&& a.posonlyargs@ == slash_no_default + slash_with_default.0 + firsts(slash_with_default.1)
    &&& a.args@ == param_no_default + firsts(param_with_default)
    &&& a.defaults@ == seconds(slash_with_default.1) + seconds(param_with_default)
    &&& match star {
        Some((vararg, kwonly, kwarg)) => {
            &&& a.vararg == boxed(vararg)
            &&& a.kwonlyargs@ == firsts(kwonly)
            &&& a.kw_defaults@ == present(kwonly)
            &&& a.kwarg == boxed(kwarg)
        },
        None => {
            &&& a.vararg is None
            &&& a.kwonlyargs@.len() == 0
            &&& a.kw_defaults@.len() == 0
            &&& a.kwarg is None
        },
    }
}

/// Moves the elements of `src` to the end of `dst`.
fn move_all<T>(dst: &mut Vec<T>, src: Vec<T>)
    ensures
        final(dst)@ == old(dst)@ + src@,
{
    let mut src = src;
    dst.append(&mut src);
}

/// Assembles a parameter list from the groups the grammar recognised.
pub fn make_arguments(
    slash_no_default: Vec<Arg>,
    slash_with_default: (Vec<Arg>, Vec<(Arg, Expr)>),
    param_no_default: Vec<Arg>,
    param_with_default: Vec<(Arg, Expr)>,
    star_etc: Option<StarEtc>,
) -> (r: Arguments)
    ensures
        arguments_of(
            slash_no_default@,
            (slash_with_default.0@, slash_with_default.1@),
            param_no_default@,
            param_with_default@,
            match star_etc {
                Some((v, k, w)) => Some((v, k@, w)),
                None => None,
            },
            r,
        ),
{
    let (swd_plain, swd_defaulted) = slash_with_default;
    let (swd_args, swd_defaults) = unzip(swd_defaulted);
    let (pwd_args, pwd_defaults) = unzip(param_with_default);
    let mut posonlyargs = slash_no_default;
    move_all(&mut posonlyargs, swd_plain);
    move_all(&mut posonlyargs, swd_args);
    let mut posargs = param_no_default;
    move_all(&mut posargs, pwd_args);
    let mut defaults = swd_defaults;
    move_all(&mut defaults, pwd_defaults);
    match star_etc {
        Some((vararg, kwonly, kwarg)) => {
            let ghost kw = kwonly@;
            let (kwonlyargs, maybe_defaults) = unzip(kwonly);
            let kw_defaults = flatten_present(maybe_defaults);
            proof {
                lemma_present_seconds(kw);
            }
            Arguments {
                posonlyargs,
                args: posargs,
                vararg: option_box(vararg),
                kwonlyargs,
                kw_defaults,
                kwarg: option_box(kwarg),
                defaults,
            }
        },
        None => Arguments {
            posonlyargs,
            args: posargs,
            vararg: None,
            kwonlyargs: Vec::new(),
            kw_defaults: Vec::new(),
            kwarg: None,
            defaults,
        },
    }
}

pub open spec fn somes<B>(s: Seq<Option<B>>) -> Seq<B>
    decreases s.len(),
{
    if s.len() == 0 {
        Seq::empty()
    } else {
        match s.last() {
            Some(b) => somes(s.drop_last()).push(b),
            None => somes(s.drop_last()),
        }
    }
}

proof fn lemma_present_seconds<A, B>(s: Seq<(A, Option<B>)>)
    ensures
        present(s) == somes(seconds(s)),
    decreases s.len(),
{
    if s.len() > 0 {
        lemma_present_seconds(s.drop_last());
        assert(seconds(s).drop_last() =~= seconds(s.drop_last()));
    }
}

/// The values that are present, in order.
fn flatten_present<B>(v: Vec<Option<B>>) -> (r: Vec<B>)
    ensures
        r@ == somes(v@),
{
    let ghost orig = v@;
    let mut v = v;
    let mut out: Vec<B> = Vec::new();
    let n = v.len();
    while v.len() > 0
        invariant
            v@.len() <= n,
            n == orig.len(),
            v@ == orig.subrange(n - v@.len(), n as int),
            out@ == somes(orig.take(n - v@.len())),
        decreases v@.len(),
    {
        let ghost k = n - v@.len();
        let x = v.remove(0);
        assert(orig.take(k + 1).drop_last() == orig.take(k));
        if let Some(b) = x {
            out.push(b);
        }
        assert(v@ =~= orig.subrange(n - v@.len(), n as int));
    }
    assert(orig.take(n as int) == orig);
    out
}

/// The parameter list of a function or lambda that takes no parameters.
pub fn make_empty_arguments() -> (r: Arguments)
    ensures
        arguments_of(Seq::empty(), (Seq::empty(), Seq::empty()), Seq::empty(), Seq::empty(), None, r),
{
    let r = Arguments {
        posonlyargs: Vec::new(),
        args: Vec::new(),
        vararg: None,
        kwonlyargs: Vec::new(),
        kw_defaults: Vec::new(),
        kwarg: None,
        defaults: Vec::new(),
    };
    assert(r.posonlyargs@ =~= Seq::<Arg>::empty() + Seq::empty() + firsts(Seq::<(Arg, Expr)>::empty()));
    assert(r.args@ =~= Seq::<Arg>::empty() + firsts(Seq::<(Arg, Expr)>::empty()));
    assert(r.defaults@ =~= seconds(Seq::<(Arg, Expr)>::empty()) + seconds(Seq::<(Arg, Expr)>::empty()));
    r
}

/// One string literal token: its span and its content, prefix kind and triple-quote flag.
pub type StrPart = (Location, (String, StringKind, bool), Location);

pub open spec fn part_is_bytes(p: StrPart) -> bool {
    p.1.1 == StringKind::Bytes
}

/// The contents of adjacent string literals, one after the other.
pub open spec fn concat_text(s: Seq<StrPart>) -> Seq<char>
    decreases s.len(),
{
    if s.len() == 0 {
        Seq::empty()
    } else {
        concat_text(s.drop_last()) + s.last().1.0@
    }
}

pub open spec fn has_bytes(s: Seq<StrPart>) -> bool {
    exists|i: int| 0 <= i < s.len() && part_is_bytes(#[trigger] s[i])
}

pub open spec fn has_text(s: Seq<StrPart>) -> bool {
    exists|i: int| 0 <= i < s.len() && !part_is_bytes(#[trigger] s[i])
}

pub open spec fn has_fstring(s: Seq<StrPart>) -> bool {
    exists|i: int| 0 <= i < s.len() && (#[trigger] s[i]).1.1 == StringKind::FString
}

/// `e` is the undecoded constant for the literal `p`, with the literal's span.
pub open spec fn literal_part(e: Expr, p: StrPart) -> bool {
    &&& e.location == p.0
    &&& e.end_location == p.2
    &&& e.node matches ExprKind::Constant { value: Constant::Str(t), kind: None } && t == p.1.0
}

/// What adjacent string literals join into: bytes if all are bytes, one string constant if
/// none is bytes or formatted (marked "u" when the first has that prefix), and otherwise the
/// parts of a formatted string, one constant per literal, left for the literal decoder.
/// Bytes mixed with text is an error.
pub open spec fn joined(s: Seq<StrPart>, r: Result<ExprKind, ()>) -> bool {
    if has_bytes(s) && has_text(s) {
        r is Err
    } else if has_bytes(s) {
        r matches Ok(ExprKind::Constant { value: Constant::Bytes(b), kind: None }) && b@ == concat_text(s)
    } else if has_fstring(s) {
        r matches Ok(ExprKind::JoinedStr { values }) && values@.len() == s.len() && forall|i: int|
            0 <= i < s.len() ==> #[trigger] literal_part(values@[i], s[i])
    } else {
        &&& r matches Ok(ExprKind::Constant { value: Constant::Str(t), kind: k }) && t@ == concat_text(s)
        &&& (r->Ok_0->Constant_kind is Some <==> s[0].1.1 == StringKind::Unicode)
        &&& (r->Ok_0->Constant_kind is Some ==> r->Ok_0->Constant_kind->Some_0@ == seq!['u'])
    }
}

/// Joins adjacent string literals.
pub fn join_strings(parts: &Vec<StrPart>) -> (r: Result<ExprKind, ()>)
    requires
        parts@.len() > 0,
    ensures
        joined(parts@, r),
{
    let mut bytes = false;
    let mut text = false;
    let mut formatted = false;
    let mut i: usize = 0;
    while i < parts.len()
        invariant
            i <= parts@.len(),
            bytes <==> has_bytes(parts@.take(i as int)),
            text <==> has_text(parts@.take(i as int)),
            formatted <==> has_fstring(parts@.take(i as int)),
        decreases parts@.len() - i,
    {
        let ghost pre = parts@.take(i as int);
        let ghost next = parts@.take(i + 1);
        assert(next == pre.push(parts@[i as int]));
        if parts[i].1.1 == StringKind::Bytes {
            bytes = true;
            assert(part_is_bytes(next[i as int]));
        } else {
            text = true;
            assert(!part_is_bytes(next[i as int]));
        }
        if parts[i].1.1 == StringKind::FString {
            formatted = true;
            assert(next[i as int].1.1 == StringKind::FString);
        }
        assert(has_bytes(pre) ==> has_bytes(next)) by {
            if has_bytes(pre) {
                let j = choose|j: int| 0 <= j < pre.len() && part_is_bytes(#[trigger] pre[j]);
                assert(next[j] == pre[j]);
            }
        }
        assert(has_text(pre) ==> has_text(next)) by {
            if has_text(pre) {
                let j = choose|j: int| 0 <= j < pre.len() && !part_is_bytes(#[trigger] pre[j]);
                assert(next[j] == pre[j]);
            }
        }
        assert(has_fstring(pre) ==> has_fstring(next)) by {
            if has_fstring(pre) {
                let j = choose|j: int| 0 <= j < pre.len() && (#[trigger] pre[j]).1.1 == StringKind::FString;
                assert(next[j] == pre[j]);
            }
        }
        assert(has_bytes(next) ==> has_bytes(pre) || part_is_bytes(parts@[i as int])) by {
            if has_bytes(next) {
                let j = choose|j: int| 0 <= j < next.len() && part_is_bytes(#[trigger] next[j]);
                if j < i {
                    assert(pre[j] == next[j]);
                }
            }
        }
        assert(has_text(next) ==> has_text(pre) || !part_is_bytes(parts@[i as int])) by {
            if has_text(next) {
                let j = choose|j: int| 0 <= j < next.len() && !part_is_bytes(#[trigger] next[j]);
                if j < i {
                    assert(pre[j] == next[j]);
                }
            }
        }
        assert(has_fstring(next) ==> has_fstring(pre) || parts@[i as int].1.1 == StringKind::FString) by {
            if has_fstring(next) {
                let j = choose|j: int| 0 <= j < next.len() && (#[trigger] next[j]).1.1 == StringKind::FString;
                if j < i {
                    assert(pre[j] == next[j]);
                }
            }
        }
        i = i + 1;
    }
    assert(parts@.take(parts@.len() as int) == parts@);
    if bytes && text {
        return Err(());
    }
    if formatted && !bytes {
        let mut values: Vec<Expr> = Vec::new();
        let mut k: usize = 0;
        while k < parts.len()
            invariant
                k <= parts@.len(),
                values@.len() == k,
                forall|i: int| 0 <= i < k ==> #[trigger] literal_part(values@[i], parts@[i]),
            decreases parts@.len() - k,
        {
            let part = &parts[k];
            values.push(
                Expr {
                    location: part.0,
                    end_location: part.2,
                    node: ExprKind::Constant { value: Constant::Str(part.1.0.clone()), kind: None },
                },
            );
            k = k + 1;
        }
        return Ok(ExprKind::JoinedStr { values });
    }
    let mut content = String::new();
    let mut k: usize = 0;
    while k < parts.len()
        invariant
            k <= parts@.len(),
            content@ == concat_text(parts@.take(k as int)),
        decreases parts@.len() - k,
    {
        assert(parts@.take(k + 1).drop_last() == parts@.take(k as int));
        content.append(parts[k].1.0.as_str());
        k = k + 1;
    }
    if bytes {
        Ok(ExprKind::Constant { value: Constant::Bytes(content), kind: None })
    } else {
        let kind = if parts[0].1.1 == StringKind::Unicode {
            proof {
                reveal_strlit("u");
            }
            let u = String::from_str("u");
            assert(u@ == seq!['u']);
            Some(u)
        } else {
            None
        };
        Ok(ExprKind::Constant { value: Constant::Str(content), kind })
    }
}

} // verus!
