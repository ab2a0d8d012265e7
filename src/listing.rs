use vstd::prelude::*;
use crate::text::{split_spec, lemma_split_concat, lemma_split_no_sep};

verus! {

/// The results of `f` on `s` that are present, in order.
pub open spec fn keep_some<A, B>(s: Seq<A>, f: spec_fn(A) -> Option<B>) -> Seq<B>
    decreases s.len(),
{
    if s.len() == 0 {
        Seq::<B>::empty()
    } else {
        let r = keep_some(s.drop_last(), f);
        match f(s.last()) {
            Some(b) => r.push(b),
            None => r,
        }
    }
}

/// Keeping the present results distributes over concatenation.
pub proof fn lemma_keep_some_concat<A, B>(a: Seq<A>, b: Seq<A>, f: spec_fn(A) -> Option<B>)
    ensures
        keep_some(a + b, f) == keep_some(a, f) + keep_some(b, f),
    decreases b.len(),
{
    if b.len() == 0 {
        assert(a + b == a);
        assert(keep_some(b, f) == Seq::<B>::empty());
        assert(keep_some(a, f) + Seq::<B>::empty() == keep_some(a, f));
    } else {
        lemma_keep_some_concat(a, b.drop_last(), f);
        assert((a + b).drop_last() == a + b.drop_last());
        assert((a + b).last() == b.last());
        match f(b.last()) {
            Some(x) => {
                assert(keep_some(a, f) + keep_some(b.drop_last(), f).push(x) == (keep_some(a, f)
                    + keep_some(b.drop_last(), f)).push(x));
            },
            None => {},
        }
    }
}

/// An item on which `f` gives nothing leaves the kept results as they are,
/// wherever it stands.
pub proof fn lemma_keep_some_skips<A, B>(a: Seq<A>, x: A, b: Seq<A>, f: spec_fn(A) -> Option<B>)
    requires
        f(x) is None,
    ensures
        keep_some(a + seq![x] + b, f) == keep_some(a + b, f),
{
    lemma_keep_some_concat(a + seq![x], b, f);
    lemma_keep_some_concat(a, seq![x], f);
    lemma_keep_some_concat(a, b, f);
    assert(seq![x].drop_last() == Seq::<A>::empty());
    assert(seq![x].last() == x);
    assert(keep_some(Seq::<A>::empty(), f) == Seq::<B>::empty());
    assert(keep_some(seq![x], f) == Seq::<B>::empty());
    assert(keep_some(a, f) + Seq::<B>::empty() == keep_some(a, f));
}

/// One step of a loop that keeps the present results of `f`.
pub proof fn lemma_keep_some_step<A, B>(s: Seq<A>, i: int, f: spec_fn(A) -> Option<B>)
    requires
        0 <= i < s.len(),
    ensures
        keep_some(s.take(i + 1), f) == match f(s[i]) {
            Some(b) => keep_some(s.take(i), f).push(b),
            None => keep_some(s.take(i), f),
        },
{
    assert(s.take(i + 1).drop_last() == s.take(i));
    assert(s.take(i + 1).last() == s[i]);
}

/// The lines of a listing.
pub open spec fn lines_of(raw: Seq<char>) -> Seq<Seq<char>> {
    split_spec(raw, '\n')
}

/// The lines of a listing with one more line between `a` and `b` are the
/// lines of `a`, that line, and the lines of `b`.
pub proof fn lemma_lines_insert(a: Seq<char>, line: Seq<char>, b: Seq<char>)
    requires
        !line.contains('\n'),
    ensures
        lines_of(a + seq!['\n'] + line + seq!['\n'] + b) == lines_of(a) + seq![line] + lines_of(b),
        lines_of(a + seq!['\n'] + b) == lines_of(a) + lines_of(b),
        lines_of(line + seq!['\n'] + b) == seq![line] + lines_of(b),
        lines_of(a + seq!['\n'] + line) == lines_of(a) + seq![line],
{
    let nl = seq!['\n'];
    lemma_split_concat(a, line + nl + b, '\n');
    lemma_split_concat(line, b, '\n');
    lemma_split_concat(a, b, '\n');
    lemma_split_no_sep(line, '\n');
    assert(a + nl + line + nl + b == a + nl + (line + nl + b));
    let la = lines_of(a);
    let lb = lines_of(b);
    assert(la + (seq![line] + lb) == la + seq![line] + lb);
    lemma_split_concat(a, line, '\n');
}

/// A listing with one more line, on which `f` gives nothing, gives the same
/// results as the listing without it, whether the line stands between `a` and
/// `b`, before `b`, or after `a`.
pub proof fn lemma_line_dropped<B>(a: Seq<char>, line: Seq<char>, b: Seq<char>, f: spec_fn(Seq<char>) -> Option<B>)
    requires
        f(line) is None,
        !line.contains('\n'),
    ensures
        keep_some(lines_of(a + seq!['\n'] + line + seq!['\n'] + b), f) == keep_some(lines_of(a + seq!['\n'] + b), f),
        keep_some(lines_of(line + seq!['\n'] + b), f) == keep_some(lines_of(b), f),
        keep_some(lines_of(a + seq!['\n'] + line), f) == keep_some(lines_of(a), f),
{
    lemma_lines_insert(a, line, b);
    let e = Seq::<Seq<char>>::empty();
    lemma_keep_some_skips(lines_of(a), line, lines_of(b), f);
    lemma_keep_some_skips(e, line, lines_of(b), f);
    lemma_keep_some_skips(lines_of(a), line, e, f);
    assert(e + seq![line] + lines_of(b) == seq![line] + lines_of(b));
    assert(e + lines_of(b) == lines_of(b));
    assert(lines_of(a) + seq![line] + e == lines_of(a) + seq![line]);
    assert(lines_of(a) + e == lines_of(a));
}

/// Why a catalog could not be loaded from a listing.
#[derive(Clone, Copy, Debug, PartialEq, Eq, Structural)]
pub enum LoadError {
    /// A separator or filter expression was refused.
    InvalidPattern,
    /// The listing has no header line with the expected column names.
    HeaderNotFound,
    /// The listing handed over is not of the kind the backend reads.
    WrongListing,
}

/// Why the description of a package could not be given.
#[derive(Clone, Copy, Debug, PartialEq, Eq, Structural)]
pub enum InfoError {
    /// The package name does not have the form the backend needs.
    MalformedName,
    /// A filter expression built from the name was refused.
    InvalidPattern,
    /// No package of that name is known.
    NotFound,
}

} // verus!
