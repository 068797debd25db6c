//! Facts about `Seq::filter_map` that the laws of the parser and of the
//! resolver rest on.

use vstd::prelude::*;

verus! {

/// What the first `i` elements give is the beginning of what all give.
pub proof fn lemma_filter_map_prefix<A, B>(s: Seq<A>, f: spec_fn(A) -> Option<B>, i: int)
    requires
        0 <= i <= s.len(),
    ensures
        s.take(i).filter_map(f).len() <= s.filter_map(f).len(),
        s.take(i).filter_map(f) == s.filter_map(f).take(s.take(i).filter_map(f).len() as int),
    decreases s.len() - i,
{
    if i == s.len() {
        assert(s.take(i) =~= s);
        assert(s.filter_map(f).take(s.filter_map(f).len() as int) =~= s.filter_map(f));
    } else {
        s.lemma_filter_map_take_succ(f, i);
        lemma_filter_map_prefix(s, f, i + 1);
        let shorter = s.take(i).filter_map(f);
        let longer = s.take(i + 1).filter_map(f);
        assert(shorter =~= longer.take(shorter.len() as int));
        assert(shorter =~= s.filter_map(f).take(shorter.len() as int));
    }
}

/// An element that gives a value puts it behind the values of the elements
/// before it.
pub proof fn lemma_filter_map_position<A, B>(s: Seq<A>, f: spec_fn(A) -> Option<B>, i: int)
    requires
        0 <= i < s.len(),
        f(s[i]) is Some,
    ensures
        s.take(i).filter_map(f).len() < s.filter_map(f).len(),
        s.filter_map(f)[s.take(i).filter_map(f).len() as int] == f(s[i])->0,
        s.take(i + 1).filter_map(f).len() == s.take(i).filter_map(f).len() + 1,
{
    s.lemma_filter_map_take_succ(f, i);
    lemma_filter_map_prefix(s, f, i + 1);
    let k = s.take(i).filter_map(f).len() as int;
    let longer = s.take(i + 1).filter_map(f);
    assert(longer.len() == k + 1);
    assert(longer[k] == f(s[i])->0);
    assert(s.filter_map(f).take(k + 1)[k] == s.filter_map(f)[k]);
}

/// Elements that give nothing leave nothing.
pub proof fn lemma_filter_map_none<A, B>(s: Seq<A>, f: spec_fn(A) -> Option<B>)
    requires
        forall|i: int| 0 <= i < s.len() ==> f(#[trigger] s[i]) is None,
    ensures
        s.filter_map(f).len() == 0,
    decreases s.len(),
{
    if s.len() > 0 {
        assert(f(s[s.len() - 1]) is None);
        lemma_filter_map_none(s.drop_last(), f);
    }
}

/// A later element's value stands behind an earlier element's value.
pub proof fn lemma_filter_map_order<A, B>(s: Seq<A>, f: spec_fn(A) -> Option<B>, i: int, j: int)
    requires
        0 <= i < j < s.len(),
        f(s[i]) is Some,
    ensures
        s.take(i).filter_map(f).len() < s.take(j).filter_map(f).len(),
{
    lemma_filter_map_position(s, f, i);
    lemma_filter_map_prefix(s.take(j), f, i + 1);
    assert(s.take(j).take(i + 1) =~= s.take(i + 1));
}

} // verus!
