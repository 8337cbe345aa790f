//! Functions on sequences shared by the specifications.
use vstd::prelude::*;

verus! {

/// The results of `f` on the elements of `s` that `f` maps to `Some`, in order.
pub open spec fn filter_map_spec<A, B>(s: Seq<A>, f: spec_fn(A) -> Option<B>) -> Seq<B>
    decreases s.len(),
{
    if s.len() == 0 {
        Seq::empty()
    } else {
        let init = filter_map_spec(s.drop_last(), f);
        match f(s.last()) {
            Some(b) => init.push(b),
            None => init,
        }
    }
}


/// The sequences joined one after the other.
pub open spec fn concat<A>(s: Seq<Seq<A>>) -> Seq<A>
    decreases s.len(),
{
    if s.len() == 0 {
        Seq::empty()
    } else {
        concat(s.drop_last()) + s.last()
    }
}

/// `out` is `src` converted element by element: equally long, and each
/// element of `out` stands in the relation `rel` to the element of `src` at
/// its index.
pub open spec fn converted<A, B>(out: Seq<A>, src: Seq<B>, rel: spec_fn(A, B) -> bool) -> bool {
    &&& out.len() == src.len()
    &&& forall|i: int| 0 <= i < out.len() ==> #[trigger] rel(out[i], src[i])
}

/// Conversions of two sequences together convert their concatenation.
pub proof fn lemma_converted_append<A, B>(
    oa: Seq<A>,
    ob: Seq<A>,
    sa: Seq<B>,
    sb: Seq<B>,
    rel: spec_fn(A, B) -> bool,
)
    requires
        converted(oa, sa, rel),
        converted(ob, sb, rel),
    ensures
        converted(oa + ob, sa + sb, rel),
{
    assert forall|i: int| 0 <= i < (oa + ob).len() implies #[trigger] rel((oa + ob)[i], (sa + sb)[i]) by {
        if i < oa.len() {
            assert(rel(oa[i], sa[i]));
        } else {
            assert(rel(ob[i - oa.len()], sb[i - oa.len()]));
        }
    }
}

/// Mapping-and-filtering a concatenation is concatenating the results.
pub proof fn lemma_filter_map_append<A, B>(a: Seq<A>, b: Seq<A>, f: spec_fn(A) -> Option<B>)
    ensures
        filter_map_spec(a + b, f) == filter_map_spec(a, f) + filter_map_spec(b, f),
    decreases b.len(),
{
    if b.len() == 0 {
        assert(a + b =~= a);
        assert(filter_map_spec(a, f) + filter_map_spec(b, f) =~= filter_map_spec(a, f));
    } else {
        lemma_filter_map_append(a, b.drop_last(), f);
        assert((a + b).drop_last() =~= a + b.drop_last());
        assert((a + b).last() == b.last());
        match f(b.last()) {
            Some(x) => {
                assert(filter_map_spec(a, f) + filter_map_spec(b.drop_last(), f).push(x) =~= (
                filter_map_spec(a, f) + filter_map_spec(b.drop_last(), f)).push(x));
            },
            None => {},
        }
    }
}

/// The concatenation of one more sequence.
pub proof fn lemma_concat_take<A>(s: Seq<Seq<A>>, i: int)
    requires
        0 <= i < s.len(),
    ensures
        concat(s.take(i + 1)) == concat(s.take(i)) + s[i],
{
    assert(s.take(i + 1).drop_last() =~= s.take(i));
}
} // verus!
