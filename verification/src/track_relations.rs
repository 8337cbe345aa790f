//! The artist relations a track import stores: sorted by a text key built
//! from their fields, with repeats that end up side by side removed.
use vstd::prelude::*;
use crate::dedup::SameRecord;
use crate::entity::ArtistTrackRelation;
use crate::lastfm::{chars_less, lemma_chars_less_irreflexive, lemma_chars_less_transitive, str_less};
use crate::names::Named;
use crate::search_result::{uuid_text, uuid_to_string};

verus! {

/// The key a relation sorts by: the artist's UUID, the track's UUID, the
/// name of the kind of relation and its detail, written one after another.
pub open spec fn relation_key(r: ArtistTrackRelation) -> Seq<char> {
    uuid_text(r.artist_id) + uuid_text(r.track_id) + r.relation_type.spec_name() + r.relation_value@
}

/// The relations are in the order of their keys.
pub open spec fn sorted_by_key(s: Seq<ArtistTrackRelation>) -> bool {
    forall|i: int, j: int| 0 <= i < j < s.len() ==> !chars_less(#[trigger] relation_key(s[j]), #[trigger] relation_key(s[i]))
}

/// No relation is followed by the same relation.
pub open spec fn no_adjacent_repeats(s: Seq<ArtistTrackRelation>) -> bool {
    forall|i: int| 0 <= i < s.len() - 1 ==> !(#[trigger] s[i]).same_spec(&s[i + 1])
}

/// One of `out` is the same as `x`.
pub open spec fn has_same(out: Seq<ArtistTrackRelation>, x: ArtistTrackRelation) -> bool {
    exists|j: int| 0 <= j < out.len() && (#[trigger] out[j]).same_spec(&x)
}

/// Every relation of `src` is the same as one of `out`.
pub open spec fn covers(out: Seq<ArtistTrackRelation>, src: Seq<ArtistTrackRelation>) -> bool {
    forall|i: int| 0 <= i < src.len() ==> #[trigger] has_same(out, src[i])
}

fn relation_key_string(r: &ArtistTrackRelation) -> (s: String)
    ensures
        s@ == relation_key(*r),
{
    let mut s = uuid_to_string(r.artist_id);
    let t = uuid_to_string(r.track_id);
    s.append(t.as_str());
    s.append(r.relation_type.name());
    s.append(r.relation_value.as_str());
    s
}

/// Sorts the relations by key, each placed after those whose key is not
/// greater.
fn sort_by_key(v: Vec<ArtistTrackRelation>) -> (r: Vec<ArtistTrackRelation>)
    ensures
        sorted_by_key(r@),
        r@.len() == v@.len(),
        forall|i: int| 0 <= i < v@.len() ==> r@.contains(#[trigger] v@[i]),
        forall|j: int| 0 <= j < r@.len() ==> v@.contains(#[trigger] r@[j]),
{
    let ghost src = v@;
    let mut rest = v;
    let mut out: Vec<ArtistTrackRelation> = Vec::new();
    let ghost mut done: int = 0;
    while rest.len() > 0
        invariant
            0 <= done <= src.len(),
            rest@ == src.skip(done),
            out@.len() == done,
            sorted_by_key(out@),
            forall|i: int| 0 <= i < done ==> out@.contains(#[trigger] src[i]),
            forall|j: int| 0 <= j < out@.len() ==> src.contains(#[trigger] out@[j]),
        decreases rest.len(),
    {
        let ghost old_out = out@;
        let x = rest.remove(0);
        assert(x == src[done]);
        let kx = relation_key_string(&x);
        let mut p: usize = 0;
        while p < out.len() && !str_less(kx.as_str(), relation_key_string(&out[p]).as_str())
            invariant
                p <= out@.len(),
                kx@ == relation_key(x),
                forall|q: int| 0 <= q < p ==> !chars_less(kx@, #[trigger] relation_key(out@[q])),
            decreases out.len() - p,
        {
            p = p + 1;
        }
        proof {
            assert(p < out@.len() ==> chars_less(kx@, relation_key(out@[p as int])));
        }
        out.insert(p, x);
        proof {
            assert(out@ =~= old_out.insert(p as int, x));
            assert forall|i: int, j: int| 0 <= i < j < out@.len() implies !chars_less(#[trigger] relation_key(out@[j]), #[trigger] relation_key(out@[i])) by {
                if i < p && j == p {
                } else if i == p && j > p {
                    let kq = relation_key(old_out[j - 1]);
                    if chars_less(kq, kx@) {
                        if j - 1 == p {
                            lemma_chars_less_transitive(kq, kx@, kq);
                            lemma_chars_less_irreflexive(kq);
                        } else {
                            assert(!chars_less(kq, relation_key(old_out[p as int])));
                            lemma_chars_less_transitive(kq, kx@, relation_key(old_out[p as int]));
                        }
                    }
                } else if j < p {
                    assert(out@[i] == old_out[i] && out@[j] == old_out[j]);
                } else if i < p {
                    assert(out@[i] == old_out[i] && out@[j] == old_out[j - 1]);
                } else {
                    assert(out@[i] == old_out[i - 1] && out@[j] == old_out[j - 1]);
                }
            }
            assert forall|i: int| 0 <= i < done + 1 implies out@.contains(#[trigger] src[i]) by {
                if i == done {
                    assert(out@[p as int] == src[i]);
                } else {
                    let k = choose|k: int| 0 <= k < old_out.len() && old_out[k] == src[i];
                    if k < p {
                        assert(out@[k] == src[i]);
                    } else {
                        assert(out@[k + 1] == src[i]);
                    }
                }
            }
            assert forall|j: int| 0 <= j < out@.len() implies src.contains(#[trigger] out@[j]) by {
                if j < p {
                    assert(src.contains(old_out[j]));
                } else if j == p {
                    assert(src[done] == out@[j]);
                } else {
                    assert(src.contains(old_out[j - 1]));
                }
            }
            done = done + 1;
        }
        assert(rest@ =~= src.skip(done));
    }
    out
}

/// Drops each relation that is the same as the one kept just before it.
fn drop_adjacent_repeats(v: Vec<ArtistTrackRelation>) -> (r: Vec<ArtistTrackRelation>)
    requires
        sorted_by_key(v@),
    ensures
        sorted_by_key(r@),
        no_adjacent_repeats(r@),
        covers(r@, v@),
        forall|j: int| 0 <= j < r@.len() ==> v@.contains(#[trigger] r@[j]),
{
    let ghost src = v@;
    let mut rest = v;
    let mut out: Vec<ArtistTrackRelation> = Vec::new();
    let ghost mut done: int = 0;
    while rest.len() > 0
        invariant
            0 <= done <= src.len(),
            rest@ == src.skip(done),
            sorted_by_key(src),
            sorted_by_key(out@),
            no_adjacent_repeats(out@),
            covers(out@, src.take(done)),
            forall|j: int| 0 <= j < out@.len() ==> exists|k: int| 0 <= k < done && #[trigger] out@[j] == src[k],
        decreases rest.len(),
    {
        let ghost old_out = out@;
        let x = rest.remove(0);
        assert(x == src[done]);
        let n = out.len();
        let repeat = n > 0 && out[n - 1].same_record(&x);
        if !repeat {
            out.push(x);
        }
        proof {
            assert forall|i: int, j: int| 0 <= i < j < out@.len() implies !chars_less(#[trigger] relation_key(out@[j]), #[trigger] relation_key(out@[i])) by {
                if j == old_out.len() && !repeat {
                    let k = choose|k: int| 0 <= k < done && old_out[i] == src[k];
                    assert(out@[i] == src[k]);
                    assert(out@[j] == src[done]);
                } else {
                    assert(out@[i] == old_out[i] && out@[j] == old_out[j]);
                }
            }
            assert forall|i: int| 0 <= i < out@.len() - 1 implies !(#[trigger] out@[i]).same_spec(&out@[i + 1]) by {
                if i + 1 == old_out.len() && !repeat {
                    assert(out@[i] == old_out[n - 1]);
                } else {
                    assert(out@[i] == old_out[i] && out@[i + 1] == old_out[i + 1]);
                }
            }
            let t = src.take(done + 1);
            assert forall|i: int| 0 <= i < t.len() implies #[trigger] has_same(out@, t[i]) by {
                if i == done {
                    if repeat {
                        assert(out@[n - 1].same_spec(&t[i]));
                    } else {
                        assert(out@[n as int] == t[i]);
                        assert(out@[n as int].same_spec(&t[i]));
                    }
                } else {
                    assert(src.take(done)[i] == t[i]);
                    assert(has_same(old_out, src.take(done)[i]));
                    let j = choose|j: int| 0 <= j < old_out.len() && (#[trigger] old_out[j]).same_spec(&src.take(done)[i]);
                    assert(out@[j] == old_out[j]);
                    assert(out@[j].same_spec(&t[i]));
                }
            }
            assert(covers(out@, t));
            assert forall|j: int| 0 <= j < out@.len() implies exists|k: int| 0 <= k < done + 1 && #[trigger] out@[j] == src[k] by {
                if j == old_out.len() {
                    assert(out@[j] == src[done]);
                } else {
                    assert(out@[j] == old_out[j]);
                    let k = choose|k: int| 0 <= k < done && old_out[j] == src[k];
                }
            }
            done = done + 1;
        }
        assert(rest@ =~= src.skip(done));
    }
    assert(src.take(done) =~= src);
    assert forall|j: int| 0 <= j < out@.len() implies src.contains(#[trigger] out@[j]) by {
        let k = choose|k: int| 0 <= k < done && out@[j] == src[k];
    }
    out
}

/// The relations a track import stores: sorted by key, with each relation
/// dropped that is the same as the one kept just before it. Every relation
/// given is stored, or one the same as it, and only relations given are
/// stored.
pub fn sorted_relations(v: Vec<ArtistTrackRelation>) -> (r: Vec<ArtistTrackRelation>)
    ensures
        sorted_by_key(r@),
        no_adjacent_repeats(r@),
        covers(r@, v@),
        forall|j: int| 0 <= j < r@.len() ==> v@.contains(#[trigger] r@[j]),
{
    let ghost src = v@;
    let sorted = sort_by_key(v);
    let ghost mid = sorted@;
    let r = drop_adjacent_repeats(sorted);
    proof {
        assert forall|i: int| 0 <= i < src.len() implies #[trigger] has_same(r@, src[i]) by {
            assert(mid.contains(src[i]));
            let k = choose|k: int| 0 <= k < mid.len() && mid[k] == src[i];
            assert(has_same(r@, mid[k]));
            let j = choose|j: int| 0 <= j < r@.len() && (#[trigger] r@[j]).same_spec(&mid[k]);
            assert(r@[j].same_spec(&src[i]));
        }
        assert(covers(r@, src));
        assert forall|j: int| 0 <= j < r@.len() implies src.contains(#[trigger] r@[j]) by {
            assert(mid.contains(r@[j]));
            let k = choose|k: int| 0 <= k < mid.len() && mid[k] == r@[j];
            assert(src.contains(mid[k]));
        }
    }
    r
}

} // verus!
