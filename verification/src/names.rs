//! Values that are written as fixed names in requests and responses: the
//! relationships a request may ask to include, and the stored columns a
//! listing may be sorted by.
use vstd::prelude::*;
use crate::text::{split_spec, str_equals};

verus! {

/// A kind of value each of whose members has a distinct, fixed name.
pub trait Named: Sized + Copy {
    /// The name of the member.
    spec fn spec_name(self) -> Seq<char>;

    /// The member with the given name, if there is one.
    spec fn spec_from_name(s: Seq<char>) -> Option<Self>;

    /// Looking up a member's own name finds that member.
    proof fn lemma_name_roundtrip(a: Self)
        ensures
            Self::spec_from_name(a.spec_name()) == Some(a),
    ;

    /// A member found by name has that name.
    proof fn lemma_from_name_named(s: Seq<char>)
        ensures
            Self::spec_from_name(s) is Some ==> Self::spec_from_name(s)->0.spec_name() == s,
    ;

    /// Names are not empty, hold no comma and do not start with a dash.
    proof fn lemma_name_plain(a: Self)
        ensures
            a.spec_name().len() > 0,
            a.spec_name()[0] != '-',
            forall|i: int| 0 <= i < a.spec_name().len() ==> a.spec_name()[i] != ',',
    ;

    /// The name of the member.
    fn name(&self) -> (r: &'static str)
        ensures
            r@ == self.spec_name(),
    ;

    /// The member with the given name, if there is one.
    fn from_name(s: &str) -> (r: Option<Self>)
        ensures
            r == Self::spec_from_name(s@),
    ;

    /// Whether two members are the same.
    fn same(&self, other: &Self) -> (r: bool)
        ensures
            r == (*self == *other),
    ;
}

/// The member with the given name, if there is one.
pub open spec fn name_lookup<T: Named>(s: Seq<char>) -> Option<T> {
    T::spec_from_name(s)
}

/// Two members with the same name are the same member.
pub proof fn lemma_names_distinct<T: Named>(a: T, b: T)
    requires
        a.spec_name() == b.spec_name(),
    ensures
        a == b,
{
    T::lemma_name_roundtrip(a);
    T::lemma_name_roundtrip(b);
}

/// Each piece looked up by name: the members in order, or `None` when some
/// piece names no member.
pub open spec fn lookup_all<T: Named>(parts: Seq<Seq<char>>) -> Option<Seq<T>>
    decreases parts.len(),
{
    if parts.len() == 0 {
        Some(Seq::empty())
    } else {
        match (lookup_all::<T>(parts.drop_last()), name_lookup::<T>(parts.last())) {
            (Some(init), Some(x)) => Some(init.push(x)),
            _ => None,
        }
    }
}

/// The members looked up from the comma-separated names in `s`.
pub open spec fn parse_names_spec<T: Named>(s: Seq<char>) -> Option<Seq<T>> {
    lookup_all::<T>(split_spec(s, ','))
}

/// Looks up the members named by the comma-separated names in `s`; `None`
/// when any of the names is unknown.
pub fn parse_names<T: Named>(s: &str) -> (r: Option<Vec<T>>)
    ensures
        match r {
            Some(v) => parse_names_spec::<T>(s@) == Some(v@),
            None => parse_names_spec::<T>(s@) is None,
        },
{
    let parts = crate::text::split_on(s, ',');
    let ghost views = crate::text::str_views(parts@);
    let mut out: Vec<T> = Vec::new();
    let mut i: usize = 0;
    while i < parts.len()
        invariant
            views == crate::text::str_views(parts@),
            views == split_spec(s@, ','),
            i <= parts.len(),
            lookup_all::<T>(views.take(i as int)) == Some(out@),
        decreases parts.len() - i,
    {
        assert(views.take(i as int + 1).drop_last() =~= views.take(i as int));
        let found = T::from_name(parts[i]);
        match found {
            Some(x) => {
                out.push(x);
            },
            None => {
                proof {
                    lemma_lookup_all_stays_none::<T>(views, i as int + 1);
                    assert(views.take(views.len() as int) =~= views);
                }
                return None;
            },
        }
        i = i + 1;
    }
    assert(views.take(parts.len() as int) =~= views);
    Some(out)
}

/// Once a prefix of the pieces fails to look up, every longer prefix fails.
proof fn lemma_lookup_all_stays_none<T: Named>(parts: Seq<Seq<char>>, k: int)
    requires
        0 <= k <= parts.len(),
        lookup_all::<T>(parts.take(k)) is None,
    ensures
        lookup_all::<T>(parts.take(parts.len() as int)) is None,
    decreases parts.len() - k,
{
    if k < parts.len() {
        assert(parts.take(k + 1).drop_last() =~= parts.take(k));
        lemma_lookup_all_stays_none::<T>(parts, k + 1);
    }
}

/// The names of the members, in order.
pub open spec fn names_of<T: Named>(xs: Seq<T>) -> Seq<Seq<char>> {
    xs.map_values(|x: T| x.spec_name())
}

/// The names of the members.
pub fn names<T: Named>(xs: &Vec<T>) -> (r: Vec<String>)
    ensures
        r@.map_values(|x: String| x@) == names_of(xs@),
{
    let mut out: Vec<String> = Vec::new();
    let mut i: usize = 0;
    while i < xs.len()
        invariant
            i <= xs.len(),
            out@.map_values(|x: String| x@) == names_of(xs@.take(i as int)),
        decreases xs.len() - i,
    {
        let n = crate::text::to_owned_string(xs[i].name());
        let ghost before = out@;
        out.push(n);
        assert(out@.map_values(|x: String| x@) =~= before.map_values(|x: String| x@).push(n@));
        assert(names_of(xs@.take(i as int + 1)) =~= names_of(xs@.take(i as int)).push(
            xs@[i as int].spec_name(),
        ));
        i = i + 1;
    }
    assert(xs@.take(xs.len() as int) =~= xs@);
    out
}

/// Looking up the names of members, joined by commas, gives the members back.
pub proof fn lemma_parse_joined_names<T: Named>(xs: Seq<T>)
    requires
        xs.len() >= 1,
    ensures
        parse_names_spec::<T>(crate::text::join_spec(names_of(xs), ',')) == Some(xs),
{
    let ns = names_of(xs);
    assert forall|i: int, j: int| 0 <= i < ns.len() && 0 <= j < ns[i].len() implies #[trigger] ns[i][j] != ',' by {
        T::lemma_name_plain(xs[i]);
    }
    crate::text::lemma_split_join(ns, ',');
    lemma_lookup_all_names(xs);
}

proof fn lemma_lookup_all_names<T: Named>(xs: Seq<T>)
    ensures
        lookup_all::<T>(names_of(xs)) == Some(xs),
    decreases xs.len(),
{
    if xs.len() > 0 {
        lemma_lookup_all_names(xs.drop_last());
        assert(names_of(xs).drop_last() =~= names_of(xs.drop_last()));
        T::lemma_name_roundtrip(xs.last());
        assert(xs.drop_last().push(xs.last()) =~= xs);
    } else {
        assert(xs =~= Seq::<T>::empty());
    }
}

/// Whether the member occurs in the list.
pub fn contains_member<T: Named>(xs: &[T], x: T) -> (r: bool)
    ensures
        r == xs@.contains(x),
{
    let mut i: usize = 0;
    while i < xs.len()
        invariant
            i <= xs.len(),
            forall|j: int| 0 <= j < i ==> xs@[j] != x,
        decreases xs.len() - i,
    {
        if xs[i].same(&x) {
            assert(xs@[i as int] == x);
            return true;
        }
        i = i + 1;
    }
    false
}

} // verus!
