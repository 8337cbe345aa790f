//! Removing repeated records from lists, keeping each where it first
//! occurs. Two records are the same when all their fields hold the same
//! values.
use vstd::prelude::*;
use crate::entity::{
    Artist, ArtistCredit, ArtistCreditRelease, ArtistCreditTrack, ArtistTrackRelation, Medium,
    Release, Track,
};
use crate::search_result::string_views;
use crate::text::{opt_view, str_equals};

verus! {

/// Records that can be compared field by field.
pub trait SameRecord: Sized {
    /// Whether two records hold the same values.
    spec fn same_spec(&self, other: &Self) -> bool;

    /// Whether two records hold the same values.
    fn same_record(&self, other: &Self) -> (r: bool)
        ensures
            r == self.same_spec(other),
    ;
}

/// Whether two optional strings hold the same characters.
pub fn opt_str_equals(a: &Option<String>, b: &Option<String>) -> (r: bool)
    ensures
        r == (opt_view(*a) == opt_view(*b)),
{
    match (a, b) {
        (Some(x), Some(y)) => str_equals(x.as_str(), y.as_str()),
        (None, None) => true,
        _ => false,
    }
}

/// Whether two lists of strings hold the same strings in the same order.
pub fn strings_equal(a: &Vec<String>, b: &Vec<String>) -> (r: bool)
    ensures
        r == (string_views(a@) == string_views(b@)),
{
    if a.len() != b.len() {
        assert(string_views(a@).len() != string_views(b@).len());
        return false;
    }
    let mut i: usize = 0;
    while i < a.len()
        invariant
            a.len() == b.len(),
            i <= a.len(),
            forall|j: int| 0 <= j < i ==> a@[j]@ == b@[j]@,
        decreases a.len() - i,
    {
        if !str_equals(a[i].as_str(), b[i].as_str()) {
            assert(string_views(a@)[i as int] != string_views(b@)[i as int]);
            return false;
        }
        i = i + 1;
    }
    assert(string_views(a@) =~= string_views(b@));
    true
}


impl SameRecord for Artist {
    open spec fn same_spec(&self, other: &Self) -> bool {
        &&& self.id == other.id
        &&& self.name@ == other.name@
        &&& self.sort_name@ == other.sort_name@
        &&& opt_view(self.description) == opt_view(other.description)
    }

    fn same_record(&self, other: &Self) -> (r: bool) {
        self.id == other.id
            && str_equals(self.name.as_str(), other.name.as_str())
            && str_equals(self.sort_name.as_str(), other.sort_name.as_str())
            && opt_str_equals(&self.description, &other.description)
    }
}

impl SameRecord for ArtistCredit {
    open spec fn same_spec(&self, other: &Self) -> bool {
        &&& self.id@ == other.id@
        &&& opt_view(self.join_phrase) == opt_view(other.join_phrase)
        &&& self.artist_id == other.artist_id
    }

    fn same_record(&self, other: &Self) -> (r: bool) {
        str_equals(self.id.as_str(), other.id.as_str())
            && opt_str_equals(&self.join_phrase, &other.join_phrase)
            && self.artist_id == other.artist_id
    }
}

impl SameRecord for Release {
    open spec fn same_spec(&self, other: &Self) -> bool {
        &&& self.id == other.id
        &&& self.title@ == other.title@
        &&& self.release_group_id == other.release_group_id
        &&& opt_view(self.release_type) == opt_view(other.release_type)
        &&& string_views(self.genres@) == string_views(other.genres@)
        &&& opt_view(self.asin) == opt_view(other.asin)
        &&& opt_view(self.country) == opt_view(other.country)
        &&& opt_view(self.label) == opt_view(other.label)
        &&& opt_view(self.catalog_no) == opt_view(other.catalog_no)
        &&& opt_view(self.status) == opt_view(other.status)
        &&& self.year == other.year
        &&& self.month == other.month
        &&& self.day == other.day
        &&& self.original_year == other.original_year
        &&& self.original_month == other.original_month
        &&& self.original_day == other.original_day
        &&& opt_view(self.script) == opt_view(other.script)
        &&& opt_view(self.path) == opt_view(other.path)
    }

    fn same_record(&self, other: &Self) -> (r: bool) {
        self.id == other.id
            && str_equals(self.title.as_str(), other.title.as_str())
            && (match (self.release_group_id, other.release_group_id) { (Some(x), Some(y)) => x == y, (None, None) => true, _ => false })
            && opt_str_equals(&self.release_type, &other.release_type)
            && strings_equal(&self.genres, &other.genres)
            && opt_str_equals(&self.asin, &other.asin)
            && opt_str_equals(&self.country, &other.country)
            && opt_str_equals(&self.label, &other.label)
            && opt_str_equals(&self.catalog_no, &other.catalog_no)
            && opt_str_equals(&self.status, &other.status)
            && (match (self.year, other.year) { (Some(x), Some(y)) => x == y, (None, None) => true, _ => false })
            && (match (self.month, other.month) { (Some(x), Some(y)) => x == y, (None, None) => true, _ => false })
            && (match (self.day, other.day) { (Some(x), Some(y)) => x == y, (None, None) => true, _ => false })
            && (match (self.original_year, other.original_year) { (Some(x), Some(y)) => x == y, (None, None) => true, _ => false })
            && (match (self.original_month, other.original_month) { (Some(x), Some(y)) => x == y, (None, None) => true, _ => false })
            && (match (self.original_day, other.original_day) { (Some(x), Some(y)) => x == y, (None, None) => true, _ => false })
            && opt_str_equals(&self.script, &other.script)
            && opt_str_equals(&self.path, &other.path)
    }
}

impl SameRecord for Medium {
    open spec fn same_spec(&self, other: &Self) -> bool {
        &&& self.id == other.id
        &&& self.release_id == other.release_id
        &&& self.position == other.position
        &&& self.tracks == other.tracks
        &&& self.track_offset == other.track_offset
        &&& opt_view(self.format) == opt_view(other.format)
    }

    fn same_record(&self, other: &Self) -> (r: bool) {
        self.id == other.id
            && self.release_id == other.release_id
            && self.position == other.position
            && self.tracks == other.tracks
            && self.track_offset == other.track_offset
            && opt_str_equals(&self.format, &other.format)
    }
}

impl SameRecord for Track {
    open spec fn same_spec(&self, other: &Self) -> bool {
        &&& self.id == other.id
        &&& self.medium_id == other.medium_id
        &&& self.title@ == other.title@
        &&& self.length == other.length
        &&& self.number == other.number
        &&& string_views(self.genres@) == string_views(other.genres@)
        &&& self.recording_id == other.recording_id
        &&& self.format == other.format
        &&& opt_view(self.path) == opt_view(other.path)
    }

    fn same_record(&self, other: &Self) -> (r: bool) {
        self.id == other.id
            && self.medium_id == other.medium_id
            && str_equals(self.title.as_str(), other.title.as_str())
            && self.length == other.length
            && self.number == other.number
            && strings_equal(&self.genres, &other.genres)
            && self.recording_id == other.recording_id
            && (match (self.format, other.format) { (Some(x), Some(y)) => x == y, (None, None) => true, _ => false })
            && opt_str_equals(&self.path, &other.path)
    }
}

impl SameRecord for ArtistTrackRelation {
    open spec fn same_spec(&self, other: &Self) -> bool {
        &&& self.artist_id == other.artist_id
        &&& self.track_id == other.track_id
        &&& self.relation_type == other.relation_type
        &&& self.relation_value@ == other.relation_value@
    }

    fn same_record(&self, other: &Self) -> (r: bool) {
        self.artist_id == other.artist_id
            && self.track_id == other.track_id
            && self.relation_type == other.relation_type
            && str_equals(self.relation_value.as_str(), other.relation_value.as_str())
    }
}

impl SameRecord for ArtistCreditRelease {
    open spec fn same_spec(&self, other: &Self) -> bool {
        &&& self.artist_credit_id@ == other.artist_credit_id@
        &&& self.release_id == other.release_id
    }

    fn same_record(&self, other: &Self) -> (r: bool) {
        str_equals(self.artist_credit_id.as_str(), other.artist_credit_id.as_str())
            && self.release_id == other.release_id
    }
}

impl SameRecord for ArtistCreditTrack {
    open spec fn same_spec(&self, other: &Self) -> bool {
        &&& self.artist_credit_id@ == other.artist_credit_id@
        &&& self.track_id == other.track_id
    }

    fn same_record(&self, other: &Self) -> (r: bool) {
        str_equals(self.artist_credit_id.as_str(), other.artist_credit_id.as_str())
            && self.track_id == other.track_id
    }
}

/// The records without repeats, each kept where it first occurs.
pub open spec fn dedup_spec<T: SameRecord>(s: Seq<T>) -> Seq<T>
    decreases s.len(),
{
    if s.len() == 0 {
        Seq::empty()
    } else {
        let d = dedup_spec(s.drop_last());
        if exists|k: int| 0 <= k < d.len() && (#[trigger] d[k]).same_spec(&s.last()) {
            d
        } else {
            d.push(s.last())
        }
    }
}

/// Removes repeated records, keeping each where it first occurs.
pub fn dedup<T: SameRecord>(v: Vec<T>) -> (r: Vec<T>)
    ensures
        r@ == dedup_spec(v@),
{
    let ghost src = v@;
    let mut rest = v;
    let mut out: Vec<T> = Vec::new();
    let ghost mut done: int = 0;
    while rest.len() > 0
        invariant
            0 <= done <= src.len(),
            rest@ == src.skip(done),
            out@ == dedup_spec(src.take(done)),
        decreases rest.len(),
    {
        let x = rest.remove(0);
        assert(src.take(done + 1).drop_last() =~= src.take(done));
        assert(src.take(done + 1).last() == x);
        let mut found = false;
        let mut k: usize = 0;
        while k < out.len()
            invariant
                k <= out.len(),
                !found ==> forall|q: int| 0 <= q < k ==> !(#[trigger] out@[q]).same_spec(&x),
                found ==> exists|q: int| 0 <= q < out.len() && (#[trigger] out@[q]).same_spec(&x),
            decreases out.len() - k,
        {
            if !found && out[k].same_record(&x) {
                found = true;
            }
            k = k + 1;
        }
        if !found {
            out.push(x);
        }
        proof {
            done = done + 1;
        }
        assert(rest@ =~= src.skip(done));
    }
    assert(src.take(src.len() as int) =~= src);
    out
}

/// No record is kept after one that is the same.
pub proof fn lemma_dedup_distinct<T: SameRecord>(s: Seq<T>)
    ensures
        forall|i: int, j: int|
            #![trigger dedup_spec(s)[i], dedup_spec(s)[j]]
            0 <= i < j < dedup_spec(s).len() ==> !dedup_spec(s)[i].same_spec(&dedup_spec(s)[j]),
    decreases s.len(),
{
    if s.len() > 0 {
        lemma_dedup_distinct(s.drop_last());
        let d = dedup_spec(s.drop_last());
        let r = dedup_spec(s);
        assert forall|i: int, j: int| 0 <= i < j < r.len() implies !r[i].same_spec(&r[j]) by {
            if j < d.len() {
                assert(r[i] == d[i] && r[j] == d[j]);
                assert(!d[i].same_spec(&d[j]));
            } else {
                assert(r[j] == s.last());
                assert(r[i] == d[i]);
                if d[i].same_spec(&s.last()) {
                    assert(exists|k: int| 0 <= k < d.len() && (#[trigger] d[k]).same_spec(&s.last()));
                }
            }
        }
    }
}

/// Every record kept is one of the input records.
pub proof fn lemma_dedup_from_input<T: SameRecord>(s: Seq<T>)
    ensures
        forall|i: int| 0 <= i < dedup_spec(s).len() ==> s.contains(#[trigger] dedup_spec(s)[i]),
    decreases s.len(),
{
    if s.len() > 0 {
        lemma_dedup_from_input(s.drop_last());
        let d = dedup_spec(s.drop_last());
        assert forall|i: int| 0 <= i < dedup_spec(s).len() implies s.contains(#[trigger] dedup_spec(s)[i]) by {
            if i < d.len() {
                assert(s.drop_last().contains(d[i]));
                let k = choose|k: int| 0 <= k < s.drop_last().len() && s.drop_last()[k] == d[i];
                assert(s[k] == d[i]);
            } else {
                assert(s[s.len() - 1] == s.last());
            }
        }
    }
}

} // verus!
