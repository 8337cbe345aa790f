//! The related resources a document includes, when two of them are the
//! same, and the order they sort in.
use vstd::prelude::*;
use std::cmp::Ordering;
use crate::dedup::SameRecord;
use crate::lastfm::{chars_less, lemma_chars_less_irreflexive, lemma_chars_less_total, lemma_chars_less_transitive, str_less};
use crate::tempo::artists::ArtistResource;
use crate::tempo::genres::GenreResource;
use crate::tempo::images::ImageResource;
use crate::tempo::mediums::MediumResource;
use crate::tempo::releases::ReleaseResource;
use crate::tempo::scrobbles::ScrobbleResource;
use crate::tempo::tracks::TrackResource;
use crate::tempo::users::UserResource;
use crate::text::str_equals;

verus! {

/// A related resource a document includes beside its data.
pub enum Included {
    User(UserResource),
    Scrobble(ScrobbleResource),
    Image(ImageResource),
    Artist(ArtistResource),
    Track(TrackResource),
    Medium(MediumResource),
    Release(ReleaseResource),
    Genre(GenreResource),
}

/// Two included resources are the same when both are images, artists,
/// tracks, mediums or releases with the same id. Users, scrobbles and
/// genres are never the same as anything, themselves included.
impl SameRecord for Included {
    open spec fn same_spec(&self, other: &Self) -> bool {
        match (*self, *other) {
            (Included::Image(a), Included::Image(b)) => a.id@ == b.id@,
            (Included::Artist(a), Included::Artist(b)) => a.id == b.id,
            (Included::Track(a), Included::Track(b)) => a.id == b.id,
            (Included::Medium(a), Included::Medium(b)) => a.id == b.id,
            (Included::Release(a), Included::Release(b)) => a.id == b.id,
            _ => false,
        }
    }

    fn same_record(&self, other: &Self) -> (r: bool) {
        match (self, other) {
            (Included::Image(a), Included::Image(b)) => str_equals(a.id.as_str(), b.id.as_str()),
            (Included::Artist(a), Included::Artist(b)) => a.id == b.id,
            (Included::Track(a), Included::Track(b)) => a.id == b.id,
            (Included::Medium(a), Included::Medium(b)) => a.id == b.id,
            (Included::Release(a), Included::Release(b)) => a.id == b.id,
            _ => false,
        }
    }
}

/// The order of two texts, character by character.
pub open spec fn text_order(a: Seq<char>, b: Seq<char>) -> Ordering {
    if chars_less(a, b) {
        Ordering::Less
    } else if a == b {
        Ordering::Equal
    } else {
        Ordering::Greater
    }
}

/// The order of two numbers.
pub open spec fn number_order(a: u128, b: u128) -> Ordering {
    if a < b {
        Ordering::Less
    } else if a == b {
        Ordering::Equal
    } else {
        Ordering::Greater
    }
}

/// How two included resources sort: images, artists, tracks, mediums and
/// releases against one of their own kind by id; any other pair puts the
/// first before the second.
pub open spec fn included_order(a: Included, b: Included) -> Ordering {
    match (a, b) {
        (Included::Image(x), Included::Image(y)) => text_order(x.id@, y.id@),
        (Included::Artist(x), Included::Artist(y)) => number_order(x.id, y.id),
        (Included::Track(x), Included::Track(y)) => number_order(x.id, y.id),
        (Included::Medium(x), Included::Medium(y)) => number_order(x.id, y.id),
        (Included::Release(x), Included::Release(y)) => number_order(x.id, y.id),
        _ => Ordering::Less,
    }
}

fn compare_text(a: &String, b: &String) -> (r: Ordering)
    ensures
        r == text_order(a@, b@),
{
    if str_less(a.as_str(), b.as_str()) {
        Ordering::Less
    } else if str_equals(a.as_str(), b.as_str()) {
        Ordering::Equal
    } else {
        Ordering::Greater
    }
}

fn compare_number(a: u128, b: u128) -> (r: Ordering)
    ensures
        r == number_order(a, b),
{
    if a < b {
        Ordering::Less
    } else if a == b {
        Ordering::Equal
    } else {
        Ordering::Greater
    }
}

/// How two included resources sort.
pub fn included_cmp(a: &Included, b: &Included) -> (r: Ordering)
    ensures
        r == included_order(*a, *b),
{
    match (a, b) {
        (Included::Image(x), Included::Image(y)) => compare_text(&x.id, &y.id),
        (Included::Artist(x), Included::Artist(y)) => compare_number(x.id, y.id),
        (Included::Track(x), Included::Track(y)) => compare_number(x.id, y.id),
        (Included::Medium(x), Included::Medium(y)) => compare_number(x.id, y.id),
        (Included::Release(x), Included::Release(y)) => compare_number(x.id, y.id),
        _ => Ordering::Less,
    }
}

/// Two included resources are the same exactly when they sort as equal.
pub proof fn lemma_same_iff_equal_order(a: Included, b: Included)
    ensures
        a.same_spec(&b) <==> included_order(a, b) == Ordering::Equal,
{
    if let (Included::Image(x), Included::Image(y)) = (a, b) {
        lemma_chars_less_irreflexive(x.id@);
    }
}

/// Whether two included resources are of one kind that sorts by id: both
/// images, artists, tracks, mediums or releases.
pub open spec fn same_sorted_kind(a: Included, b: Included) -> bool {
    match (a, b) {
        (Included::Image(_), Included::Image(_)) => true,
        (Included::Artist(_), Included::Artist(_)) => true,
        (Included::Track(_), Included::Track(_)) => true,
        (Included::Medium(_), Included::Medium(_)) => true,
        (Included::Release(_), Included::Release(_)) => true,
        _ => false,
    }
}

/// The order with its two sides swapped.
pub open spec fn reversed(o: Ordering) -> Ordering {
    match o {
        Ordering::Less => Ordering::Greater,
        Ordering::Equal => Ordering::Equal,
        Ordering::Greater => Ordering::Less,
    }
}

/// Included resources of one kind that sorts by id are ordered
/// consistently: comparing them the other way round reverses their order.
/// Pairs of other kinds put the first before the second both ways round.
pub proof fn lemma_included_order_antisymmetric(a: Included, b: Included)
    requires
        same_sorted_kind(a, b),
    ensures
        included_order(b, a) == reversed(included_order(a, b)),
{
    if let (Included::Image(x), Included::Image(y)) = (a, b) {
        lemma_chars_less_total(x.id@, y.id@);
        lemma_chars_less_irreflexive(x.id@);
    }
}

/// For included resources of one kind that sorts by id, coming before is
/// transitive.
pub proof fn lemma_included_order_transitive(a: Included, b: Included, c: Included)
    requires
        same_sorted_kind(a, b),
        same_sorted_kind(b, c),
        included_order(a, b) == Ordering::Less,
        included_order(b, c) == Ordering::Less,
    ensures
        included_order(a, c) == Ordering::Less,
{
    if let (Included::Image(x), Included::Image(y), Included::Image(z)) = (a, b, c) {
        lemma_chars_less_transitive(x.id@, y.id@, z.id@);
    }
}

} // verus!
