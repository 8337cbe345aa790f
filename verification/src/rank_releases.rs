//! Scoring how well a candidate release from MusicBrainz matches the release
//! being imported, and assigning source tracks to candidate tracks.
use vstd::prelude::*;
use crate::entity::{FullTrack, InternalRelease, InternalTrack, ReleaseRating, Uuid};
use std::collections::HashMap;

verus! {

pub const TRACK_TITLE_FACTOR: usize = 5000;
pub const TRACK_LENGTH_FACTOR: u32 = 300;
pub const TRACK_DISC_FACTOR: u32 = 100;
pub const TRACK_NUMBER_FACTOR: u32 = 200;

pub const RELEASE_TITLE_FACTOR: usize = 1000;
pub const RELEASE_MEDIA_FACTOR: usize = 10;
pub const RELEASE_DISCS_FACTOR: u32 = 100;
pub const RELEASE_TRACKS_FACTOR: u32 = 1000;
pub const RELEASE_COUNTRY_FACTOR: usize = 5;
pub const RELEASE_LABEL_FACTOR: usize = 5;
pub const RELEASE_RELEASE_TYPE_FACTOR: usize = 50;
pub const RELEASE_YEAR_FACTOR: i32 = 100;
pub const RELEASE_MONTH_FACTOR: i64 = 50;
pub const RELEASE_DAY_FACTOR: i64 = 10;
pub const RELEASE_ORIGINAL_YEAR_FACTOR: i32 = 100;
pub const RELEASE_ORIGINAL_MONTH_FACTOR: i64 = 50;
pub const RELEASE_ORIGINAL_DAY_FACTOR: i64 = 10;

/// The edit distances a score is built from stay below this bound, so that
/// every weighted term, and the total the assignment solver adds up, fits in
/// a signed 64-bit number.
pub const MAX_COMPARED_CHARS: usize = 0x80_0000;

/// The Levenshtein distance: the least number of single-character
/// insertions, deletions and substitutions that turn `a` into `b`.
pub open spec fn edit_distance(a: Seq<char>, b: Seq<char>) -> nat
    decreases a.len() + b.len(),
{
    if a.len() == 0 {
        b.len()
    } else if b.len() == 0 {
        a.len()
    } else if a[0] == b[0] {
        edit_distance(a.drop_first(), b.drop_first())
    } else {
        let del = edit_distance(a.drop_first(), b);
        let ins = edit_distance(a, b.drop_first());
        let sub = edit_distance(a.drop_first(), b.drop_first());
        1 + if del <= ins && del <= sub {
            del
        } else if ins <= sub {
            ins
        } else {
            sub
        }
    }
}

/// The distance never exceeds the length of the longer string.
pub proof fn lemma_edit_distance_bound(a: Seq<char>, b: Seq<char>)
    ensures
        edit_distance(a, b) <= if a.len() >= b.len() { a.len() } else { b.len() },
    decreases a.len() + b.len(),
{
    if a.len() != 0 && b.len() != 0 {
        lemma_edit_distance_bound(a.drop_first(), b.drop_first());
        if a[0] != b[0] {
            lemma_edit_distance_bound(a.drop_first(), b);
            lemma_edit_distance_bound(a, b.drop_first());
        }
    }
}

/// A string is at distance zero from itself.
pub proof fn lemma_edit_distance_self(a: Seq<char>)
    ensures
        edit_distance(a, a) == 0,
    decreases a.len(),
{
    if a.len() != 0 {
        lemma_edit_distance_self(a.drop_first());
    }
}

/// The distance does not depend on the order of its arguments.
pub proof fn lemma_edit_distance_symmetric(a: Seq<char>, b: Seq<char>)
    ensures
        edit_distance(a, b) == edit_distance(b, a),
    decreases a.len() + b.len(),
{
    if a.len() != 0 && b.len() != 0 {
        lemma_edit_distance_symmetric(a.drop_first(), b.drop_first());
        if a[0] != b[0] {
            lemma_edit_distance_symmetric(a.drop_first(), b);
            lemma_edit_distance_symmetric(a, b.drop_first());
        }
    }
}

/// `levenshtein::levenshtein`: the crate computes the Levenshtein distance
/// between the character sequences of the two strings; the contract states
/// that the result is exactly that distance.
#[verifier::external_body]
fn levenshtein_distance(a: &str, b: &str) -> (r: usize)
    ensures
        r == edit_distance(a@, b@),
{
    levenshtein::levenshtein(a, b)
}

/// Applies `then` to both values when both are present.
pub fn if_both<T, R, F: Fn(T, T) -> R>(a: Option<T>, b: Option<T>, then: F) -> (r: Option<R>)
    requires
        (a is Some && b is Some) ==> call_requires(then, (a->0, b->0)),
    ensures
        (a is Some && b is Some) ==> (r is Some && call_ensures(then, (a->0, b->0), r->0)),
        !(a is Some && b is Some) ==> r is None,
{
    if let Some(a_val) = a {
        if let Some(b_val) = b {
            return Some(then(a_val, b_val));
        }
    }
    None
}

/// The absolute difference of two integers.
pub open spec fn abs_diff(a: int, b: int) -> int {
    if a >= b { a - b } else { b - a }
}

/// The weighted absolute difference of two optional numbers: zero unless both
/// are present.
pub open spec fn both_abs_diff(a: Option<int>, b: Option<int>, factor: int) -> int {
    match (a, b) {
        (Some(x), Some(y)) => abs_diff(x, y) * factor,
        _ => 0,
    }
}

/// The weighted distance of two optional strings: zero unless both are present.
pub open spec fn both_distance(a: Option<String>, b: Option<String>, factor: int) -> int {
    match (a, b) {
        (Some(x), Some(y)) => edit_distance(x@, y@) * factor,
        _ => 0,
    }
}

/// An optional `u32` as an optional integer.
pub open spec fn opt_u32(a: Option<u32>) -> Option<int> {
    match a {
        Some(x) => Some(x as int),
        None => None,
    }
}

/// An optional `i32` as an optional integer.
pub open spec fn opt_i32(a: Option<i32>) -> Option<int> {
    match a {
        Some(x) => Some(x as int),
        None => None,
    }
}

/// An optional `u8` as an optional integer.
pub open spec fn opt_u8(a: Option<u8>) -> Option<int> {
    match a {
        Some(x) => Some(x as int),
        None => None,
    }
}

/// Whether a weighted difference of two optional numbers stays within `limit`.
pub open spec fn both_fits(a: Option<int>, b: Option<int>, factor: int, limit: int) -> bool {
    (a is Some && b is Some) ==> abs_diff(a->0, b->0) * factor <= limit
}

/// Whether the edit distance of two strings stays below the bound that
/// keeps the scores free of overflow.
pub open spec fn comparable(a: Seq<char>, b: Seq<char>) -> bool {
    edit_distance(a, b) < MAX_COMPARED_CHARS
}

/// Whether two optional strings, where both are present, are comparable.
pub open spec fn opt_comparable(a: Option<String>, b: Option<String>) -> bool {
    (a is Some && b is Some) ==> comparable(a->0@, b->0@)
}

/// A dissimilarity score between two values of one kind: zero for equal
/// values, larger for more different ones.
pub trait Diff: Sized {
    /// The score as a mathematical integer.
    spec fn diff_spec(&self, other: &Self) -> int;

    /// The inputs on which the score is computed without overflow.
    spec fn diff_defined(&self, other: &Self) -> bool;

    fn diff(&self, other: &Self) -> (r: i64)
        requires
            self.diff_defined(other),
        ensures
            r as int == self.diff_spec(other),
    ;
}

/// The score of two tracks: title distance, and the differences of length,
/// disc and track number where both tracks have them.
pub open spec fn track_diff(a: InternalTrack, b: InternalTrack) -> int {
    edit_distance(a.title@, b.title@) * TRACK_TITLE_FACTOR
        + both_abs_diff(opt_u32(a.length), opt_u32(b.length), TRACK_LENGTH_FACTOR as int)
        + both_abs_diff(opt_u32(a.disc), opt_u32(b.disc), TRACK_DISC_FACTOR as int)
        + both_abs_diff(opt_u32(a.number), opt_u32(b.number), TRACK_NUMBER_FACTOR as int)
}

/// The track inputs on which the score is computed without overflow.
pub open spec fn track_diff_defined(a: InternalTrack, b: InternalTrack) -> bool {
    &&& comparable(a.title@, b.title@)
    &&& both_fits(opt_u32(a.length), opt_u32(b.length), TRACK_LENGTH_FACTOR as int, u32::MAX as int)
    &&& both_fits(opt_u32(a.disc), opt_u32(b.disc), TRACK_DISC_FACTOR as int, u32::MAX as int)
    &&& both_fits(opt_u32(a.number), opt_u32(b.number), TRACK_NUMBER_FACTOR as int, u32::MAX as int)
}

/// The score of two releases: title distance, the distances of media,
/// country, label and release type, and the differences of disc count, track
/// count and the release and original release dates where both have them.
pub open spec fn release_diff(a: InternalRelease, b: InternalRelease) -> int {
    edit_distance(a.title@, b.title@) * RELEASE_TITLE_FACTOR
        + both_distance(a.media, b.media, RELEASE_MEDIA_FACTOR as int)
        + both_abs_diff(opt_u32(a.discs), opt_u32(b.discs), RELEASE_DISCS_FACTOR as int)
        + abs_diff(a.tracks as int, b.tracks as int) * RELEASE_TRACKS_FACTOR
        + both_distance(a.country, b.country, RELEASE_COUNTRY_FACTOR as int)
        + both_distance(a.label, b.label, RELEASE_LABEL_FACTOR as int)
        + both_distance(a.release_type, b.release_type, RELEASE_RELEASE_TYPE_FACTOR as int)
        + both_abs_diff(opt_i32(a.year), opt_i32(b.year), RELEASE_YEAR_FACTOR as int)
        + both_abs_diff(opt_u8(a.month), opt_u8(b.month), RELEASE_MONTH_FACTOR as int)
        + both_abs_diff(opt_u8(a.day), opt_u8(b.day), RELEASE_DAY_FACTOR as int)
        + both_abs_diff(opt_i32(a.original_year), opt_i32(b.original_year), RELEASE_ORIGINAL_YEAR_FACTOR as int)
        + both_abs_diff(opt_u8(a.original_month), opt_u8(b.original_month), RELEASE_ORIGINAL_MONTH_FACTOR as int)
        + both_abs_diff(opt_u8(a.original_day), opt_u8(b.original_day), RELEASE_ORIGINAL_DAY_FACTOR as int)
}

/// The release inputs on which the score is computed without overflow.
pub open spec fn release_diff_defined(a: InternalRelease, b: InternalRelease) -> bool {
    &&& comparable(a.title@, b.title@)
    &&& opt_comparable(a.media, b.media)
    &&& opt_comparable(a.country, b.country)
    &&& opt_comparable(a.label, b.label)
    &&& opt_comparable(a.release_type, b.release_type)
    &&& both_fits(opt_u32(a.discs), opt_u32(b.discs), RELEASE_DISCS_FACTOR as int, u32::MAX as int)
    &&& abs_diff(a.tracks as int, b.tracks as int) * RELEASE_TRACKS_FACTOR <= u32::MAX
    &&& both_fits(opt_i32(a.year), opt_i32(b.year), RELEASE_YEAR_FACTOR as int, i32::MAX as int)
    &&& both_fits(opt_i32(a.original_year), opt_i32(b.original_year), RELEASE_ORIGINAL_YEAR_FACTOR as int, i32::MAX as int)
}

fn u32_abs_diff(a: u32, b: u32) -> (r: u32)
    ensures
        r == abs_diff(a as int, b as int),
{
    if a >= b { a - b } else { b - a }
}

/// The weighted distance of two strings.
fn weighted_distance(a: &str, b: &str, factor: usize) -> (r: i64)
    requires
        comparable(a@, b@),
        factor <= 5000,
    ensures
        r == edit_distance(a@, b@) * factor,
        0 <= r <= 5000 * MAX_COMPARED_CHARS,
{
    proof {
        lemma_edit_distance_bound(a@, b@);
    }
    let d = levenshtein_distance(a, b) as u64;
    let f = factor as u64;
    assert(d * f <= 5000 * MAX_COMPARED_CHARS) by (nonlinear_arith)
        requires
            d < MAX_COMPARED_CHARS,
            f <= 5000,
    ;
    (d * f) as i64
}

fn weighted_u32_diff(a: u32, b: u32, factor: u32) -> (r: i64)
    requires
        abs_diff(a as int, b as int) * factor <= u32::MAX,
    ensures
        r == abs_diff(a as int, b as int) * factor,
        0 <= r <= u32::MAX,
{
    let d = u32_abs_diff(a, b);
    assert(0 <= d * factor) by (nonlinear_arith);
    (d * factor) as i64
}

fn track_length_term(a: u32, b: u32) -> (r: i64)
    requires
        abs_diff(a as int, b as int) * TRACK_LENGTH_FACTOR <= u32::MAX,
    ensures
        r == abs_diff(a as int, b as int) * TRACK_LENGTH_FACTOR,
        0 <= r <= u32::MAX,
{
    weighted_u32_diff(a, b, TRACK_LENGTH_FACTOR)
}

fn track_disc_term(a: u32, b: u32) -> (r: i64)
    requires
        abs_diff(a as int, b as int) * TRACK_DISC_FACTOR <= u32::MAX,
    ensures
        r == abs_diff(a as int, b as int) * TRACK_DISC_FACTOR,
        0 <= r <= u32::MAX,
{
    weighted_u32_diff(a, b, TRACK_DISC_FACTOR)
}

fn track_number_term(a: u32, b: u32) -> (r: i64)
    requires
        abs_diff(a as int, b as int) * TRACK_NUMBER_FACTOR <= u32::MAX,
    ensures
        r == abs_diff(a as int, b as int) * TRACK_NUMBER_FACTOR,
        0 <= r <= u32::MAX,
{
    weighted_u32_diff(a, b, TRACK_NUMBER_FACTOR)
}

fn release_discs_term(a: u32, b: u32) -> (r: i64)
    requires
        abs_diff(a as int, b as int) * RELEASE_DISCS_FACTOR <= u32::MAX,
    ensures
        r == abs_diff(a as int, b as int) * RELEASE_DISCS_FACTOR,
        0 <= r <= u32::MAX,
{
    weighted_u32_diff(a, b, RELEASE_DISCS_FACTOR)
}

fn year_term(a: i32, b: i32, factor: i32) -> (r: i64)
    requires
        0 <= factor,
        abs_diff(a as int, b as int) * factor <= i32::MAX,
    ensures
        r == abs_diff(a as int, b as int) * factor,
        0 <= r <= i32::MAX,
{
    let d: i64 = if a >= b { a as i64 - b as i64 } else { b as i64 - a as i64 };
    assert(0 <= d * factor <= i32::MAX) by (nonlinear_arith)
        requires
            d == abs_diff(a as int, b as int),
            0 <= d,
            0 <= factor,
            d * factor <= i32::MAX,
    ;
    d * (factor as i64)
}

fn release_year_term(a: i32, b: i32) -> (r: i64)
    requires
        abs_diff(a as int, b as int) * RELEASE_YEAR_FACTOR <= i32::MAX,
    ensures
        r == abs_diff(a as int, b as int) * RELEASE_YEAR_FACTOR,
        0 <= r <= i32::MAX,
{
    year_term(a, b, RELEASE_YEAR_FACTOR)
}

fn release_original_year_term(a: i32, b: i32) -> (r: i64)
    requires
        abs_diff(a as int, b as int) * RELEASE_ORIGINAL_YEAR_FACTOR <= i32::MAX,
    ensures
        r == abs_diff(a as int, b as int) * RELEASE_ORIGINAL_YEAR_FACTOR,
        0 <= r <= i32::MAX,
{
    year_term(a, b, RELEASE_ORIGINAL_YEAR_FACTOR)
}

fn u8_term(a: u8, b: u8, factor: i64) -> (r: i64)
    requires
        0 <= factor <= 100,
    ensures
        r == abs_diff(a as int, b as int) * factor,
        0 <= r <= 25500,
{
    let d: i64 = if a >= b { (a - b) as i64 } else { (b - a) as i64 };
    assert(0 <= d * factor <= 25500) by (nonlinear_arith)
        requires
            0 <= d <= 255,
            0 <= factor <= 100,
    ;
    d * factor
}

fn release_month_term(a: u8, b: u8) -> (r: i64)
    ensures
        r == abs_diff(a as int, b as int) * RELEASE_MONTH_FACTOR,
        0 <= r <= 25500,
{
    u8_term(a, b, RELEASE_MONTH_FACTOR)
}

fn release_day_term(a: u8, b: u8) -> (r: i64)
    ensures
        r == abs_diff(a as int, b as int) * RELEASE_DAY_FACTOR,
        0 <= r <= 25500,
{
    u8_term(a, b, RELEASE_DAY_FACTOR)
}

fn release_original_month_term(a: u8, b: u8) -> (r: i64)
    ensures
        r == abs_diff(a as int, b as int) * RELEASE_ORIGINAL_MONTH_FACTOR,
        0 <= r <= 25500,
{
    u8_term(a, b, RELEASE_ORIGINAL_MONTH_FACTOR)
}

fn release_original_day_term(a: u8, b: u8) -> (r: i64)
    ensures
        r == abs_diff(a as int, b as int) * RELEASE_ORIGINAL_DAY_FACTOR,
        0 <= r <= 25500,
{
    u8_term(a, b, RELEASE_ORIGINAL_DAY_FACTOR)
}

/// The weighted distance of two optional strings, zero unless both are present.
fn optional_distance(a: &Option<String>, b: &Option<String>, factor: usize) -> (r: i64)
    requires
        opt_comparable(*a, *b),
        factor <= 5000,
    ensures
        r == both_distance(*a, *b, factor as int),
        0 <= r <= 5000 * MAX_COMPARED_CHARS,
{
    match (a, b) {
        (Some(x), Some(y)) => weighted_distance(x.as_str(), y.as_str(), factor),
        _ => 0,
    }
}

/// Unwraps an optional term, zero when absent.
fn term_or_zero(t: Option<i64>) -> (r: i64)
    ensures
        t is Some ==> r == t->0,
        t is None ==> r == 0,
{
    t.unwrap_or(0)
}

fn discs_score(a: Option<u32>, b: Option<u32>) -> (r: i64)
    requires
        both_fits(opt_u32(a), opt_u32(b), RELEASE_DISCS_FACTOR as int, u32::MAX as int),
    ensures
        r == both_abs_diff(opt_u32(a), opt_u32(b), RELEASE_DISCS_FACTOR as int),
        0 <= r <= u32::MAX,
{
    term_or_zero(if_both(a, b, release_discs_term))
}

fn year_score(a: Option<i32>, b: Option<i32>) -> (r: i64)
    requires
        both_fits(opt_i32(a), opt_i32(b), RELEASE_YEAR_FACTOR as int, i32::MAX as int),
    ensures
        r == both_abs_diff(opt_i32(a), opt_i32(b), RELEASE_YEAR_FACTOR as int),
        0 <= r <= i32::MAX,
{
    term_or_zero(if_both(a, b, release_year_term))
}

fn original_year_score(a: Option<i32>, b: Option<i32>) -> (r: i64)
    requires
        both_fits(opt_i32(a), opt_i32(b), RELEASE_ORIGINAL_YEAR_FACTOR as int, i32::MAX as int),
    ensures
        r == both_abs_diff(opt_i32(a), opt_i32(b), RELEASE_ORIGINAL_YEAR_FACTOR as int),
        0 <= r <= i32::MAX,
{
    term_or_zero(if_both(a, b, release_original_year_term))
}

fn month_score(a: Option<u8>, b: Option<u8>) -> (r: i64)
    ensures
        r == both_abs_diff(opt_u8(a), opt_u8(b), RELEASE_MONTH_FACTOR as int),
        0 <= r <= 25500,
{
    term_or_zero(if_both(a, b, release_month_term))
}

fn day_score(a: Option<u8>, b: Option<u8>) -> (r: i64)
    ensures
        r == both_abs_diff(opt_u8(a), opt_u8(b), RELEASE_DAY_FACTOR as int),
        0 <= r <= 25500,
{
    term_or_zero(if_both(a, b, release_day_term))
}

fn original_month_score(a: Option<u8>, b: Option<u8>) -> (r: i64)
    ensures
        r == both_abs_diff(opt_u8(a), opt_u8(b), RELEASE_ORIGINAL_MONTH_FACTOR as int),
        0 <= r <= 25500,
{
    term_or_zero(if_both(a, b, release_original_month_term))
}

fn original_day_score(a: Option<u8>, b: Option<u8>) -> (r: i64)
    ensures
        r == both_abs_diff(opt_u8(a), opt_u8(b), RELEASE_ORIGINAL_DAY_FACTOR as int),
        0 <= r <= 25500,
{
    term_or_zero(if_both(a, b, release_original_day_term))
}

impl Diff for InternalTrack {
    open spec fn diff_spec(&self, other: &Self) -> int {
        track_diff(*self, *other)
    }

    open spec fn diff_defined(&self, other: &Self) -> bool {
        track_diff_defined(*self, *other)
    }

    fn diff(&self, other: &Self) -> (r: i64) {
        let title = weighted_distance(self.title.as_str(), other.title.as_str(), TRACK_TITLE_FACTOR);
        let length = term_or_zero(if_both(self.length, other.length, track_length_term));
        let disc = term_or_zero(if_both(self.disc, other.disc, track_disc_term));
        let number = term_or_zero(if_both(self.number, other.number, track_number_term));
        title + length + disc + number
    }
}

impl Diff for InternalRelease {
    open spec fn diff_spec(&self, other: &Self) -> int {
        release_diff(*self, *other)
    }

    open spec fn diff_defined(&self, other: &Self) -> bool {
        release_diff_defined(*self, *other)
    }

    fn diff(&self, other: &Self) -> (r: i64) {
        let title = weighted_distance(self.title.as_str(), other.title.as_str(), RELEASE_TITLE_FACTOR);
        let media = optional_distance(&self.media, &other.media, RELEASE_MEDIA_FACTOR);
        let discs = discs_score(self.discs, other.discs);
        let tracks = weighted_u32_diff(self.tracks, other.tracks, RELEASE_TRACKS_FACTOR);
        let country = optional_distance(&self.country, &other.country, RELEASE_COUNTRY_FACTOR);
        let label = optional_distance(&self.label, &other.label, RELEASE_LABEL_FACTOR);
        let release_type = optional_distance(
            &self.release_type,
            &other.release_type,
            RELEASE_RELEASE_TYPE_FACTOR,
        );
        let year = year_score(self.year, other.year);
        let month = month_score(self.month, other.month);
        let day = day_score(self.day, other.day);
        let original_year = original_year_score(self.original_year, other.original_year);
        let original_month = original_month_score(self.original_month, other.original_month);
        let original_day = original_day_score(self.original_day, other.original_day);
        let texts = title + media + country + label + release_type;
        let counts = discs + tracks;
        let dates = year + month + day + original_year + original_month + original_day;
        texts + counts + dates
    }
}


/// Comparing a track with itself scores zero.
pub proof fn lemma_track_diff_self(t: InternalTrack)
    ensures
        track_diff(t, t) == 0,
{
    lemma_edit_distance_self(t.title@);
}

/// The track score does not depend on the order of the tracks.
pub proof fn lemma_track_diff_symmetric(a: InternalTrack, b: InternalTrack)
    ensures
        track_diff(a, b) == track_diff(b, a),
{
    lemma_edit_distance_symmetric(a.title@, b.title@);
}

proof fn lemma_optional_distance_self(a: Option<String>, factor: int)
    ensures
        both_distance(a, a, factor) == 0,
{
    if a is Some {
        lemma_edit_distance_self(a->0@);
        let d = edit_distance(a->0@, a->0@);
        assert(d * factor == 0) by (nonlinear_arith)
            requires
                d == 0,
        ;
    }
}

proof fn lemma_optional_distance_symmetric(a: Option<String>, b: Option<String>, factor: int)
    ensures
        both_distance(a, b, factor) == both_distance(b, a, factor),
{
    if a is Some && b is Some {
        lemma_edit_distance_symmetric(a->0@, b->0@);
    }
}

/// Comparing a release with itself scores zero.
pub proof fn lemma_release_diff_self(r: InternalRelease)
    ensures
        release_diff(r, r) == 0,
{
    lemma_edit_distance_self(r.title@);
    lemma_optional_distance_self(r.media, RELEASE_MEDIA_FACTOR as int);
    lemma_optional_distance_self(r.country, RELEASE_COUNTRY_FACTOR as int);
    lemma_optional_distance_self(r.label, RELEASE_LABEL_FACTOR as int);
    lemma_optional_distance_self(r.release_type, RELEASE_RELEASE_TYPE_FACTOR as int);
}

/// The release score does not depend on the order of the releases.
pub proof fn lemma_release_diff_symmetric(a: InternalRelease, b: InternalRelease)
    ensures
        release_diff(a, b) == release_diff(b, a),
{
    lemma_edit_distance_symmetric(a.title@, b.title@);
    lemma_optional_distance_symmetric(a.media, b.media, RELEASE_MEDIA_FACTOR as int);
    lemma_optional_distance_symmetric(a.country, b.country, RELEASE_COUNTRY_FACTOR as int);
    lemma_optional_distance_symmetric(a.label, b.label, RELEASE_LABEL_FACTOR as int);
    lemma_optional_distance_symmetric(
        a.release_type,
        b.release_type,
        RELEASE_RELEASE_TYPE_FACTOR as int,
    );
}

proof fn lemma_weighted_distance_bound(a: Seq<char>, b: Seq<char>, factor: int)
    requires
        comparable(a, b),
        0 <= factor <= 5000,
    ensures
        0 <= edit_distance(a, b) * factor <= 5000 * MAX_COMPARED_CHARS,
{
    lemma_edit_distance_bound(a, b);
    let d = edit_distance(a, b);
    assert(0 <= d * factor <= 5000 * MAX_COMPARED_CHARS) by (nonlinear_arith)
        requires
            0 <= d < MAX_COMPARED_CHARS,
            0 <= factor <= 5000,
    ;
}

proof fn lemma_optional_distance_bound(a: Option<String>, b: Option<String>, factor: int)
    requires
        opt_comparable(a, b),
        0 <= factor <= 5000,
    ensures
        0 <= both_distance(a, b, factor) <= 5000 * MAX_COMPARED_CHARS,
{
    if a is Some && b is Some {
        lemma_weighted_distance_bound(a->0@, b->0@, factor);
    }
}

proof fn lemma_abs_diff_nonneg(a: Option<int>, b: Option<int>, factor: int)
    requires
        0 <= factor,
    ensures
        0 <= both_abs_diff(a, b, factor),
{
    if a is Some && b is Some {
        let d = abs_diff(a->0, b->0);
        assert(0 <= d * factor) by (nonlinear_arith)
            requires
                0 <= d,
                0 <= factor,
        ;
    }
}

proof fn lemma_u8_term_bound(a: Option<u8>, b: Option<u8>, factor: int)
    requires
        0 <= factor <= 100,
    ensures
        0 <= both_abs_diff(opt_u8(a), opt_u8(b), factor) <= 25500,
{
    if a is Some && b is Some {
        let d = abs_diff(a->0 as int, b->0 as int);
        assert(0 <= d * factor <= 25500) by (nonlinear_arith)
            requires
                0 <= d <= 255,
                0 <= factor <= 100,
        ;
    }
}

/// The largest value a track score can take.
pub open spec fn max_track_diff() -> int {
    0x20_0000_0000
}

/// Scores of tracks that can be compared lie between zero and a fixed bound.
pub proof fn lemma_track_diff_bounds(a: InternalTrack, b: InternalTrack)
    requires
        track_diff_defined(a, b),
    ensures
        0 <= track_diff(a, b) <= max_track_diff(),
{
    lemma_weighted_distance_bound(a.title@, b.title@, TRACK_TITLE_FACTOR as int);
    lemma_abs_diff_nonneg(opt_u32(a.length), opt_u32(b.length), TRACK_LENGTH_FACTOR as int);
    lemma_abs_diff_nonneg(opt_u32(a.disc), opt_u32(b.disc), TRACK_DISC_FACTOR as int);
    lemma_abs_diff_nonneg(opt_u32(a.number), opt_u32(b.number), TRACK_NUMBER_FACTOR as int);
}

/// Scores of releases that can be compared lie between zero and a fixed bound.
pub proof fn lemma_release_diff_bounds(a: InternalRelease, b: InternalRelease)
    requires
        release_diff_defined(a, b),
    ensures
        0 <= release_diff(a, b) <= 0x100_0000_0000,
{
    lemma_weighted_distance_bound(a.title@, b.title@, RELEASE_TITLE_FACTOR as int);
    lemma_optional_distance_bound(a.media, b.media, RELEASE_MEDIA_FACTOR as int);
    lemma_optional_distance_bound(a.country, b.country, RELEASE_COUNTRY_FACTOR as int);
    lemma_optional_distance_bound(a.label, b.label, RELEASE_LABEL_FACTOR as int);
    lemma_optional_distance_bound(a.release_type, b.release_type, RELEASE_RELEASE_TYPE_FACTOR as int);
    lemma_abs_diff_nonneg(opt_u32(a.discs), opt_u32(b.discs), RELEASE_DISCS_FACTOR as int);
    lemma_abs_diff_nonneg(opt_i32(a.year), opt_i32(b.year), RELEASE_YEAR_FACTOR as int);
    lemma_abs_diff_nonneg(
        opt_i32(a.original_year),
        opt_i32(b.original_year),
        RELEASE_ORIGINAL_YEAR_FACTOR as int,
    );
    lemma_u8_term_bound(a.month, b.month, RELEASE_MONTH_FACTOR as int);
    lemma_u8_term_bound(a.day, b.day, RELEASE_DAY_FACTOR as int);
    lemma_u8_term_bound(a.original_month, b.original_month, RELEASE_ORIGINAL_MONTH_FACTOR as int);
    lemma_u8_term_bound(a.original_day, b.original_day, RELEASE_ORIGINAL_DAY_FACTOR as int);
    let t = abs_diff(a.tracks as int, b.tracks as int);
    assert(0 <= t * RELEASE_TRACKS_FACTOR) by (nonlinear_arith)
        requires
            0 <= t,
    ;
}

/// The values of a sequence of machine integers as mathematical integers.
pub open spec fn as_ints(s: Seq<i64>) -> Seq<int> {
    s.map_values(|x: i64| x as int)
}

/// `a` gives each of `rows` rows its own column below `cols`.
pub open spec fn is_assignment(a: Seq<usize>, rows: nat, cols: nat) -> bool {
    &&& a.len() == rows
    &&& forall|i: int| 0 <= i < rows ==> a[i] < cols
    &&& forall|i: int, j: int| 0 <= i < j < rows ==> a[i] != a[j]
}

/// The total weight of the cells that an assignment picks from a row-major
/// matrix with `cols` columns.
pub open spec fn assignment_cost(m: Seq<int>, cols: nat, a: Seq<usize>) -> int
    decreases a.len(),
{
    if a.len() == 0 {
        0
    } else {
        assignment_cost(m, cols, a.drop_last()) + m[(a.len() - 1) * cols + a.last()]
    }
}

/// `a` is an assignment of least total weight.
pub open spec fn is_min_assignment(m: Seq<int>, rows: nat, cols: nat, a: Seq<usize>) -> bool {
    &&& is_assignment(a, rows, cols)
    &&& forall|b: Seq<usize>| #[trigger]
        is_assignment(b, rows, cols) ==> assignment_cost(m, cols, a) <= assignment_cost(m, cols, b)
}

/// `pathfinding::kuhn_munkres::kuhn_munkres_min` on the row-major matrix
/// `weights`: the crate documents that it returns a minimum weight matching
/// that assigns every row its own column, with its total weight. The
/// contract states exactly that; which of several optimal matchings comes
/// back is left open, as the crate leaves it. The crate panics when there are
/// more rows than columns or when its sums overflow; `requires` rules both
/// out with bounds on the size and on the weights.
#[verifier::external_body]
fn min_cost_assignment(rows: usize, columns: usize, weights: Vec<i64>) -> (r: (i64, Vec<usize>))
    requires
        0 < rows <= columns <= 0xffff,
        weights.len() == rows * columns,
        forall|k: int| 0 <= k < weights.len() ==> 0 <= #[trigger] weights[k] <= 0x100_0000_0000,
    ensures
        is_min_assignment(as_ints(weights@), rows as nat, columns as nat, r.1@),
        r.0 == assignment_cost(as_ints(weights@), columns as nat, r.1@),
{
    match pathfinding::matrix::Matrix::from_vec(rows, columns, weights) {
        Ok(matrix) => pathfinding::kuhn_munkres::kuhn_munkres_min(&matrix),
        Err(_) => (0, Vec::new()),
    }
}

/// The number of columns of the matching matrix: the candidate tracks, or
/// the source tracks when there are more of those.
pub open spec fn padded_columns(rows: nat, cols: nat) -> nat {
    if rows > cols { rows } else { cols }
}

/// The scores of every source track against every candidate track, row by
/// row.
pub open spec fn diff_cells(tracks: Seq<InternalTrack>, candidates: Seq<FullTrack>) -> Seq<int> {
    Seq::new(
        tracks.len() * candidates.len(),
        |k: int| track_diff(tracks[k / candidates.len() as int], candidates[k % candidates.len() as int].track),
    )
}

/// The largest element of a sequence (zero for an empty one).
pub open spec fn seq_max(s: Seq<int>) -> int
    decreases s.len(),
{
    if s.len() == 0 {
        0
    } else if s.len() == 1 {
        s[0]
    } else {
        let m = seq_max(s.drop_last());
        if s.last() > m { s.last() } else { m }
    }
}

/// The matrix handed to the matching: the scores, followed, when there are
/// more source tracks than candidates, by enough cells one above the largest
/// score to fill a square matrix. The cells keep their order, so the square
/// matrix reads them with the longer row length.
pub open spec fn rating_matrix(tracks: Seq<InternalTrack>, candidates: Seq<FullTrack>) -> Seq<int> {
    let cells = diff_cells(tracks, candidates);
    if tracks.len() > candidates.len() {
        cells + Seq::new(
            ((tracks.len() - candidates.len()) * tracks.len()) as nat,
            |k: int| seq_max(cells) + 1,
        )
    } else {
        cells
    }
}

/// With no more source tracks than candidate tracks, the matching matrix
/// holds exactly the score of each source track against each candidate
/// track, so the matching pairs tracks by their scores.
pub proof fn lemma_rating_matrix_unpadded(tracks: Seq<InternalTrack>, candidates: Seq<FullTrack>, r: int, c: int)
    requires
        tracks.len() <= candidates.len(),
        0 <= r < tracks.len(),
        0 <= c < candidates.len(),
    ensures
        r * candidates.len() + c < rating_matrix(tracks, candidates).len(),
        rating_matrix(tracks, candidates)[r * candidates.len() + c] == track_diff(tracks[r], candidates[c].track),
{
    let cols = candidates.len() as int;
    lemma_flat_index(r, c, cols);
    assert(r * cols + c < tracks.len() * cols) by (nonlinear_arith)
        requires
            0 <= r < tracks.len(),
            0 <= c < cols,
    ;
}

/// The candidate track each source track was assigned to, for the source
/// tracks whose column is a real candidate track.
pub open spec fn assignment_map(a: Seq<usize>, candidates: Seq<FullTrack>) -> Map<usize, Uuid> {
    Map::new(
        |i: usize| i < a.len() && a[i as int] < candidates.len(),
        |i: usize| candidates[a[i as int] as int].id,
    )
}

/// Every pair of a source track and a candidate track can be scored.
pub open spec fn tracks_comparable(tracks: Seq<InternalTrack>, candidates: Seq<FullTrack>) -> bool {
    forall|i: int, j: int|
        0 <= i < tracks.len() && 0 <= j < candidates.len() ==> #[trigger] track_diff_defined(
            tracks[i],
            candidates[j].track,
        )
}

/// What `rate_and_match` gives for the source release and tracks against a
/// candidate release and its tracks, given the matching it settled on.
pub open spec fn is_rating(
    r_score: int,
    r_assignment: Map<usize, Uuid>,
    release: InternalRelease,
    tracks: Seq<InternalTrack>,
    candidate_release: InternalRelease,
    candidates: Seq<FullTrack>,
) -> bool {
    if tracks.len() == 0 || candidates.len() == 0 {
        r_score == 0 && r_assignment == Map::<usize, Uuid>::empty()
    } else {
        let m = rating_matrix(tracks, candidates);
        let cols = padded_columns(tracks.len(), candidates.len());
        exists|a: Seq<usize>|
            #[trigger] is_min_assignment(m, tracks.len(), cols, a) && r_score == assignment_cost(
                m,
                cols,
                a,
            ) + release_diff(release, candidate_release) && r_assignment == assignment_map(
                a,
                candidates,
            )
    }
}

proof fn lemma_flat_index(i: int, j: int, cols: int)
    requires
        0 <= i,
        0 <= j < cols,
    ensures
        (i * cols + j) / cols == i,
        (i * cols + j) % cols == j,
{
    vstd::arithmetic::div_mod::lemma_fundamental_div_mod_converse(i * cols + j, cols, i, j);
}

proof fn lemma_cost_bound(m: Seq<int>, cols: nat, a: Seq<usize>, bound: int)
    requires
        0 <= bound,
        forall|k: int| 0 <= k < m.len() ==> 0 <= #[trigger] m[k] <= bound,
        forall|i: int| 0 <= i < a.len() ==> 0 <= i * cols + #[trigger] a[i] < m.len(),
    ensures
        0 <= assignment_cost(m, cols, a) <= a.len() * bound,
    decreases a.len(),
{
    if a.len() > 0 {
        let b = a.drop_last();
        assert forall|i: int| 0 <= i < b.len() implies 0 <= i * cols + #[trigger] b[i] < m.len() by {
            assert(b[i] == a[i]);
        }
        lemma_cost_bound(m, cols, b, bound);
        let last = a.len() - 1;
        assert(0 <= last * cols + a[last] < m.len());
        assert(b.len() * bound + bound == a.len() * bound) by (nonlinear_arith)
            requires
                b.len() + 1 == a.len(),
        ;
    }
}

/// Rates how well a candidate release with its tracks matches the source
/// release with its tracks: every source track is matched with its own
/// candidate track so that the sum of the track scores is least, and the
/// score is that sum plus the release score. With no source or no candidate
/// tracks the score is zero and nothing is assigned.
pub fn rate_and_match(
    release: &InternalRelease,
    tracks: &[InternalTrack],
    candidate_release: &InternalRelease,
    candidate_tracks: &[FullTrack],
) -> (r: ReleaseRating)
    requires
        tracks.len() > 0 && candidate_tracks.len() > 0 ==> tracks.len() <= 0xffff && candidate_tracks.len() <= 0xffff,
        tracks_comparable(tracks@, candidate_tracks@),
        tracks.len() > 0 && candidate_tracks.len() > 0 ==> release_diff_defined(
            *release,
            *candidate_release,
        ),
    ensures
        is_rating(
            r.score as int,
            r.assignment@,
            *release,
            tracks@,
            *candidate_release,
            candidate_tracks@,
        ),
{
    broadcast use vstd::std_specs::hash::group_hash_axioms;

    let rows = tracks.len();
    let columns = candidate_tracks.len();
    let ghost cells = diff_cells(tracks@, candidate_tracks@);
    if rows == 0 || columns == 0 {
        return ReleaseRating { score: 0, assignment: HashMap::new() };
    }
    assert(rows * columns <= 0xffff * 0xffff) by (nonlinear_arith)
        requires
            rows <= 0xffff,
            columns <= 0xffff,
    ;
    let mut matrix: Vec<i64> = Vec::new();
    let mut i: usize = 0;
    while i < rows
        invariant
            rows == tracks.len(),
            columns == candidate_tracks.len(),
            0 < rows <= 0xffff,
            0 < columns <= 0xffff,
            rows * columns <= 0xffff * 0xffff,
            cells == diff_cells(tracks@, candidate_tracks@),
            tracks_comparable(tracks@, candidate_tracks@),
            i <= rows,
            matrix.len() == i * columns,
            forall|k: int| 0 <= k < matrix.len() ==> #[trigger] matrix@[k] as int == cells[k],
            forall|k: int| 0 <= k < matrix.len() ==> 0 <= #[trigger] matrix@[k] <= max_track_diff(),
        decreases rows - i,
    {
        assert((i + 1) * columns <= rows * columns) by (nonlinear_arith)
            requires
                i + 1 <= rows,
                0 <= columns,
        ;
        let mut j: usize = 0;
        while j < columns
            invariant
                rows == tracks.len(),
                columns == candidate_tracks.len(),
                0 < rows <= 0xffff,
                0 < columns <= 0xffff,
                rows * columns <= 0xffff * 0xffff,
                (i + 1) * columns <= rows * columns,
                cells == diff_cells(tracks@, candidate_tracks@),
                tracks_comparable(tracks@, candidate_tracks@),
                i < rows,
                j <= columns,
                matrix.len() == i * columns + j,
                forall|k: int| 0 <= k < matrix.len() ==> #[trigger] matrix@[k] as int == cells[k],
                forall|k: int|
                    0 <= k < matrix.len() ==> 0 <= #[trigger] matrix@[k] <= max_track_diff(),
            decreases columns - j,
        {
            assert((i + 1) * columns == i * columns + columns) by (nonlinear_arith);
            let ghost k = i * columns + j;
            proof {
                lemma_flat_index(i as int, j as int, columns as int);
                assert(track_diff_defined(tracks@[i as int], candidate_tracks@[j as int].track));
                lemma_track_diff_bounds(tracks@[i as int], candidate_tracks@[j as int].track);
            }
            let d = tracks[i].diff(&candidate_tracks[j].track);
            matrix.push(d);
            assert(matrix@[k] as int == cells[k]);
            j = j + 1;
        }
        assert(i * columns + columns == (i + 1) * columns) by (nonlinear_arith);
        i = i + 1;
    }
    assert(matrix.len() == rows * columns);
    assert(rows * columns > 0) by (nonlinear_arith)
        requires
            rows > 0,
            columns > 0,
    ;
    assert(as_ints(matrix@) =~= cells);
    let ghost base = matrix@;
    let mut width = columns;
    if rows > columns {
        let mut max: i64 = matrix[0];
        let mut k: usize = 1;
        assert(as_ints(matrix@).take(1) =~= seq![matrix@[0] as int]);
        while k < matrix.len()
            invariant
                matrix@ == base,
                0 < matrix.len(),
                1 <= k <= matrix.len(),
                max as int == seq_max(as_ints(matrix@).take(k as int)),
                0 <= max <= max_track_diff(),
                forall|q: int|
                    0 <= q < matrix.len() ==> 0 <= #[trigger] matrix@[q] <= max_track_diff(),
            decreases matrix.len() - k,
        {
            assert(as_ints(matrix@).take(k as int + 1).drop_last() =~= as_ints(matrix@).take(
                k as int,
            ));
            if matrix[k] > max {
                max = matrix[k];
            }
            k = k + 1;
        }
        assert(as_ints(matrix@).take(matrix.len() as int) =~= as_ints(matrix@));
        assert(max as int == seq_max(cells));
        let fill = max + 1;
        assert((rows - columns) * rows <= rows * rows && rows * rows <= 0xffff * 0xffff
            && rows * columns + (rows - columns) * rows == rows * rows) by (nonlinear_arith)
            requires
                columns < rows <= 0xffff,
        ;
        let extra = (rows - columns) * rows;
        let mut n: usize = 0;
        while n < extra
            invariant
                n <= extra,
                matrix@.len() == base.len() + n,
                forall|q: int| 0 <= q < base.len() ==> matrix@[q] == base[q],
                forall|q: int| base.len() <= q < matrix@.len() ==> matrix@[q] == fill,
            decreases extra - n,
        {
            matrix.push(fill);
            n = n + 1;
        }
        width = rows;
        assert(as_ints(matrix@) =~= rating_matrix(tracks@, candidate_tracks@));
        assert(matrix.len() == rows * width);
        assert forall|q: int| 0 <= q < matrix.len() implies 0 <= #[trigger] matrix@[q] <= 0x100_0000_0000 by {
            if q < base.len() {
                assert(matrix@[q] == base[q]);
            }
        }
    } else {
        assert(as_ints(matrix@) =~= rating_matrix(tracks@, candidate_tracks@));
    }
    let ghost weights = as_ints(matrix@);
    proof {
        assert forall|q: int| 0 <= q < weights.len() implies 0 <= #[trigger] weights[q] <= max_track_diff() + 1 by {
            if rows > columns && q >= base.len() {
            }
        }
    }
    let (total, chosen) = min_cost_assignment(rows, width, matrix);
    proof {
        lemma_release_diff_bounds(*release, *candidate_release);
        assert forall|q: int| 0 <= q < chosen@.len() implies 0 <= q * width + #[trigger] chosen@[q] < weights.len() by {
            assert(q * width + chosen@[q] < rows * width) by (nonlinear_arith)
                requires
                    0 <= q < rows,
                    chosen@[q] < width,
            ;
            assert(0 <= q * width) by (nonlinear_arith)
                requires
                    0 <= q,
            ;
        }
        lemma_cost_bound(weights, width as nat, chosen@, max_track_diff() + 1);
        assert(rows * (max_track_diff() + 1) <= 0xffff * (max_track_diff() + 1)) by (nonlinear_arith)
            requires
                rows <= 0xffff,
        ;
    }
    let release_score = release.diff(candidate_release);
    let score = total + release_score;
    let mut assignment: HashMap<usize, Uuid> = HashMap::new();
    let mut src: usize = 0;
    while src < chosen.len()
        invariant
            src <= chosen.len(),
            columns == candidate_tracks.len(),
            assignment@ == Map::new(
                |q: usize| q < src && chosen@[q as int] < columns,
                |q: usize| candidate_tracks@[chosen@[q as int] as int].id,
            ),
        decreases chosen.len() - src,
    {
        let column = chosen[src];
        if column < columns {
            assignment.insert(src, candidate_tracks[column].id);
        }
        src = src + 1;
        assert(assignment@ =~= Map::new(
            |q: usize| q < src && chosen@[q as int] < columns,
            |q: usize| candidate_tracks@[chosen@[q as int] as int].id,
        ));
    }
    proof {
        assert(width as nat == padded_columns(tracks@.len(), candidate_tracks@.len()));
        assert(weights == rating_matrix(tracks@, candidate_tracks@));
        assert(assignment@ =~= assignment_map(chosen@, candidate_tracks@));
        assert(is_min_assignment(weights, rows as nat, width as nat, chosen@));
    }
    ReleaseRating { score, assignment }
}

/// The release whose rating is lowest; of equally low ratings the first
/// wins. `None` when there are no ratings.
pub fn select_best_release(ratings: &[(Uuid, i64)]) -> (r: Option<Uuid>)
    ensures
        ratings.len() == 0 <==> r is None,
        r is Some ==> exists|i: int|
            0 <= i < ratings.len() && #[trigger] ratings[i].0 == r->0 && (forall|j: int|
                0 <= j < ratings.len() ==> ratings[i].1 <= #[trigger] ratings[j].1) && (forall|
                j: int,
            |
                0 <= j < i ==> ratings[i].1 < #[trigger] ratings[j].1),
{
    let mut best: Option<(Uuid, i64)> = None;
    let ghost mut best_index: int = 0;
    let mut i: usize = 0;
    while i < ratings.len()
        invariant
            i <= ratings.len(),
            i == 0 <==> best is None,
            best is Some ==> 0 <= best_index < i && ratings[best_index] == best->0 && (forall|
                j: int,
            |
                0 <= j < i ==> ratings[best_index].1 <= #[trigger] ratings[j].1) && (forall|
                j: int,
            |
                0 <= j < best_index ==> ratings[best_index].1 < #[trigger] ratings[j].1),
        decreases ratings.len() - i,
    {
        let (id, score) = ratings[i];
        match best {
            Some((_, best_score)) if score < best_score => {
                best = Some((id, score));
                proof {
                    best_index = i as int;
                }
            },
            None => {
                best = Some((id, score));
                proof {
                    best_index = i as int;
                }
            },
            _ => {},
        }
        i = i + 1;
    }
    match best {
        Some((id, _)) => Some(id),
        None => None,
    }
}
/// A candidate release of an import: its id, its values in the form that is
/// compared, and its tracks.
pub struct Candidate {
    pub id: Uuid,
    pub release: InternalRelease,
    pub tracks: Vec<FullTrack>,
}

/// Whether a candidate can be rated against the source release and tracks.
pub open spec fn candidate_ratable(release: InternalRelease, tracks: Seq<InternalTrack>, c: Candidate) -> bool {
    &&& (tracks.len() > 0 && c.tracks@.len() > 0 ==> tracks.len() <= 0xffff && c.tracks@.len() <= 0xffff)
    &&& tracks_comparable(tracks, c.tracks@)
    &&& (tracks.len() > 0 && c.tracks@.len() > 0 ==> release_diff_defined(release, c.release))
}

/// Rates every candidate release of an import against its source release
/// and tracks, in order, and selects the one with the lowest score (the
/// first of equally low ones); `None` when there are no candidates.
pub fn rank_candidates(release: &InternalRelease, tracks: &Vec<InternalTrack>, candidates: &Vec<Candidate>) -> (r: (
    Vec<(Uuid, ReleaseRating)>,
    Option<Uuid>,
))
    requires
        forall|k: int| 0 <= k < candidates@.len() ==> candidate_ratable(*release, tracks@, #[trigger] candidates@[k]),
    ensures
        r.0@.len() == candidates@.len(),
        forall|k: int|
            0 <= k < candidates@.len() ==> {
                &&& (#[trigger] r.0@[k]).0 == candidates@[k].id
                &&& is_rating(
                    r.0@[k].1.score as int,
                    r.0@[k].1.assignment@,
                    *release,
                    tracks@,
                    candidates@[k].release,
                    candidates@[k].tracks@,
                )
            },
        candidates@.len() == 0 <==> r.1 is None,
        r.1 is Some ==> exists|i: int|
            0 <= i < candidates@.len() && #[trigger] candidates@[i].id == r.1->0 && (forall|j: int|
                0 <= j < candidates@.len() ==> r.0@[i].1.score <= #[trigger] r.0@[j].1.score) && (forall|j: int|
                0 <= j < i ==> r.0@[i].1.score < #[trigger] r.0@[j].1.score),
{
    let mut ratings: Vec<(Uuid, ReleaseRating)> = Vec::new();
    let mut scores: Vec<(Uuid, i64)> = Vec::new();
    let mut k: usize = 0;
    while k < candidates.len()
        invariant
            k <= candidates.len(),
            forall|m: int| 0 <= m < candidates@.len() ==> candidate_ratable(*release, tracks@, #[trigger] candidates@[m]),
            ratings@.len() == k,
            scores@.len() == k,
            forall|m: int|
                0 <= m < k ==> {
                    &&& (#[trigger] ratings@[m]).0 == candidates@[m].id
                    &&& scores@[m] == (ratings@[m].0, ratings@[m].1.score)
                    &&& is_rating(
                        ratings@[m].1.score as int,
                        ratings@[m].1.assignment@,
                        *release,
                        tracks@,
                        candidates@[m].release,
                        candidates@[m].tracks@,
                    )
                },
        decreases candidates.len() - k,
    {
        let c = &candidates[k];
        assert(candidate_ratable(*release, tracks@, candidates@[k as int]));
        let rating = rate_and_match(release, tracks.as_slice(), &c.release, c.tracks.as_slice());
        scores.push((c.id, rating.score));
        ratings.push((c.id, rating));
        k = k + 1;
    }
    let best = select_best_release(scores.as_slice());
    proof {
        if best is Some {
            let i = choose|i: int|
                0 <= i < scores@.len() && #[trigger] scores@[i].0 == best->0 && (forall|j: int|
                    0 <= j < scores@.len() ==> scores@[i].1 <= #[trigger] scores@[j].1) && (forall|j: int|
                    0 <= j < i ==> scores@[i].1 < #[trigger] scores@[j].1);
            assert(ratings@[i].0 == candidates@[i].id);
            assert(scores@[i] == (ratings@[i].0, ratings@[i].1.score));
            assert(candidates@[i].id == best->0);
            assert forall|j: int| 0 <= j < candidates@.len() implies ratings@[i].1.score <= #[trigger] ratings@[j].1.score by {
                assert(ratings@[j].0 == candidates@[j].id);
                assert(scores@[j] == (ratings@[j].0, ratings@[j].1.score));
                assert(scores@[i].1 <= scores@[j].1);
                assert(scores@[i] == (ratings@[i].0, ratings@[i].1.score));
            }
            assert forall|j: int| 0 <= j < i implies ratings@[i].1.score < #[trigger] ratings@[j].1.score by {
                assert(ratings@[j].0 == candidates@[j].id);
                assert(scores@[j] == (ratings@[j].0, ratings@[j].1.score));
                assert(scores@[i].1 < scores@[j].1);
                assert(scores@[i] == (ratings@[i].0, ratings@[i].1.score));
            }
        }
    }
    (ratings, best)
}

/// Every difference of two releases counts towards their score, with its
/// weight: the title distance a thousand times, the track count difference a
/// thousand times; where both releases have them, the media distance ten
/// times, the country and label distances five times, the release type
/// distance fifty times, the disc count and year differences a hundred
/// times, the month differences fifty times and the day differences ten
/// times.
pub proof fn lemma_release_diff_counts_every_term(a: InternalRelease, b: InternalRelease)
    ensures
        release_diff(a, b) >= edit_distance(a.title@, b.title@) * 1000,
        release_diff(a, b) >= abs_diff(a.tracks as int, b.tracks as int) * 1000,
        (a.media is Some && b.media is Some) ==> release_diff(a, b) >= edit_distance(a.media->0@, b.media->0@) * 10,
        (a.country is Some && b.country is Some) ==> release_diff(a, b) >= edit_distance(a.country->0@, b.country->0@) * 5,
        (a.label is Some && b.label is Some) ==> release_diff(a, b) >= edit_distance(a.label->0@, b.label->0@) * 5,
        (a.release_type is Some && b.release_type is Some) ==> release_diff(a, b) >= edit_distance(a.release_type->0@, b.release_type->0@) * 50,
        (a.discs is Some && b.discs is Some) ==> release_diff(a, b) >= abs_diff(a.discs->0 as int, b.discs->0 as int) * 100,
        (a.year is Some && b.year is Some) ==> release_diff(a, b) >= abs_diff(a.year->0 as int, b.year->0 as int) * 100,
        (a.month is Some && b.month is Some) ==> release_diff(a, b) >= abs_diff(a.month->0 as int, b.month->0 as int) * 50,
        (a.day is Some && b.day is Some) ==> release_diff(a, b) >= abs_diff(a.day->0 as int, b.day->0 as int) * 10,
        (a.original_year is Some && b.original_year is Some) ==> release_diff(a, b) >= abs_diff(a.original_year->0 as int, b.original_year->0 as int) * 100,
        (a.original_month is Some && b.original_month is Some) ==> release_diff(a, b) >= abs_diff(a.original_month->0 as int, b.original_month->0 as int) * 50,
        (a.original_day is Some && b.original_day is Some) ==> release_diff(a, b) >= abs_diff(a.original_day->0 as int, b.original_day->0 as int) * 10,
{
}

/// Two releases that differ in one field only score that field's weighted
/// difference: the title and track count always, each optional field where
/// the first release has it.
pub proof fn lemma_release_diff_one_field(a: InternalRelease, title: String, tracks: u32, media: String, country: String, label: String, release_type: String, discs: u32, year: i32, month: u8, day: u8, original_year: i32, original_month: u8, original_day: u8)
    ensures
        release_diff(a, InternalRelease { title: title, ..a }) == edit_distance(a.title@, title@) * 1000,
        release_diff(a, InternalRelease { tracks: tracks, ..a }) == abs_diff(a.tracks as int, tracks as int) * 1000,
        a.media is Some ==> release_diff(a, InternalRelease { media: Some(media), ..a }) == edit_distance(a.media->0@, media@) * 10,
        a.country is Some ==> release_diff(a, InternalRelease { country: Some(country), ..a }) == edit_distance(a.country->0@, country@) * 5,
        a.label is Some ==> release_diff(a, InternalRelease { label: Some(label), ..a }) == edit_distance(a.label->0@, label@) * 5,
        a.release_type is Some ==> release_diff(a, InternalRelease { release_type: Some(release_type), ..a }) == edit_distance(a.release_type->0@, release_type@) * 50,
        a.discs is Some ==> release_diff(a, InternalRelease { discs: Some(discs), ..a }) == abs_diff(a.discs->0 as int, discs as int) * 100,
        a.year is Some ==> release_diff(a, InternalRelease { year: Some(year), ..a }) == abs_diff(a.year->0 as int, year as int) * 100,
        a.month is Some ==> release_diff(a, InternalRelease { month: Some(month), ..a }) == abs_diff(a.month->0 as int, month as int) * 50,
        a.day is Some ==> release_diff(a, InternalRelease { day: Some(day), ..a }) == abs_diff(a.day->0 as int, day as int) * 10,
        a.original_year is Some ==> release_diff(a, InternalRelease { original_year: Some(original_year), ..a }) == abs_diff(a.original_year->0 as int, original_year as int) * 100,
        a.original_month is Some ==> release_diff(a, InternalRelease { original_month: Some(original_month), ..a }) == abs_diff(a.original_month->0 as int, original_month as int) * 50,
        a.original_day is Some ==> release_diff(a, InternalRelease { original_day: Some(original_day), ..a }) == abs_diff(a.original_day->0 as int, original_day as int) * 10,
{
    lemma_edit_distance_self(a.title@);
    lemma_optional_distance_self(a.media, RELEASE_MEDIA_FACTOR as int);
    lemma_optional_distance_self(a.country, RELEASE_COUNTRY_FACTOR as int);
    lemma_optional_distance_self(a.label, RELEASE_LABEL_FACTOR as int);
    lemma_optional_distance_self(a.release_type, RELEASE_RELEASE_TYPE_FACTOR as int);
}

/// Every difference of two tracks counts towards their score, with its
/// weight: the title distance five thousand times; where both tracks have
/// them, the length difference three hundred times, the disc difference a
/// hundred times and the number difference two hundred times.
pub proof fn lemma_track_diff_counts_every_term(a: InternalTrack, b: InternalTrack)
    ensures
        track_diff(a, b) >= edit_distance(a.title@, b.title@) * 5000,
        (a.length is Some && b.length is Some) ==> track_diff(a, b) >= abs_diff(a.length->0 as int, b.length->0 as int) * 300,
        (a.disc is Some && b.disc is Some) ==> track_diff(a, b) >= abs_diff(a.disc->0 as int, b.disc->0 as int) * 100,
        (a.number is Some && b.number is Some) ==> track_diff(a, b) >= abs_diff(a.number->0 as int, b.number->0 as int) * 200,
{
}

/// Two tracks that differ in one field only score that field's weighted
/// difference: the title always, each optional number where the first
/// track has it.
pub proof fn lemma_track_diff_one_field(a: InternalTrack, title: String, length: u32, disc: u32, number: u32)
    ensures
        track_diff(a, InternalTrack { title: title, ..a }) == edit_distance(a.title@, title@) * 5000,
        a.length is Some ==> track_diff(a, InternalTrack { length: Some(length), ..a }) == abs_diff(a.length->0 as int, length as int) * 300,
        a.disc is Some ==> track_diff(a, InternalTrack { disc: Some(disc), ..a }) == abs_diff(a.disc->0 as int, disc as int) * 100,
        a.number is Some ==> track_diff(a, InternalTrack { number: Some(number), ..a }) == abs_diff(a.number->0 as int, number as int) * 200,
{
    lemma_edit_distance_self(a.title@);
}

} // verus!
