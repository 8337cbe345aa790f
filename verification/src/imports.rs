//! The resources shown beside an import: the artists, releases, mediums
//! and tracks it found, each with the records of the import related to it.
use vstd::prelude::*;
use crate::dedup::{dedup, dedup_spec, SameRecord};
use crate::search_result::{CombinedSearchResults, SearchResult};
use crate::internal::{InsertTask, TaskName};
use crate::text::{decimal_int, decimal_string, to_owned_string};
use crate::entity::{
    Artist, ArtistCredit, ArtistCreditRelease, ArtistCreditTrack, ArtistTrackRelation, Genre,
    GenreRelease, GenreTrack, Medium, Release, Track, Uuid, Cover, InternalRelease, InternalTrack,
    ReleaseRating,
};
use crate::included::Included;
use crate::internal::{ImportAttributes, ImportMeta, ImportRelation, InternalResourceType, ResourceType};
use crate::jsonapi::{Related, Relation, Relationship, Resource, ResourceIdentifier};
use crate::search_result::string_views;
use crate::seqs::filter_map_spec;
use crate::tempo::artists::{artist_resource_ok, ArtistRelated};
use crate::tempo::mediums::{medium_resource_ok, MediumRelated};
use crate::tempo::releases::{release_resource_ok, tracks_total, tracks_total_fits, ReleaseRelated};
use crate::tempo::tracks::{track_resource_ok, TrackRelated};
use crate::text::{copy_opt_string, copy_string, str_equals};

verus! {

/// The records an import found, as they stand before they are stored.
pub struct ImportRelated {
    pub directory: String,
    pub artists: Vec<Artist>,
    pub artist_credits: Vec<ArtistCredit>,
    pub releases: Vec<Release>,
    pub mediums: Vec<Medium>,
    pub tracks: Vec<Track>,
    pub artist_track_relations: Vec<ArtistTrackRelation>,
    pub artist_credit_releases: Vec<ArtistCreditRelease>,
    pub artist_credit_tracks: Vec<ArtistCreditTrack>,
    pub genres: Vec<Genre>,
    pub track_genres: Vec<GenreTrack>,
    pub release_genres: Vec<GenreRelease>,
}

/// `a` holds, in order, records the same as those of `b`.
pub open spec fn copies<T: SameRecord>(a: Seq<T>, b: Seq<T>) -> bool {
    &&& a.len() == b.len()
    &&& forall|i: int| 0 <= i < a.len() ==> #[trigger] a[i].same_spec(&b[i])
}

/// The elements of `s` that `keep` holds of, in order.
pub open spec fn keep_if<A>(s: Seq<A>, keep: spec_fn(A) -> bool) -> Seq<A> {
    filter_map_spec(s, |x: A| if keep(x) { Some(x) } else { None })
}

/// The relations of the artist with the given id.
pub open spec fn recordings_of(rels: Seq<ArtistTrackRelation>, artist_id: Uuid) -> Seq<ArtistTrackRelation> {
    keep_if(rels, |x: ArtistTrackRelation| x.artist_id == artist_id)
}

/// Whether a link between credits and releases ties the credit with the id
/// `credit_id` to the release `release_id`.
pub open spec fn credits_release(links: Seq<ArtistCreditRelease>, release_id: Uuid, credit_id: Seq<char>) -> bool {
    exists|k: int| 0 <= k < links.len() && (#[trigger] links[k]).release_id == release_id && links[k].artist_credit_id@ == credit_id
}

/// Whether a link between credits and tracks ties the credit with the id
/// `credit_id` to the track `track_id`.
pub open spec fn credits_track(links: Seq<ArtistCreditTrack>, track_id: Uuid, credit_id: Seq<char>) -> bool {
    exists|k: int| 0 <= k < links.len() && (#[trigger] links[k]).track_id == track_id && links[k].artist_credit_id@ == credit_id
}

/// The credits of the release, in the order of the credits.
pub open spec fn credits_of_release(credits: Seq<ArtistCredit>, links: Seq<ArtistCreditRelease>, release_id: Uuid) -> Seq<ArtistCredit> {
    keep_if(credits, |c: ArtistCredit| credits_release(links, release_id, c.id@))
}

/// The credits of the track, in the order of the credits.
pub open spec fn credits_of_track(credits: Seq<ArtistCredit>, links: Seq<ArtistCreditTrack>, track_id: Uuid) -> Seq<ArtistCredit> {
    keep_if(credits, |c: ArtistCredit| credits_track(links, track_id, c.id@))
}

/// The mediums of the release.
pub open spec fn mediums_of_release(mediums: Seq<Medium>, release_id: Uuid) -> Seq<Medium> {
    keep_if(mediums, |m: Medium| m.release_id == release_id)
}

/// The tracks on the medium.
pub open spec fn tracks_of_medium(tracks: Seq<Track>, medium_id: Uuid) -> Seq<Track> {
    keep_if(tracks, |t: Track| t.medium_id == medium_id)
}

/// The genres given to the track.
pub open spec fn genres_of_track(genres: Seq<GenreTrack>, track_id: Uuid) -> Seq<GenreTrack> {
    keep_if(genres, |g: GenreTrack| g.track_id == track_id)
}

/// The first release with the given id.
pub open spec fn first_release(releases: Seq<Release>, id: Uuid) -> Option<Release>
    decreases releases.len(),
{
    if releases.len() == 0 {
        None
    } else if releases[0].id == id {
        Some(releases[0])
    } else {
        first_release(releases.drop_first(), id)
    }
}

/// Two genre links are the same when all their fields are.
impl SameRecord for GenreTrack {
    open spec fn same_spec(&self, other: &Self) -> bool {
        &&& self.genre_id@ == other.genre_id@
        &&& self.track_id == other.track_id
        &&& self.cnt == other.cnt
    }

    fn same_record(&self, other: &Self) -> (r: bool) {
        str_equals(self.genre_id.as_str(), other.genre_id.as_str()) && self.track_id == other.track_id && self.cnt == other.cnt
    }
}

fn copy_strings(v: &Vec<String>) -> (r: Vec<String>)
    ensures
        string_views(r@) == string_views(v@),
{
    let mut out: Vec<String> = Vec::new();
    let mut i: usize = 0;
    while i < v.len()
        invariant
            i <= v.len(),
            string_views(out@) == string_views(v@.take(i as int)),
        decreases v.len() - i,
    {
        let ghost before = out@;
        let c = copy_string(&v[i]);
        out.push(c);
        assert(v@.take(i as int + 1) =~= v@.take(i as int).push(v@[i as int]));
        assert(out@ =~= before.push(c));
        assert(string_views(out@) =~= string_views(before).push(c@));
        assert(string_views(v@.take(i as int + 1)) =~= string_views(v@.take(i as int)).push(v@[i as int]@));
        i = i + 1;
    }
    assert(v@.take(v.len() as int) =~= v@);
    out
}

fn copy_relation(x: &ArtistTrackRelation) -> (r: ArtistTrackRelation)
    ensures
        r.same_spec(x),
{
    ArtistTrackRelation {
        artist_id: x.artist_id,
        track_id: x.track_id,
        relation_type: x.relation_type,
        relation_value: copy_string(&x.relation_value),
    }
}

fn copy_credit(x: &ArtistCredit) -> (r: ArtistCredit)
    ensures
        r.same_spec(x),
{
    ArtistCredit { id: copy_string(&x.id), join_phrase: copy_opt_string(&x.join_phrase), artist_id: x.artist_id }
}

fn copy_medium(x: &Medium) -> (r: Medium)
    ensures
        r.same_spec(x),
{
    Medium {
        id: x.id,
        release_id: x.release_id,
        position: x.position,
        tracks: x.tracks,
        track_offset: x.track_offset,
        format: copy_opt_string(&x.format),
    }
}

fn copy_track(x: &Track) -> (r: Track)
    ensures
        r.same_spec(x),
{
    Track {
        id: x.id,
        medium_id: x.medium_id,
        title: copy_string(&x.title),
        length: x.length,
        number: x.number,
        genres: copy_strings(&x.genres),
        recording_id: x.recording_id,
        format: x.format,
        path: copy_opt_string(&x.path),
    }
}

fn copy_release(x: &Release) -> (r: Release)
    ensures
        r.same_spec(x),
{
    Release {
        id: x.id,
        title: copy_string(&x.title),
        release_group_id: x.release_group_id,
        release_type: copy_opt_string(&x.release_type),
        genres: copy_strings(&x.genres),
        asin: copy_opt_string(&x.asin),
        country: copy_opt_string(&x.country),
        label: copy_opt_string(&x.label),
        catalog_no: copy_opt_string(&x.catalog_no),
        status: copy_opt_string(&x.status),
        year: x.year,
        month: x.month,
        day: x.day,
        original_year: x.original_year,
        original_month: x.original_month,
        original_day: x.original_day,
        script: copy_opt_string(&x.script),
        path: copy_opt_string(&x.path),
    }
}

fn copy_genre_track(x: &GenreTrack) -> (r: GenreTrack)
    ensures
        r.same_spec(x),
{
    GenreTrack { genre_id: copy_string(&x.genre_id), track_id: x.track_id, cnt: x.cnt }
}

fn relations_of_artist(rels: &Vec<ArtistTrackRelation>, artist_id: Uuid) -> (r: Vec<ArtistTrackRelation>)
    ensures
        copies(r@, recordings_of(rels@, artist_id)),
{
    let mut out: Vec<ArtistTrackRelation> = Vec::new();
    let mut i: usize = 0;
    while i < rels.len()
        invariant
            i <= rels.len(),
            copies(out@, recordings_of(rels@.take(i as int), artist_id)),
        decreases rels.len() - i,
    {
        assert(rels@.take(i as int + 1).drop_last() =~= rels@.take(i as int));
        assert(rels@.take(i as int + 1).last() == rels@[i as int]);
        if rels[i].artist_id == artist_id {
            out.push(copy_relation(&rels[i]));
        }
        i = i + 1;
    }
    assert(rels@.take(rels.len() as int) =~= rels@);
    out
}

fn has_release_link(links: &Vec<ArtistCreditRelease>, release_id: Uuid, credit_id: &String) -> (r: bool)
    ensures
        r == credits_release(links@, release_id, credit_id@),
{
    let mut i: usize = 0;
    while i < links.len()
        invariant
            i <= links.len(),
            forall|k: int| 0 <= k < i ==> !((#[trigger] links@[k]).release_id == release_id && links@[k].artist_credit_id@ == credit_id@),
        decreases links.len() - i,
    {
        if links[i].release_id == release_id && str_equals(links[i].artist_credit_id.as_str(), credit_id.as_str()) {
            return true;
        }
        i = i + 1;
    }
    false
}

fn has_track_link(links: &Vec<ArtistCreditTrack>, track_id: Uuid, credit_id: &String) -> (r: bool)
    ensures
        r == credits_track(links@, track_id, credit_id@),
{
    let mut i: usize = 0;
    while i < links.len()
        invariant
            i <= links.len(),
            forall|k: int| 0 <= k < i ==> !((#[trigger] links@[k]).track_id == track_id && links@[k].artist_credit_id@ == credit_id@),
        decreases links.len() - i,
    {
        if links[i].track_id == track_id && str_equals(links[i].artist_credit_id.as_str(), credit_id.as_str()) {
            return true;
        }
        i = i + 1;
    }
    false
}

fn release_credits(credits: &Vec<ArtistCredit>, links: &Vec<ArtistCreditRelease>, release_id: Uuid) -> (r: Vec<ArtistCredit>)
    ensures
        copies(r@, credits_of_release(credits@, links@, release_id)),
{
    let mut out: Vec<ArtistCredit> = Vec::new();
    let mut i: usize = 0;
    while i < credits.len()
        invariant
            i <= credits.len(),
            copies(out@, credits_of_release(credits@.take(i as int), links@, release_id)),
        decreases credits.len() - i,
    {
        assert(credits@.take(i as int + 1).drop_last() =~= credits@.take(i as int));
        assert(credits@.take(i as int + 1).last() == credits@[i as int]);
        if has_release_link(links, release_id, &credits[i].id) {
            out.push(copy_credit(&credits[i]));
        }
        i = i + 1;
    }
    assert(credits@.take(credits.len() as int) =~= credits@);
    out
}

fn track_credits(credits: &Vec<ArtistCredit>, links: &Vec<ArtistCreditTrack>, track_id: Uuid) -> (r: Vec<ArtistCredit>)
    ensures
        copies(r@, credits_of_track(credits@, links@, track_id)),
{
    let mut out: Vec<ArtistCredit> = Vec::new();
    let mut i: usize = 0;
    while i < credits.len()
        invariant
            i <= credits.len(),
            copies(out@, credits_of_track(credits@.take(i as int), links@, track_id)),
        decreases credits.len() - i,
    {
        assert(credits@.take(i as int + 1).drop_last() =~= credits@.take(i as int));
        assert(credits@.take(i as int + 1).last() == credits@[i as int]);
        if has_track_link(links, track_id, &credits[i].id) {
            out.push(copy_credit(&credits[i]));
        }
        i = i + 1;
    }
    assert(credits@.take(credits.len() as int) =~= credits@);
    out
}

fn release_mediums(mediums: &Vec<Medium>, release_id: Uuid) -> (r: Vec<Medium>)
    ensures
        copies(r@, mediums_of_release(mediums@, release_id)),
{
    let mut out: Vec<Medium> = Vec::new();
    let mut i: usize = 0;
    while i < mediums.len()
        invariant
            i <= mediums.len(),
            copies(out@, mediums_of_release(mediums@.take(i as int), release_id)),
        decreases mediums.len() - i,
    {
        assert(mediums@.take(i as int + 1).drop_last() =~= mediums@.take(i as int));
        assert(mediums@.take(i as int + 1).last() == mediums@[i as int]);
        if mediums[i].release_id == release_id {
            out.push(copy_medium(&mediums[i]));
        }
        i = i + 1;
    }
    assert(mediums@.take(mediums.len() as int) =~= mediums@);
    out
}

fn medium_tracks(tracks: &Vec<Track>, medium_id: Uuid) -> (r: Vec<Track>)
    ensures
        copies(r@, tracks_of_medium(tracks@, medium_id)),
{
    let mut out: Vec<Track> = Vec::new();
    let mut i: usize = 0;
    while i < tracks.len()
        invariant
            i <= tracks.len(),
            copies(out@, tracks_of_medium(tracks@.take(i as int), medium_id)),
        decreases tracks.len() - i,
    {
        assert(tracks@.take(i as int + 1).drop_last() =~= tracks@.take(i as int));
        assert(tracks@.take(i as int + 1).last() == tracks@[i as int]);
        if tracks[i].medium_id == medium_id {
            out.push(copy_track(&tracks[i]));
        }
        i = i + 1;
    }
    assert(tracks@.take(tracks.len() as int) =~= tracks@);
    out
}

fn track_genres(genres: &Vec<GenreTrack>, track_id: Uuid) -> (r: Vec<GenreTrack>)
    ensures
        copies(r@, genres_of_track(genres@, track_id)),
{
    let mut out: Vec<GenreTrack> = Vec::new();
    let mut i: usize = 0;
    while i < genres.len()
        invariant
            i <= genres.len(),
            copies(out@, genres_of_track(genres@.take(i as int), track_id)),
        decreases genres.len() - i,
    {
        assert(genres@.take(i as int + 1).drop_last() =~= genres@.take(i as int));
        assert(genres@.take(i as int + 1).last() == genres@[i as int]);
        if genres[i].track_id == track_id {
            out.push(copy_genre_track(&genres[i]));
        }
        i = i + 1;
    }
    assert(genres@.take(genres.len() as int) =~= genres@);
    out
}

fn find_release(releases: &Vec<Release>, id: Uuid) -> (r: Option<Release>)
    ensures
        match first_release(releases@, id) {
            None => r is None,
            Some(x) => r matches Some(y) && y.same_spec(&x),
        },
{
    let mut i: usize = 0;
    assert(releases@.skip(0) =~= releases@);
    while i < releases.len()
        invariant
            i <= releases.len(),
            first_release(releases@, id) == first_release(releases@.skip(i as int), id),
        decreases releases.len() - i,
    {
        assert(releases@.skip(i as int)[0] == releases@[i as int]);
        if releases[i].id == id {
            return Some(copy_release(&releases[i]));
        }
        assert(releases@.skip(i as int).drop_first() =~= releases@.skip(i as int + 1));
        i = i + 1;
    }
    None
}

/// `x` is the artist as a resource, related only to its relations in the
/// import.
pub open spec fn artist_item_ok(x: Included, rel: ImportRelated, artist: Artist) -> bool {
    x matches Included::Artist(res) && exists|ar: ArtistRelated|
        #![trigger artist_resource_ok(res, artist, ar)]
        artist_resource_ok(res, artist, ar) && copies(ar.recordings@, recordings_of(rel.artist_track_relations@, artist.id))
            && ar.relations@.len() == 0 && ar.images@.len() == 0 && ar.artist_credits@.len() == 0
            && ar.releases@.len() == 0 && ar.tracks@.len() == 0
}

/// `x` is the release as a resource, related to its credits and mediums in
/// the import, without an image.
pub open spec fn release_item_ok(x: Included, rel: ImportRelated, release: Release) -> bool {
    x matches Included::Release(res) && exists|rr: ReleaseRelated|
        #![trigger release_resource_ok(res, release, rr)]
        release_resource_ok(res, release, rr) && rr.image is None
            && copies(rr.artist_credits@, credits_of_release(rel.artist_credits@, rel.artist_credit_releases@, release.id))
            && copies(rr.mediums@, mediums_of_release(rel.mediums@, release.id))
}

/// `x` is the medium as a resource, related to the first release of the
/// import with its release's id and to its tracks in the import.
pub open spec fn medium_item_ok(x: Included, rel: ImportRelated, medium: Medium) -> bool {
    x matches Included::Medium(res) && exists|mr: MediumRelated|
        #![trigger medium_resource_ok(res, medium, mr)]
        medium_resource_ok(res, medium, mr)
            && match first_release(rel.releases@, medium.release_id) {
                None => mr.release is None,
                Some(f) => mr.release matches Some(y) && y.same_spec(&f),
            }
            && copies(mr.tracks@, tracks_of_medium(rel.tracks@, medium.id))
}

/// `x` is the track as a resource, related to its credits and genres in
/// the import, without its medium or recording artists.
pub open spec fn track_item_ok(x: Included, rel: ImportRelated, track: Track) -> bool {
    x matches Included::Track(res) && exists|tr: TrackRelated|
        #![trigger track_resource_ok(res, track, tr)]
        track_resource_ok(res, track, tr) && tr.medium is None && tr.recorders@.len() == 0
            && copies(tr.artist_credits@, credits_of_track(rel.artist_credits@, rel.artist_credit_tracks@, track.id))
            && copies(tr.genres@, genres_of_track(rel.track_genres@, track.id))
}

/// How many resources are shown beside the import.
pub open spec fn import_items_len(rel: ImportRelated) -> int {
    (rel.artists@.len() + rel.releases@.len() + rel.mediums@.len() + rel.tracks@.len()) as int
}

/// The resource at position `j` beside the import: its artists first, then
/// its releases, its mediums and its tracks, each in order.
pub open spec fn item_ok(x: Included, rel: ImportRelated, j: int) -> bool {
    let a = rel.artists@.len() as int;
    let r = a + rel.releases@.len();
    let m = r + rel.mediums@.len();
    if j < a {
        artist_item_ok(x, rel, rel.artists@[j])
    } else if j < r {
        release_item_ok(x, rel, rel.releases@[j - a])
    } else if j < m {
        medium_item_ok(x, rel, rel.mediums@[j - r])
    } else {
        track_item_ok(x, rel, rel.tracks@[j - m])
    }
}

/// `items` are the resources shown beside the import.
#[verifier::opaque]
pub open spec fn import_items_ok(items: Seq<Included>, rel: ImportRelated) -> bool {
    &&& items.len() == import_items_len(rel)
    &&& forall|j: int| 0 <= j < items.len() ==> #[trigger] item_ok(items[j], rel, j)
}

/// The tracks of each release of the import add up, medium by medium,
/// within an `i32`.
#[verifier::opaque]
pub open spec fn import_totals_fit(rel: ImportRelated) -> bool {
    forall|j: int| 0 <= j < rel.releases@.len() ==> tracks_total_fits(#[trigger] mediums_of_release(rel.mediums@, rel.releases@[j].id))
}

/// Mediums the same as others hold as many tracks.
proof fn lemma_copies_tracks_total(a: Seq<Medium>, b: Seq<Medium>)
    requires
        copies(a, b),
    ensures
        tracks_total(a) == tracks_total(b),
    decreases a.len(),
{
    if a.len() > 0 {
        assert(a.drop_last().len() == b.drop_last().len());
        assert forall|i: int| 0 <= i < a.drop_last().len() implies #[trigger] a.drop_last()[i].same_spec(&b.drop_last()[i]) by {
            assert(a[i].same_spec(&b[i]));
        }
        lemma_copies_tracks_total(a.drop_last(), b.drop_last());
        assert(a.last().same_spec(&b.last()));
    }
}

/// Running totals carry over to copies.
proof fn lemma_copies_fit(a: Seq<Medium>, b: Seq<Medium>)
    requires
        copies(a, b),
        tracks_total_fits(b),
    ensures
        tracks_total_fits(a),
{
    assert forall|k: int| 0 <= k <= a.len() implies i32::MIN <= #[trigger] tracks_total(a.take(k)) <= i32::MAX by {
        assert forall|i: int| 0 <= i < a.take(k).len() implies #[trigger] a.take(k)[i].same_spec(&b.take(k)[i]) by {
            assert(a[i].same_spec(&b[i]));
        }
        lemma_copies_tracks_total(a.take(k), b.take(k));
        assert(i32::MIN <= tracks_total(b.take(k)) <= i32::MAX);
    }
}

/// The resources shown beside one import: each artist with its relations,
/// each release with its credits and mediums, each medium with its release
/// and tracks, and each track with its credits and genres, all from the
/// import's own records.
pub fn import_included(rel: &ImportRelated) -> (r: Vec<Included>)
    requires
        import_totals_fit(*rel),
    ensures
        import_items_ok(r@, *rel),
        r@.len() == import_items_len(*rel),
{
    proof {
        reveal(import_totals_fit);
    }
    let mut out: Vec<Included> = Vec::new();
    let mut i: usize = 0;
    while i < rel.artists.len()
        invariant
            i <= rel.artists@.len(),
            out@.len() == i,
            forall|j: int| 0 <= j < out@.len() ==> #[trigger] item_ok(out@[j], *rel, j),
        decreases rel.artists.len() - i,
    {
        let artist = &rel.artists[i];
        let ar = ArtistRelated {
            relations: Vec::new(),
            images: Vec::new(),
            recordings: relations_of_artist(&rel.artist_track_relations, artist.id),
            artist_credits: Vec::new(),
            releases: Vec::new(),
            tracks: Vec::new(),
        };
        let res = crate::tempo::artists::entity_to_resource(artist, &ar);
        out.push(Included::Artist(res));
        assert(artist_item_ok(out@[i as int], *rel, rel.artists@[i as int]));
        assert(item_ok(out@[i as int], *rel, i as int));
        i = i + 1;
    }
    let ghost a = rel.artists@.len() as int;
    let mut i: usize = 0;
    while i < rel.releases.len()
        invariant
            a == rel.artists@.len(),
            i <= rel.releases@.len(),
            out@.len() == a + i,
            import_totals_fit(*rel),
            forall|j: int| 0 <= j < out@.len() ==> #[trigger] item_ok(out@[j], *rel, j),
        decreases rel.releases.len() - i,
    {
        let release = &rel.releases[i];
        let rr = ReleaseRelated {
            image: None,
            artist_credits: release_credits(&rel.artist_credits, &rel.artist_credit_releases, release.id),
            mediums: release_mediums(&rel.mediums, release.id),
        };
        proof {
            reveal(import_totals_fit);
            assert(tracks_total_fits(mediums_of_release(rel.mediums@, rel.releases@[i as int].id)));
            lemma_copies_fit(rr.mediums@, mediums_of_release(rel.mediums@, release.id));
        }
        let res = crate::tempo::releases::entity_to_resource(release, &rr);
        out.push(Included::Release(res));
        assert(release_item_ok(out@[a + i], *rel, rel.releases@[i as int]));
        assert(item_ok(out@[a + i], *rel, a + i));
        i = i + 1;
    }
    let ghost b = a + rel.releases@.len();
    let mut i: usize = 0;
    while i < rel.mediums.len()
        invariant
            a == rel.artists@.len(),
            b == a + rel.releases@.len(),
            i <= rel.mediums@.len(),
            out@.len() == b + i,
            forall|j: int| 0 <= j < out@.len() ==> #[trigger] item_ok(out@[j], *rel, j),
        decreases rel.mediums.len() - i,
    {
        let medium = &rel.mediums[i];
        let mr = MediumRelated {
            release: find_release(&rel.releases, medium.release_id),
            tracks: medium_tracks(&rel.tracks, medium.id),
        };
        let res = crate::tempo::mediums::entity_to_resource(medium, &mr);
        out.push(Included::Medium(res));
        assert(medium_item_ok(out@[b + i], *rel, rel.mediums@[i as int]));
        assert(item_ok(out@[b + i], *rel, b + i));
        i = i + 1;
    }
    let ghost c = b + rel.mediums@.len();
    let mut i: usize = 0;
    while i < rel.tracks.len()
        invariant
            a == rel.artists@.len(),
            b == a + rel.releases@.len(),
            c == b + rel.mediums@.len(),
            i <= rel.tracks@.len(),
            out@.len() == c + i,
            forall|j: int| 0 <= j < out@.len() ==> #[trigger] item_ok(out@[j], *rel, j),
        decreases rel.tracks.len() - i,
    {
        let track = &rel.tracks[i];
        let tr = TrackRelated {
            artist_credits: track_credits(&rel.artist_credits, &rel.artist_credit_tracks, track.id),
            medium: None,
            recorders: Vec::new(),
            genres: track_genres(&rel.track_genres, track.id),
        };
        let res = crate::tempo::tracks::entity_to_resource(track, &tr);
        out.push(Included::Track(res));
        assert(track_item_ok(out@[c + i], *rel, rel.tracks@[i as int]));
        assert(item_ok(out@[c + i], *rel, c + i));
        i = i + 1;
    }
    proof {
        reveal(import_items_ok);
    }
    out
}

/// How many resources are shown beside the first `k` imports.
pub open spec fn items_before(rels: Seq<ImportRelated>, k: int) -> int
    decreases k,
{
    if k <= 0 {
        0
    } else {
        items_before(rels, k - 1) + import_items_len(rels[k - 1])
    }
}

/// The resources at the positions of the `k`-th import among `items` are
/// those shown beside it.
pub open spec fn import_segment_ok(items: Seq<Included>, rels: Seq<ImportRelated>, k: int) -> bool {
    import_items_ok(items.subrange(items_before(rels, k), items_before(rels, k + 1)), rels[k])
}

proof fn lemma_items_before_grows(rels: Seq<ImportRelated>, i: int, k: int)
    requires
        0 <= i <= k,
    ensures
        items_before(rels, i) <= items_before(rels, k),
    decreases k - i,
{
    if i < k {
        lemma_items_before_grows(rels, i, k - 1);
    }
}

/// Appending the resources of the next import keeps those of the earlier
/// ones where they were.
proof fn lemma_append_segment(old_out: Seq<Included>, new_items: Seq<Included>, rels: Seq<ImportRelated>, k: int)
    requires
        0 <= k < rels.len(),
        old_out.len() == items_before(rels, k),
        new_items.len() == import_items_len(rels[k]),
        import_items_ok(new_items, rels[k]),
        forall|q: int| 0 <= q < k ==> #[trigger] import_segment_ok(old_out, rels, q),
    ensures
        (old_out + new_items).len() == items_before(rels, k + 1),
        forall|q: int| 0 <= q < k + 1 ==> #[trigger] import_segment_ok(old_out + new_items, rels, q),
{
    let out = old_out + new_items;
    assert forall|q: int| 0 <= q < k + 1 implies #[trigger] import_segment_ok(out, rels, q) by {
        lemma_items_before_grows(rels, 0, q);
        lemma_items_before_grows(rels, q, q + 1);
        if q < k {
            lemma_items_before_grows(rels, q + 1, k);
            assert(import_segment_ok(old_out, rels, q));
            assert(out.subrange(items_before(rels, q), items_before(rels, q + 1))
                =~= old_out.subrange(items_before(rels, q), items_before(rels, q + 1)));
        } else {
            assert(out.subrange(items_before(rels, q), items_before(rels, q + 1)) =~= new_items);
            assert(import_items_ok(new_items, rels[q]));
        }
    }
}

/// The resources shown beside the imports: those of each import in turn.
pub fn included(related: Vec<ImportRelated>) -> (r: Vec<Included>)
    requires
        forall|k: int| 0 <= k < related@.len() ==> import_totals_fit(#[trigger] related@[k]),
    ensures
        r@.len() == items_before(related@, related@.len() as int),
        forall|k: int| 0 <= k < related@.len() ==> #[trigger] import_segment_ok(r@, related@, k),
{
    let mut out: Vec<Included> = Vec::new();
    let mut k: usize = 0;
    while k < related.len()
        invariant
            k <= related@.len(),
            forall|q: int| 0 <= q < related@.len() ==> import_totals_fit(#[trigger] related@[q]),
            out@.len() == items_before(related@, k as int),
            forall|q: int| 0 <= q < k ==> #[trigger] import_segment_ok(out@, related@, q),
        decreases related.len() - k,
    {
        let mut items = import_included(&related[k]);
        let ghost old_out = out@;
        let ghost new_items = items@;
        out.append(&mut items);
        proof {
            lemma_append_segment(old_out, new_items, related@, k as int);
        }
        k = k + 1;
    }
    out
}

/// The import's records once a release fetched for it is added: its
/// artists, credits and tracks joined with the release's and repeats
/// removed, the release after the import's releases, and the mediums,
/// relations and credit links joined with the release's; the directory
/// and genres stay as they were.
pub fn merge_fetched_release(import: ImportRelated, fetched: SearchResult) -> (r: ImportRelated)
    ensures
        r.directory == import.directory,
        r.artists@ == dedup_spec(import.artists@ + fetched.artists@),
        r.artist_credits@ == dedup_spec(import.artist_credits@ + fetched.artist_credits@),
        r.releases@ == import.releases@.push(fetched.release),
        r.mediums@ == import.mediums@ + fetched.mediums@,
        r.tracks@ == dedup_spec(import.tracks@ + fetched.tracks@),
        r.artist_track_relations@ == import.artist_track_relations@ + fetched.artist_track_relations@,
        r.artist_credit_releases@ == import.artist_credit_releases@ + fetched.artist_credit_releases@,
        r.artist_credit_tracks@ == import.artist_credit_tracks@ + fetched.artist_credit_tracks@,
        r.genres == import.genres,
        r.track_genres == import.track_genres,
        r.release_genres == import.release_genres,
{
    let ImportRelated {
        directory,
        mut artists,
        mut artist_credits,
        mut releases,
        mut mediums,
        mut tracks,
        mut artist_track_relations,
        mut artist_credit_releases,
        mut artist_credit_tracks,
        genres,
        track_genres,
        release_genres,
    } = import;
    let SearchResult {
        artists: mut new_artists,
        artist_credits: mut new_credits,
        release,
        mediums: mut new_mediums,
        tracks: mut new_tracks,
        artist_track_relations: mut new_relations,
        artist_credit_releases: mut new_release_links,
        artist_credit_tracks: mut new_track_links,
    } = fetched;
    artists.append(&mut new_artists);
    artist_credits.append(&mut new_credits);
    releases.push(release);
    mediums.append(&mut new_mediums);
    tracks.append(&mut new_tracks);
    artist_track_relations.append(&mut new_relations);
    artist_credit_releases.append(&mut new_release_links);
    artist_credit_tracks.append(&mut new_track_links);
    ImportRelated {
        directory,
        artists: dedup(artists),
        artist_credits: dedup(artist_credits),
        releases,
        mediums,
        tracks: dedup(tracks),
        artist_track_relations,
        artist_credit_releases,
        artist_credit_tracks,
        genres,
        track_genres,
        release_genres,
    }
}

/// An import as it is stored: the directory it reads, what its files hold,
/// the records it found, the covers and releases it rated, the choices
/// made and when it started and ended, in nanoseconds since the Unix
/// epoch. `R` is the type of a cover's rating.
pub struct Import<R> {
    pub id: Uuid,
    pub directory: String,
    pub source_release: InternalRelease,
    pub source_tracks: Vec<InternalTrack>,
    pub artists: Vec<Artist>,
    pub artist_credits: Vec<ArtistCredit>,
    pub releases: Vec<Release>,
    pub mediums: Vec<Medium>,
    pub tracks: Vec<Track>,
    pub artist_track_relations: Vec<ArtistTrackRelation>,
    pub artist_credit_releases: Vec<ArtistCreditRelease>,
    pub artist_credit_tracks: Vec<ArtistCreditTrack>,
    pub covers: Vec<Cover>,
    pub genres: Vec<Genre>,
    pub track_genres: Vec<GenreTrack>,
    pub release_genres: Vec<GenreRelease>,
    pub release_matches: std::collections::HashMap<Uuid, ReleaseRating>,
    pub cover_ratings: Vec<R>,
    pub selected_release: Option<Uuid>,
    pub selected_cover: Option<i32>,
    pub started_at: i128,
    pub ended_at: Option<i128>,
}

/// An import as a resource of the internal API.
pub type ImportResource<R> = Resource<ResourceType, Uuid, ImportAttributes<R>, ImportRelation, ImportMeta>;

/// A reference of the internal API.
pub type InternalLink = Related<ResourceType, ImportMeta>;

/// `l` points by UUID to the resource of the public API of kind `t` with
/// id `id`, without extra information.
pub open spec fn is_tempo_link(l: InternalLink, t: crate::documents::ResourceType, id: Uuid) -> bool {
    match l {
        Related::Uuid(ri) => ri.resource_type == ResourceType::Tempo(t) && ri.id == id && ri.meta is None,
        _ => false,
    }
}

/// The relationship holds, in order, references to the resources of kind
/// `t` with the given ids.
pub open spec fn is_tempo_links(r: Relationship<ResourceType, ImportMeta>, t: crate::documents::ResourceType, ids: Seq<Uuid>) -> bool {
    match r.data {
        Relation::Multi(v) => v@.len() == ids.len() && forall|i: int| 0 <= i < ids.len() ==> #[trigger] is_tempo_link(v@[i], t, ids[i]),
        Relation::Single(_) => false,
    }
}

fn tempo_links(t: crate::documents::ResourceType, ids: Vec<Uuid>) -> (r: Relationship<ResourceType, ImportMeta>)
    ensures
        is_tempo_links(r, t, ids@),
{
    let mut out: Vec<InternalLink> = Vec::new();
    let mut i: usize = 0;
    while i < ids.len()
        invariant
            i <= ids@.len(),
            out@.len() == i,
            forall|k: int| 0 <= k < i ==> #[trigger] is_tempo_link(out@[k], t, ids@[k]),
        decreases ids.len() - i,
    {
        out.push(Related::Uuid(ResourceIdentifier { resource_type: ResourceType::Tempo(t), id: ids[i], meta: None }));
        i = i + 1;
    }
    Relationship { data: Relation::Multi(out) }
}

/// The ids of the releases.
pub open spec fn release_ids(s: Seq<Release>) -> Seq<Uuid> {
    s.map_values(|x: Release| x.id)
}

/// The ids of the mediums.
pub open spec fn medium_ids(s: Seq<Medium>) -> Seq<Uuid> {
    s.map_values(|x: Medium| x.id)
}

/// The ids of the tracks.
pub open spec fn track_ids(s: Seq<Track>) -> Seq<Uuid> {
    s.map_values(|x: Track| x.id)
}

/// The ids of the artists.
pub open spec fn artist_ids(s: Seq<Artist>) -> Seq<Uuid> {
    s.map_values(|x: Artist| x.id)
}

fn ids_of_releases(v: &Vec<Release>) -> (r: Vec<Uuid>)
    ensures
        r@ == release_ids(v@),
{
    let mut out: Vec<Uuid> = Vec::new();
    let mut i: usize = 0;
    while i < v.len()
        invariant
            i <= v@.len(),
            out@ == release_ids(v@.take(i as int)),
        decreases v.len() - i,
    {
        out.push(v[i].id);
        i = i + 1;
        assert(out@ =~= release_ids(v@.take(i as int)));
    }
    assert(v@.take(v.len() as int) =~= v@);
    out
}

fn ids_of_mediums(v: &Vec<Medium>) -> (r: Vec<Uuid>)
    ensures
        r@ == medium_ids(v@),
{
    let mut out: Vec<Uuid> = Vec::new();
    let mut i: usize = 0;
    while i < v.len()
        invariant
            i <= v@.len(),
            out@ == medium_ids(v@.take(i as int)),
        decreases v.len() - i,
    {
        out.push(v[i].id);
        i = i + 1;
        assert(out@ =~= medium_ids(v@.take(i as int)));
    }
    assert(v@.take(v.len() as int) =~= v@);
    out
}

fn ids_of_tracks(v: &Vec<Track>) -> (r: Vec<Uuid>)
    ensures
        r@ == track_ids(v@),
{
    let mut out: Vec<Uuid> = Vec::new();
    let mut i: usize = 0;
    while i < v.len()
        invariant
            i <= v@.len(),
            out@ == track_ids(v@.take(i as int)),
        decreases v.len() - i,
    {
        out.push(v[i].id);
        i = i + 1;
        assert(out@ =~= track_ids(v@.take(i as int)));
    }
    assert(v@.take(v.len() as int) =~= v@);
    out
}

fn ids_of_artists(v: &Vec<Artist>) -> (r: Vec<Uuid>)
    ensures
        r@ == artist_ids(v@),
{
    let mut out: Vec<Uuid> = Vec::new();
    let mut i: usize = 0;
    while i < v.len()
        invariant
            i <= v@.len(),
            out@ == artist_ids(v@.take(i as int)),
        decreases v.len() - i,
    {
        out.push(v[i].id);
        i = i + 1;
        assert(out@ =~= artist_ids(v@.take(i as int)));
    }
    assert(v@.take(v.len() as int) =~= v@);
    out
}

/// The import as a resource: its attributes as stored, and its
/// relationships to its directory and to the releases, mediums, tracks and
/// artists it found, each listed even when empty.
pub fn entity_to_resource<R>(entity: Import<R>, related: &ImportRelated) -> (r: ImportResource<R>)
    ensures
        r.resource_type == ResourceType::Internal(InternalResourceType::Import),
        r.id == entity.id,
        r.attributes.source_release == entity.source_release,
        r.attributes.source_tracks == entity.source_tracks,
        r.attributes.covers == entity.covers,
        r.attributes.release_matches == entity.release_matches,
        r.attributes.cover_ratings == entity.cover_ratings,
        r.attributes.selected_release == entity.selected_release,
        r.attributes.selected_cover == entity.selected_cover,
        r.attributes.started_at == entity.started_at,
        r.attributes.ended_at == entity.ended_at,
        r.meta is None,
        r.relationships@.len() == 5,
        r.relationships@[0].0 == ImportRelation::Directory,
        r.relationships@[0].1.data matches Relation::Single(Related::String(ri))
            && ri.resource_type == ResourceType::Internal(InternalResourceType::Directory) && ri.id@ == related.directory@ && ri.meta is None,
        r.relationships@[1].0 == ImportRelation::Releases,
        is_tempo_links(r.relationships@[1].1, crate::documents::ResourceType::Release, release_ids(related.releases@)),
        r.relationships@[2].0 == ImportRelation::Mediums,
        is_tempo_links(r.relationships@[2].1, crate::documents::ResourceType::Medium, medium_ids(related.mediums@)),
        r.relationships@[3].0 == ImportRelation::Tracks,
        is_tempo_links(r.relationships@[3].1, crate::documents::ResourceType::Track, track_ids(related.tracks@)),
        r.relationships@[4].0 == ImportRelation::Artists,
        is_tempo_links(r.relationships@[4].1, crate::documents::ResourceType::Artist, artist_ids(related.artists@)),
{
    let directory = Relationship {
        data: Relation::Single(
            Related::String(
                ResourceIdentifier {
                    resource_type: ResourceType::Internal(InternalResourceType::Directory),
                    id: copy_string(&related.directory),
                    meta: None,
                },
            ),
        ),
    };
    let mut relationships: Vec<(ImportRelation, Relationship<ResourceType, ImportMeta>)> = Vec::new();
    relationships.push((ImportRelation::Directory, directory));
    relationships.push((ImportRelation::Releases, tempo_links(crate::documents::ResourceType::Release, ids_of_releases(&related.releases))));
    relationships.push((ImportRelation::Mediums, tempo_links(crate::documents::ResourceType::Medium, ids_of_mediums(&related.mediums))));
    relationships.push((ImportRelation::Tracks, tempo_links(crate::documents::ResourceType::Track, ids_of_tracks(&related.tracks))));
    relationships.push((ImportRelation::Artists, tempo_links(crate::documents::ResourceType::Artist, ids_of_artists(&related.artists))));
    let Import {
        id,
        source_release,
        source_tracks,
        covers,
        release_matches,
        cover_ratings,
        selected_release,
        selected_cover,
        started_at,
        ended_at,
        ..
    } = entity;
    Resource {
        resource_type: ResourceType::Internal(InternalResourceType::Import),
        id,
        attributes: ImportAttributes {
            source_release,
            source_tracks,
            covers,
            release_matches,
            cover_ratings,
            selected_release,
            selected_cover,
            started_at,
            ended_at,
        },
        relationships,
        meta: None,
    }
}

/// Two genres are the same when all their fields are.
impl SameRecord for Genre {
    open spec fn same_spec(&self, other: &Self) -> bool {
        &&& self.id@ == other.id@
        &&& self.name@ == other.name@
        &&& self.disambiguation@ == other.disambiguation@
    }

    fn same_record(&self, other: &Self) -> (r: bool) {
        str_equals(self.id.as_str(), other.id.as_str()) && str_equals(self.name.as_str(), other.name.as_str())
            && str_equals(self.disambiguation.as_str(), other.disambiguation.as_str())
    }
}

/// Two release genre links are the same when all their fields are.
impl SameRecord for GenreRelease {
    open spec fn same_spec(&self, other: &Self) -> bool {
        &&& self.genre_id@ == other.genre_id@
        &&& self.release_id == other.release_id
        &&& self.cnt == other.cnt
    }

    fn same_record(&self, other: &Self) -> (r: bool) {
        str_equals(self.genre_id.as_str(), other.genre_id.as_str()) && self.release_id == other.release_id && self.cnt == other.cnt
    }
}

/// Records that can be copied.
pub trait CopyRecord: SameRecord {
    /// A record the same as this one.
    fn copy_record(&self) -> (r: Self)
        ensures
            r.same_spec(self),
    ;
}

impl CopyRecord for Artist {
    fn copy_record(&self) -> (r: Self) {
        Artist { id: self.id, name: copy_string(&self.name), sort_name: copy_string(&self.sort_name), description: copy_opt_string(&self.description) }
    }
}

impl CopyRecord for ArtistCredit {
    fn copy_record(&self) -> (r: Self) {
        copy_credit(self)
    }
}

impl CopyRecord for Release {
    fn copy_record(&self) -> (r: Self) {
        copy_release(self)
    }
}

impl CopyRecord for Medium {
    fn copy_record(&self) -> (r: Self) {
        copy_medium(self)
    }
}

impl CopyRecord for Track {
    fn copy_record(&self) -> (r: Self) {
        copy_track(self)
    }
}

impl CopyRecord for ArtistTrackRelation {
    fn copy_record(&self) -> (r: Self) {
        copy_relation(self)
    }
}

impl CopyRecord for ArtistCreditRelease {
    fn copy_record(&self) -> (r: Self) {
        ArtistCreditRelease { artist_credit_id: copy_string(&self.artist_credit_id), release_id: self.release_id }
    }
}

impl CopyRecord for ArtistCreditTrack {
    fn copy_record(&self) -> (r: Self) {
        ArtistCreditTrack { artist_credit_id: copy_string(&self.artist_credit_id), track_id: self.track_id }
    }
}

impl CopyRecord for Genre {
    fn copy_record(&self) -> (r: Self) {
        Genre { id: copy_string(&self.id), name: copy_string(&self.name), disambiguation: copy_string(&self.disambiguation) }
    }
}

impl CopyRecord for GenreTrack {
    fn copy_record(&self) -> (r: Self) {
        copy_genre_track(self)
    }
}

impl CopyRecord for GenreRelease {
    fn copy_record(&self) -> (r: Self) {
        GenreRelease { genre_id: copy_string(&self.genre_id), release_id: self.release_id, cnt: self.cnt }
    }
}

/// Copies of the records, in order.
pub fn copy_all<T: CopyRecord>(v: &Vec<T>) -> (r: Vec<T>)
    ensures
        copies(r@, v@),
{
    let mut out: Vec<T> = Vec::new();
    let mut i: usize = 0;
    while i < v.len()
        invariant
            i <= v@.len(),
            out@.len() == i,
            forall|k: int| 0 <= k < i ==> #[trigger] out@[k].same_spec(&v@[k]),
        decreases v.len() - i,
    {
        out.push(v[i].copy_record());
        i = i + 1;
    }
    out
}

/// The records an import found: copies of its own, and its directory.
pub open spec fn related_ok<R>(r: ImportRelated, e: Import<R>) -> bool {
    &&& r.directory@ == e.directory@
    &&& copies(r.artists@, e.artists@)
    &&& copies(r.artist_credits@, e.artist_credits@)
    &&& copies(r.releases@, e.releases@)
    &&& copies(r.mediums@, e.mediums@)
    &&& copies(r.tracks@, e.tracks@)
    &&& copies(r.artist_track_relations@, e.artist_track_relations@)
    &&& copies(r.artist_credit_releases@, e.artist_credit_releases@)
    &&& copies(r.artist_credit_tracks@, e.artist_credit_tracks@)
    &&& copies(r.genres@, e.genres@)
    &&& copies(r.track_genres@, e.track_genres@)
    &&& copies(r.release_genres@, e.release_genres@)
}

/// The records each import found, import by import.
pub fn related<R>(entities: &Vec<Import<R>>) -> (r: Vec<ImportRelated>)
    ensures
        r@.len() == entities@.len(),
        forall|i: int| 0 <= i < r@.len() ==> #[trigger] related_ok(r@[i], entities@[i]),
{
    let mut out: Vec<ImportRelated> = Vec::new();
    let mut i: usize = 0;
    while i < entities.len()
        invariant
            i <= entities@.len(),
            out@.len() == i,
            forall|k: int| 0 <= k < i ==> #[trigger] related_ok(out@[k], entities@[k]),
        decreases entities.len() - i,
    {
        let e = &entities[i];
        out.push(ImportRelated {
            directory: copy_string(&e.directory),
            artists: copy_all(&e.artists),
            artist_credits: copy_all(&e.artist_credits),
            releases: copy_all(&e.releases),
            mediums: copy_all(&e.mediums),
            tracks: copy_all(&e.tracks),
            artist_track_relations: copy_all(&e.artist_track_relations),
            artist_credit_releases: copy_all(&e.artist_credit_releases),
            artist_credit_tracks: copy_all(&e.artist_credit_tracks),
            genres: copy_all(&e.genres),
            track_genres: copy_all(&e.track_genres),
            release_genres: copy_all(&e.release_genres),
        });
        i = i + 1;
    }
    out
}

/// What a task that fetches a candidate release for an import carries: the
/// import and the release.
#[derive(PartialEq, Eq, Structural, Clone, Copy, Debug)]
pub struct FetchReleaseData {
    pub import_id: Uuid,
    pub release_id: Uuid,
}

/// One task for each candidate release, in order, fetching it for the
/// import; each waits for nothing and is allowed a minute.
pub fn fetch_release_tasks(import_id: Uuid, releases: &Vec<Release>) -> (r: Vec<InsertTask<FetchReleaseData>>)
    ensures
        r@.len() == releases@.len(),
        forall|i: int| 0 <= i < r@.len() ==> {
            &&& (#[trigger] r@[i]).name == TaskName::ImportFetchRelease
            &&& r@[i].payload == Some(FetchReleaseData { import_id, release_id: releases@[i].id })
            &&& r@[i].depends_on@.len() == 0
            &&& r@[i].duration_seconds == 60
        },
{
    let mut out: Vec<InsertTask<FetchReleaseData>> = Vec::new();
    let mut i: usize = 0;
    while i < releases.len()
        invariant
            i <= releases@.len(),
            out@.len() == i,
            forall|k: int| 0 <= k < i ==> {
                &&& (#[trigger] out@[k]).name == TaskName::ImportFetchRelease
                &&& out@[k].payload == Some(FetchReleaseData { import_id, release_id: releases@[k].id })
                &&& out@[k].depends_on@.len() == 0
                &&& out@[k].duration_seconds == 60
            },
        decreases releases.len() - i,
    {
        out.push(InsertTask {
            name: TaskName::ImportFetchRelease,
            payload: Some(FetchReleaseData { import_id, release_id: releases[i].id }),
            depends_on: Vec::new(),
            duration_seconds: 60,
        });
        i = i + 1;
    }
    out
}

/// The import's records replaced by those a search found; the directory
/// and genres stay as they were.
pub fn with_search_results(import: ImportRelated, found: CombinedSearchResults) -> (r: ImportRelated)
    ensures
        r.directory == import.directory,
        r.artists == found.artists,
        r.artist_credits == found.artist_credits,
        r.releases == found.releases,
        r.mediums == found.mediums,
        r.tracks == found.tracks,
        r.artist_track_relations == found.artist_track_relations,
        r.artist_credit_releases == found.artist_credit_releases,
        r.artist_credit_tracks == found.artist_credit_tracks,
        r.genres == import.genres,
        r.track_genres == import.track_genres,
        r.release_genres == import.release_genres,
{
    ImportRelated {
        directory: import.directory,
        artists: found.artists,
        artist_credits: found.artist_credits,
        releases: found.releases,
        mediums: found.mediums,
        tracks: found.tracks,
        artist_track_relations: found.artist_track_relations,
        artist_credit_releases: found.artist_credit_releases,
        artist_credit_tracks: found.artist_credit_tracks,
        genres: import.genres,
        track_genres: import.track_genres,
        release_genres: import.release_genres,
    }
}

/// The names joined with `, ` between consecutive ones.
pub open spec fn comma_joined(parts: Seq<Seq<char>>) -> Seq<char>
    decreases parts.len(),
{
    if parts.len() == 0 {
        Seq::empty()
    } else if parts.len() == 1 {
        parts[0]
    } else {
        comma_joined(parts.drop_last()) + ", "@ + parts.last()
    }
}

/// The artists a release search names: the release's artists joined with
/// `, `, or none where they join to the placeholder for an unknown artist.
pub open spec fn search_artists(artists: Seq<Seq<char>>, unknown_artist: Seq<char>) -> Seq<char> {
    if comma_joined(artists) == unknown_artist {
        Seq::empty()
    } else {
        comma_joined(artists)
    }
}

/// The query parameters of a search for releases like the one being
/// imported: the query by title, artists and track count, JSON answers,
/// and at most eight results.
pub open spec fn release_search_spec(release: InternalRelease, unknown_artist: Seq<char>) -> Seq<(Seq<char>, Seq<char>)> {
    seq![
        ("query"@, "release:"@ + release.title@ + " artist:"@ + search_artists(string_views(release.artists@), unknown_artist) + " tracks:"@ + decimal_int(release.tracks as int)),
        ("fmt"@, "json"@),
        ("limit"@, "8"@),
    ]
}

fn join_names(parts: &Vec<String>) -> (r: String)
    ensures
        r@ == comma_joined(string_views(parts@)),
{
    let sep = ", ";
    let mut out = String::new();
    let mut i: usize = 0;
    while i < parts.len()
        invariant
            i <= parts@.len(),
            sep@ == ", "@,
            out@ == comma_joined(string_views(parts@.take(i as int))),
        decreases parts.len() - i,
    {
        assert(string_views(parts@.take(i as int + 1)).drop_last() =~= string_views(parts@.take(i as int)));
        if i > 0 {
            out.append(sep);
        }
        out.append(parts[i].as_str());
        i = i + 1;
        assert(out@ =~= comma_joined(string_views(parts@.take(i as int))));
    }
    assert(parts@.take(parts.len() as int) =~= parts@);
    out
}

/// The query parameters of a MusicBrainz search for releases like the one
/// being imported; `unknown_artist` is the placeholder the import writes
/// where the files name no artist.
pub fn release_search_params(release: &InternalRelease, unknown_artist: &str) -> (r: Vec<(String, String)>)
    ensures
        r@.map_values(|p: (String, String)| (p.0@, p.1@)) == release_search_spec(*release, unknown_artist@),
{
    let joined = join_names(&release.artists);
    let artists = if str_equals(joined.as_str(), unknown_artist) { String::new() } else { joined };
    let mut query = to_owned_string("release:");
    query.append(release.title.as_str());
    query.append(" artist:");
    query.append(artists.as_str());
    query.append(" tracks:");
    let count = decimal_string(release.tracks as i64);
    query.append(count.as_str());
    let mut r: Vec<(String, String)> = Vec::new();
    r.push((to_owned_string("query"), query));
    r.push((to_owned_string("fmt"), to_owned_string("json")));
    r.push((to_owned_string("limit"), to_owned_string("8")));
    proof {
        reveal_strlit(", ");
        reveal_strlit("release:");
        reveal_strlit(" artist:");
        reveal_strlit(" tracks:");
    }
    assert(r@.map_values(|p: (String, String)| (p.0@, p.1@)) =~= release_search_spec(*release, unknown_artist@));
    r
}

/// Whether an import has found nothing yet and no choice was made: no
/// records, covers, ratings or matches, no release or cover chosen, not
/// ended.
pub open spec fn is_fresh<R>(i: Import<R>) -> bool {
    &&& i.artists@.len() == 0
    &&& i.artist_credits@.len() == 0
    &&& i.releases@.len() == 0
    &&& i.mediums@.len() == 0
    &&& i.tracks@.len() == 0
    &&& i.artist_track_relations@.len() == 0
    &&& i.artist_credit_releases@.len() == 0
    &&& i.artist_credit_tracks@.len() == 0
    &&& i.covers@.len() == 0
    &&& i.genres@.len() == 0
    &&& i.track_genres@.len() == 0
    &&& i.release_genres@.len() == 0
    &&& i.release_matches@.dom().len() == 0
    &&& i.cover_ratings@.len() == 0
    &&& i.selected_release is None
    &&& i.selected_cover is None
    &&& i.ended_at is None
}

/// Whether a task of the given kind is about the given import, waits for
/// nothing and may run for the given number of seconds.
pub open spec fn is_import_task(t: InsertTask<Uuid>, name: TaskName, import: Uuid, seconds: i64) -> bool {
    &&& t.name == name
    &&& t.payload == Some(import)
    &&& t.depends_on@.len() == 0
    &&& t.duration_seconds == seconds
}

/// A task of the given kind about an import, waiting for nothing.
fn import_task(name: TaskName, import: Uuid, seconds: i64) -> (r: InsertTask<Uuid>)
    ensures
        is_import_task(r, name, import, seconds),
{
    InsertTask { name, payload: Some(import), depends_on: Vec::new(), duration_seconds: seconds }
}

/// The import begun for a directory: a new import with the given id, the
/// directory, what its track files say of the release and of each track,
/// started at `started_at`, that has found nothing yet; and the task that
/// looks its release up, allowed a minute. A directory without track files
/// cannot be imported.
pub fn begin_import<R>(
    id: Uuid,
    directory: String,
    source_release: InternalRelease,
    source_tracks: Vec<InternalTrack>,
    started_at: i128,
) -> (r: Result<(Import<R>, InsertTask<Uuid>), crate::api_error::Error>)
    ensures
        source_tracks@.len() == 0 <==> r is Err,
        r matches Err(e) ==> e matches crate::api_error::Error::BadRequest(Some(m))
            && m@ == "Import folder does not contain any valid track files"@,
        r matches Ok((i, t)) ==> {
            &&& i.id == id
            &&& i.directory == directory
            &&& i.source_release == source_release
            &&& i.source_tracks == source_tracks
            &&& i.started_at == started_at
            &&& is_fresh(i)
            &&& is_import_task(t, TaskName::ImportFetch, id, 60)
        },
{
    broadcast use vstd::std_specs::hash::group_hash_axioms;

    if source_tracks.len() == 0 {
        return Err(
            crate::api_error::Error::BadRequest(Some(to_owned_string("Import folder does not contain any valid track files"))),
        );
    }
    let import = Import {
        id,
        directory,
        source_release,
        source_tracks,
        artists: Vec::new(),
        artist_credits: Vec::new(),
        releases: Vec::new(),
        mediums: Vec::new(),
        tracks: Vec::new(),
        artist_track_relations: Vec::new(),
        artist_credit_releases: Vec::new(),
        artist_credit_tracks: Vec::new(),
        covers: Vec::new(),
        genres: Vec::new(),
        track_genres: Vec::new(),
        release_genres: Vec::new(),
        release_matches: std::collections::HashMap::new(),
        cover_ratings: Vec::new(),
        selected_release: None,
        selected_cover: None,
        started_at,
        ended_at: None,
    };
    Ok((import, import_task(TaskName::ImportFetch, id, 60)))
}

/// The task that stores an import in the library, allowed a minute.
pub fn populate_task(import: Uuid) -> (r: InsertTask<Uuid>)
    ensures
        is_import_task(r, TaskName::ImportPopulate, import, 60),
{
    import_task(TaskName::ImportPopulate, import, 60)
}

/// The task that fetches the covers of an import again after another
/// release was chosen, allowed six minutes.
pub fn cover_fetch_task(import: Uuid) -> (r: InsertTask<Uuid>)
    ensures
        is_import_task(r, TaskName::ImportFetchCovers, import, 360),
{
    import_task(TaskName::ImportFetchCovers, import, 360)
}

/// The task that rates the fetched covers of an import, after the task that
/// fetched them (the first task the queue answered with), allowed a minute;
/// `None` where the queue answered with no task.
pub fn cover_rank_task(import: Uuid, fetch_tasks: &Vec<String>) -> (r: Option<InsertTask<Uuid>>)
    ensures
        fetch_tasks@.len() == 0 <==> r is None,
        r matches Some(t) ==> {
            &&& t.name == TaskName::ImportRankCovers
            &&& t.payload == Some(import)
            &&& t.depends_on@.len() == 1
            &&& t.depends_on@[0]@ == fetch_tasks@[0]@
            &&& t.duration_seconds == 60
        },
{
    if fetch_tasks.len() == 0 {
        return None;
    }
    let mut depends_on: Vec<String> = Vec::new();
    depends_on.push(copy_string(&fetch_tasks[0]));
    Some(InsertTask { name: TaskName::ImportRankCovers, payload: Some(import), depends_on, duration_seconds: 60 })
}

} // verus!
