//! The text the search index holds for artists, tracks and releases: each
//! record becomes a document of named text fields.
use vstd::prelude::*;
use crate::entity::{Artist, ArtistCredit, Release, Track};
use crate::search_result::{string_views, uuid_text, uuid_to_string};
use crate::text::{copy_opt_string, copy_string, join_spec, join_with, opt_view};

verus! {

/// The fields an artist is indexed under: its id, its names and, where it
/// has one, its description.
pub struct ArtistDocument {
    pub id: String,
    pub name: String,
    pub sort_name: String,
    pub description: Option<String>,
}

/// The fields a track is indexed under: its id, title, genres and the
/// artists credited on it.
pub struct TrackDocument {
    pub id: String,
    pub title: String,
    pub genres: String,
    pub artists: String,
}

/// The fields a release is indexed under: its id, title, genres, the
/// artists credited on it and, where it has one, its type.
pub struct ReleaseDocument {
    pub id: String,
    pub title: String,
    pub genres: String,
    pub release_type: Option<String>,
    pub artists: String,
}

/// The credits written out: each artist's name after the join phrase of
/// its credit, in order.
pub open spec fn artists_text(artists: Seq<(ArtistCredit, Artist)>) -> Seq<char>
    decreases artists.len(),
{
    if artists.len() == 0 {
        Seq::empty()
    } else {
        let (credit, artist) = artists.last();
        artists_text(artists.drop_last()) + match opt_view(credit.join_phrase) {
            Some(p) => p,
            None => Seq::empty(),
        } + artist.name@
    }
}

/// The genres separated by spaces.
pub open spec fn genres_text(genres: Seq<String>) -> Seq<char> {
    join_spec(string_views(genres), ' ')
}

fn artists_string(artists: &Vec<(ArtistCredit, Artist)>) -> (r: String)
    ensures
        r@ == artists_text(artists@),
{
    let mut out = String::new();
    let mut i: usize = 0;
    while i < artists.len()
        invariant
            i <= artists.len(),
            out@ == artists_text(artists@.take(i as int)),
        decreases artists.len() - i,
    {
        assert(artists@.take(i as int + 1).drop_last() =~= artists@.take(i as int));
        let (credit, artist) = &artists[i];
        if let Some(p) = &credit.join_phrase {
            out.append(p.as_str());
        }
        out.append(artist.name.as_str());
        i = i + 1;
    }
    assert(artists@.take(artists.len() as int) =~= artists@);
    out
}

fn genres_string(genres: &Vec<String>) -> (r: String)
    ensures
        r@ == genres_text(genres@),
{
    let sep = " ";
    proof {
        reveal_strlit(" ");
    }
    join_with(genres, sep)
}

/// The artist as a search document.
pub fn artist_to_document(data: Artist) -> (r: ArtistDocument)
    ensures
        r.id@ == uuid_text(data.id),
        r.name@ == data.name@,
        r.sort_name@ == data.sort_name@,
        opt_view(r.description) == opt_view(data.description),
{
    ArtistDocument {
        id: uuid_to_string(data.id),
        name: data.name,
        sort_name: data.sort_name,
        description: data.description,
    }
}

/// The track, with the artists credited on it, as a search document.
pub fn track_to_document(data: (Track, Vec<(ArtistCredit, Artist)>)) -> (r: TrackDocument)
    ensures
        r.id@ == uuid_text(data.0.id),
        r.title@ == data.0.title@,
        r.genres@ == genres_text(data.0.genres@),
        r.artists@ == artists_text(data.1@),
{
    let (track, artists) = data;
    TrackDocument {
        id: uuid_to_string(track.id),
        title: copy_string(&track.title),
        genres: genres_string(&track.genres),
        artists: artists_string(&artists),
    }
}

/// The release, with the artists credited on it, as a search document.
pub fn release_to_document(data: (Release, Vec<(ArtistCredit, Artist)>)) -> (r: ReleaseDocument)
    ensures
        r.id@ == uuid_text(data.0.id),
        r.title@ == data.0.title@,
        r.genres@ == genres_text(data.0.genres@),
        opt_view(r.release_type) == opt_view(data.0.release_type),
        r.artists@ == artists_text(data.1@),
{
    let (release, artists) = data;
    ReleaseDocument {
        id: uuid_to_string(release.id),
        title: copy_string(&release.title),
        genres: genres_string(&release.genres),
        release_type: copy_opt_string(&release.release_type),
        artists: artists_string(&artists),
    }
}

/// A value the search index stores: a text, or a value of another kind.
pub enum SearchValue {
    Str(String),
    Other,
}

/// Why a search could not be answered.
pub enum SearchError {
    NoArtistFields,
    NoTrackFields,
    NoReleaseFields,
    /// A result's id is not a text.
    InvalidResultType,
    FieldNotFound,
    /// A result's id is not a UUID.
    UuidParseError,
}

/// The UUID the `uuid` crate reads from a text, `None` where the text is
/// none of the forms the crate reads.
pub uninterp spec fn uuid_parse_of(text: Seq<char>) -> Option<u128>;

/// `uuid::Uuid::parse_str`: the UUID written in the text, `None` where the
/// crate reports an error (whose details are dropped). Its result is named
/// `uuid_parse_of`; as the crate documents, the hyphenated form it writes a
/// UUID in reads back as that UUID.
#[verifier::external_body]
fn parse_uuid(text: &str) -> (r: Option<u128>)
    ensures
        r == uuid_parse_of(text@),
        match r {
            Some(v) => forall|x: u128| text@ == uuid_text(x) ==> v == x,
            None => forall|x: u128| text@ != uuid_text(x),
        },
{
    match uuid::Uuid::parse_str(text) {
        Ok(u) => Some(u.as_u128()),
        Err(_) => None,
    }
}

/// The UUID a result's id holds, if it holds one.
pub open spec fn value_id(v: SearchValue) -> Option<u128> {
    match v {
        SearchValue::Str(s) => uuid_parse_of(s@),
        SearchValue::Other => None,
    }
}

/// The ids of the results, each with its score, or, at the first result
/// without one, whether its id is of the wrong kind (`true`) or a text that
/// is no UUID (`false`).
pub open spec fn ids_outcome<S>(results: Seq<(S, SearchValue)>) -> Result<Seq<(S, u128)>, bool>
    decreases results.len(),
{
    if results.len() == 0 {
        Ok(Seq::empty())
    } else {
        match results[0].1 {
            SearchValue::Other => Err(true),
            SearchValue::Str(s) => match uuid_parse_of(s@) {
                None => Err(false),
                Some(id) => match ids_outcome(results.drop_first()) {
                    Ok(rest) => Ok(seq![(results[0].0, id)] + rest),
                    Err(e) => Err(e),
                },
            },
        }
    }
}

/// The ids of the search results, each kept with its score; the first
/// result whose id is not a text, or not a UUID, gives the error.
pub fn get_ids<S>(results: Vec<(S, SearchValue)>) -> (r: Result<Vec<(S, u128)>, SearchError>)
    ensures
        match ids_outcome(results@) {
            Ok(v) => r matches Ok(w) && w@ == v,
            Err(true) => r matches Err(SearchError::InvalidResultType),
            Err(false) => r matches Err(SearchError::UuidParseError),
        },
{
    let ghost src = results@;
    let mut rest = results;
    let mut out: Vec<(S, u128)> = Vec::new();
    let ghost mut done: int = 0;
    while rest.len() > 0
        invariant
            src == results@,
            0 <= done <= src.len(),
            rest@ == src.skip(done),
            ids_outcome(src) == match ids_outcome(src.skip(done)) {
                Ok(v) => Ok(out@ + v),
                Err(e) => Err(e),
            },
        decreases rest.len(),
    {
        assert(src.skip(done).drop_first() =~= src.skip(done + 1));
        let ghost first = rest@[0];
        let (score, value) = rest.remove(0);
        assert(first == (score, value));
        assert(src.skip(done)[0] == first);
        match value {
            SearchValue::Str(s) => match parse_uuid(s.as_str()) {
                Some(id) => {
                    proof {
                        match ids_outcome(src.skip(done + 1)) {
                            Ok(v) => {
                                assert(out@.push((score, id)) + v =~= out@ + (seq![(score, id)] + v));
                            },
                            Err(e) => {},
                        }
                    }
                    out.push((score, id));
                },
                None => {
                    assert(ids_outcome(src.skip(done)) == Err::<Seq<(S, u128)>, bool>(false));
                    return Err(SearchError::UuidParseError);
                },
            },
            SearchValue::Other => {
                assert(ids_outcome(src.skip(done)) == Err::<Seq<(S, u128)>, bool>(true));
                return Err(SearchError::InvalidResultType);
            },
        }
        proof {
            done = done + 1;
        }
        assert(rest@ =~= src.skip(done));
    }
    assert(out@ + Seq::<(S, u128)>::empty() =~= out@);
    Ok(out)
}

/// The search indexes: one for artists, one for releases and one for
/// tracks.
#[derive(PartialEq, Eq, Structural, Clone, Copy, Debug)]
pub enum Index {
    Artists,
    Releases,
    Tracks,
}

/// How the index holds a field: stored as it is, split into words, or as
/// one whole string.
#[derive(PartialEq, Eq, Structural, Clone, Copy, Debug)]
pub enum FieldOptions {
    Stored,
    Text,
    Str,
}

/// The fields of an index, in order, with how each is held.
pub open spec fn schema_spec(index: Index) -> Seq<(Seq<char>, FieldOptions)> {
    match index {
        Index::Artists => seq![("id"@, FieldOptions::Stored), ("name"@, FieldOptions::Text), ("sort_name"@, FieldOptions::Text), ("description"@, FieldOptions::Str)],
        Index::Tracks => seq![("id"@, FieldOptions::Stored), ("artists"@, FieldOptions::Text), ("title"@, FieldOptions::Text), ("genres"@, FieldOptions::Text)],
        Index::Releases => seq![("id"@, FieldOptions::Stored), ("artists"@, FieldOptions::Text), ("title"@, FieldOptions::Text), ("release_type"@, FieldOptions::Str), ("genres"@, FieldOptions::Text)],
    }
}

/// The fields a query searches in an index, in order.
pub open spec fn query_fields_spec(index: Index) -> Seq<Seq<char>> {
    match index {
        Index::Artists => seq!["name"@, "sort_name"@, "description"@],
        Index::Tracks => seq!["artists"@, "title"@, "genres"@],
        Index::Releases => seq!["artists"@, "title"@, "release_type"@, "genres"@],
    }
}

/// The views of named fields.
pub open spec fn field_views(v: Seq<(&'static str, FieldOptions)>) -> Seq<(Seq<char>, FieldOptions)> {
    v.map_values(|f: (&'static str, FieldOptions)| (f.0@, f.1))
}

/// The fields of the artists index.
pub fn make_artists_schema() -> (r: Vec<(&'static str, FieldOptions)>)
    ensures
        field_views(r@) == schema_spec(Index::Artists),
{
    let r = vec![("id", FieldOptions::Stored), ("name", FieldOptions::Text), ("sort_name", FieldOptions::Text), ("description", FieldOptions::Str)];
    assert(field_views(r@) =~= schema_spec(Index::Artists));
    r
}

/// The fields of the tracks index.
pub fn make_tracks_schema() -> (r: Vec<(&'static str, FieldOptions)>)
    ensures
        field_views(r@) == schema_spec(Index::Tracks),
{
    let r = vec![("id", FieldOptions::Stored), ("artists", FieldOptions::Text), ("title", FieldOptions::Text), ("genres", FieldOptions::Text)];
    assert(field_views(r@) =~= schema_spec(Index::Tracks));
    r
}

/// The fields of the releases index.
pub fn make_releases_schema() -> (r: Vec<(&'static str, FieldOptions)>)
    ensures
        field_views(r@) == schema_spec(Index::Releases),
{
    let r = vec![("id", FieldOptions::Stored), ("artists", FieldOptions::Text), ("title", FieldOptions::Text), ("release_type", FieldOptions::Str), ("genres", FieldOptions::Text)];
    assert(field_views(r@) =~= schema_spec(Index::Releases));
    r
}

/// The fields a query searches in the index: the text fields of its
/// documents, the id aside.
pub fn query_fields(index: Index) -> (r: Vec<&'static str>)
    ensures
        r@.map_values(|f: &'static str| f@) == query_fields_spec(index),
{
    let r = match index {
        Index::Artists => vec!["name", "sort_name", "description"],
        Index::Tracks => vec!["artists", "title", "genres"],
        Index::Releases => vec!["artists", "title", "release_type", "genres"],
    };
    assert(r@.map_values(|f: &'static str| f@) =~= query_fields_spec(index));
    r
}

/// A query searches every field of the index but the id, in the order of
/// the index's fields.
pub proof fn lemma_query_fields_are_schema_fields(index: Index)
    ensures
        query_fields_spec(index) == schema_spec(index).drop_first().map_values(|f: (Seq<char>, FieldOptions)| f.0),
{
    assert(query_fields_spec(index) =~= schema_spec(index).drop_first().map_values(|f: (Seq<char>, FieldOptions)| f.0));
}

/// The indexes a run of the indexing job rebuilds, in order: artists,
/// tracks, releases.
pub fn all_data() -> (r: Vec<Index>)
    ensures
        r@ == seq![Index::Artists, Index::Tracks, Index::Releases],
{
    let r = vec![Index::Artists, Index::Tracks, Index::Releases];
    assert(r@ =~= seq![Index::Artists, Index::Tracks, Index::Releases]);
    r
}

/// Each credit with the artist loaded for it, position by position; `None`
/// where some credit has no artist (the indexing run fails).
pub fn credited_artists(credits: Vec<ArtistCredit>, artists: Vec<Option<Artist>>) -> (r: Option<Vec<(ArtistCredit, Artist)>>)
    ensures
        (forall|i: int| 0 <= i < credits@.len() ==> i < artists@.len() && #[trigger] artists@[i] is Some) ==> (r matches Some(v) && v@.len() == credits@.len()
            && forall|i: int| 0 <= i < v@.len() ==> (#[trigger] v@[i]).0 == credits@[i] && Some(v@[i].1) == artists@[i]),
        !(forall|i: int| 0 <= i < credits@.len() ==> i < artists@.len() && #[trigger] artists@[i] is Some) ==> r is None,
{
    let ghost cs = credits@;
    let ghost az = artists@;
    let mut rest_credits = credits;
    let mut rest_artists = artists;
    let mut out: Vec<(ArtistCredit, Artist)> = Vec::new();
    let ghost mut done: int = 0;
    while rest_credits.len() > 0
        invariant
            cs == credits@,
            az == artists@,
            0 <= done <= cs.len(),
            rest_credits@ == cs.skip(done),
            rest_artists@ == az.skip(done),
            done <= az.len(),
            forall|i: int| 0 <= i < done ==> #[trigger] az[i] is Some,
            out@.len() == done,
            forall|i: int| 0 <= i < done ==> (#[trigger] out@[i]).0 == cs[i] && Some(out@[i].1) == az[i],
        decreases rest_credits.len(),
    {
        if rest_artists.len() == 0 {
            assert(az.skip(done).len() == 0);
            assert(!(done < az.len() && az[done] is Some));
            return None;
        }
        let c = rest_credits.remove(0);
        let a = rest_artists.remove(0);
        assert(c == cs[done]);
        assert(a == az[done]);
        match a {
            Some(artist) => {
                out.push((c, artist));
            },
            None => {
                return None;
            },
        }
        proof {
            done = done + 1;
        }
        assert(rest_credits@ =~= cs.skip(done));
        assert(rest_artists@ =~= az.skip(done));
    }
    Some(out)
}

} // verus!
