//! Turning a MusicBrainz release lookup into the library's records: the
//! release, its mediums and tracks, the artists and their credits, and the
//! relationships between artists and tracks.
use vstd::prelude::*;
use crate::entity::{
    Artist, ArtistCredit, ArtistCreditRelease, ArtistCreditTrack, ArtistTrackRelation,
    ArtistTrackRelationType, Medium, Release, Track, Uuid, relation_type_from, relation_type_of,
};
use crate::musicbrainz as mb;
use crate::seqs::{concat, converted, filter_map_spec, lemma_converted_append};
use crate::text::{copy_opt_string, copy_string, opt_view};
use crate::dedup::dedup_spec;

verus! {

/// Sixteen to the power `n`.
pub open spec fn pow16(n: nat) -> int
    decreases n,
{
    if n == 0 {
        1
    } else {
        16 * pow16((n - 1) as nat)
    }
}

/// The lower-case hexadecimal digit of a value below sixteen.
pub open spec fn hex_digit(d: int) -> char {
    if d < 10 {
        (('0' as int) + d) as char
    } else {
        (('a' as int) + d - 10) as char
    }
}

/// The `k`-th of the 32 hexadecimal digits of a 128-bit value, most
/// significant first.
pub open spec fn uuid_nibble(id: u128, k: int) -> int {
    (id as int / pow16((31 - k) as nat)) % 16
}

/// The text of a UUID in its hyphenated lower-case form: its 32 hexadecimal
/// digits, most significant first, in groups of 8, 4, 4, 4 and 12 separated
/// by dashes.
pub open spec fn uuid_text(id: u128) -> Seq<char> {
    Seq::new(
        36,
        |i: int|
            if i == 8 || i == 13 || i == 18 || i == 23 {
                '-'
            } else {
                let k = if i < 8 {
                    i
                } else if i < 13 {
                    i - 1
                } else if i < 18 {
                    i - 2
                } else if i < 23 {
                    i - 3
                } else {
                    i - 4
                };
                hex_digit(uuid_nibble(id, k))
            },
    )
}

/// `uuid::Uuid::to_string`: the hyphenated lower-case text of the UUID with
/// the given value, as the crate documents its `Display` form; the contract
/// states that text digit by digit.
#[verifier::external_body]
pub(crate) fn uuid_to_string(id: u128) -> (r: String)
    ensures
        r@ == uuid_text(id),
{
    uuid::Uuid::from_u128(id).to_string()
}

/// `uuid::Uuid::new_v4`: a random UUID. Nothing is stated of its value.
#[verifier::external_body]
pub(crate) fn new_random_uuid() -> (r: u128) {
    uuid::Uuid::new_v4().as_u128()
}

/// The lower-case form of a text, character by character as Unicode maps it.
pub uninterp spec fn lowercase_text(s: Seq<char>) -> Seq<char>;

/// `str::to_lowercase`: the Unicode lower-case form of the text, which
/// depends on the text alone. Its result is named `lowercase_text`.
#[verifier::external_body]
fn to_lowercase(s: &str) -> (r: String)
    ensures
        r@ == lowercase_text(s@),
{
    s.to_lowercase()
}

/// The characters of an optional string, or none.
pub open spec fn chars_or_empty(s: Option<String>) -> Seq<char> {
    match s {
        Some(x) => x@,
        None => Seq::empty(),
    }
}

/// The identifier of an artist credit: the artist's UUID, a dash and the
/// join phrase.
pub open spec fn credit_id_spec(ac: mb::ArtistCredit) -> Seq<char> {
    uuid_text(ac.artist.id) + seq!['-'] + chars_or_empty(ac.joinphrase)
}

/// The identifier of an artist credit.
pub fn credit_id(ac: &mb::ArtistCredit) -> (r: String)
    ensures
        r@ == credit_id_spec(*ac),
{
    let mut id = uuid_to_string(ac.artist.id);
    id.append("-");
    proof {
        reveal_strlit("-");
    }
    match &ac.joinphrase {
        Some(j) => id.append(j.as_str()),
        None => {
            assert(id@ + Seq::<char>::empty() =~= id@);
        },
    }
    id
}

/// The stored artist made from a MusicBrainz artist.
pub open spec fn artist_matches(out: Artist, a: mb::Artist) -> bool {
    &&& out.id == a.id
    &&& out.name@ == a.name@
    &&& out.sort_name@ == a.sort_name@
    &&& out.description is None
}

/// The stored artist made from a MusicBrainz artist.
pub fn artist_from(a: &mb::Artist) -> (r: Artist)
    ensures
        artist_matches(r, *a),
{
    Artist {
        id: a.id,
        name: copy_string(&a.name),
        sort_name: copy_string(&a.sort_name),
        description: None,
    }
}

/// The stored artist credit made from a MusicBrainz credit.
pub open spec fn credit_matches(out: ArtistCredit, ac: mb::ArtistCredit) -> bool {
    &&& out.id@ == credit_id_spec(ac)
    &&& opt_view(out.join_phrase) == opt_view(ac.joinphrase)
    &&& out.artist_id == ac.artist.id
}

/// The stored artist credit made from a MusicBrainz credit.
pub fn credit_from(ac: &mb::ArtistCredit) -> (r: ArtistCredit)
    ensures
        credit_matches(r, *ac),
{
    ArtistCredit {
        id: credit_id(ac),
        join_phrase: copy_opt_string(&ac.joinphrase),
        artist_id: ac.artist.id,
    }
}

/// The link between a credit and the track it credits.
pub open spec fn credit_track_matches(out: ArtistCreditTrack, src: (mb::ArtistCredit, Uuid)) -> bool {
    &&& out.artist_credit_id@ == credit_id_spec(src.0)
    &&& out.track_id == src.1
}

/// The link between a credit and the release it credits.
pub open spec fn credit_release_matches(out: ArtistCreditRelease, src: (mb::ArtistCredit, Uuid)) -> bool {
    &&& out.artist_credit_id@ == credit_id_spec(src.0)
    &&& out.release_id == src.1
}

/// The relationship between an artist and a track made from a MusicBrainz
/// relationship that names an artist.
pub open spec fn relation_matches(out: ArtistTrackRelation, src: (mb::Relation, Uuid)) -> bool {
    &&& src.0.artist is Some
    &&& out.artist_id == src.0.artist->0.id
    &&& out.track_id == src.1
    &&& out.relation_type == relation_type_of(src.0.type_field@)
    &&& out.relation_value@ == src.0.type_field@
}

/// The count and position of each genre, in order.
pub open spec fn genre_keys(gs: Seq<mb::Genre>) -> Seq<(u32, usize)> {
    Seq::new(gs.len(), |i: int| (gs[i].count, i as usize))
}

/// The position before the first entry whose count is greater than `c`.
pub open spec fn first_greater(s: Seq<(u32, usize)>, c: u32) -> int
    decreases s.len(),
{
    if s.len() == 0 {
        0
    } else if s[0].0 > c {
        0
    } else {
        1 + first_greater(s.drop_first(), c)
    }
}

/// The entries sorted by count, entries of equal count in their original
/// order: each entry goes in after all entries sorted so far whose count is
/// not greater.
pub open spec fn sorted_by_count(s: Seq<(u32, usize)>) -> Seq<(u32, usize)>
    decreases s.len(),
{
    if s.len() == 0 {
        Seq::empty()
    } else {
        let sorted = sorted_by_count(s.drop_last());
        sorted.insert(first_greater(sorted, s.last().0), s.last())
    }
}

/// The genre names ordered by their counts, lowest first, equal counts in
/// the order MusicBrainz lists them.
pub open spec fn sorted_genre_names(gs: Seq<mb::Genre>) -> Seq<Seq<char>> {
    sorted_by_count(genre_keys(gs)).map_values(|p: (u32, usize)| gs[p.1 as int].name@)
}

proof fn lemma_first_greater(s: Seq<(u32, usize)>, c: u32, j: int)
    requires
        0 <= j <= s.len(),
        forall|k: int| 0 <= k < j ==> s[k].0 <= c,
        j < s.len() ==> s[j].0 > c,
    ensures
        first_greater(s, c) == j,
    decreases j,
{
    if j > 0 {
        lemma_first_greater(s.drop_first(), c, j - 1);
    }
}

/// The names of the genres ordered by their counts, lowest first.
pub fn genre_names_by_count(gs: &Vec<mb::Genre>) -> (r: Vec<String>)
    ensures
        r@.map_values(|x: String| x@) == sorted_genre_names(gs@),
{
    let ghost keys = genre_keys(gs@);
    let mut sorted: Vec<(u32, usize)> = Vec::new();
    let mut i: usize = 0;
    while i < gs.len()
        invariant
            keys == genre_keys(gs@),
            i <= gs.len(),
            sorted@ == sorted_by_count(keys.take(i as int)),
            forall|k: int| 0 <= k < sorted.len() ==> #[trigger] sorted@[k].1 < i,
        decreases gs.len() - i,
    {
        let c = gs[i].count;
        let mut j: usize = 0;
        while j < sorted.len() && sorted[j].0 <= c
            invariant
                j <= sorted.len(),
                forall|k: int| 0 <= k < j ==> sorted@[k].0 <= c,
            decreases sorted.len() - j,
        {
            j = j + 1;
        }
        proof {
            lemma_first_greater(sorted@, c, j as int);
            assert(keys.take(i as int + 1).drop_last() =~= keys.take(i as int));
            assert(keys.take(i as int + 1).last() == (c, i));
        }
        sorted.insert(j, (c, i));
        i = i + 1;
        assert forall|k: int| 0 <= k < sorted.len() implies #[trigger] sorted@[k].1 < i by {
            if k < j {
            } else if k > j {
                assert(sorted@[k] == sorted@.remove(j as int)[k - 1]);
            }
        }
    }
    assert(keys.take(gs.len() as int) =~= keys);
    let mut names: Vec<String> = Vec::new();
    let mut k: usize = 0;
    while k < sorted.len()
        invariant
            k <= sorted.len(),
            forall|q: int| 0 <= q < sorted.len() ==> #[trigger] sorted@[q].1 < gs.len(),
            names@.map_values(|x: String| x@) == sorted@.take(k as int).map_values(
                |p: (u32, usize)| gs@[p.1 as int].name@,
            ),
        decreases sorted.len() - k,
    {
        let ghost before = names@;
        let name = copy_string(&gs[sorted[k].1].name);
        names.push(name);
        assert(names@.map_values(|x: String| x@) =~= before.map_values(|x: String| x@).push(name@));
        assert(sorted@.take(k as int + 1).map_values(|p: (u32, usize)| gs@[p.1 as int].name@)
            =~= sorted@.take(k as int).map_values(|p: (u32, usize)| gs@[p.1 as int].name@).push(
            gs@[sorted@[k as int].1 as int].name@,
        ));
        k = k + 1;
    }
    assert(sorted@.take(sorted.len() as int) =~= sorted@);
    names
}


/// The genres of a recording, none when it lists none.
pub open spec fn recording_genres(t: mb::Track) -> Seq<mb::Genre> {
    match t.recording.genres {
        Some(g) => g@,
        None => Seq::empty(),
    }
}

/// The length of a track: its own, else its recording's, else zero.
pub open spec fn track_length(t: mb::Track) -> i32 {
    match t.length {
        Some(l) => l,
        None => match t.recording.length {
            Some(l) => l,
            None => 0,
        },
    }
}

/// The stored track made from a MusicBrainz track on the medium with the
/// given id.
pub open spec fn track_matches(out: Track, src: (mb::Track, Uuid)) -> bool {
    let t = src.0;
    &&& out.id == t.id
    &&& out.medium_id == src.1
    &&& out.title@ == t.title@
    &&& out.length == track_length(t)
    &&& out.number == t.position
    &&& out.genres@.map_values(|x: String| x@) == sorted_genre_names(recording_genres(t))
    &&& out.recording_id == t.recording.id
    &&& out.format is None
    &&& out.path is None
}

/// The stored track made from a MusicBrainz track on the medium with the
/// given id.
pub fn track_from(t: &mb::Track, medium_id: Uuid) -> (r: Track)
    ensures
        track_matches(r, (*t, medium_id)),
{
    let genres = match &t.recording.genres {
        Some(g) => genre_names_by_count(g),
        None => {
            let v: Vec<String> = Vec::new();
            assert(v@.map_values(|x: String| x@) =~= sorted_genre_names(Seq::<mb::Genre>::empty()));
            v
        },
    };
    let length = match t.length {
        Some(l) => l,
        None => match t.recording.length {
            Some(l) => l,
            None => 0,
        },
    };
    Track {
        id: t.id,
        medium_id,
        title: copy_string(&t.title),
        length,
        number: t.position,
        genres,
        recording_id: t.recording.id,
        format: None,
        path: None,
    }
}

/// The stored medium made from a MusicBrainz medium, whose id is known, of
/// the release with the given id.
pub open spec fn medium_matches(out: Medium, src: (mb::Medium, Uuid)) -> bool {
    let m = src.0;
    &&& m.id is Some
    &&& out.id == m.id->0
    &&& out.release_id == src.1
    &&& out.position == match m.position {
        Some(p) => p,
        None => 0,
    }
    &&& out.tracks == m.track_count
    &&& out.track_offset == match m.track_offset {
        Some(o) => o,
        None => 0,
    }
    &&& opt_view(out.format) == opt_view(m.format)
}

/// The relationships of a relationship's work when it is a performance of
/// that work; none otherwise.
pub open spec fn work_relations(r: mb::Relation) -> Seq<mb::Relation> {
    if relation_type_of(r.type_field@) == ArtistTrackRelationType::Performance {
        match r.work {
            Some(w) => match w.relations {
                Some(v) => v@,
                None => Seq::empty(),
            },
            None => Seq::empty(),
        }
    } else {
        Seq::empty()
    }
}

/// The relationships of a track's recording, followed by those of the works
/// the recording is a performance of.
pub open spec fn all_relations(t: mb::Track) -> Seq<mb::Relation> {
    let direct = t.recording.relations@;
    direct + concat(direct.map_values(|r: mb::Relation| work_relations(r)))
}

/// The artist a relationship names, if any.
pub open spec fn relation_artist(r: mb::Relation) -> Option<mb::Artist> {
    r.artist
}

/// The relationships of a track that name an artist, with the track's id.
pub open spec fn artist_relations(rels: Seq<mb::Relation>, track_id: Uuid) -> Seq<(mb::Relation, Uuid)> {
    filter_map_spec(
        rels,
        |r: mb::Relation|
            if r.artist is Some {
                Some((r, track_id))
            } else {
                None
            },
    )
}

/// The stored artist and relationship made from a relationship that names an
/// artist.
fn relation_outputs(r: &mb::Relation, track_id: Uuid) -> (o: Option<(Artist, ArtistTrackRelation)>)
    ensures
        o is Some <==> r.artist is Some,
        o is Some ==> artist_matches((o->0).0, r.artist->0) && relation_matches((o->0).1, (*r, track_id)),
{
    match &r.artist {
        Some(a) => {
            let artist = artist_from(a);
            let relation = ArtistTrackRelation {
                artist_id: a.id,
                track_id,
                relation_type: relation_type_from(r.type_field.as_str()),
                relation_value: copy_string(&r.type_field),
            };
            Some((artist, relation))
        },
        None => None,
    }
}

/// What the relationships seen so far give, extended by one more.
proof fn lemma_absorb_relation(
    seen: Seq<mb::Relation>,
    r: mb::Relation,
    track_id: Uuid,
    artists: Seq<Artist>,
    relations: Seq<ArtistTrackRelation>,
    o: Option<(Artist, ArtistTrackRelation)>,
)
    requires
        converted(artists, filter_map_spec(seen, |x: mb::Relation| relation_artist(x)), |a: Artist, b: mb::Artist| artist_matches(a, b)),
        converted(relations, artist_relations(seen, track_id), |a: ArtistTrackRelation, b: (mb::Relation, Uuid)| relation_matches(a, b)),
        o is Some <==> r.artist is Some,
        o is Some ==> artist_matches((o->0).0, r.artist->0) && relation_matches((o->0).1, (r, track_id)),
    ensures
        ({
            let (a2, r2) = match o {
                Some(p) => (artists.push(p.0), relations.push(p.1)),
                None => (artists, relations),
            };
            &&& converted(a2, filter_map_spec(seen.push(r), |x: mb::Relation| relation_artist(x)), |a: Artist, b: mb::Artist| artist_matches(a, b))
            &&& converted(r2, artist_relations(seen.push(r), track_id), |a: ArtistTrackRelation, b: (mb::Relation, Uuid)| relation_matches(a, b))
        }),
{
    assert(seen.push(r).drop_last() =~= seen);
    assert(seen.push(r).last() == r);
}

/// The artists and artist relationships of a track's relationships.
pub fn track_relation_outputs(t: &mb::Track) -> (r: (Vec<Artist>, Vec<ArtistTrackRelation>))
    ensures
        converted(r.0@, filter_map_spec(all_relations(*t), |x: mb::Relation| relation_artist(x)), |a: Artist, b: mb::Artist| artist_matches(a, b)),
        converted(r.1@, artist_relations(all_relations(*t), t.id), |a: ArtistTrackRelation, b: (mb::Relation, Uuid)| relation_matches(a, b)),
{
    let direct = &t.recording.relations;
    let ghost work_of = |r: mb::Relation| work_relations(r);
    let mut artists: Vec<Artist> = Vec::new();
    let mut relations: Vec<ArtistTrackRelation> = Vec::new();
    let ghost mut seen: Seq<mb::Relation> = Seq::empty();
    let mut i: usize = 0;
    while i < direct.len()
        invariant
            i <= direct.len(),
            seen == direct@.take(i as int),
            converted(artists@, filter_map_spec(seen, |x: mb::Relation| relation_artist(x)), |a: Artist, b: mb::Artist| artist_matches(a, b)),
            converted(relations@, artist_relations(seen, t.id), |a: ArtistTrackRelation, b: (mb::Relation, Uuid)| relation_matches(a, b)),
        decreases direct.len() - i,
    {
        let o = relation_outputs(&direct[i], t.id);
        proof {
            lemma_absorb_relation(seen, direct@[i as int], t.id, artists@, relations@, o);
            assert(direct@.take(i as int + 1) =~= seen.push(direct@[i as int]));
            seen = seen.push(direct@[i as int]);
        }
        if let Some((a, rel)) = o {
            artists.push(a);
            relations.push(rel);
        }
        i = i + 1;
    }
    assert(direct@.take(direct.len() as int) =~= direct@);
    let mut i: usize = 0;
    while i < direct.len()
        invariant
            i <= direct.len(),
            seen == direct@ + concat(direct@.take(i as int).map_values(work_of)),
            work_of == (|r: mb::Relation| work_relations(r)),
            converted(artists@, filter_map_spec(seen, |x: mb::Relation| relation_artist(x)), |a: Artist, b: mb::Artist| artist_matches(a, b)),
            converted(relations@, artist_relations(seen, t.id), |a: ArtistTrackRelation, b: (mb::Relation, Uuid)| relation_matches(a, b)),
        decreases direct.len() - i,
    {
        let r = &direct[i];
        let ghost before = seen;
        let ghost works = work_relations(*r);
        if relation_type_from(r.type_field.as_str()) == ArtistTrackRelationType::Performance {
            if let Some(w) = &r.work {
                if let Some(v) = &w.relations {
                    let mut j: usize = 0;
                    while j < v.len()
                        invariant
                            j <= v.len(),
                            works == v@,
                            seen == before + v@.take(j as int),
                            converted(artists@, filter_map_spec(seen, |x: mb::Relation| relation_artist(x)), |a: Artist, b: mb::Artist| artist_matches(a, b)),
                            converted(relations@, artist_relations(seen, t.id), |a: ArtistTrackRelation, b: (mb::Relation, Uuid)| relation_matches(a, b)),
                        decreases v.len() - j,
                    {
                        let o = relation_outputs(&v[j], t.id);
                        proof {
                            lemma_absorb_relation(seen, v@[j as int], t.id, artists@, relations@, o);
                            assert(before + v@.take(j as int + 1) =~= seen.push(v@[j as int]));
                            seen = seen.push(v@[j as int]);
                        }
                        if let Some((a, rel)) = o {
                            artists.push(a);
                            relations.push(rel);
                        }
                        j = j + 1;
                    }
                    assert(v@.take(v.len() as int) =~= v@);
                } else {
                    assert(before + works =~= before);
                }
            } else {
                assert(before + works =~= before);
            }
        } else {
            assert(before + works =~= before);
        }
        proof {
            let taken = direct@.take(i as int + 1).map_values(work_of);
            assert(taken.drop_last() =~= direct@.take(i as int).map_values(work_of));
            assert(taken.last() == works);
            assert(seen =~= direct@ + concat(taken));
        }
        i = i + 1;
    }
    assert(direct@.take(direct.len() as int) =~= direct@);
    (artists, relations)
}

/// The credits of a track's recording, none when it lists none.
pub open spec fn track_credits(t: mb::Track) -> Seq<mb::ArtistCredit> {
    match t.recording.artist_credit {
        Some(v) => v@,
        None => Seq::empty(),
    }
}

/// The artists of a list of credits.
pub open spec fn credited_artists(acs: Seq<mb::ArtistCredit>) -> Seq<mb::Artist> {
    acs.map_values(|ac: mb::ArtistCredit| ac.artist)
}

/// Each credit with the id of what it credits.
pub open spec fn credits_of(acs: Seq<mb::ArtistCredit>, owner: Uuid) -> Seq<(mb::ArtistCredit, Uuid)> {
    acs.map_values(|ac: mb::ArtistCredit| (ac, owner))
}

/// The artists a track entry contributes: those credited on its recording,
/// then those its relationships name.
pub open spec fn entry_artists(e: (mb::Track, Uuid)) -> Seq<mb::Artist> {
    credited_artists(track_credits(e.0)) + filter_map_spec(
        all_relations(e.0),
        |x: mb::Relation| relation_artist(x),
    )
}

/// The credits a track entry contributes.
pub open spec fn entry_credits(e: (mb::Track, Uuid)) -> Seq<mb::ArtistCredit> {
    track_credits(e.0)
}

/// The credit-to-track links a track entry contributes.
pub open spec fn entry_credit_tracks(e: (mb::Track, Uuid)) -> Seq<(mb::ArtistCredit, Uuid)> {
    credits_of(track_credits(e.0), e.0.id)
}

/// The artist relationships a track entry contributes.
pub open spec fn entry_relations(e: (mb::Track, Uuid)) -> Seq<(mb::Relation, Uuid)> {
    artist_relations(all_relations(e.0), e.0.id)
}

/// The artists, credits and credit links made from a list of credits of
/// what has the id `owner`.
pub struct CreditRecords<L> {
    pub artists: Vec<Artist>,
    pub credits: Vec<ArtistCredit>,
    pub links: Vec<L>,
}

/// The artists, credits and credit-to-track links of a list of credits of
/// the track with id `track_id`.
pub fn track_credit_records(acs: &Vec<mb::ArtistCredit>, track_id: Uuid) -> (r: CreditRecords<ArtistCreditTrack>)
    ensures
        converted(r.artists@, credited_artists(acs@), |a: Artist, b: mb::Artist| artist_matches(a, b)),
        converted(r.credits@, acs@, |a: ArtistCredit, b: mb::ArtistCredit| credit_matches(a, b)),
        converted(r.links@, credits_of(acs@, track_id), |a: ArtistCreditTrack, b: (mb::ArtistCredit, Uuid)| credit_track_matches(a, b)),
{
    let mut artists: Vec<Artist> = Vec::new();
    let mut credits: Vec<ArtistCredit> = Vec::new();
    let mut links: Vec<ArtistCreditTrack> = Vec::new();
    let mut i: usize = 0;
    while i < acs.len()
        invariant
            i <= acs.len(),
            converted(artists@, credited_artists(acs@.take(i as int)), |a: Artist, b: mb::Artist| artist_matches(a, b)),
            converted(credits@, acs@.take(i as int), |a: ArtistCredit, b: mb::ArtistCredit| credit_matches(a, b)),
            converted(links@, credits_of(acs@.take(i as int), track_id), |a: ArtistCreditTrack, b: (mb::ArtistCredit, Uuid)| credit_track_matches(a, b)),
        decreases acs.len() - i,
    {
        let ac = &acs[i];
        artists.push(artist_from(&ac.artist));
        credits.push(credit_from(ac));
        links.push(ArtistCreditTrack { artist_credit_id: credit_id(ac), track_id });
        assert(acs@.take(i as int + 1) =~= acs@.take(i as int).push(*ac));
        assert(credited_artists(acs@.take(i as int + 1)) =~= credited_artists(acs@.take(i as int)).push(ac.artist));
        assert(credits_of(acs@.take(i as int + 1), track_id) =~= credits_of(acs@.take(i as int), track_id).push((*ac, track_id)));
        i = i + 1;
    }
    assert(acs@.take(acs.len() as int) =~= acs@);
    CreditRecords { artists, credits, links }
}

/// The artists, credits and credit-to-release links of a release's credits.
pub fn release_credit_records(acs: &Vec<mb::ArtistCredit>, release_id: Uuid) -> (r: CreditRecords<ArtistCreditRelease>)
    ensures
        converted(r.artists@, credited_artists(acs@), |a: Artist, b: mb::Artist| artist_matches(a, b)),
        converted(r.credits@, acs@, |a: ArtistCredit, b: mb::ArtistCredit| credit_matches(a, b)),
        converted(r.links@, credits_of(acs@, release_id), |a: ArtistCreditRelease, b: (mb::ArtistCredit, Uuid)| credit_release_matches(a, b)),
{
    let mut artists: Vec<Artist> = Vec::new();
    let mut credits: Vec<ArtistCredit> = Vec::new();
    let mut links: Vec<ArtistCreditRelease> = Vec::new();
    let mut i: usize = 0;
    while i < acs.len()
        invariant
            i <= acs.len(),
            converted(artists@, credited_artists(acs@.take(i as int)), |a: Artist, b: mb::Artist| artist_matches(a, b)),
            converted(credits@, acs@.take(i as int), |a: ArtistCredit, b: mb::ArtistCredit| credit_matches(a, b)),
            converted(links@, credits_of(acs@.take(i as int), release_id), |a: ArtistCreditRelease, b: (mb::ArtistCredit, Uuid)| credit_release_matches(a, b)),
        decreases acs.len() - i,
    {
        let ac = &acs[i];
        artists.push(artist_from(&ac.artist));
        credits.push(credit_from(ac));
        links.push(ArtistCreditRelease { artist_credit_id: credit_id(ac), release_id });
        assert(acs@.take(i as int + 1) =~= acs@.take(i as int).push(*ac));
        assert(credited_artists(acs@.take(i as int + 1)) =~= credited_artists(acs@.take(i as int)).push(ac.artist));
        assert(credits_of(acs@.take(i as int + 1), release_id) =~= credits_of(acs@.take(i as int), release_id).push((*ac, release_id)));
        i = i + 1;
    }
    assert(acs@.take(acs.len() as int) =~= acs@);
    CreditRecords { artists, credits, links }
}

/// The tracks of a medium, none when it lists none.
pub open spec fn medium_tracks(m: mb::Medium) -> Seq<mb::Track> {
    match m.tracks {
        Some(v) => v@,
        None => Seq::empty(),
    }
}

/// Each track of a medium with the medium's id.
pub open spec fn medium_entries(m: mb::Medium) -> Seq<(mb::Track, Uuid)> {
    medium_tracks(m).map_values(|t: mb::Track| (t, m.id->0))
}

/// The tracks of all mediums in order, each with its medium's id.
pub open spec fn track_entries(mediums: Seq<mb::Medium>) -> Seq<(mb::Track, Uuid)> {
    concat(mediums.map_values(|m: mb::Medium| medium_entries(m)))
}

/// The records made from the tracks of a release.
pub struct TrackRecords {
    pub artists: Vec<Artist>,
    pub credits: Vec<ArtistCredit>,
    pub credit_tracks: Vec<ArtistCreditTrack>,
    pub relations: Vec<ArtistTrackRelation>,
    pub tracks: Vec<Track>,
}

/// `records` holds what the track entries `seen` give.
pub open spec fn track_records_of(records: TrackRecords, seen: Seq<(mb::Track, Uuid)>) -> bool {
    &&& converted(records.artists@, concat(seen.map_values(|e: (mb::Track, Uuid)| entry_artists(e))), |a: Artist, b: mb::Artist| artist_matches(a, b))
    &&& converted(records.credits@, concat(seen.map_values(|e: (mb::Track, Uuid)| entry_credits(e))), |a: ArtistCredit, b: mb::ArtistCredit| credit_matches(a, b))
    &&& converted(records.credit_tracks@, concat(seen.map_values(|e: (mb::Track, Uuid)| entry_credit_tracks(e))), |a: ArtistCreditTrack, b: (mb::ArtistCredit, Uuid)| credit_track_matches(a, b))
    &&& converted(records.relations@, concat(seen.map_values(|e: (mb::Track, Uuid)| entry_relations(e))), |a: ArtistTrackRelation, b: (mb::Relation, Uuid)| relation_matches(a, b))
    &&& converted(records.tracks@, seen, |a: Track, b: (mb::Track, Uuid)| track_matches(a, b))
}

proof fn lemma_concat_push<A, B>(seen: Seq<A>, e: A, f: spec_fn(A) -> Seq<B>)
    ensures
        concat(seen.push(e).map_values(f)) == concat(seen.map_values(f)) + f(e),
{
    assert(seen.push(e).map_values(f).drop_last() =~= seen.map_values(f));
}

/// Adds what one track entry gives to the records.
fn add_track(records: &mut TrackRecords, t: &mb::Track, medium_id: Uuid, Ghost(seen): Ghost<Seq<(mb::Track, Uuid)>>)
    requires
        track_records_of(*old(records), seen),
    ensures
        track_records_of(*final(records), seen.push((*t, medium_id))),
{
    let ghost e = (*t, medium_id);
    let empty: Vec<mb::ArtistCredit> = Vec::new();
    let acs = match &t.recording.artist_credit {
        Some(v) => v,
        None => &empty,
    };
    assert(acs@ == track_credits(*t));
    let mut credit_records = track_credit_records(acs, t.id);
    let (mut rel_artists, mut relations) = track_relation_outputs(t);
    proof {
        lemma_concat_push(seen, e, |x: (mb::Track, Uuid)| entry_artists(x));
        lemma_concat_push(seen, e, |x: (mb::Track, Uuid)| entry_credits(x));
        lemma_concat_push(seen, e, |x: (mb::Track, Uuid)| entry_credit_tracks(x));
        lemma_concat_push(seen, e, |x: (mb::Track, Uuid)| entry_relations(x));
        lemma_converted_append(credit_records.artists@, rel_artists@, credited_artists(track_credits(*t)), filter_map_spec(all_relations(*t), |x: mb::Relation| relation_artist(x)), |a: Artist, b: mb::Artist| artist_matches(a, b));
        lemma_converted_append(records.artists@, credit_records.artists@ + rel_artists@, concat(seen.map_values(|x: (mb::Track, Uuid)| entry_artists(x))), entry_artists(e), |a: Artist, b: mb::Artist| artist_matches(a, b));
        lemma_converted_append(records.credits@, credit_records.credits@, concat(seen.map_values(|x: (mb::Track, Uuid)| entry_credits(x))), entry_credits(e), |a: ArtistCredit, b: mb::ArtistCredit| credit_matches(a, b));
        lemma_converted_append(records.credit_tracks@, credit_records.links@, concat(seen.map_values(|x: (mb::Track, Uuid)| entry_credit_tracks(x))), entry_credit_tracks(e), |a: ArtistCreditTrack, b: (mb::ArtistCredit, Uuid)| credit_track_matches(a, b));
        lemma_converted_append(records.relations@, relations@, concat(seen.map_values(|x: (mb::Track, Uuid)| entry_relations(x))), entry_relations(e), |a: ArtistTrackRelation, b: (mb::Relation, Uuid)| relation_matches(a, b));
    }
    let ghost a0 = records.artists@;
    let ghost ca = credit_records.artists@;
    let ghost ra = rel_artists@;
    let ghost t0 = records.tracks@;
    records.artists.append(&mut credit_records.artists);
    records.artists.append(&mut rel_artists);
    records.credits.append(&mut credit_records.credits);
    records.credit_tracks.append(&mut credit_records.links);
    records.relations.append(&mut relations);
    let track = track_from(t, medium_id);
    records.tracks.push(track);
    proof {
        assert(records.artists@ =~= a0 + (ca + ra));
        let rel = |a: Track, b: (mb::Track, Uuid)| track_matches(a, b);
        assert(converted(t0, seen, rel));
        lemma_converted_append(t0, seq![track], seen, seq![e], rel);
        assert(records.tracks@ =~= t0 + seq![track]);
        assert(seen.push(e) =~= seen + seq![e]);
    }
}


/// The mediums of a release, none when it lists none.
pub open spec fn media_list(media: Option<Vec<mb::Medium>>) -> Seq<mb::Medium> {
    match media {
        Some(v) => v@,
        None => Seq::empty(),
    }
}

/// `out` is `src` with every medium given an id: the one it has, or some
/// new one where it has none.
pub open spec fn ids_filled(src: Seq<mb::Medium>, out: Seq<mb::Medium>) -> bool {
    &&& out.len() == src.len()
    &&& forall|i: int|
        0 <= i < out.len() ==> {
            &&& (#[trigger] out[i]).id is Some
            &&& (src[i].id is Some ==> out[i].id == src[i].id)
            &&& out[i] == (mb::Medium { id: out[i].id, ..src[i] })
        }
}

/// Gives every medium an id, a new random one where it has none.
pub fn fill_medium_ids(media: Option<Vec<mb::Medium>>) -> (r: Vec<mb::Medium>)
    ensures
        ids_filled(media_list(media), r@),
{
    let ghost src = media_list(media);
    let mut rest = match media {
        Some(v) => v,
        None => Vec::new(),
    };
    let mut out: Vec<mb::Medium> = Vec::new();
    while rest.len() > 0
        invariant
            out.len() + rest.len() == src.len(),
            rest@ == src.skip(out.len() as int),
            ids_filled(src.take(out.len() as int), out@),
        decreases rest.len(),
    {
        let m = rest.remove(0);
        let id = match m.id {
            Some(x) => x,
            None => new_random_uuid(),
        };
        let ghost k = out.len() as int;
        assert(m == src[k]);
        let filled = mb::Medium { id: Some(id), ..m };
        out.push(filled);
        assert(rest@ =~= src.skip(out.len() as int));
        assert forall|i: int| 0 <= i < out.len() implies {
            &&& (#[trigger] out@[i]).id is Some
            &&& (src.take(out.len() as int)[i].id is Some ==> out@[i].id == src.take(out.len() as int)[i].id)
            &&& out@[i] == (mb::Medium { id: out@[i].id, ..src.take(out.len() as int)[i] })
        } by {
            if i < k {
                assert(src.take(out.len() as int)[i] == src.take(k)[i]);
            }
        }
    }
    assert(src.take(src.len() as int) =~= src);
    out
}

/// The records of the tracks of all mediums, whose ids are known.
pub fn collect_track_records(mediums: &Vec<mb::Medium>) -> (r: TrackRecords)
    requires
        forall|i: int| 0 <= i < mediums.len() ==> (#[trigger] mediums@[i]).id is Some,
    ensures
        track_records_of(r, track_entries(mediums@)),
{
    let mut records = TrackRecords {
        artists: Vec::new(),
        credits: Vec::new(),
        credit_tracks: Vec::new(),
        relations: Vec::new(),
        tracks: Vec::new(),
    };
    let ghost mut seen: Seq<(mb::Track, Uuid)> = Seq::empty();
    proof {
        let empty: Seq<(mb::Track, Uuid)> = Seq::empty();
        assert(empty.map_values(|e: (mb::Track, Uuid)| entry_artists(e)) =~= Seq::<Seq<mb::Artist>>::empty());
        assert(empty.map_values(|e: (mb::Track, Uuid)| entry_credits(e)) =~= Seq::<Seq<mb::ArtistCredit>>::empty());
        assert(empty.map_values(|e: (mb::Track, Uuid)| entry_credit_tracks(e)) =~= Seq::<Seq<(mb::ArtistCredit, Uuid)>>::empty());
        assert(empty.map_values(|e: (mb::Track, Uuid)| entry_relations(e)) =~= Seq::<Seq<(mb::Relation, Uuid)>>::empty());
    }
    let mut mi: usize = 0;
    while mi < mediums.len()
        invariant
            mi <= mediums.len(),
            forall|i: int| 0 <= i < mediums.len() ==> (#[trigger] mediums@[i]).id is Some,
            seen == concat(mediums@.take(mi as int).map_values(|m: mb::Medium| medium_entries(m))),
            track_records_of(records, seen),
        decreases mediums.len() - mi,
    {
        let m = &mediums[mi];
        let medium_id = match m.id {
            Some(x) => x,
            None => 0,
        };
        let ghost before = seen;
        let empty_tracks: Vec<mb::Track> = Vec::new();
        let tracks = match &m.tracks {
            Some(v) => v,
            None => &empty_tracks,
        };
        assert(tracks@ == medium_tracks(*m));
        let mut ti: usize = 0;
        while ti < tracks.len()
            invariant
                ti <= tracks.len(),
                tracks@ == medium_tracks(*m),
                m.id == Some(medium_id),
                seen == before + medium_entries(*m).take(ti as int),
                track_records_of(records, seen),
            decreases tracks.len() - ti,
        {
            add_track(&mut records, &tracks[ti], medium_id, Ghost(seen));
            proof {
                assert(before + medium_entries(*m).take(ti as int + 1) =~= seen.push((tracks@[ti as int], medium_id)));
                seen = seen.push((tracks@[ti as int], medium_id));
            }
            ti = ti + 1;
        }
        proof {
            assert(medium_entries(*m).take(tracks.len() as int) =~= medium_entries(*m));
            let taken = mediums@.take(mi as int + 1).map_values(|m: mb::Medium| medium_entries(m));
            assert(taken.drop_last() =~= mediums@.take(mi as int).map_values(|m: mb::Medium| medium_entries(m)));
        }
        mi = mi + 1;
    }
    assert(mediums@.take(mediums.len() as int) =~= mediums@);
    records
}

/// The strings without repeats: each kept where it first occurs.
pub open spec fn dedup_views(s: Seq<Seq<char>>) -> Seq<Seq<char>>
    decreases s.len(),
{
    if s.len() == 0 {
        Seq::empty()
    } else {
        let d = dedup_views(s.drop_last());
        if d.contains(s.last()) {
            d
        } else {
            d.push(s.last())
        }
    }
}

/// The genre names of the tracks, in order.
pub open spec fn track_genres(tracks: Seq<Track>) -> Seq<Seq<char>> {
    concat(track_genre_lists(tracks))
}

/// The genre names of each track.
pub open spec fn track_genre_lists(tracks: Seq<Track>) -> Seq<Seq<Seq<char>>> {
    tracks.map_values(|t: Track| t.genres@.map_values(|x: String| x@))
}

/// The characters of each string.
pub open spec fn string_views(v: Seq<String>) -> Seq<Seq<char>> {
    v.map_values(|x: String| x@)
}

fn contains_text(v: &Vec<String>, s: &String) -> (r: bool)
    ensures
        r == v@.map_values(|x: String| x@).contains(s@),
{
    let mut i: usize = 0;
    while i < v.len()
        invariant
            i <= v.len(),
            forall|j: int| 0 <= j < i ==> v@[j]@ != s@,
        decreases v.len() - i,
    {
        if crate::text::str_equals(v[i].as_str(), s.as_str()) {
            assert(string_views(v@)[i as int] == s@);
            assert(string_views(v@) == v@.map_values(|x: String| x@));
            return true;
        }
        i = i + 1;
    }
    assert(string_views(v@) == v@.map_values(|x: String| x@));
    assert(!string_views(v@).contains(s@)) by {
        if string_views(v@).contains(s@) {
            let j = choose|j: int| 0 <= j < v@.len() && #[trigger] string_views(v@)[j] == s@;
            assert(v@[j]@ == s@);
        }
    }
    false
}

/// The genre names of the tracks without repeats, each where it first occurs.
pub fn distinct_genres(tracks: &Vec<Track>) -> (r: Vec<String>)
    ensures
        r@.map_values(|x: String| x@) == dedup_views(track_genres(tracks@)),
{
    let ghost all = track_genres(tracks@);
    let mut out: Vec<String> = Vec::new();
    let ghost mut seen: Seq<Seq<char>> = Seq::empty();
    let mut i: usize = 0;
    while i < tracks.len()
        invariant
            i <= tracks.len(),
            seen == concat(tracks@.take(i as int).map_values(|t: Track| t.genres@.map_values(|x: String| x@))),
            out@.map_values(|x: String| x@) == dedup_views(seen),
        decreases tracks.len() - i,
    {
        let genres = &tracks[i].genres;
        let ghost before = seen;
        let mut j: usize = 0;
        while j < genres.len()
            invariant
                j <= genres.len(),
                seen == before + genres@.map_values(|x: String| x@).take(j as int),
                out@.map_values(|x: String| x@) == dedup_views(seen),
            decreases genres.len() - j,
        {
            let g = &genres[j];
            let ghost prev = out@.map_values(|x: String| x@);
            let ghost next = before + genres@.map_values(|x: String| x@).take(j as int + 1);
            assert(next.drop_last() =~= seen);
            assert(next.last() == g@);
            if !contains_text(&out, g) {
                out.push(copy_string(g));
                assert(out@.map_values(|x: String| x@) =~= prev.push(g@));
            }
            proof {
                seen = next;
            }
            j = j + 1;
        }
        proof {
            assert(genres@.map_values(|x: String| x@).take(genres.len() as int) =~= genres@.map_values(|x: String| x@));
            let taken = tracks@.take(i as int + 1).map_values(|t: Track| t.genres@.map_values(|x: String| x@));
            assert(taken.drop_last() =~= tracks@.take(i as int).map_values(|t: Track| t.genres@.map_values(|x: String| x@)));
        }
        i = i + 1;
    }
    assert(tracks@.take(tracks.len() as int) =~= tracks@);
    out
}


/// An optional `i16` as an optional integer.
pub open spec fn opt_int_i16(a: Option<i16>) -> Option<int> {
    match a {
        Some(x) => Some(x as int),
        None => None,
    }
}

/// An optional `i32` as an optional integer.
pub open spec fn opt_int(a: Option<i32>) -> Option<int> {
    match a {
        Some(x) => Some(x as int),
        None => None,
    }
}

/// The first label of a release, if any.
pub open spec fn first_label(r: mb::Release) -> Option<mb::LabelInfo> {
    if r.label_info@.len() > 0 {
        Some(r.label_info@[0])
    } else {
        None
    }
}

/// The date a release group was first released, as text.
pub open spec fn first_release_text(r: mb::Release) -> Option<Seq<char>> {
    match r.release_group {
        Some(g) => opt_view(g.first_release_date),
        None => None,
    }
}

/// The stored release made from a MusicBrainz release, with the given genre
/// names.
pub open spec fn release_matches(out: Release, r: mb::Release, genres: Seq<Seq<char>>) -> bool {
    let date = crate::dates::maybe_date_spec(opt_view(r.date));
    let original = crate::dates::maybe_date_spec(first_release_text(r));
    &&& out.id == r.id
    &&& out.title@ == r.title@
    &&& out.release_group_id == match r.release_group {
        Some(g) => Some(g.id),
        None => None,
    }
    &&& opt_view(out.release_type) == match r.release_group {
        Some(g) => match g.primary_type {
            Some(p) => Some(lowercase_text(p@)),
            None => None,
        },
        None => None,
    }
    &&& string_views(out.genres@) == genres
    &&& opt_view(out.asin) == opt_view(r.asin)
    &&& opt_view(out.country) == opt_view(r.country)
    &&& opt_view(out.label) == match first_label(r) {
        Some(li) => match li.label {
            Some(l) => Some(l.name@),
            None => None,
        },
        None => None,
    }
    &&& opt_view(out.catalog_no) == match first_label(r) {
        Some(li) => opt_view(li.catalog_number),
        None => None,
    }
    &&& opt_view(out.status) == opt_view(r.status)
    &&& opt_int(out.year) == date.0
    &&& opt_int_i16(out.month) == date.1
    &&& opt_int_i16(out.day) == date.2
    &&& opt_int(out.original_year) == original.0
    &&& opt_int_i16(out.original_month) == original.1
    &&& opt_int_i16(out.original_day) == original.2
    &&& opt_view(out.script) == match r.text_representation {
        Some(t) => opt_view(t.script),
        None => None,
    }
    &&& out.path is None
}

fn widen(v: Option<u8>) -> (r: Option<i16>)
    ensures
        opt_int_i16(r) == crate::dates::opt_int_u8(v),
{
    match v {
        Some(x) => Some(x as i16),
        None => None,
    }
}

/// The stored release made from a MusicBrainz release, with no genres yet.
fn release_record(r: &mb::Release) -> (out: Release)
    ensures
        release_matches(out, *r, Seq::empty()),
{
    let date = crate::dates::maybe_date(&r.date);
    let original_text = match &r.release_group {
        Some(g) => copy_opt_string(&g.first_release_date),
        None => None,
    };
    let original = crate::dates::maybe_date(&original_text);
    let release_group_id = match &r.release_group {
        Some(g) => Some(g.id),
        None => None,
    };
    let release_type = match &r.release_group {
        Some(g) => match &g.primary_type {
            Some(p) => Some(to_lowercase(p.as_str())),
            None => None,
        },
        None => None,
    };
    let (label, catalog_no) = if r.label_info.len() > 0 {
        let li = &r.label_info[0];
        let label = match &li.label {
            Some(l) => Some(copy_string(&l.name)),
            None => None,
        };
        (label, copy_opt_string(&li.catalog_number))
    } else {
        (None, None)
    };
    let script = match &r.text_representation {
        Some(t) => copy_opt_string(&t.script),
        None => None,
    };
    let genres: Vec<String> = Vec::new();
    assert(string_views(genres@) =~= Seq::<Seq<char>>::empty());
    Release {
        id: r.id,
        title: copy_string(&r.title),
        release_group_id,
        release_type,
        genres,
        asin: copy_opt_string(&r.asin),
        country: copy_opt_string(&r.country),
        label,
        catalog_no,
        status: copy_opt_string(&r.status),
        year: date.year,
        month: widen(date.month),
        day: widen(date.day),
        original_year: original.year,
        original_month: widen(original.month),
        original_day: widen(original.day),
        script,
        path: None,
    }
}

/// The stored medium made from a MusicBrainz medium whose id is known.
pub fn medium_from(m: &mb::Medium, release_id: Uuid) -> (r: Medium)
    requires
        m.id is Some,
    ensures
        medium_matches(r, (*m, release_id)),
{
    Medium {
        id: match m.id {
            Some(x) => x,
            None => 0,
        },
        release_id,
        position: match m.position {
            Some(p) => p,
            None => 0,
        },
        tracks: m.track_count,
        track_offset: match m.track_offset {
            Some(o) => o,
            None => 0,
        },
        format: copy_opt_string(&m.format),
    }
}

/// Each medium with the release's id.
pub open spec fn mediums_of(ms: Seq<mb::Medium>, release_id: Uuid) -> Seq<(mb::Medium, Uuid)> {
    ms.map_values(|m: mb::Medium| (m, release_id))
}

/// The genre names of the track entries, each track's ordered by count.
pub open spec fn entry_genres(entries: Seq<(mb::Track, Uuid)>) -> Seq<Seq<char>> {
    concat(entry_genre_lists(entries))
}

/// The genre names of each track entry, ordered by count.
pub open spec fn entry_genre_lists(entries: Seq<(mb::Track, Uuid)>) -> Seq<Seq<Seq<char>>> {
    entries.map_values(|e: (mb::Track, Uuid)| sorted_genre_names(recording_genres(e.0)))
}

/// The records made from one MusicBrainz release.
pub struct SearchResult {
    pub artists: Vec<Artist>,
    pub artist_credits: Vec<ArtistCredit>,
    pub release: Release,
    pub mediums: Vec<Medium>,
    pub tracks: Vec<Track>,
    pub artist_track_relations: Vec<ArtistTrackRelation>,
    pub artist_credit_releases: Vec<ArtistCreditRelease>,
    pub artist_credit_tracks: Vec<ArtistCreditTrack>,
}

/// `out` holds the records made from the release `r` once its mediums are
/// `ms` (its mediums, each with an id).
pub open spec fn search_result_matches(out: SearchResult, r: mb::Release, ms: Seq<mb::Medium>) -> bool {
    let entries = track_entries(ms);
    &&& converted(out.artists@, credited_artists(r.artist_credit@) + concat(entries.map_values(|e: (mb::Track, Uuid)| entry_artists(e))), |a: Artist, b: mb::Artist| artist_matches(a, b))
    &&& converted(out.artist_credits@, r.artist_credit@ + concat(entries.map_values(|e: (mb::Track, Uuid)| entry_credits(e))), |a: ArtistCredit, b: mb::ArtistCredit| credit_matches(a, b))
    &&& release_matches(out.release, r, dedup_views(entry_genres(entries)))
    &&& converted(out.mediums@, mediums_of(ms, r.id), |a: Medium, b: (mb::Medium, Uuid)| medium_matches(a, b))
    &&& converted(out.tracks@, entries, |a: Track, b: (mb::Track, Uuid)| track_matches(a, b))
    &&& converted(out.artist_track_relations@, concat(entries.map_values(|e: (mb::Track, Uuid)| entry_relations(e))), |a: ArtistTrackRelation, b: (mb::Relation, Uuid)| relation_matches(a, b))
    &&& converted(out.artist_credit_releases@, credits_of(r.artist_credit@, r.id), |a: ArtistCreditRelease, b: (mb::ArtistCredit, Uuid)| credit_release_matches(a, b))
    &&& converted(out.artist_credit_tracks@, concat(entries.map_values(|e: (mb::Track, Uuid)| entry_credit_tracks(e))), |a: ArtistCreditTrack, b: (mb::ArtistCredit, Uuid)| credit_track_matches(a, b))
}

/// The records made from a release: the mediums are the release's, each
/// given an id where MusicBrainz gives none.
pub open spec fn search_result_of(out: SearchResult, r: mb::Release) -> bool {
    exists|ms: Seq<mb::Medium>| #[trigger] ids_filled(media_list(r.media), ms) && search_result_matches(out, r, ms)
}

proof fn lemma_track_genres(tracks: Seq<Track>, entries: Seq<(mb::Track, Uuid)>)
    requires
        converted(tracks, entries, |a: Track, b: (mb::Track, Uuid)| track_matches(a, b)),
    ensures
        track_genres(tracks) == entry_genres(entries),
{
    let rel = |a: Track, b: (mb::Track, Uuid)| track_matches(a, b);
    assert forall|i: int| 0 <= i < tracks.len() implies #[trigger] track_genre_lists(tracks)[i] == entry_genre_lists(entries)[i] by {
        assert(rel(tracks[i], entries[i]));
    }
    assert(track_genre_lists(tracks) =~= entry_genre_lists(entries));
}

impl SearchResult {
    /// The records made from a MusicBrainz release: the release's credited
    /// artists followed by the artists credited on and related to each track,
    /// the matching credits, the release with the distinct genres of its
    /// tracks, its mediums (given new random ids where they have none), its
    /// tracks in medium order, and the links between them.
    pub fn from(release: mb::Release) -> (r: SearchResult)
        ensures
            search_result_of(r, release),
    {
        let ghost input = release;
        let mut release_credits = release_credit_records(&release.artist_credit, release.id);
        let mut record = release_record(&release);
        let release_id = release.id;
        let mediums = fill_medium_ids(release.media);
        let ghost ms = mediums@;
        let ghost entries = track_entries(ms);
        let mut track_records = collect_track_records(&mediums);
        let genres = distinct_genres(&track_records.tracks);
        proof {
            lemma_track_genres(track_records.tracks@, entries);
        }
        record.genres = genres;
        let mut medium_records: Vec<Medium> = Vec::new();
        let mut i: usize = 0;
        while i < mediums.len()
            invariant
                i <= mediums.len(),
                ms == mediums@,
                forall|k: int| 0 <= k < mediums.len() ==> (#[trigger] mediums@[k]).id is Some,
                converted(medium_records@, mediums_of(mediums@.take(i as int), release_id), |a: Medium, b: (mb::Medium, Uuid)| medium_matches(a, b)),
            decreases mediums.len() - i,
        {
            medium_records.push(medium_from(&mediums[i], release_id));
            assert(mediums_of(mediums@.take(i as int + 1), release_id) =~= mediums_of(mediums@.take(i as int), release_id).push((mediums@[i as int], release_id)));
            i = i + 1;
        }
        assert(mediums@.take(mediums.len() as int) =~= mediums@);
        let ghost ra = release_credits.artists@;
        let ghost rc = release_credits.credits@;
        let ghost ta = track_records.artists@;
        let ghost tc = track_records.credits@;
        release_credits.artists.append(&mut track_records.artists);
        release_credits.credits.append(&mut track_records.credits);
        proof {
            lemma_converted_append(ra, ta, credited_artists(input.artist_credit@), concat(entries.map_values(|e: (mb::Track, Uuid)| entry_artists(e))), |a: Artist, b: mb::Artist| artist_matches(a, b));
            lemma_converted_append(rc, tc, input.artist_credit@, concat(entries.map_values(|e: (mb::Track, Uuid)| entry_credits(e))), |a: ArtistCredit, b: mb::ArtistCredit| credit_matches(a, b));
        }
        let result = SearchResult {
            artists: release_credits.artists,
            artist_credits: release_credits.credits,
            release: record,
            mediums: medium_records,
            tracks: track_records.tracks,
            artist_track_relations: track_records.relations,
            artist_credit_releases: release_credits.links,
            artist_credit_tracks: track_records.credit_tracks,
        };
        assert(ids_filled(media_list(input.media), ms));
        assert(search_result_matches(result, input, ms));
        result
    }
}


/// The records made from several MusicBrainz releases, without repeats.
pub struct CombinedSearchResults {
    pub artists: Vec<Artist>,
    pub artist_credits: Vec<ArtistCredit>,
    pub releases: Vec<Release>,
    pub mediums: Vec<Medium>,
    pub tracks: Vec<Track>,
    pub artist_track_relations: Vec<ArtistTrackRelation>,
    pub artist_credit_releases: Vec<ArtistCreditRelease>,
    pub artist_credit_tracks: Vec<ArtistCreditTrack>,
}

/// The lists of the results, joined in order, with repeats removed.
pub open spec fn combined_matches(out: CombinedSearchResults, rs: Seq<SearchResult>) -> bool {
    &&& out.artists@ == dedup_spec(concat(rs.map_values(|r: SearchResult| r.artists@)))
    &&& out.artist_credits@ == dedup_spec(concat(rs.map_values(|r: SearchResult| r.artist_credits@)))
    &&& out.releases@ == dedup_spec(rs.map_values(|r: SearchResult| r.release))
    &&& out.mediums@ == dedup_spec(concat(rs.map_values(|r: SearchResult| r.mediums@)))
    &&& out.tracks@ == dedup_spec(concat(rs.map_values(|r: SearchResult| r.tracks@)))
    &&& out.artist_track_relations@ == dedup_spec(concat(rs.map_values(|r: SearchResult| r.artist_track_relations@)))
    &&& out.artist_credit_releases@ == dedup_spec(concat(rs.map_values(|r: SearchResult| r.artist_credit_releases@)))
    &&& out.artist_credit_tracks@ == dedup_spec(concat(rs.map_values(|r: SearchResult| r.artist_credit_tracks@)))
}

/// The results made from each release, in order.
pub open spec fn results_of(rs: Seq<SearchResult>, releases: Seq<mb::Release>) -> bool {
    &&& rs.len() == releases.len()
    &&& forall|i: int| 0 <= i < rs.len() ==> #[trigger] search_result_of(rs[i], releases[i])
}

proof fn lemma_concat_step<A>(rs: Seq<SearchResult>, r: SearchResult, f: spec_fn(SearchResult) -> Seq<A>)
    ensures
        concat(rs.push(r).map_values(f)) == concat(rs.map_values(f)) + f(r),
{
    assert(rs.push(r).map_values(f).drop_last() =~= rs.map_values(f));
}

impl CombinedSearchResults {
    /// The records made from each release, each list joined in release order
    /// with repeated records removed.
    pub fn from(musicbrainz_releases: Vec<mb::Release>) -> (r: CombinedSearchResults)
        ensures
            exists|rs: Seq<SearchResult>| #[trigger] results_of(rs, musicbrainz_releases@) && combined_matches(r, rs),
    {
        let ghost src = musicbrainz_releases@;
        let mut rest = musicbrainz_releases;
        let mut artists: Vec<Artist> = Vec::new();
        let mut artist_credits: Vec<ArtistCredit> = Vec::new();
        let mut releases: Vec<Release> = Vec::new();
        let mut mediums: Vec<Medium> = Vec::new();
        let mut tracks: Vec<Track> = Vec::new();
        let mut artist_track_relations: Vec<ArtistTrackRelation> = Vec::new();
        let mut artist_credit_releases: Vec<ArtistCreditRelease> = Vec::new();
        let mut artist_credit_tracks: Vec<ArtistCreditTrack> = Vec::new();
        let ghost mut rs: Seq<SearchResult> = Seq::empty();
        proof {
            assert(rs.map_values(|r: SearchResult| r.artists@) =~= Seq::<Seq<Artist>>::empty());
            assert(rs.map_values(|r: SearchResult| r.artist_credits@) =~= Seq::<Seq<ArtistCredit>>::empty());
            assert(rs.map_values(|r: SearchResult| r.release) =~= Seq::<Release>::empty());
            assert(rs.map_values(|r: SearchResult| r.mediums@) =~= Seq::<Seq<Medium>>::empty());
            assert(rs.map_values(|r: SearchResult| r.tracks@) =~= Seq::<Seq<Track>>::empty());
            assert(rs.map_values(|r: SearchResult| r.artist_track_relations@) =~= Seq::<Seq<ArtistTrackRelation>>::empty());
            assert(rs.map_values(|r: SearchResult| r.artist_credit_releases@) =~= Seq::<Seq<ArtistCreditRelease>>::empty());
            assert(rs.map_values(|r: SearchResult| r.artist_credit_tracks@) =~= Seq::<Seq<ArtistCreditTrack>>::empty());
        }
        while rest.len() > 0
            invariant
                rs.len() <= src.len(),
                rest@ == src.skip(rs.len() as int),
                results_of(rs, src.take(rs.len() as int)),
                artists@ == concat(rs.map_values(|r: SearchResult| r.artists@)),
                artist_credits@ == concat(rs.map_values(|r: SearchResult| r.artist_credits@)),
                releases@ == rs.map_values(|r: SearchResult| r.release),
                mediums@ == concat(rs.map_values(|r: SearchResult| r.mediums@)),
                tracks@ == concat(rs.map_values(|r: SearchResult| r.tracks@)),
                artist_track_relations@ == concat(rs.map_values(|r: SearchResult| r.artist_track_relations@)),
                artist_credit_releases@ == concat(rs.map_values(|r: SearchResult| r.artist_credit_releases@)),
                artist_credit_tracks@ == concat(rs.map_values(|r: SearchResult| r.artist_credit_tracks@)),
            decreases rest.len(),
        {
            let release = rest.remove(0);
            let ghost k = rs.len() as int;
            assert(release == src[k]);
            let mut result = SearchResult::from(release);
            proof {
                lemma_concat_step(rs, result, |r: SearchResult| r.artists@);
                lemma_concat_step(rs, result, |r: SearchResult| r.artist_credits@);
                lemma_concat_step(rs, result, |r: SearchResult| r.mediums@);
                lemma_concat_step(rs, result, |r: SearchResult| r.tracks@);
                lemma_concat_step(rs, result, |r: SearchResult| r.artist_track_relations@);
                lemma_concat_step(rs, result, |r: SearchResult| r.artist_credit_releases@);
                lemma_concat_step(rs, result, |r: SearchResult| r.artist_credit_tracks@);
                assert(rs.push(result).map_values(|r: SearchResult| r.release) =~= rs.map_values(|r: SearchResult| r.release).push(result.release));
                assert(src.take(k + 1) =~= src.take(k).push(src[k]));
                assert forall|i: int| 0 <= i < rs.push(result).len() implies #[trigger] search_result_of(rs.push(result)[i], src.take(k + 1)[i]) by {
                    if i < k {
                        assert(search_result_of(rs[i], src.take(k)[i]));
                    }
                }
            }
            let ghost snapshot = result;
            artists.append(&mut result.artists);
            artist_credits.append(&mut result.artist_credits);
            mediums.append(&mut result.mediums);
            tracks.append(&mut result.tracks);
            artist_track_relations.append(&mut result.artist_track_relations);
            artist_credit_releases.append(&mut result.artist_credit_releases);
            artist_credit_tracks.append(&mut result.artist_credit_tracks);
            releases.push(result.release);
            proof {
                rs = rs.push(snapshot);
            }
            assert(rest@ =~= src.skip(rs.len() as int));
        }
        assert(src.take(src.len() as int) =~= src);
        let out = CombinedSearchResults {
            artists: crate::dedup::dedup(artists),
            artist_credits: crate::dedup::dedup(artist_credits),
            releases: crate::dedup::dedup(releases),
            mediums: crate::dedup::dedup(mediums),
            tracks: crate::dedup::dedup(tracks),
            artist_track_relations: crate::dedup::dedup(artist_track_relations),
            artist_credit_releases: crate::dedup::dedup(artist_credit_releases),
            artist_credit_tracks: crate::dedup::dedup(artist_credit_tracks),
        };
        assert(results_of(rs, src) && combined_matches(out, rs));
        out
    }
}

/// Each stored medium of a converted release is the release's medium at the
/// same place: it belongs to the release, keeps the medium's id where
/// MusicBrainz gives one, and takes its position (0 when absent), its track
/// count, its track offset (0 when absent) and its format.
pub proof fn lemma_mediums_from_release(out: SearchResult, r: mb::Release)
    requires
        search_result_of(out, r),
    ensures
        out.mediums@.len() == media_list(r.media).len(),
        forall|i: int|
            0 <= i < out.mediums@.len() ==> {
                let m = #[trigger] media_list(r.media)[i];
                let o = out.mediums@[i];
                &&& o.release_id == r.id
                &&& (m.id matches Some(id) ==> o.id == id)
                &&& o.position == match m.position {
                    Some(p) => p,
                    None => 0i32,
                }
                &&& o.track_offset == match m.track_offset {
                    Some(t) => t,
                    None => 0i32,
                }
                &&& o.tracks == m.track_count
                &&& opt_view(o.format) == opt_view(m.format)
            },
{
    let ms = choose|ms: Seq<mb::Medium>| #[trigger] ids_filled(media_list(r.media), ms) && search_result_matches(out, r, ms);
    assert forall|i: int| 0 <= i < out.mediums@.len() implies {
        let m = #[trigger] media_list(r.media)[i];
        let o = out.mediums@[i];
        &&& o.release_id == r.id
        &&& (m.id matches Some(id) ==> o.id == id)
        &&& o.position == match m.position {
            Some(p) => p,
            None => 0i32,
        }
        &&& o.track_offset == match m.track_offset {
            Some(t) => t,
            None => 0i32,
        }
        &&& o.tracks == m.track_count
        &&& opt_view(o.format) == opt_view(m.format)
    } by {
        let rel = |a: Medium, b: (mb::Medium, Uuid)| medium_matches(a, b);
        assert(rel(out.mediums@[i], mediums_of(ms, r.id)[i]));
        assert(mediums_of(ms, r.id)[i] == (ms[i], r.id));
        assert(ms[i] == (mb::Medium { id: ms[i].id, ..media_list(r.media)[i] }));
    }
}

} // verus!
