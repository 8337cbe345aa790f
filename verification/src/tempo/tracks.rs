//! Tracks: the includes a request for tracks passes on to related resources.
use vstd::prelude::*;
use crate::names::contains_member;
use crate::documents::{MediumInclude, TrackInclude};
use crate::seqs::{converted, filter_map_spec, lemma_converted_append};
use crate::documents::{Meta, ResourceType, TrackAttributes, TrackRelation};
use crate::entity::{ArtistCredit, ArtistTrackRelation, GenreTrack, Medium, Track, TrackFormat, Uuid};
use crate::jsonapi::{Relation, Relationship, Resource};
use crate::resources::{
    credited_link, genre_link, is_credit_meta, is_genre_meta, is_multi, is_recording_meta, is_single,
    is_string_link, is_uuid_link, link_meta, recording_link, uuid_link, Link,
};
use crate::text::{copy_string, opt_view, to_owned_string};

verus! {

/// The include of a related resource that `i` stands for, if any.
pub open spec fn mediums_include_for(i: TrackInclude) -> Option<MediumInclude> {
    match i {
        TrackInclude::MediumRelease => Some(MediumInclude::Release),
        TrackInclude::MediumReleaseArtists => Some(MediumInclude::ReleaseArtists),
        TrackInclude::MediumReleaseGenres => Some(MediumInclude::ReleaseGenres),
        _ => None,
    }
}

fn mediums_include_for_exec(i: TrackInclude) -> (r: Option<MediumInclude>)
    ensures
        r == mediums_include_for(i),
{
    match i {
        TrackInclude::MediumRelease => Some(MediumInclude::Release),
        TrackInclude::MediumReleaseArtists => Some(MediumInclude::ReleaseArtists),
        TrackInclude::MediumReleaseGenres => Some(MediumInclude::ReleaseGenres),
        _ => None,
    }
}

/// The includes of the mediums of tracks that a request for tracks asks for.
pub fn map_to_mediums_include(includes: &[TrackInclude]) -> (r: Vec<MediumInclude>)
    ensures
        r@ == filter_map_spec(includes@, |i: TrackInclude| mediums_include_for(i)),
{
    let mut out: Vec<MediumInclude> = Vec::new();
    let mut k: usize = 0;
    while k < includes.len()
        invariant
            k <= includes.len(),
            out@ == filter_map_spec(includes@.take(k as int), |i: TrackInclude| mediums_include_for(i)),
        decreases includes.len() - k,
    {
        assert(includes@.take(k as int + 1).drop_last() =~= includes@.take(k as int));
        if let Some(x) = mediums_include_for_exec(includes[k]) {
            out.push(x);
        }
        k = k + 1;
    }
    assert(includes@.take(includes.len() as int) =~= includes@);
    out
}

/// References to the credited artists.
pub(crate) fn artist_links(items: &Vec<ArtistCredit>) -> (r: Vec<Link>)
    ensures
        converted(r@, items@, |l: Link, x: ArtistCredit| is_uuid_link(l, ResourceType::Artist, x.artist_id) && is_credit_meta(link_meta(l), opt_view(x.join_phrase))),
{
    let ghost rel = |l: Link, x: ArtistCredit| is_uuid_link(l, ResourceType::Artist, x.artist_id) && is_credit_meta(link_meta(l), opt_view(x.join_phrase));
    let mut out: Vec<Link> = Vec::new();
    let mut i: usize = 0;
    while i < items.len()
        invariant
            i <= items.len(),
            rel == (|l: Link, x: ArtistCredit| is_uuid_link(l, ResourceType::Artist, x.artist_id) && is_credit_meta(link_meta(l), opt_view(x.join_phrase))),
            converted(out@, items@.take(i as int), rel),
        decreases items.len() - i,
    {
        let x = &items[i];
        let link = credited_link(ResourceType::Artist, x.artist_id, &x.join_phrase);
        proof {
            lemma_converted_append(out@, seq![link], items@.take(i as int), seq![items@[i as int]], rel);
            assert(items@.take(i as int + 1) =~= items@.take(i as int) + seq![items@[i as int]]);
        }
        out.push(link);
        i = i + 1;
    }
    assert(items@.take(items.len() as int) =~= items@);
    out
}

/// References to the artists who took part in the recording.
fn recorder_links(items: &Vec<ArtistTrackRelation>) -> (r: Vec<Link>)
    ensures
        converted(r@, items@, |l: Link, x: ArtistTrackRelation| is_uuid_link(l, ResourceType::Artist, x.artist_id) && is_recording_meta(link_meta(l), x.relation_type, x.relation_value@)),
{
    let ghost rel = |l: Link, x: ArtistTrackRelation| is_uuid_link(l, ResourceType::Artist, x.artist_id) && is_recording_meta(link_meta(l), x.relation_type, x.relation_value@);
    let mut out: Vec<Link> = Vec::new();
    let mut i: usize = 0;
    while i < items.len()
        invariant
            i <= items.len(),
            rel == (|l: Link, x: ArtistTrackRelation| is_uuid_link(l, ResourceType::Artist, x.artist_id) && is_recording_meta(link_meta(l), x.relation_type, x.relation_value@)),
            converted(out@, items@.take(i as int), rel),
        decreases items.len() - i,
    {
        let x = &items[i];
        let link = recording_link(ResourceType::Artist, x.artist_id, x.relation_type, &x.relation_value);
        proof {
            lemma_converted_append(out@, seq![link], items@.take(i as int), seq![items@[i as int]], rel);
            assert(items@.take(i as int + 1) =~= items@.take(i as int) + seq![items@[i as int]]);
        }
        out.push(link);
        i = i + 1;
    }
    assert(items@.take(items.len() as int) =~= items@);
    out
}

/// References to the genres of the track.
fn genre_links(items: &Vec<GenreTrack>) -> (r: Vec<Link>)
    ensures
        converted(r@, items@, |l: Link, x: GenreTrack| is_string_link(l, ResourceType::Genre, x.genre_id@) && is_genre_meta(link_meta(l), x.cnt)),
{
    let ghost rel = |l: Link, x: GenreTrack| is_string_link(l, ResourceType::Genre, x.genre_id@) && is_genre_meta(link_meta(l), x.cnt);
    let mut out: Vec<Link> = Vec::new();
    let mut i: usize = 0;
    while i < items.len()
        invariant
            i <= items.len(),
            rel == (|l: Link, x: GenreTrack| is_string_link(l, ResourceType::Genre, x.genre_id@) && is_genre_meta(link_meta(l), x.cnt)),
            converted(out@, items@.take(i as int), rel),
        decreases items.len() - i,
    {
        let x = &items[i];
        let link = genre_link(ResourceType::Genre, &x.genre_id, x.cnt);
        proof {
            lemma_converted_append(out@, seq![link], items@.take(i as int), seq![items@[i as int]], rel);
            assert(items@.take(i as int + 1) =~= items@.take(i as int) + seq![items@[i as int]]);
        }
        out.push(link);
        i = i + 1;
    }
    assert(items@.take(items.len() as int) =~= items@);
    out
}

/// A track as a resource of the public API.
pub type TrackResource = Resource<ResourceType, Uuid, TrackAttributes, TrackRelation, Meta>;

/// The records related to a track: its credits, its medium, the artists who
/// took part in the recording, and its genres.
pub struct TrackRelated {
    pub artist_credits: Vec<ArtistCredit>,
    pub medium: Option<Medium>,
    pub recorders: Vec<ArtistTrackRelation>,
    pub genres: Vec<GenreTrack>,
}

/// The kinds of relationships a track resource has: artists, recorders and
/// genres when there are any, and its medium when it has one.
pub open spec fn track_relation_keys(related: TrackRelated) -> Seq<TrackRelation> {
    (if related.artist_credits@.len() > 0 { seq![TrackRelation::Artists] } else { Seq::empty() })
        + (if related.recorders@.len() > 0 { seq![TrackRelation::Recorders] } else { Seq::empty() })
        + (if related.genres@.len() > 0 { seq![TrackRelation::Genres] } else { Seq::empty() })
        + (if related.medium is Some { seq![TrackRelation::Medium] } else { Seq::empty() })
}

/// The relationship of kind `key` holds the references the related records
/// give for it.
pub open spec fn track_relationship_ok(key: TrackRelation, r: Relationship<ResourceType, Meta>, related: TrackRelated) -> bool {
    match key {
        TrackRelation::Artists => is_multi(r, related.artist_credits@, |l: Link, x: ArtistCredit| is_uuid_link(l, ResourceType::Artist, x.artist_id) && is_credit_meta(link_meta(l), opt_view(x.join_phrase))),
        TrackRelation::Recorders => is_multi(r, related.recorders@, |l: Link, x: ArtistTrackRelation| is_uuid_link(l, ResourceType::Artist, x.artist_id) && is_recording_meta(link_meta(l), x.relation_type, x.relation_value@)),
        TrackRelation::Genres => is_multi(r, related.genres@, |l: Link, x: GenreTrack| is_string_link(l, ResourceType::Genre, x.genre_id@) && is_genre_meta(link_meta(l), x.cnt)),
        TrackRelation::Medium => related.medium is Some && is_single(r, |l: Link| is_uuid_link(l, ResourceType::Medium, related.medium->0.id) && link_meta(l) is None),
    }
}

/// The track `entity` as a resource, with the relationships the related records give it.
pub open spec fn track_resource_ok(r: TrackResource, entity: Track, related: TrackRelated) -> bool {
    &&& r.resource_type == ResourceType::Track
    &&& r.id == entity.id
    &&& r.attributes.title@ == entity.title@
    &&& r.attributes.track == entity.number
    &&& r.attributes.disc == match related.medium {
        Some(m) => Some(m.position),
        None => None,
    }
    &&& r.attributes.bpm is None
    &&& r.attributes.recording_mbid == entity.recording_id
    &&& r.attributes.track_mbid == entity.id
    &&& r.attributes.comments is None
    &&& opt_view(r.attributes.mimetype) == match entity.format {
        Some(f) => Some(f.mime_spec()),
        None => None,
    }
    &&& r.attributes.duration == entity.length
    &&& r.attributes.framerate is None && r.attributes.framecount is None && r.attributes.channels is None
    &&& r.attributes.bitrate is None && r.attributes.bitdepth is None && r.attributes.size is None
    &&& r.meta is None
    &&& r.relationships@.map_values(|p: (TrackRelation, Relationship<ResourceType, Meta>)| p.0) == track_relation_keys(related)
    &&& forall|i: int| 0 <= i < r.relationships@.len() ==> #[trigger] track_relationship_ok(r.relationships@[i].0, r.relationships@[i].1, related)
}

/// The track as a resource: its title, number, disc, identifiers, media
/// type and duration, and its relationships to credited artists, recording
/// artists, genres and its medium, each present only when there is one.
pub fn entity_to_resource(entity: &Track, related: &TrackRelated) -> (r: TrackResource)
    ensures
        track_resource_ok(r, *entity, *related),

{
    let mut relationships: Vec<(TrackRelation, Relationship<ResourceType, Meta>)> = Vec::new();
    if related.artist_credits.len() > 0 {
        relationships.push((TrackRelation::Artists, Relationship { data: Relation::Multi(artist_links(&related.artist_credits)) }));
    }
    if related.recorders.len() > 0 {
        relationships.push((TrackRelation::Recorders, Relationship { data: Relation::Multi(recorder_links(&related.recorders)) }));
    }
    if related.genres.len() > 0 {
        relationships.push((TrackRelation::Genres, Relationship { data: Relation::Multi(genre_links(&related.genres)) }));
    }
    let disc = match &related.medium {
        Some(m) => {
            relationships.push((TrackRelation::Medium, Relationship { data: Relation::Single(uuid_link(ResourceType::Medium, m.id)) }));
            Some(m.position)
        },
        None => None,
    };
    proof {
        assert(relationships@.map_values(|p: (TrackRelation, Relationship<ResourceType, Meta>)| p.0) =~= track_relation_keys(*related));
    }
    let mimetype = match entity.format {
        Some(f) => Some(to_owned_string(f.mime_type())),
        None => None,
    };
    Resource {
        resource_type: ResourceType::Track,
        id: entity.id,
        attributes: TrackAttributes {
            title: copy_string(&entity.title),
            track: entity.number,
            disc,
            bpm: None,
            recording_mbid: entity.recording_id,
            track_mbid: entity.id,
            comments: None,
            mimetype,
            duration: entity.length,
            framerate: None,
            framecount: None,
            channels: None,
            bitrate: None,
            bitdepth: None,
            size: None,
        },
        relationships,
        meta: None,
    }
}

/// Which related resources a request for tracks loads and includes, and
/// the includes it passes on to those it loads.
pub struct TrackIncludedPlan {
    pub artists: bool,
    pub medium: bool,
    pub recorders: bool,
    pub genres: bool,
    pub mediums_include: Vec<MediumInclude>,
}

/// The related resources a request for tracks with the given includes
/// loads: each named one, with the includes passed on to it.
pub fn included_plan(includes: &[TrackInclude]) -> (r: TrackIncludedPlan)
    ensures
        r.artists == includes@.contains(TrackInclude::Artists),
        r.medium == includes@.contains(TrackInclude::Medium),
        r.recorders == includes@.contains(TrackInclude::Recorders),
        r.genres == includes@.contains(TrackInclude::Genres),
        r.mediums_include@ == filter_map_spec(includes@, |i: TrackInclude| mediums_include_for(i)),
{
    TrackIncludedPlan {
        artists: contains_member(includes, TrackInclude::Artists),
        medium: contains_member(includes, TrackInclude::Medium),
        recorders: contains_member(includes, TrackInclude::Recorders),
        genres: contains_member(includes, TrackInclude::Genres),
        mediums_include: map_to_mediums_include(includes),
    }
}

} // verus!
