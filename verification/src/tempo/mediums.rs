//! Mediums: the includes a request for mediums passes on to related resources.
use vstd::prelude::*;
use crate::names::contains_member;
use crate::documents::{MediumInclude, ReleaseInclude, TrackInclude};
use crate::seqs::{converted, filter_map_spec, lemma_converted_append};
use crate::documents::{MediumAttributes, MediumRelation, Meta, ResourceType};
use crate::entity::{Medium, Release, Track, Uuid};
use crate::jsonapi::{Relation, Relationship, Resource};
use crate::resources::{is_multi, is_single, is_uuid_link, link_meta, uuid_link, Link};
use crate::text::{copy_opt_string, opt_view};

verus! {

/// The include of a related resource that `i` stands for, if any.
pub open spec fn tracks_include_for(i: MediumInclude) -> Option<TrackInclude> {
    match i {
        MediumInclude::TracksArtists => Some(TrackInclude::Artists),
        _ => None,
    }
}

fn tracks_include_for_exec(i: MediumInclude) -> (r: Option<TrackInclude>)
    ensures
        r == tracks_include_for(i),
{
    match i {
        MediumInclude::TracksArtists => Some(TrackInclude::Artists),
        _ => None,
    }
}

/// The includes of the tracks of mediums that a request for mediums asks for.
pub fn map_to_tracks_include(includes: &[MediumInclude]) -> (r: Vec<TrackInclude>)
    ensures
        r@ == filter_map_spec(includes@, |i: MediumInclude| tracks_include_for(i)),
{
    let mut out: Vec<TrackInclude> = Vec::new();
    let mut k: usize = 0;
    while k < includes.len()
        invariant
            k <= includes.len(),
            out@ == filter_map_spec(includes@.take(k as int), |i: MediumInclude| tracks_include_for(i)),
        decreases includes.len() - k,
    {
        assert(includes@.take(k as int + 1).drop_last() =~= includes@.take(k as int));
        if let Some(x) = tracks_include_for_exec(includes[k]) {
            out.push(x);
        }
        k = k + 1;
    }
    assert(includes@.take(includes.len() as int) =~= includes@);
    out
}

/// The include of a related resource that `i` stands for, if any.
pub open spec fn release_include_for(i: MediumInclude) -> Option<ReleaseInclude> {
    match i {
        MediumInclude::ReleaseArtists => Some(ReleaseInclude::Artists),
        _ => None,
    }
}

fn release_include_for_exec(i: MediumInclude) -> (r: Option<ReleaseInclude>)
    ensures
        r == release_include_for(i),
{
    match i {
        MediumInclude::ReleaseArtists => Some(ReleaseInclude::Artists),
        _ => None,
    }
}

/// The includes of the release of mediums that a request for mediums asks for.
pub fn map_to_release_include(includes: &[MediumInclude]) -> (r: Vec<ReleaseInclude>)
    ensures
        r@ == filter_map_spec(includes@, |i: MediumInclude| release_include_for(i)),
{
    let mut out: Vec<ReleaseInclude> = Vec::new();
    let mut k: usize = 0;
    while k < includes.len()
        invariant
            k <= includes.len(),
            out@ == filter_map_spec(includes@.take(k as int), |i: MediumInclude| release_include_for(i)),
        decreases includes.len() - k,
    {
        assert(includes@.take(k as int + 1).drop_last() =~= includes@.take(k as int));
        if let Some(x) = release_include_for_exec(includes[k]) {
            out.push(x);
        }
        k = k + 1;
    }
    assert(includes@.take(includes.len() as int) =~= includes@);
    out
}

/// Which related resources a request for mediums loads and includes, and
/// the includes it passes on to those it loads.
pub struct MediumIncludedPlan {
    pub release: bool,
    pub tracks: bool,
    pub release_include: Vec<ReleaseInclude>,
    pub tracks_include: Vec<TrackInclude>,
}

/// The related resources a request for mediums with the given includes
/// loads: each named one, with the includes passed on to it.
pub fn included_plan(includes: &[MediumInclude]) -> (r: MediumIncludedPlan)
    ensures
        r.release == includes@.contains(MediumInclude::Release),
        r.tracks == includes@.contains(MediumInclude::Tracks),
        r.release_include@ == filter_map_spec(includes@, |i: MediumInclude| release_include_for(i)),
        r.tracks_include@ == filter_map_spec(includes@, |i: MediumInclude| tracks_include_for(i)),
{
    MediumIncludedPlan {
        release: contains_member(includes, MediumInclude::Release),
        tracks: contains_member(includes, MediumInclude::Tracks),
        release_include: map_to_release_include(includes),
        tracks_include: map_to_tracks_include(includes),
    }
}

/// A medium as a resource of the public API.
pub type MediumResource = Resource<ResourceType, Uuid, MediumAttributes, MediumRelation, Meta>;

/// The records related to a medium: its release, if known, and its tracks.
pub struct MediumRelated {
    pub release: Option<Release>,
    pub tracks: Vec<Track>,
}

/// References to the tracks of the medium.
fn track_links(items: &Vec<Track>) -> (r: Vec<Link>)
    ensures
        converted(r@, items@, |l: Link, x: Track| is_uuid_link(l, ResourceType::Track, x.id) && link_meta(l) is None),
{
    let ghost rel = |l: Link, x: Track| is_uuid_link(l, ResourceType::Track, x.id) && link_meta(l) is None;
    let mut out: Vec<Link> = Vec::new();
    let mut i: usize = 0;
    while i < items.len()
        invariant
            i <= items.len(),
            rel == (|l: Link, x: Track| is_uuid_link(l, ResourceType::Track, x.id) && link_meta(l) is None),
            converted(out@, items@.take(i as int), rel),
        decreases items.len() - i,
    {
        let link = uuid_link(ResourceType::Track, items[i].id);
        proof {
            lemma_converted_append(out@, seq![link], items@.take(i as int), seq![items@[i as int]], rel);
            assert(items@.take(i as int + 1) =~= items@.take(i as int) + seq![items@[i as int]]);
        }
        out.push(link);
        i = i + 1;
    }
    assert(items@.take(items.len() as int) =~= items@);
    out
}

/// The kinds of relationships a medium resource has: its release when it
/// has one, and its tracks when there are any.
pub open spec fn medium_relation_keys(related: MediumRelated) -> Seq<MediumRelation> {
    (if related.release is Some { seq![MediumRelation::Release] } else { Seq::empty() })
        + (if related.tracks@.len() > 0 { seq![MediumRelation::Tracks] } else { Seq::empty() })
}

/// The relationship of kind `key` holds the references the related records
/// give for it.
pub open spec fn medium_relationship_ok(key: MediumRelation, r: Relationship<ResourceType, Meta>, related: MediumRelated) -> bool {
    match key {
        MediumRelation::Release => related.release is Some && is_single(r, |l: Link| is_uuid_link(l, ResourceType::Release, related.release->0.id) && link_meta(l) is None),
        MediumRelation::Tracks => is_multi(r, related.tracks@, |l: Link, x: Track| is_uuid_link(l, ResourceType::Track, x.id) && link_meta(l) is None),
    }
}

/// The medium `entity` as a resource, with the relationships the related records give it.
pub open spec fn medium_resource_ok(r: MediumResource, entity: Medium, related: MediumRelated) -> bool {
    &&& r.resource_type == ResourceType::Medium
    &&& r.id == entity.id
    &&& r.attributes.position == entity.position
    &&& r.attributes.tracks == entity.tracks
    &&& r.attributes.track_offset == entity.track_offset
    &&& opt_view(r.attributes.format) == opt_view(entity.format)
    &&& r.meta is None
    &&& r.relationships@.map_values(|p: (MediumRelation, Relationship<ResourceType, Meta>)| p.0) == medium_relation_keys(related)
    &&& forall|i: int| 0 <= i < r.relationships@.len() ==> #[trigger] medium_relationship_ok(r.relationships@[i].0, r.relationships@[i].1, related)
}

/// The medium as a resource: its position, track count, offset and format,
/// and its relationships to its release and its tracks, each present only
/// when there is one.
pub fn entity_to_resource(entity: &Medium, related: &MediumRelated) -> (r: MediumResource)
    ensures
        medium_resource_ok(r, *entity, *related),

{
    let mut relationships: Vec<(MediumRelation, Relationship<ResourceType, Meta>)> = Vec::new();
    if let Some(rel) = &related.release {
        relationships.push((MediumRelation::Release, Relationship { data: Relation::Single(uuid_link(ResourceType::Release, rel.id)) }));
    }
    if related.tracks.len() > 0 {
        relationships.push((MediumRelation::Tracks, Relationship { data: Relation::Multi(track_links(&related.tracks)) }));
    }
    proof {
        assert(relationships@.map_values(|p: (MediumRelation, Relationship<ResourceType, Meta>)| p.0) =~= medium_relation_keys(*related));
    }
    Resource {
        resource_type: ResourceType::Medium,
        id: entity.id,
        attributes: MediumAttributes {
            position: entity.position,
            tracks: entity.tracks,
            track_offset: entity.track_offset,
            format: copy_opt_string(&entity.format),
        },
        relationships,
        meta: None,
    }
}

} // verus!
