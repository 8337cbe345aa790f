//! Genres: the related resources a request for genres loads.
use vstd::prelude::*;
use crate::names::contains_member;
use crate::documents::GenreInclude;
use crate::seqs::{converted, lemma_converted_append};
use crate::documents::{GenreAttributes, GenreRelation, Meta, ResourceType};
use crate::entity::{Genre, GenreRelease, GenreTrack};
use crate::jsonapi::{Relation, Relationship, Resource};
use crate::resources::{is_genre_meta, is_multi, is_uuid_link, link_meta, uuid_link, Link};
use crate::jsonapi::{Related, ResourceIdentifier};
use crate::text::copy_string;

verus! {

/// Which related resources a request for genres loads and includes, and
/// the includes it passes on to those it loads.
pub struct GenreIncludedPlan {
    pub tracks: bool,
    pub releases: bool,
}

/// The related resources a request for genres with the given includes
/// loads: each named one, with the includes passed on to it.
pub fn included_plan(includes: &[GenreInclude]) -> (r: GenreIncludedPlan)
    ensures
        r.tracks == includes@.contains(GenreInclude::Tracks),
        r.releases == includes@.contains(GenreInclude::Releases),
{
    GenreIncludedPlan {
        tracks: contains_member(includes, GenreInclude::Tracks),
        releases: contains_member(includes, GenreInclude::Releases),
    }
}

/// A genre as a resource of the public API.
pub type GenreResource = Resource<ResourceType, String, GenreAttributes, GenreRelation, Meta>;

/// The records related to a genre: the tracks and releases it is given to.
pub struct GenreRelated {
    pub tracks: Vec<GenreTrack>,
    pub releases: Vec<GenreRelease>,
}

/// References to the tracks of the genre, each with how often the genre was
/// given to it.
fn track_links(items: &Vec<GenreTrack>) -> (r: Vec<Link>)
    ensures
        converted(r@, items@, |l: Link, x: GenreTrack| is_uuid_link(l, ResourceType::Track, x.track_id) && is_genre_meta(link_meta(l), x.cnt)),
{
    let ghost rel = |l: Link, x: GenreTrack| is_uuid_link(l, ResourceType::Track, x.track_id) && is_genre_meta(link_meta(l), x.cnt);
    let mut out: Vec<Link> = Vec::new();
    let mut i: usize = 0;
    while i < items.len()
        invariant
            i <= items.len(),
            rel == (|l: Link, x: GenreTrack| is_uuid_link(l, ResourceType::Track, x.track_id) && is_genre_meta(link_meta(l), x.cnt)),
            converted(out@, items@.take(i as int), rel),
        decreases items.len() - i,
    {
        let link = Related::Uuid(
            ResourceIdentifier {
                resource_type: ResourceType::Track,
                id: items[i].track_id,
                meta: Some(Meta::Genre(crate::documents::GenreMetaAttributes { count: items[i].cnt })),
            },
        );
        proof {
            lemma_converted_append(out@, seq![link], items@.take(i as int), seq![items@[i as int]], rel);
            assert(items@.take(i as int + 1) =~= items@.take(i as int) + seq![items@[i as int]]);
        }
        out.push(link);
        i = i + 1;
    }
    assert(items@.take(items.len() as int) =~= items@);
    out
}

/// References to the releases of the genre.
fn release_links(items: &Vec<GenreRelease>) -> (r: Vec<Link>)
    ensures
        converted(r@, items@, |l: Link, x: GenreRelease| is_uuid_link(l, ResourceType::Release, x.release_id) && link_meta(l) is None),
{
    let ghost rel = |l: Link, x: GenreRelease| is_uuid_link(l, ResourceType::Release, x.release_id) && link_meta(l) is None;
    let mut out: Vec<Link> = Vec::new();
    let mut i: usize = 0;
    while i < items.len()
        invariant
            i <= items.len(),
            rel == (|l: Link, x: GenreRelease| is_uuid_link(l, ResourceType::Release, x.release_id) && link_meta(l) is None),
            converted(out@, items@.take(i as int), rel),
        decreases items.len() - i,
    {
        let link = uuid_link(ResourceType::Release, items[i].release_id);
        proof {
            lemma_converted_append(out@, seq![link], items@.take(i as int), seq![items@[i as int]], rel);
            assert(items@.take(i as int + 1) =~= items@.take(i as int) + seq![items@[i as int]]);
        }
        out.push(link);
        i = i + 1;
    }
    assert(items@.take(items.len() as int) =~= items@);
    out
}

/// The kinds of relationships a genre resource has: tracks and releases,
/// each when there are any.
pub open spec fn genre_relation_keys(related: GenreRelated) -> Seq<GenreRelation> {
    (if related.tracks@.len() > 0 { seq![GenreRelation::Tracks] } else { Seq::empty() })
        + (if related.releases@.len() > 0 { seq![GenreRelation::Releases] } else { Seq::empty() })
}

/// The relationship of kind `key` holds the references the related records
/// give for it.
pub open spec fn genre_relationship_ok(key: GenreRelation, r: Relationship<ResourceType, Meta>, related: GenreRelated) -> bool {
    match key {
        GenreRelation::Tracks => is_multi(r, related.tracks@, |l: Link, x: GenreTrack| is_uuid_link(l, ResourceType::Track, x.track_id) && is_genre_meta(link_meta(l), x.cnt)),
        GenreRelation::Releases => is_multi(r, related.releases@, |l: Link, x: GenreRelease| is_uuid_link(l, ResourceType::Release, x.release_id) && link_meta(l) is None),
    }
}

/// The genre as a resource: its name and disambiguation, and its
/// relationships to its tracks and releases, each present only when there
/// is one.
pub fn entity_to_resource(entity: &Genre, related: &GenreRelated) -> (r: GenreResource)
    ensures
        r.resource_type == ResourceType::Genre,
        r.id@ == entity.id@,
        r.attributes.name@ == entity.name@,
        r.attributes.disambiguation@ == entity.disambiguation@,
        r.meta is None,
        r.relationships@.map_values(|p: (GenreRelation, Relationship<ResourceType, Meta>)| p.0) == genre_relation_keys(*related),
        forall|i: int| 0 <= i < r.relationships@.len() ==> #[trigger] genre_relationship_ok(r.relationships@[i].0, r.relationships@[i].1, *related),
{
    let mut relationships: Vec<(GenreRelation, Relationship<ResourceType, Meta>)> = Vec::new();
    if related.tracks.len() > 0 {
        relationships.push((GenreRelation::Tracks, Relationship { data: Relation::Multi(track_links(&related.tracks)) }));
    }
    if related.releases.len() > 0 {
        relationships.push((GenreRelation::Releases, Relationship { data: Relation::Multi(release_links(&related.releases)) }));
    }
    proof {
        assert(relationships@.map_values(|p: (GenreRelation, Relationship<ResourceType, Meta>)| p.0) =~= genre_relation_keys(*related));
    }
    Resource {
        resource_type: ResourceType::Genre,
        id: copy_string(&entity.id),
        attributes: GenreAttributes {
            name: copy_string(&entity.name),
            disambiguation: copy_string(&entity.disambiguation),
        },
        relationships,
        meta: None,
    }
}

} // verus!
