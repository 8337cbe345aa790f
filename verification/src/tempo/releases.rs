//! Releases: the includes a request for releases passes on to related resources.
use vstd::prelude::*;
use crate::names::contains_member;
use crate::documents::{MediumInclude, ReleaseInclude};
use crate::seqs::{converted, filter_map_spec, lemma_converted_append};
use crate::documents::{Meta, ReleaseAttributes, ReleaseRelation, ResourceType};
use crate::entity::{ArtistCredit, ImageRelease, Medium, Release, Uuid};
use crate::jsonapi::{Relation, Relationship, Resource};
use crate::resources::{
    is_credit_meta, is_multi, is_single, is_string_link, is_uuid_link, link_meta, string_link,
    uuid_link, Link,
};
use crate::tempo::tracks::artist_links;
use crate::text::{copy_opt_string, copy_string, opt_view};

verus! {

/// The include of a related resource that `i` stands for, if any.
pub open spec fn mediums_include_for(i: ReleaseInclude) -> Option<MediumInclude> {
    match i {
        ReleaseInclude::MediumsTracks => Some(MediumInclude::Tracks),
        ReleaseInclude::MediumsTracksArtists => Some(MediumInclude::TracksArtists),
        _ => None,
    }
}

fn mediums_include_for_exec(i: ReleaseInclude) -> (r: Option<MediumInclude>)
    ensures
        r == mediums_include_for(i),
{
    match i {
        ReleaseInclude::MediumsTracks => Some(MediumInclude::Tracks),
        ReleaseInclude::MediumsTracksArtists => Some(MediumInclude::TracksArtists),
        _ => None,
    }
}

/// The includes of the mediums of releases that a request for releases asks for.
pub fn map_to_mediums_include(includes: &[ReleaseInclude]) -> (r: Vec<MediumInclude>)
    ensures
        r@ == filter_map_spec(includes@, |i: ReleaseInclude| mediums_include_for(i)),
{
    let mut out: Vec<MediumInclude> = Vec::new();
    let mut k: usize = 0;
    while k < includes.len()
        invariant
            k <= includes.len(),
            out@ == filter_map_spec(includes@.take(k as int), |i: ReleaseInclude| mediums_include_for(i)),
        decreases includes.len() - k,
    {
        assert(includes@.take(k as int + 1).drop_last() =~= includes@.take(k as int));
        if let Some(x) = mediums_include_for_exec(includes[k]) {
            out.push(x);
        }
        k = k + 1;
    }
    assert(includes@.take(includes.len() as int) =~= includes@);
    out
}

/// Which related resources a request for releases loads and includes, and
/// the includes it passes on to those it loads.
pub struct ReleaseIncludedPlan {
    pub image: bool,
    pub artists: bool,
    pub mediums: bool,
    pub mediums_include: Vec<MediumInclude>,
}

/// The related resources a request for releases with the given includes
/// loads: each named one, with the includes passed on to it.
pub fn included_plan(includes: &[ReleaseInclude]) -> (r: ReleaseIncludedPlan)
    ensures
        r.image == includes@.contains(ReleaseInclude::Image),
        r.artists == includes@.contains(ReleaseInclude::Artists),
        r.mediums == includes@.contains(ReleaseInclude::Mediums),
        r.mediums_include@ == filter_map_spec(includes@, |i: ReleaseInclude| mediums_include_for(i)),
{
    ReleaseIncludedPlan {
        image: contains_member(includes, ReleaseInclude::Image),
        artists: contains_member(includes, ReleaseInclude::Artists),
        mediums: contains_member(includes, ReleaseInclude::Mediums),
        mediums_include: map_to_mediums_include(includes),
    }
}

/// A release as a resource of the public API.
pub type ReleaseResource = Resource<ResourceType, Uuid, ReleaseAttributes, ReleaseRelation, Meta>;

/// The records related to a release: its cover image, if any, its credits
/// and its mediums.
pub struct ReleaseRelated {
    pub image: Option<ImageRelease>,
    pub artist_credits: Vec<ArtistCredit>,
    pub mediums: Vec<Medium>,
}

/// The number of tracks on the mediums, added up in order.
pub open spec fn tracks_total(mediums: Seq<Medium>) -> int
    decreases mediums.len(),
{
    if mediums.len() == 0 {
        0
    } else {
        tracks_total(mediums.drop_last()) + mediums.last().tracks
    }
}

/// Each running total of the tracks on the mediums fits in an `i32`.
pub open spec fn tracks_total_fits(mediums: Seq<Medium>) -> bool {
    forall|k: int| 0 <= k <= mediums.len() ==> i32::MIN <= #[trigger] tracks_total(mediums.take(k)) <= i32::MAX
}

fn count_tracks(mediums: &Vec<Medium>) -> (r: i32)
    requires
        tracks_total_fits(mediums@),
    ensures
        r == tracks_total(mediums@),
{
    let mut acc: i32 = 0;
    let mut i: usize = 0;
    while i < mediums.len()
        invariant
            i <= mediums.len(),
            tracks_total_fits(mediums@),
            acc == tracks_total(mediums@.take(i as int)),
        decreases mediums.len() - i,
    {
        assert(mediums@.take(i as int + 1).drop_last() =~= mediums@.take(i as int));
        assert(i32::MIN <= tracks_total(mediums@.take(i as int + 1)) <= i32::MAX);
        acc = acc + mediums[i].tracks;
        i = i + 1;
    }
    assert(mediums@.take(mediums.len() as int) =~= mediums@);
    acc
}

/// References to the mediums of the release.
fn medium_links(items: &Vec<Medium>) -> (r: Vec<Link>)
    ensures
        converted(r@, items@, |l: Link, x: Medium| is_uuid_link(l, ResourceType::Medium, x.id) && link_meta(l) is None),
{
    let ghost rel = |l: Link, x: Medium| is_uuid_link(l, ResourceType::Medium, x.id) && link_meta(l) is None;
    let mut out: Vec<Link> = Vec::new();
    let mut i: usize = 0;
    while i < items.len()
        invariant
            i <= items.len(),
            rel == (|l: Link, x: Medium| is_uuid_link(l, ResourceType::Medium, x.id) && link_meta(l) is None),
            converted(out@, items@.take(i as int), rel),
        decreases items.len() - i,
    {
        let link = uuid_link(ResourceType::Medium, items[i].id);
        proof {
            lemma_converted_append(out@, seq![link], items@.take(i as int), seq![items@[i as int]], rel);
            assert(items@.take(i as int + 1) =~= items@.take(i as int) + seq![items@[i as int]]);
        }
        out.push(link);
        i = i + 1;
    }
    assert(items@.take(items.len() as int) =~= items@);
    out
}

/// The kinds of relationships a release resource has: its artists and
/// mediums when there are any, and its image when it has one.
pub open spec fn release_relation_keys(related: ReleaseRelated) -> Seq<ReleaseRelation> {
    (if related.artist_credits@.len() > 0 { seq![ReleaseRelation::Artists] } else { Seq::empty() })
        + (if related.mediums@.len() > 0 { seq![ReleaseRelation::Mediums] } else { Seq::empty() })
        + (if related.image is Some { seq![ReleaseRelation::Image] } else { Seq::empty() })
}

/// The relationship of kind `key` holds the references the related records
/// give for it.
pub open spec fn release_relationship_ok(key: ReleaseRelation, r: Relationship<ResourceType, Meta>, related: ReleaseRelated) -> bool {
    match key {
        ReleaseRelation::Artists => is_multi(r, related.artist_credits@, |l: Link, x: ArtistCredit| is_uuid_link(l, ResourceType::Artist, x.artist_id) && is_credit_meta(link_meta(l), opt_view(x.join_phrase))),
        ReleaseRelation::Mediums => is_multi(r, related.mediums@, |l: Link, x: Medium| is_uuid_link(l, ResourceType::Medium, x.id) && link_meta(l) is None),
        ReleaseRelation::Image => related.image is Some && is_single(r, |l: Link| is_string_link(l, ResourceType::Image, related.image->0.image_id@) && link_meta(l) is None),
        ReleaseRelation::Genres => false,
    }
}

/// The release `entity` as a resource, with the relationships the related records give it.
pub open spec fn release_resource_ok(r: ReleaseResource, entity: Release, related: ReleaseRelated) -> bool {
    &&& r.resource_type == ResourceType::Release
    &&& r.id == entity.id
    &&& r.attributes.title@ == entity.title@
    &&& r.attributes.disctotal == related.mediums@.len() as i32
    &&& r.attributes.tracktotal == tracks_total(related.mediums@)
    &&& r.attributes.year == entity.year
    &&& r.attributes.month == entity.month
    &&& r.attributes.day == entity.day
    &&& r.attributes.original_year == entity.year
    &&& r.attributes.original_month == entity.month
    &&& r.attributes.original_day == entity.day
    &&& opt_view(r.attributes.release_type) == opt_view(entity.release_type)
    &&& r.attributes.release_mbid == entity.id
    &&& r.attributes.release_group_mbid == entity.release_group_id
    &&& r.meta is None
    &&& r.relationships@.map_values(|p: (ReleaseRelation, Relationship<ResourceType, Meta>)| p.0) == release_relation_keys(related)
    &&& forall|i: int| 0 <= i < r.relationships@.len() ==> #[trigger] release_relationship_ok(r.relationships@[i].0, r.relationships@[i].1, related)
}

/// The release as a resource: its title, counts of discs and tracks, date,
/// type and identifiers, and its relationships to credited artists, its
/// mediums and its cover image, each present only when there is one. The
/// original date fields repeat the release date.
pub fn entity_to_resource(entity: &Release, related: &ReleaseRelated) -> (r: ReleaseResource)
    requires
        tracks_total_fits(related.mediums@),
    ensures
        release_resource_ok(r, *entity, *related),

{
    let mut relationships: Vec<(ReleaseRelation, Relationship<ResourceType, Meta>)> = Vec::new();
    if related.artist_credits.len() > 0 {
        relationships.push((ReleaseRelation::Artists, Relationship { data: Relation::Multi(artist_links(&related.artist_credits)) }));
    }
    if related.mediums.len() > 0 {
        relationships.push((ReleaseRelation::Mediums, Relationship { data: Relation::Multi(medium_links(&related.mediums)) }));
    }
    if let Some(img) = &related.image {
        relationships.push((ReleaseRelation::Image, Relationship { data: Relation::Single(string_link(ResourceType::Image, &img.image_id)) }));
    }
    proof {
        assert(relationships@.map_values(|p: (ReleaseRelation, Relationship<ResourceType, Meta>)| p.0) =~= release_relation_keys(*related));
    }
    Resource {
        resource_type: ResourceType::Release,
        id: entity.id,
        attributes: ReleaseAttributes {
            title: copy_string(&entity.title),
            disctotal: related.mediums.len() as i32,
            tracktotal: count_tracks(&related.mediums),
            year: entity.year,
            month: entity.month,
            day: entity.day,
            original_year: entity.year,
            original_month: entity.month,
            original_day: entity.day,
            release_type: copy_opt_string(&entity.release_type),
            release_mbid: entity.id,
            release_group_mbid: entity.release_group_id,
        },
        relationships,
        meta: None,
    }
}

} // verus!
