//! Artists: the includes a request for artists passes on to related resources.
use vstd::prelude::*;
use crate::names::contains_member;
use crate::documents::{ArtistInclude, ReleaseInclude};
use crate::seqs::{concat, converted, filter_map_spec, lemma_converted_append};
use crate::documents::{ArtistAttributes, ArtistRelation, Meta, ResourceType};
use crate::entity::{
    Artist, ArtistCredit, ArtistCreditRelease, ArtistCreditTrack, ArtistTrackRelation, ArtistUrl,
    ArtistUrlType, ImageArtist, Uuid,
};
use crate::jsonapi::{Relation, Relationship, Resource};
use crate::resources::{
    credited_link, is_credit_meta, is_multi, is_recording_meta, is_string_link, is_uuid_link,
    link_meta, recording_link, string_link, Link,
};
use crate::text::{copy_opt_string, copy_string, opt_view};

verus! {

/// The include of a related resource that `i` stands for, if any.
pub open spec fn releases_include_for(i: ArtistInclude) -> Option<ReleaseInclude> {
    match i {
        ArtistInclude::ReleasesArtists => Some(ReleaseInclude::Artists),
        _ => None,
    }
}

fn releases_include_for_exec(i: ArtistInclude) -> (r: Option<ReleaseInclude>)
    ensures
        r == releases_include_for(i),
{
    match i {
        ArtistInclude::ReleasesArtists => Some(ReleaseInclude::Artists),
        _ => None,
    }
}

/// The includes of the releases of artists that a request for artists asks for.
pub fn map_to_releases_include(includes: &[ArtistInclude]) -> (r: Vec<ReleaseInclude>)
    ensures
        r@ == filter_map_spec(includes@, |i: ArtistInclude| releases_include_for(i)),
{
    let mut out: Vec<ReleaseInclude> = Vec::new();
    let mut k: usize = 0;
    while k < includes.len()
        invariant
            k <= includes.len(),
            out@ == filter_map_spec(includes@.take(k as int), |i: ArtistInclude| releases_include_for(i)),
        decreases includes.len() - k,
    {
        assert(includes@.take(k as int + 1).drop_last() =~= includes@.take(k as int));
        if let Some(x) = releases_include_for_exec(includes[k]) {
            out.push(x);
        }
        k = k + 1;
    }
    assert(includes@.take(includes.len() as int) =~= includes@);
    out
}

/// An artist as a resource of the public API.
pub type ArtistResource = Resource<ResourceType, Uuid, ArtistAttributes, ArtistRelation, Meta>;

/// The records related to an artist: its links, images, recordings, the
/// credits it appears under and, for each credit at the same position, the
/// releases and tracks credited.
pub struct ArtistRelated {
    pub relations: Vec<ArtistUrl>,
    pub images: Vec<ImageArtist>,
    pub recordings: Vec<ArtistTrackRelation>,
    pub artist_credits: Vec<ArtistCredit>,
    pub releases: Vec<Vec<ArtistCreditRelease>>,
    pub tracks: Vec<Vec<ArtistCreditTrack>>,
}

/// The releases credited to the artist, each with its credit's join phrase,
/// credit by credit.
pub open spec fn credited_releases(related: ArtistRelated) -> Seq<(Uuid, Option<Seq<char>>)> {
    concat(
        Seq::new(
            related.artist_credits@.len(),
            |i: int|
                related.releases@[i]@.map_values(
                    |x: ArtistCreditRelease| (x.release_id, opt_view(related.artist_credits@[i].join_phrase)),
                ),
        ),
    )
}

/// The tracks credited to the artist, each with its credit's join phrase,
/// credit by credit.
pub open spec fn credited_tracks(related: ArtistRelated) -> Seq<(Uuid, Option<Seq<char>>)> {
    concat(
        Seq::new(
            related.artist_credits@.len(),
            |i: int|
                related.tracks@[i]@.map_values(
                    |x: ArtistCreditTrack| (x.track_id, opt_view(related.artist_credits@[i].join_phrase)),
                ),
        ),
    )
}

/// The kinds of relationships an artist resource has: images, recordings,
/// releases and tracks, each only when there is one.
pub open spec fn artist_relation_keys(related: ArtistRelated) -> Seq<ArtistRelation> {
    (if related.images@.len() > 0 { seq![ArtistRelation::Images] } else { Seq::empty() })
        + (if related.recordings@.len() > 0 { seq![ArtistRelation::Recordings] } else { Seq::empty() })
        + (if credited_releases(related).len() > 0 { seq![ArtistRelation::Releases] } else { Seq::empty() })
        + (if credited_tracks(related).len() > 0 { seq![ArtistRelation::Tracks] } else { Seq::empty() })
}

/// The relationship of kind `key` holds the references the related records
/// give for it.
pub open spec fn artist_relationship_ok(key: ArtistRelation, r: Relationship<ResourceType, Meta>, related: ArtistRelated) -> bool {
    match key {
        ArtistRelation::Images => is_multi(r, related.images@, |l: Link, i: ImageArtist| is_string_link(l, ResourceType::Image, i.image_id@) && link_meta(l) is None),
        ArtistRelation::Recordings => is_multi(r, related.recordings@, |l: Link, x: ArtistTrackRelation| is_uuid_link(l, ResourceType::Track, x.track_id) && is_recording_meta(link_meta(l), x.relation_type, x.relation_value@)),
        ArtistRelation::Releases => is_multi(r, credited_releases(related), |l: Link, x: (Uuid, Option<Seq<char>>)| is_uuid_link(l, ResourceType::Release, x.0) && is_credit_meta(link_meta(l), x.1)),
        ArtistRelation::Tracks => is_multi(r, credited_tracks(related), |l: Link, x: (Uuid, Option<Seq<char>>)| is_uuid_link(l, ResourceType::Track, x.0) && is_credit_meta(link_meta(l), x.1)),
        _ => false,
    }
}

fn image_links(images: &Vec<ImageArtist>) -> (r: Vec<Link>)
    ensures
        converted(r@, images@, |l: Link, i: ImageArtist| is_string_link(l, ResourceType::Image, i.image_id@) && link_meta(l) is None),
{
    let ghost rel = |l: Link, i: ImageArtist| is_string_link(l, ResourceType::Image, i.image_id@) && link_meta(l) is None;
    let mut out: Vec<Link> = Vec::new();
    let mut i: usize = 0;
    while i < images.len()
        invariant
            i <= images.len(),
            rel == (|l: Link, i: ImageArtist| is_string_link(l, ResourceType::Image, i.image_id@) && link_meta(l) is None),
            converted(out@, images@.take(i as int), rel),
        decreases images.len() - i,
    {
        let link = string_link(ResourceType::Image, &images[i].image_id);
        proof {
            lemma_converted_append(out@, seq![link], images@.take(i as int), seq![images@[i as int]], rel);
            assert(images@.take(i as int + 1) =~= images@.take(i as int) + seq![images@[i as int]]);
        }
        out.push(link);
        i = i + 1;
    }
    assert(images@.take(images.len() as int) =~= images@);
    out
}

fn recording_links(recordings: &Vec<ArtistTrackRelation>) -> (r: Vec<Link>)
    ensures
        converted(r@, recordings@, |l: Link, x: ArtistTrackRelation| is_uuid_link(l, ResourceType::Track, x.track_id) && is_recording_meta(link_meta(l), x.relation_type, x.relation_value@)),
{
    let ghost rel = |l: Link, x: ArtistTrackRelation| is_uuid_link(l, ResourceType::Track, x.track_id) && is_recording_meta(link_meta(l), x.relation_type, x.relation_value@);
    let mut out: Vec<Link> = Vec::new();
    let mut i: usize = 0;
    while i < recordings.len()
        invariant
            i <= recordings.len(),
            rel == (|l: Link, x: ArtistTrackRelation| is_uuid_link(l, ResourceType::Track, x.track_id) && is_recording_meta(link_meta(l), x.relation_type, x.relation_value@)),
            converted(out@, recordings@.take(i as int), rel),
        decreases recordings.len() - i,
    {
        let x = &recordings[i];
        let link = recording_link(ResourceType::Track, x.track_id, x.relation_type, &x.relation_value);
        proof {
            lemma_converted_append(out@, seq![link], recordings@.take(i as int), seq![recordings@[i as int]], rel);
            assert(recordings@.take(i as int + 1) =~= recordings@.take(i as int) + seq![recordings@[i as int]]);
        }
        out.push(link);
        i = i + 1;
    }
    assert(recordings@.take(recordings.len() as int) =~= recordings@);
    out
}

/// The references to the releases and to the tracks credited to the artist,
/// credit by credit.
fn credit_links(related: &ArtistRelated) -> (r: (Vec<Link>, Vec<Link>))
    requires
        related.releases@.len() >= related.artist_credits@.len(),
        related.tracks@.len() >= related.artist_credits@.len(),
    ensures
        converted(r.0@, credited_releases(*related), |l: Link, x: (Uuid, Option<Seq<char>>)| is_uuid_link(l, ResourceType::Release, x.0) && is_credit_meta(link_meta(l), x.1)),
        converted(r.1@, credited_tracks(*related), |l: Link, x: (Uuid, Option<Seq<char>>)| is_uuid_link(l, ResourceType::Track, x.0) && is_credit_meta(link_meta(l), x.1)),
{
    let ghost rel_r = |l: Link, x: (Uuid, Option<Seq<char>>)| is_uuid_link(l, ResourceType::Release, x.0) && is_credit_meta(link_meta(l), x.1);
    let ghost rel_t = |l: Link, x: (Uuid, Option<Seq<char>>)| is_uuid_link(l, ResourceType::Track, x.0) && is_credit_meta(link_meta(l), x.1);
    let ghost per_r = |i: int|
        related.releases@[i]@.map_values(
            |x: ArtistCreditRelease| (x.release_id, opt_view(related.artist_credits@[i].join_phrase)),
        );
    let ghost per_t = |i: int|
        related.tracks@[i]@.map_values(
            |x: ArtistCreditTrack| (x.track_id, opt_view(related.artist_credits@[i].join_phrase)),
        );
    let credits = &related.artist_credits;
    let mut releases: Vec<Link> = Vec::new();
    let mut tracks: Vec<Link> = Vec::new();
    let mut i: usize = 0;
    assert(Seq::new(0, per_r) =~= Seq::<Seq<(Uuid, Option<Seq<char>>)>>::empty());
    assert(Seq::new(0, per_t) =~= Seq::<Seq<(Uuid, Option<Seq<char>>)>>::empty());
    while i < credits.len()
        invariant
            i <= credits.len(),
            credits@ == related.artist_credits@,
            related.releases@.len() >= credits@.len(),
            related.tracks@.len() >= credits@.len(),
            rel_r == (|l: Link, x: (Uuid, Option<Seq<char>>)| is_uuid_link(l, ResourceType::Release, x.0) && is_credit_meta(link_meta(l), x.1)),
            rel_t == (|l: Link, x: (Uuid, Option<Seq<char>>)| is_uuid_link(l, ResourceType::Track, x.0) && is_credit_meta(link_meta(l), x.1)),
            per_r == (|i: int| related.releases@[i]@.map_values(|x: ArtistCreditRelease| (x.release_id, opt_view(related.artist_credits@[i].join_phrase)))),
            per_t == (|i: int| related.tracks@[i]@.map_values(|x: ArtistCreditTrack| (x.track_id, opt_view(related.artist_credits@[i].join_phrase)))),
            converted(releases@, concat(Seq::new(i as nat, per_r)), rel_r),
            converted(tracks@, concat(Seq::new(i as nat, per_t)), rel_t),
        decreases credits.len() - i,
    {
        let join = &credits[i].join_phrase;
        let rs = &related.releases[i];
        let ghost before_r = releases@;
        let mut j: usize = 0;
        while j < rs.len()
            invariant
                j <= rs.len(),
                rs@ == related.releases@[i as int]@,
                *join == related.artist_credits@[i as int].join_phrase,
                rel_r == (|l: Link, x: (Uuid, Option<Seq<char>>)| is_uuid_link(l, ResourceType::Release, x.0) && is_credit_meta(link_meta(l), x.1)),
                per_r == (|i: int| related.releases@[i]@.map_values(|x: ArtistCreditRelease| (x.release_id, opt_view(related.artist_credits@[i].join_phrase)))),
                converted(releases@, concat(Seq::new(i as nat, per_r)) + per_r(i as int).take(j as int), rel_r),
            decreases rs.len() - j,
        {
            let link = credited_link(ResourceType::Release, rs[j].release_id, join);
            proof {
                let src = concat(Seq::new(i as nat, per_r)) + per_r(i as int).take(j as int);
                lemma_converted_append(releases@, seq![link], src, seq![per_r(i as int)[j as int]], rel_r);
                assert(concat(Seq::new(i as nat, per_r)) + per_r(i as int).take(j as int + 1) =~= src + seq![per_r(i as int)[j as int]]);
            }
            releases.push(link);
            j = j + 1;
        }
        let ts = &related.tracks[i];
        let mut j: usize = 0;
        while j < ts.len()
            invariant
                j <= ts.len(),
                ts@ == related.tracks@[i as int]@,
                *join == related.artist_credits@[i as int].join_phrase,
                rel_t == (|l: Link, x: (Uuid, Option<Seq<char>>)| is_uuid_link(l, ResourceType::Track, x.0) && is_credit_meta(link_meta(l), x.1)),
                per_t == (|i: int| related.tracks@[i]@.map_values(|x: ArtistCreditTrack| (x.track_id, opt_view(related.artist_credits@[i].join_phrase)))),
                converted(tracks@, concat(Seq::new(i as nat, per_t)) + per_t(i as int).take(j as int), rel_t),
            decreases ts.len() - j,
        {
            let link = credited_link(ResourceType::Track, ts[j].track_id, join);
            proof {
                let src = concat(Seq::new(i as nat, per_t)) + per_t(i as int).take(j as int);
                lemma_converted_append(tracks@, seq![link], src, seq![per_t(i as int)[j as int]], rel_t);
                assert(concat(Seq::new(i as nat, per_t)) + per_t(i as int).take(j as int + 1) =~= src + seq![per_t(i as int)[j as int]]);
            }
            tracks.push(link);
            j = j + 1;
        }
        proof {
            assert(per_r(i as int).take(rs.len() as int) =~= per_r(i as int));
            assert(per_t(i as int).take(ts.len() as int) =~= per_t(i as int));
            assert(Seq::new(i as nat + 1, per_r).drop_last() =~= Seq::new(i as nat, per_r));
            assert(Seq::new(i as nat + 1, per_t).drop_last() =~= Seq::new(i as nat, per_t));
        }
        i = i + 1;
    }
    (releases, tracks)
}

/// The address of the last link of the given kind, if there is one.
pub open spec fn last_url_of(rels: Seq<ArtistUrl>, t: ArtistUrlType) -> Option<Seq<char>>
    decreases rels.len(),
{
    if rels.len() == 0 {
        None
    } else if rels.last().url_type == t {
        Some(rels.last().url@)
    } else {
        last_url_of(rels.drop_last(), t)
    }
}

/// The links of an artist collected into a map from kind to address: one
/// entry for each kind of link, holding the address of the last link of
/// that kind; entries in the order their kinds first appear.
pub open spec fn is_url_map(urls: Seq<(ArtistUrlType, String)>, rels: Seq<ArtistUrl>) -> bool {
    &&& forall|j: int, k: int| 0 <= j < k < urls.len() ==> #[trigger] urls[j].0 != #[trigger] urls[k].0
    &&& forall|j: int| 0 <= j < urls.len() ==> last_url_of(rels, #[trigger] urls[j].0) == Some(urls[j].1@)
    &&& forall|i: int| 0 <= i < rels.len() ==> exists|j: int| 0 <= j < urls.len() && #[trigger] urls[j].0 == #[trigger] rels[i].url_type
}

/// The links of an artist as a map from kind to address: a later link of a
/// kind replaces the address of an earlier one.
fn url_map(relations: &Vec<ArtistUrl>) -> (r: Vec<(ArtistUrlType, String)>)
    ensures
        is_url_map(r@, relations@),
{
    let mut out: Vec<(ArtistUrlType, String)> = Vec::new();
    let mut i: usize = 0;
    assert(relations@.take(0) =~= Seq::<ArtistUrl>::empty());
    while i < relations.len()
        invariant
            i <= relations.len(),
            is_url_map(out@, relations@.take(i as int)),
        decreases relations.len() - i,
    {
        let ghost before = relations@.take(i as int);
        let ghost after = relations@.take(i as int + 1);
        assert(after.drop_last() =~= before);
        assert(after.last() == relations@[i as int]);
        let kind = relations[i].url_type;
        let mut j: usize = 0;
        while j < out.len()
            invariant
                j <= out.len(),
                forall|k: int| 0 <= k < j ==> out@[k].0 != kind,
            ensures
                j <= out.len(),
                forall|k: int| 0 <= k < j ==> out@[k].0 != kind,
                j < out.len() ==> out@[j as int].0 == kind,
            decreases out.len() - j,
        {
            if out[j].0 == kind {
                break;
            }
            j = j + 1;
        }
        let ghost old_out = out@;
        if j < out.len() {
            out.set(j, (kind, copy_string(&relations[i].url)));
            assert forall|a: int, b: int| 0 <= a < b < out@.len() implies #[trigger] out@[a].0 != #[trigger] out@[b].0 by {
                assert(out@[a].0 == old_out[a].0);
                assert(out@[b].0 == old_out[b].0);
            }
            assert forall|a: int| 0 <= a < out@.len() implies last_url_of(after, #[trigger] out@[a].0) == Some(out@[a].1@) by {
                if a != j as int {
                    assert(out@[a] == old_out[a]);
                    assert(old_out[a].0 != old_out[j as int].0);
                }
            }
            assert forall|k: int| 0 <= k < after.len() implies exists|a: int| 0 <= a < out@.len() && #[trigger] out@[a].0 == #[trigger] after[k].url_type by {
                if k < before.len() {
                    assert(after[k] == before[k]);
                    let a = choose|a: int| 0 <= a < old_out.len() && #[trigger] old_out[a].0 == #[trigger] before[k].url_type;
                    assert(out@[a].0 == old_out[a].0);
                } else {
                    assert(out@[j as int].0 == after[k].url_type);
                }
            }
        } else {
            out.push((kind, copy_string(&relations[i].url)));
            assert forall|a: int, b: int| 0 <= a < b < out@.len() implies #[trigger] out@[a].0 != #[trigger] out@[b].0 by {
                if b == out@.len() - 1 {
                    assert(out@[a] == old_out[a]);
                } else {
                    assert(out@[a] == old_out[a]);
                    assert(out@[b] == old_out[b]);
                }
            }
            assert forall|a: int| 0 <= a < out@.len() implies last_url_of(after, #[trigger] out@[a].0) == Some(out@[a].1@) by {
                if a < old_out.len() {
                    assert(out@[a] == old_out[a]);
                }
            }
            assert forall|k: int| 0 <= k < after.len() implies exists|a: int| 0 <= a < out@.len() && #[trigger] out@[a].0 == #[trigger] after[k].url_type by {
                if k < before.len() {
                    assert(after[k] == before[k]);
                    let a = choose|a: int| 0 <= a < old_out.len() && #[trigger] old_out[a].0 == #[trigger] before[k].url_type;
                    assert(out@[a] == old_out[a]);
                } else {
                    assert(out@[old_out.len() as int].0 == after[k].url_type);
                }
            }
        }
        i = i + 1;
    }
    assert(relations@.take(relations.len() as int) =~= relations@);
    out
}

/// The artist `entity` as a resource, with the relationships the related records give it.
pub open spec fn artist_resource_ok(r: ArtistResource, entity: Artist, related: ArtistRelated) -> bool {
    &&& r.resource_type == ResourceType::Artist
    &&& r.id == entity.id
    &&& r.attributes.name@ == entity.name@
    &&& r.attributes.sort_name@ == entity.sort_name@
    &&& opt_view(r.attributes.description) == opt_view(entity.description)
    &&& is_url_map(r.attributes.urls@, related.relations@)
    &&& r.meta is None
    &&& r.relationships@.map_values(|p: (ArtistRelation, Relationship<ResourceType, Meta>)| p.0) == artist_relation_keys(related)
    &&& forall|i: int| 0 <= i < r.relationships@.len() ==> #[trigger] artist_relationship_ok(r.relationships@[i].0, r.relationships@[i].1, related)
}

/// The artist as a resource: its names, description and links, and its
/// relationships to its images, its recordings and the releases and tracks
/// it is credited on, each present only when not empty.
pub fn entity_to_resource(entity: &Artist, related: &ArtistRelated) -> (r: ArtistResource)
    requires
        related.releases@.len() >= related.artist_credits@.len(),
        related.tracks@.len() >= related.artist_credits@.len(),
    ensures
        artist_resource_ok(r, *entity, *related),

{
    let mut relationships: Vec<(ArtistRelation, Relationship<ResourceType, Meta>)> = Vec::new();
    let ghost mut keys: Seq<ArtistRelation> = Seq::empty();
    let (release_links, track_links) = credit_links(related);
    if related.images.len() > 0 {
        let links = image_links(&related.images);
        relationships.push((ArtistRelation::Images, Relationship { data: Relation::Multi(links) }));
    }
    let ghost k1 = relationships@;
    if related.recordings.len() > 0 {
        let links = recording_links(&related.recordings);
        relationships.push((ArtistRelation::Recordings, Relationship { data: Relation::Multi(links) }));
    }
    let ghost k2 = relationships@;
    if release_links.len() > 0 {
        relationships.push((ArtistRelation::Releases, Relationship { data: Relation::Multi(release_links) }));
    }
    let ghost k3 = relationships@;
    if track_links.len() > 0 {
        relationships.push((ArtistRelation::Tracks, Relationship { data: Relation::Multi(track_links) }));
    }
    proof {
        assert(relationships@.map_values(|p: (ArtistRelation, Relationship<ResourceType, Meta>)| p.0) =~= artist_relation_keys(*related));
    }
    Resource {
        resource_type: ResourceType::Artist,
        id: entity.id,
        attributes: ArtistAttributes {
            name: copy_string(&entity.name),
            sort_name: copy_string(&entity.sort_name),
            description: copy_opt_string(&entity.description),
            urls: url_map(&related.relations),
        },
        relationships,
        meta: None,
    }
}

/// Which related resources a request for artists loads and includes, and
/// the includes it passes on to those it loads.
pub struct ArtistIncludedPlan {
    pub images: bool,
    pub tracks: bool,
    pub releases: bool,
    pub releases_include: Vec<ReleaseInclude>,
}

/// The related resources a request for artists with the given includes
/// loads: each named one, with the includes passed on to it.
pub fn included_plan(includes: &[ArtistInclude]) -> (r: ArtistIncludedPlan)
    ensures
        r.images == includes@.contains(ArtistInclude::Images),
        r.tracks == includes@.contains(ArtistInclude::Tracks),
        r.releases == includes@.contains(ArtistInclude::Releases),
        r.releases_include@ == filter_map_spec(includes@, |i: ArtistInclude| releases_include_for(i)),
{
    ArtistIncludedPlan {
        images: contains_member(includes, ArtistInclude::Images),
        tracks: contains_member(includes, ArtistInclude::Tracks),
        releases: contains_member(includes, ArtistInclude::Releases),
        releases_include: map_to_releases_include(includes),
    }
}

} // verus!
