//! What the references between resources in documents hold, stated over the
//! characters of their texts.
use vstd::prelude::*;
use crate::documents::{Meta, ResourceType};
use crate::entity::{ArtistTrackRelationType, Uuid};
use crate::jsonapi::{Related, Relation, Relationship, ResourceIdentifier};
use crate::text::{copy_opt_string, copy_string, opt_view};

verus! {

/// A reference to a related resource of the public API.
pub type Link = Related<ResourceType, Meta>;

/// `r` points by UUID to the resource of kind `t` with id `id`.
pub open spec fn is_uuid_link(r: Link, t: ResourceType, id: Uuid) -> bool {
    match r {
        Related::Uuid(ri) => ri.resource_type == t && ri.id == id,
        _ => false,
    }
}

/// `r` points by text to the resource of kind `t` whose id has the
/// characters `id`.
pub open spec fn is_string_link(r: Link, t: ResourceType, id: Seq<char>) -> bool {
    match r {
        Related::String(ri) => ri.resource_type == t && ri.id@ == id,
        _ => false,
    }
}

/// `r` points by number to the resource of kind `t` with id `id`.
pub open spec fn is_int_link(r: Link, t: ResourceType, id: i64) -> bool {
    match r {
        Related::Int(ri) => ri.resource_type == t && ri.id == id,
        _ => false,
    }
}

/// `r` points to the connection with the service `p`.
pub open spec fn is_provider_link(r: Link, t: ResourceType, p: crate::entity::ConnectionProvider) -> bool {
    match r {
        Related::ConnectionProvider(ri) => ri.resource_type == t && ri.id == p,
        _ => false,
    }
}

/// The extra information a reference carries.
pub open spec fn link_meta(r: Link) -> Option<Meta> {
    match r {
        Related::Uuid(ri) => ri.meta,
        Related::String(ri) => ri.meta,
        Related::Int(ri) => ri.meta,
        Related::ConnectionProvider(ri) => ri.meta,
    }
}

/// `m` tells how an artist is credited, with the given join phrase.
pub open spec fn is_credit_meta(m: Option<Meta>, join_phrase: Option<Seq<char>>) -> bool {
    match m {
        Some(Meta::ArtistCredit(a)) => opt_view(a.join_phrase) == join_phrase,
        _ => false,
    }
}

/// `m` tells the part an artist played in a recording.
pub open spec fn is_recording_meta(m: Option<Meta>, role: ArtistTrackRelationType, detail: Seq<char>) -> bool {
    match m {
        Some(Meta::Recording(a)) => a.role == role && a.detail@ == detail,
        _ => false,
    }
}

/// The relationship holds a list of references, which are `src` converted
/// by `rel`.
pub open spec fn is_multi<S>(r: Relationship<ResourceType, Meta>, src: Seq<S>, rel: spec_fn(Link, S) -> bool) -> bool {
    match r.data {
        Relation::Multi(v) => crate::seqs::converted(v@, src, rel),
        Relation::Single(_) => false,
    }
}

/// The relationship holds one reference, which stands in the relation
/// `pred`.
pub open spec fn is_single(r: Relationship<ResourceType, Meta>, pred: spec_fn(Link) -> bool) -> bool {
    match r.data {
        Relation::Single(l) => pred(l),
        Relation::Multi(_) => false,
    }
}

/// A reference by UUID without extra information.
pub fn uuid_link(t: ResourceType, id: Uuid) -> (r: Link)
    ensures
        is_uuid_link(r, t, id),
        link_meta(r) is None,
{
    Related::Uuid(ResourceIdentifier { resource_type: t, id, meta: None })
}

/// A reference by text without extra information.
pub fn string_link(t: ResourceType, id: &String) -> (r: Link)
    ensures
        is_string_link(r, t, id@),
        link_meta(r) is None,
{
    Related::String(ResourceIdentifier { resource_type: t, id: copy_string(id), meta: None })
}

/// A reference by UUID that tells how an artist is credited.
pub fn credited_link(t: ResourceType, id: Uuid, join_phrase: &Option<String>) -> (r: Link)
    ensures
        is_uuid_link(r, t, id),
        is_credit_meta(link_meta(r), opt_view(*join_phrase)),
{
    Related::Uuid(
        ResourceIdentifier {
            resource_type: t,
            id,
            meta: Some(
                Meta::ArtistCredit(
                    crate::documents::ArtistCreditAttributes {
                        join_phrase: copy_opt_string(join_phrase),
                    },
                ),
            ),
        },
    )
}

/// A reference by UUID that tells the part an artist played in a recording.
pub fn recording_link(t: ResourceType, id: Uuid, role: ArtistTrackRelationType, detail: &String) -> (r: Link)
    ensures
        is_uuid_link(r, t, id),
        is_recording_meta(link_meta(r), role, detail@),
{
    Related::Uuid(
        ResourceIdentifier {
            resource_type: t,
            id,
            meta: Some(
                Meta::Recording(
                    crate::documents::RecordingAttributes { role, detail: copy_string(detail) },
                ),
            ),
        },
    )
}

/// `m` tells how often a genre occurs, `count` times.
pub open spec fn is_genre_meta(m: Option<Meta>, count: i32) -> bool {
    match m {
        Some(Meta::Genre(g)) => g.count == count,
        _ => false,
    }
}

/// A reference by text that tells how often a genre occurs.
pub fn genre_link(t: ResourceType, id: &String, count: i32) -> (r: Link)
    ensures
        is_string_link(r, t, id@),
        is_genre_meta(link_meta(r), count),
{
    Related::String(
        ResourceIdentifier {
            resource_type: t,
            id: copy_string(id),
            meta: Some(Meta::Genre(crate::documents::GenreMetaAttributes { count })),
        },
    )
}

} // verus!
