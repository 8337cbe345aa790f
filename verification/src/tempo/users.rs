//! Users: the includes a request for users passes on to related resources.
use vstd::prelude::*;
use crate::names::contains_member;
use crate::documents::{ScrobbleInclude, UserInclude};
use crate::seqs::{converted, filter_map_spec, lemma_converted_append};
use crate::documents::{Meta, ResourceType, UserAttributes, UserRelation};
use crate::entity::{Scrobble, User, UserConnection};
use crate::jsonapi::{Related, Relation, Relationship, Resource, ResourceIdentifier};
use crate::resources::{is_int_link, is_multi, is_provider_link, link_meta, Link};
use crate::tempo::connections::connection_meta_spec;
use crate::text::{copy_opt_string, copy_string, opt_view};

verus! {

/// The include of a related resource that `i` stands for, if any.
pub open spec fn scrobbles_include_for(i: UserInclude) -> Option<ScrobbleInclude> {
    match i {
        UserInclude::ScrobblesTracks => Some(ScrobbleInclude::Track),
        UserInclude::ScrobblesTracksArtists => Some(ScrobbleInclude::TrackArtists),
        UserInclude::ScrobblesTracksMedium => Some(ScrobbleInclude::TrackMedium),
        UserInclude::ScrobblesTracksMediumRelease => Some(ScrobbleInclude::TrackMediumRelease),
        UserInclude::ScrobblesTracksMediumReleaseArtists => Some(ScrobbleInclude::TrackMediumReleaseArtists),
        UserInclude::ScrobblesTracksMediumReleaseGenres => Some(ScrobbleInclude::TrackMediumReleaseGenres),
        _ => None,
    }
}

fn scrobbles_include_for_exec(i: UserInclude) -> (r: Option<ScrobbleInclude>)
    ensures
        r == scrobbles_include_for(i),
{
    match i {
        UserInclude::ScrobblesTracks => Some(ScrobbleInclude::Track),
        UserInclude::ScrobblesTracksArtists => Some(ScrobbleInclude::TrackArtists),
        UserInclude::ScrobblesTracksMedium => Some(ScrobbleInclude::TrackMedium),
        UserInclude::ScrobblesTracksMediumRelease => Some(ScrobbleInclude::TrackMediumRelease),
        UserInclude::ScrobblesTracksMediumReleaseArtists => Some(ScrobbleInclude::TrackMediumReleaseArtists),
        UserInclude::ScrobblesTracksMediumReleaseGenres => Some(ScrobbleInclude::TrackMediumReleaseGenres),
        _ => None,
    }
}

/// The includes of the scrobbles of users that a request for users asks for.
pub fn map_to_scrobbles_include(includes: &[UserInclude]) -> (r: Vec<ScrobbleInclude>)
    ensures
        r@ == filter_map_spec(includes@, |i: UserInclude| scrobbles_include_for(i)),
{
    let mut out: Vec<ScrobbleInclude> = Vec::new();
    let mut k: usize = 0;
    while k < includes.len()
        invariant
            k <= includes.len(),
            out@ == filter_map_spec(includes@.take(k as int), |i: UserInclude| scrobbles_include_for(i)),
        decreases includes.len() - k,
    {
        assert(includes@.take(k as int + 1).drop_last() =~= includes@.take(k as int));
        if let Some(x) = scrobbles_include_for_exec(includes[k]) {
            out.push(x);
        }
        k = k + 1;
    }
    assert(includes@.take(includes.len() as int) =~= includes@);
    out
}

/// A request body that adds exactly one relationship.
pub struct InsertExactlyOneRelation<R> {
    pub data: [R; 1],
}

/// Which related resources a request for users loads and includes, and
/// the includes it passes on to those it loads.
pub struct UserIncludedPlan {
    pub scrobbles: bool,
    pub scrobbles_include: Vec<ScrobbleInclude>,
}

/// The related resources a request for users with the given includes
/// loads: each named one, with the includes passed on to it.
pub fn included_plan(includes: &[UserInclude]) -> (r: UserIncludedPlan)
    ensures
        r.scrobbles == includes@.contains(UserInclude::Scrobbles),
        r.scrobbles_include@ == filter_map_spec(includes@, |i: UserInclude| scrobbles_include_for(i)),
{
    UserIncludedPlan {
        scrobbles: contains_member(includes, UserInclude::Scrobbles),
        scrobbles_include: map_to_scrobbles_include(includes),
    }
}

/// A user as a resource of the public API.
pub type UserResource = Resource<ResourceType, String, UserAttributes, UserRelation, Meta>;

/// The records related to a user: their scrobbles and their connections
/// with outside services.
pub struct UserRelated {
    pub scrobbles: Vec<Scrobble>,
    pub connections: Vec<UserConnection>,
}

/// `m` shows the account `expected` names, by its name and profile page,
/// or nothing where there is none.
pub open spec fn is_connection_meta(m: Option<Meta>, expected: Option<(Seq<char>, Seq<char>)>) -> bool {
    match (m, expected) {
        (None, None) => true,
        (Some(Meta::Connection(c)), Some(e)) => c.username@ == e.0 && c.profile_url@ == e.1,
        _ => false,
    }
}

/// References to the user's scrobbles.
fn scrobble_links(items: &Vec<Scrobble>) -> (r: Vec<Link>)
    ensures
        converted(r@, items@, |l: Link, x: Scrobble| is_int_link(l, ResourceType::Scrobble, x.id) && link_meta(l) is None),
{
    let ghost rel = |l: Link, x: Scrobble| is_int_link(l, ResourceType::Scrobble, x.id) && link_meta(l) is None;
    let mut out: Vec<Link> = Vec::new();
    let mut i: usize = 0;
    while i < items.len()
        invariant
            i <= items.len(),
            rel == (|l: Link, x: Scrobble| is_int_link(l, ResourceType::Scrobble, x.id) && link_meta(l) is None),
            converted(out@, items@.take(i as int), rel),
        decreases items.len() - i,
    {
        let link = Related::Int(ResourceIdentifier { resource_type: ResourceType::Scrobble, id: items[i].id, meta: None });
        proof {
            lemma_converted_append(out@, seq![link], items@.take(i as int), seq![items@[i as int]], rel);
            assert(items@.take(i as int + 1) =~= items@.take(i as int) + seq![items@[i as int]]);
        }
        out.push(link);
        i = i + 1;
    }
    assert(items@.take(items.len() as int) =~= items@);
    out
}

/// References to the user's connections, each showing the account it links
/// to where that can be read.
fn connection_links(items: &Vec<UserConnection>) -> (r: Vec<Link>)
    ensures
        converted(r@, items@, |l: Link, x: UserConnection| is_provider_link(l, ResourceType::Connection, x.provider) && is_connection_meta(link_meta(l), connection_meta_spec(x.provider, opt_view(x.account)))),
{
    let ghost rel = |l: Link, x: UserConnection| is_provider_link(l, ResourceType::Connection, x.provider) && is_connection_meta(link_meta(l), connection_meta_spec(x.provider, opt_view(x.account)));
    let mut out: Vec<Link> = Vec::new();
    let mut i: usize = 0;
    while i < items.len()
        invariant
            i <= items.len(),
            rel == (|l: Link, x: UserConnection| is_provider_link(l, ResourceType::Connection, x.provider) && is_connection_meta(link_meta(l), connection_meta_spec(x.provider, opt_view(x.account)))),
            converted(out@, items@.take(i as int), rel),
        decreases items.len() - i,
    {
        let c = &items[i];
        let meta = match c.provider.meta(&c.account) {
            Ok(m) => Some(m),
            Err(_) => None,
        };
        let link = Related::ConnectionProvider(ResourceIdentifier { resource_type: ResourceType::Connection, id: c.provider, meta });
        proof {
            lemma_converted_append(out@, seq![link], items@.take(i as int), seq![items@[i as int]], rel);
            assert(items@.take(i as int + 1) =~= items@.take(i as int) + seq![items@[i as int]]);
        }
        out.push(link);
        i = i + 1;
    }
    assert(items@.take(items.len() as int) =~= items@);
    out
}

/// The kinds of relationships a user resource has: scrobbles and
/// connections, each when there are any.
pub open spec fn user_relation_keys(related: UserRelated) -> Seq<UserRelation> {
    (if related.scrobbles@.len() > 0 { seq![UserRelation::Scrobbles] } else { Seq::empty() })
        + (if related.connections@.len() > 0 { seq![UserRelation::Connections] } else { Seq::empty() })
}

/// The relationship of kind `key` holds the references the related records
/// give for it.
pub open spec fn user_relationship_ok(key: UserRelation, r: Relationship<ResourceType, Meta>, related: UserRelated) -> bool {
    match key {
        UserRelation::Scrobbles => is_multi(r, related.scrobbles@, |l: Link, x: Scrobble| is_int_link(l, ResourceType::Scrobble, x.id) && link_meta(l) is None),
        UserRelation::Connections => is_multi(r, related.connections@, |l: Link, x: UserConnection| is_provider_link(l, ResourceType::Connection, x.provider) && is_connection_meta(link_meta(l), connection_meta_spec(x.provider, opt_view(x.account)))),
    }
}

/// The user as a resource, identified by the user name: their names, and
/// their relationships to their scrobbles and connections, each present
/// only when there is one.
pub fn entity_to_resource(entity: &User, related: &UserRelated) -> (r: UserResource)
    ensures
        r.resource_type == ResourceType::User,
        r.id@ == entity.username@,
        opt_view(r.attributes.first_name) == opt_view(entity.first_name),
        opt_view(r.attributes.last_name) == opt_view(entity.last_name),
        r.meta is None,
        r.relationships@.map_values(|p: (UserRelation, Relationship<ResourceType, Meta>)| p.0) == user_relation_keys(*related),
        forall|i: int| 0 <= i < r.relationships@.len() ==> #[trigger] user_relationship_ok(r.relationships@[i].0, r.relationships@[i].1, *related),
{
    let mut relationships: Vec<(UserRelation, Relationship<ResourceType, Meta>)> = Vec::new();
    if related.scrobbles.len() > 0 {
        relationships.push((UserRelation::Scrobbles, Relationship { data: Relation::Multi(scrobble_links(&related.scrobbles)) }));
    }
    if related.connections.len() > 0 {
        relationships.push((UserRelation::Connections, Relationship { data: Relation::Multi(connection_links(&related.connections)) }));
    }
    proof {
        assert(relationships@.map_values(|p: (UserRelation, Relationship<ResourceType, Meta>)| p.0) =~= user_relation_keys(*related));
    }
    Resource {
        resource_type: ResourceType::User,
        id: copy_string(&entity.username),
        attributes: UserAttributes {
            first_name: copy_opt_string(&entity.first_name),
            last_name: copy_opt_string(&entity.last_name),
        },
        relationships,
        meta: None,
    }
}

/// Whether a user may edit the relationships of the user named in the
/// path: only their own, and only their connections.
pub fn check_relation_edit(claims_username: &str, username: &str, kind: UserRelation) -> (r: Result<(), crate::api_error::Error>)
    ensures
        claims_username@ != username@ ==> r matches Err(crate::api_error::Error::Unauthorized(None)),
        claims_username@ == username@ && kind != UserRelation::Connections ==> (r matches Err(
            crate::api_error::Error::BadRequest(Some(m)),
        ) && m@ == "Users can only edit connection relationships"@),
        claims_username@ == username@ && kind == UserRelation::Connections ==> r is Ok,
{
    if !crate::text::str_equals(claims_username, username) {
        return Err(crate::api_error::Error::Unauthorized(None));
    }
    match kind {
        UserRelation::Connections => Ok(()),
        _ => Err(crate::api_error::Error::BadRequest(Some(crate::text::to_owned_string("Users can only edit connection relationships")))),
    }
}

/// Whether a new connection is started: not where the user is already
/// connected with the service, which is answered as not modified.
pub fn post_relation_outcome(already_connected: bool) -> (r: Result<(), crate::api_error::Error>)
    ensures
        already_connected ==> r matches Err(crate::api_error::Error::NotModified),
        !already_connected ==> r is Ok,
{
    if already_connected {
        Err(crate::api_error::Error::NotModified)
    } else {
        Ok(())
    }
}

} // verus!
