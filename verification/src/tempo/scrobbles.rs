//! Scrobbles: the includes a request for scrobbles passes on to related resources.
use vstd::prelude::*;
use crate::names::contains_member;
use crate::documents::{ScrobbleInclude, TrackInclude};
use crate::seqs::filter_map_spec;
use crate::documents::{Meta, ResourceType, ScrobbleAttributes, ScrobbleRelation};
use crate::entity::{Scrobble, Uuid};
use crate::jsonapi::{DocumentData, InsertResource, Page, Related, Relation, Relationship, Resource};
use crate::resources::{is_single, is_string_link, is_uuid_link, link_meta, string_link, uuid_link, Link};

verus! {

/// The include of a related resource that `i` stands for, if any.
pub open spec fn tracks_include_for(i: ScrobbleInclude) -> Option<TrackInclude> {
    match i {
        ScrobbleInclude::TrackArtists => Some(TrackInclude::Artists),
        ScrobbleInclude::TrackMedium => Some(TrackInclude::Medium),
        ScrobbleInclude::TrackMediumRelease => Some(TrackInclude::MediumRelease),
        ScrobbleInclude::TrackMediumReleaseArtists => Some(TrackInclude::MediumReleaseArtists),
        _ => None,
    }
}

fn tracks_include_for_exec(i: ScrobbleInclude) -> (r: Option<TrackInclude>)
    ensures
        r == tracks_include_for(i),
{
    match i {
        ScrobbleInclude::TrackArtists => Some(TrackInclude::Artists),
        ScrobbleInclude::TrackMedium => Some(TrackInclude::Medium),
        ScrobbleInclude::TrackMediumRelease => Some(TrackInclude::MediumRelease),
        ScrobbleInclude::TrackMediumReleaseArtists => Some(TrackInclude::MediumReleaseArtists),
        _ => None,
    }
}

/// The includes of the tracks of scrobbles that a request for scrobbles asks for.
pub fn map_to_tracks_include(includes: &[ScrobbleInclude]) -> (r: Vec<TrackInclude>)
    ensures
        r@ == filter_map_spec(includes@, |i: ScrobbleInclude| tracks_include_for(i)),
{
    let mut out: Vec<TrackInclude> = Vec::new();
    let mut k: usize = 0;
    while k < includes.len()
        invariant
            k <= includes.len(),
            out@ == filter_map_spec(includes@.take(k as int), |i: ScrobbleInclude| tracks_include_for(i)),
        decreases includes.len() - k,
    {
        assert(includes@.take(k as int + 1).drop_last() =~= includes@.take(k as int));
        if let Some(x) = tracks_include_for_exec(includes[k]) {
            out.push(x);
        }
        k = k + 1;
    }
    assert(includes@.take(includes.len() as int) =~= includes@);
    out
}

/// A scrobble as a resource of the public API.
pub type ScrobbleResource = Resource<ResourceType, i64, ScrobbleAttributes, ScrobbleRelation, Meta>;

/// The scrobble as a resource: when it was played, and relationships to
/// the user who played and the track that was played.
pub fn entity_to_resource(entity: &Scrobble) -> (r: ScrobbleResource)
    ensures
        r.resource_type == ResourceType::Scrobble,
        r.id == entity.id,
        r.attributes.at == entity.at,
        r.meta is None,
        r.relationships@.len() == 2,
        r.relationships@[0].0 == ScrobbleRelation::User,
        is_single(r.relationships@[0].1, |l: Link| is_string_link(l, ResourceType::User, entity.user@) && link_meta(l) is None),
        r.relationships@[1].0 == ScrobbleRelation::Track,
        is_single(r.relationships@[1].1, |l: Link| is_uuid_link(l, ResourceType::Track, entity.track) && link_meta(l) is None),
{
    let mut relationships: Vec<(ScrobbleRelation, Relationship<ResourceType, Meta>)> = Vec::new();
    relationships.push((ScrobbleRelation::User, Relationship { data: Relation::Single(string_link(ResourceType::User, &entity.user)) }));
    relationships.push((ScrobbleRelation::Track, Relationship { data: Relation::Single(uuid_link(ResourceType::Track, entity.track)) }));
    Resource {
        resource_type: ResourceType::Scrobble,
        id: entity.id,
        attributes: ScrobbleAttributes { at: entity.at },
        relationships,
        meta: None,
    }
}

/// A scrobble to be created, as a resource.
pub type InsertScrobbleResource = InsertResource<ResourceType, ScrobbleAttributes, ScrobbleRelation, Meta>;

/// A scrobble to be stored: when, by whom and of which track.
pub struct NewScrobble {
    pub at: i64,
    pub user: String,
    pub track: Uuid,
}

/// Why a scrobble resource was refused.
#[derive(PartialEq, Eq, Structural, Clone, Copy, Debug)]
pub enum ScrobbleError {
    MissingUser,
    MissingTrack,
    InvalidUser,
    InvalidTrack,
}

impl ScrobbleError {
    /// The message of the error.
    pub fn message(&self) -> (r: &'static str)
        ensures
            r@ == match self {
                ScrobbleError::MissingUser => "Scrobble resource is missing the user relation"@,
                ScrobbleError::MissingTrack => "Scrobble resource is missing the track relation"@,
                ScrobbleError::InvalidUser => "Invalid user relation"@,
                ScrobbleError::InvalidTrack => "Invalid track relation"@,
            },
    {
        match self {
            ScrobbleError::MissingUser => "Scrobble resource is missing the user relation",
            ScrobbleError::MissingTrack => "Scrobble resource is missing the track relation",
            ScrobbleError::InvalidUser => "Invalid user relation",
            ScrobbleError::InvalidTrack => "Invalid track relation",
        }
    }
}

/// The first relationship of the given kind, if any.
pub open spec fn relationship_of(rels: Seq<(ScrobbleRelation, Relationship<ResourceType, Meta>)>, key: ScrobbleRelation) -> Option<Relationship<ResourceType, Meta>>
    decreases rels.len(),
{
    if rels.len() == 0 {
        None
    } else if rels[0].0 == key {
        Some(rels[0].1)
    } else {
        relationship_of(rels.drop_first(), key)
    }
}

fn find_relationship<'a>(rels: &'a Vec<(ScrobbleRelation, Relationship<ResourceType, Meta>)>, key: ScrobbleRelation) -> (r: Option<&'a Relationship<ResourceType, Meta>>)
    ensures
        (match r {
            Some(x) => Some(*x),
            None => None,
        }) == relationship_of(rels@, key),
{
    let mut i: usize = 0;
    assert(rels@.skip(0) =~= rels@);
    while i < rels.len()
        invariant
            i <= rels.len(),
            relationship_of(rels@, key) == relationship_of(rels@.skip(i as int), key),
        decreases rels.len() - i,
    {
        assert(rels@.skip(i as int)[0] == rels@[i as int]);
        if rels[i].0 == key {
            return Some(&rels[i].1);
        }
        assert(rels@.skip(i as int).drop_first() =~= rels@.skip(i as int + 1));
        i = i + 1;
    }
    None
}

/// The scrobble a resource asks to store: the user and the track must each
/// be given by a single reference of the right kind of identifier.
pub open spec fn scrobble_spec(resource: InsertScrobbleResource) -> Result<(i64, Seq<char>, Uuid), ScrobbleError> {
    match relationship_of(resource.relationships@, ScrobbleRelation::User) {
        None => Err(ScrobbleError::MissingUser),
        Some(user) => match relationship_of(resource.relationships@, ScrobbleRelation::Track) {
            None => Err(ScrobbleError::MissingTrack),
            Some(track) => match user.data {
                Relation::Single(Related::String(u)) => match track.data {
                    Relation::Single(Related::Uuid(t)) => Ok((resource.attributes.at, u.id@, t.id)),
                    _ => Err(ScrobbleError::InvalidTrack),
                },
                _ => Err(ScrobbleError::InvalidUser),
            },
        },
    }
}

/// The scrobble a resource asks to store.
pub fn resource_to_active_entity(resource: &InsertScrobbleResource) -> (r: Result<NewScrobble, ScrobbleError>)
    ensures
        match r {
            Ok(s) => scrobble_spec(*resource) == Ok::<(i64, Seq<char>, Uuid), ScrobbleError>((s.at, s.user@, s.track)),
            Err(e) => scrobble_spec(*resource) == Err::<(i64, Seq<char>, Uuid), ScrobbleError>(e),
        },
{
    let user_relation = match find_relationship(&resource.relationships, ScrobbleRelation::User) {
        Some(r) => r,
        None => {
            return Err(ScrobbleError::MissingUser);
        },
    };
    let track_relation = match find_relationship(&resource.relationships, ScrobbleRelation::Track) {
        Some(r) => r,
        None => {
            return Err(ScrobbleError::MissingTrack);
        },
    };
    let user = match &user_relation.data {
        Relation::Single(Related::String(data)) => crate::text::copy_string(&data.id),
        _ => {
            return Err(ScrobbleError::InvalidUser);
        },
    };
    let track = match &track_relation.data {
        Relation::Single(Related::Uuid(data)) => data.id,
        _ => {
            return Err(ScrobbleError::InvalidTrack);
        },
    };
    Ok(NewScrobble { at: resource.attributes.at, user, track })
}

/// The resources of a request body, as a list.
pub fn document_resources<R>(data: DocumentData<R>) -> (r: Vec<R>)
    ensures
        r@ == match data {
            DocumentData::Single(x) => seq![x],
            DocumentData::Multi(v) => v@,
        },
{
    match data {
        DocumentData::Single(x) => {
            let mut v: Vec<R> = Vec::new();
            v.push(x);
            assert(v@ =~= seq![x]);
            v
        },
        DocumentData::Multi(v) => v,
    }
}

/// The scrobbles the resources ask to store, or the error of the first that
/// is refused.
pub fn scrobbles_to_insert(resources: &Vec<InsertScrobbleResource>) -> (r: Result<Vec<NewScrobble>, ScrobbleError>)
    ensures
        match r {
            Ok(v) => v@.len() == resources@.len() && forall|i: int|
                0 <= i < v@.len() ==> scrobble_spec(resources@[i]) == Ok::<(i64, Seq<char>, Uuid), ScrobbleError>(
                    (v@[i].at, (#[trigger] v@[i]).user@, v@[i].track),
                ),
            Err(e) => exists|i: int|
                0 <= i < resources@.len() && #[trigger] scrobble_spec(resources@[i]) == Err::<(i64, Seq<char>, Uuid), ScrobbleError>(e)
                    && forall|j: int| 0 <= j < i ==> (#[trigger] scrobble_spec(resources@[j])) is Ok,
        },
{
    let mut out: Vec<NewScrobble> = Vec::new();
    let mut i: usize = 0;
    while i < resources.len()
        invariant
            i <= resources.len(),
            out@.len() == i,
            forall|k: int|
                0 <= k < i ==> scrobble_spec(resources@[k]) == Ok::<(i64, Seq<char>, Uuid), ScrobbleError>(
                    (out@[k].at, (#[trigger] out@[k]).user@, out@[k].track),
                ),
        decreases resources.len() - i,
    {
        match resource_to_active_entity(&resources[i]) {
            Ok(s) => {
                out.push(s);
            },
            Err(e) => {
                assert forall|j: int| 0 <= j < i implies (#[trigger] scrobble_spec(resources@[j])) is Ok by {
                    assert(scrobble_spec(resources@[j]) == Ok::<(i64, Seq<char>, Uuid), ScrobbleError>((out@[j].at, out@[j].user@, out@[j].track)));
                }
                return Err(e);
            },
        }
        i = i + 1;
    }
    Ok(out)
}

/// The page that holds the scrobbles just stored: those after the ones
/// that were stored before and before the one after the last stored.
pub fn inserted_page(last_insert_id: i64, count_before: u64) -> (r: Page<i64>)
    requires
        last_insert_id < i64::MAX,
    ensures
        r.size == u32::MAX,
        r.before == Some((last_insert_id + 1) as i64),
        r.after == Some(count_before as i64),
{
    Page { size: u32::MAX, before: Some(last_insert_id + 1), after: Some(count_before as i64) }
}

/// Which related resources a request for scrobbles loads and includes, and
/// the includes it passes on to those it loads.
pub struct ScrobbleIncludedPlan {
    pub user: bool,
    pub track: bool,
    pub tracks_include: Vec<TrackInclude>,
}

/// The related resources a request for scrobbles with the given includes
/// loads: each named one, with the includes passed on to it.
pub fn included_plan(includes: &[ScrobbleInclude]) -> (r: ScrobbleIncludedPlan)
    ensures
        r.user == includes@.contains(ScrobbleInclude::User),
        r.track == includes@.contains(ScrobbleInclude::Track),
        r.tracks_include@ == filter_map_spec(includes@, |i: ScrobbleInclude| tracks_include_for(i)),
{
    ScrobbleIncludedPlan {
        user: contains_member(includes, ScrobbleInclude::User),
        track: contains_member(includes, ScrobbleInclude::Track),
        tracks_include: map_to_tracks_include(includes),
    }
}

/// The message of a refusal as text.
pub open spec fn refusal_message(e: ScrobbleError) -> Seq<char> {
    match e {
        ScrobbleError::MissingUser => "Scrobble resource is missing the user relation"@,
        ScrobbleError::MissingTrack => "Scrobble resource is missing the track relation"@,
        ScrobbleError::InvalidUser => "Invalid user relation"@,
        ScrobbleError::InvalidTrack => "Invalid track relation"@,
    }
}

/// Whether an error sent to the client answers a refused scrobble: a bad
/// request titled "Invalid scrobble data", with the refusal's message as its
/// detail.
pub open spec fn is_refused_answer(r: crate::jsonapi::SerializableError, e: ScrobbleError) -> bool {
    &&& r.status == 400
    &&& r.title@ == "Invalid scrobble data"@
    &&& r.detail is Some && r.detail->0@ == refusal_message(e)
}

/// The answer to a batch of scrobbles one of which is refused.
pub fn refused_scrobbles_error(e: ScrobbleError) -> (r: crate::jsonapi::SerializableError)
    ensures
        is_refused_answer(r, e),
{
    crate::jsonapi::SerializableError {
        status: 400,
        title: crate::text::to_owned_string("Invalid scrobble data"),
        detail: Some(crate::text::to_owned_string(e.message())),
    }
}

/// The scrobbles a batch stores, or the answer to the batch where one of its
/// resources is refused: every resource is read before anything is stored,
/// and the first refused one gives the answer.
pub fn insert_scrobbles_plan(resources: &Vec<InsertScrobbleResource>) -> (r: Result<
    Vec<NewScrobble>,
    crate::jsonapi::SerializableError,
>)
    ensures
        match r {
            Ok(v) => v@.len() == resources@.len() && forall|i: int|
                0 <= i < v@.len() ==> scrobble_spec(resources@[i]) == Ok::<(i64, Seq<char>, Uuid), ScrobbleError>(
                    (v@[i].at, (#[trigger] v@[i]).user@, v@[i].track),
                ),
            Err(answer) => exists|i: int|
                0 <= i < resources@.len() && (#[trigger] scrobble_spec(resources@[i])) is Err
                    && (forall|j: int| 0 <= j < i ==> (#[trigger] scrobble_spec(resources@[j])) is Ok)
                    && is_refused_answer(answer, scrobble_spec(resources@[i])->Err_0),
        },
{
    match scrobbles_to_insert(resources) {
        Ok(v) => Ok(v),
        Err(e) => Err(refused_scrobbles_error(e)),
    }
}

} // verus!
