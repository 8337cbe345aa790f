use tempo::documents::{ArtistRelation, Meta, ResourceType, ScrobbleRelation, TrackRelation};
use tempo::entity::{
    Artist, ArtistCredit, ArtistCreditRelease, ArtistTrackRelation, ArtistTrackRelationType, ArtistUrl,
    ArtistUrlType, GenreTrack, ImageArtist, Medium, Scrobble, Track, TrackFormat,
};
use tempo::jsonapi::{DocumentData, InsertResource, Related, Relation, Relationship, ResourceIdentifier};
use tempo::tempo::artists::ArtistRelated;
use tempo::tempo::scrobbles::{document_resources, insert_scrobbles_plan, inserted_page, refused_scrobbles_error, resource_to_active_entity, scrobbles_to_insert, ScrobbleError};
use tempo::tempo::tracks::TrackRelated;

#[test]
fn scrobble_resource_points_to_user_and_track() {
    let r = tempo::tempo::scrobbles::entity_to_resource(&Scrobble { id: 4, at: 1000, user: "ann".to_string(), track: 9 });
    assert_eq!(r.id, 4);
    assert_eq!(r.attributes.at, 1000);
    assert_eq!(r.relationships[0].0, ScrobbleRelation::User);
    assert_eq!(r.relationships[1].0, ScrobbleRelation::Track);
    match &r.relationships[1].1.data {
        Relation::Single(Related::Uuid(ri)) => assert_eq!(ri.id, 9),
        _ => panic!("expected a track reference"),
    }
}

fn insert(rels: Vec<(ScrobbleRelation, Relationship<ResourceType, Meta>)>) -> InsertResource<ResourceType, tempo::documents::ScrobbleAttributes, ScrobbleRelation, Meta> {
    InsertResource { resource_type: ResourceType::Scrobble, attributes: tempo::documents::ScrobbleAttributes { at: 77 }, relationships: rels, meta: None }
}

fn user_rel() -> (ScrobbleRelation, Relationship<ResourceType, Meta>) {
    (ScrobbleRelation::User, Relationship { data: Relation::Single(Related::String(ResourceIdentifier { resource_type: ResourceType::User, id: "ann".to_string(), meta: None })) })
}

fn track_rel(id: u128) -> (ScrobbleRelation, Relationship<ResourceType, Meta>) {
    (ScrobbleRelation::Track, Relationship { data: Relation::Single(Related::Uuid(ResourceIdentifier { resource_type: ResourceType::Track, id, meta: None })) })
}

#[test]
fn scrobble_resources_need_user_and_track() {
    let s = resource_to_active_entity(&insert(vec![track_rel(3), user_rel()])).ok().unwrap();
    assert_eq!((s.at, s.user.as_str(), s.track), (77, "ann", 3));
    assert!(matches!(resource_to_active_entity(&insert(vec![track_rel(3)])), Err(ScrobbleError::MissingUser)));
    assert!(matches!(resource_to_active_entity(&insert(vec![user_rel()])), Err(ScrobbleError::MissingTrack)));
    let bad_user = (ScrobbleRelation::User, Relationship { data: Relation::Multi(vec![]) });
    assert!(matches!(resource_to_active_entity(&insert(vec![bad_user, track_rel(3)])), Err(ScrobbleError::InvalidUser)));
    assert_eq!(ScrobbleError::InvalidTrack.message(), "Invalid track relation");
}

#[test]
fn scrobble_batches_fail_on_the_first_refused() {
    let ok = scrobbles_to_insert(&vec![insert(vec![user_rel(), track_rel(1)]), insert(vec![user_rel(), track_rel(2)])]).ok().unwrap();
    assert_eq!(ok.len(), 2);
    assert_eq!(ok[1].track, 2);
    assert!(matches!(scrobbles_to_insert(&vec![insert(vec![user_rel(), track_rel(1)]), insert(vec![])]), Err(ScrobbleError::MissingUser)));
    assert_eq!(document_resources(DocumentData::Single(5)), vec![5]);
    assert_eq!(document_resources(DocumentData::Multi(vec![1, 2])), vec![1, 2]);
    let page = inserted_page(41, 10);
    assert_eq!((page.size, page.before, page.after), (u32::MAX, Some(42), Some(10)));
}

#[test]
fn artist_resource_lists_its_relationships() {
    let artist = Artist { id: 1, name: "Band".to_string(), sort_name: "Band, The".to_string(), description: None };
    let related = ArtistRelated {
        relations: vec![ArtistUrl { artist_id: 1, url_type: ArtistUrlType::Homepage, url: "https://band/".to_string() }],
        images: vec![],
        recordings: vec![ArtistTrackRelation { artist_id: 1, track_id: 5, relation_type: ArtistTrackRelationType::Vocal, relation_value: "vocal".to_string() }],
        artist_credits: vec![ArtistCredit { id: "c".to_string(), join_phrase: Some(" & ".to_string()), artist_id: 1 }],
        releases: vec![vec![ArtistCreditRelease { artist_credit_id: "c".to_string(), release_id: 8 }]],
        tracks: vec![vec![]],
    };
    let r = tempo::tempo::artists::entity_to_resource(&artist, &related);
    let keys: Vec<ArtistRelation> = r.relationships.iter().map(|p| p.0).collect();
    assert_eq!(keys, vec![ArtistRelation::Recordings, ArtistRelation::Releases]);
    assert_eq!(r.attributes.urls, vec![(ArtistUrlType::Homepage, "https://band/".to_string())]);
    match &r.relationships[1].1.data {
        Relation::Multi(v) => match &v[0] {
            Related::Uuid(ri) => {
                assert_eq!(ri.id, 8);
                assert!(matches!(&ri.meta, Some(Meta::ArtistCredit(a)) if a.join_phrase.as_deref() == Some(" & ")));
            },
            _ => panic!("expected a release reference"),
        },
        _ => panic!("expected a list"),
    }
}

#[test]
fn track_resource_lists_its_relationships() {
    let track = Track { id: 3, medium_id: 4, title: "T".to_string(), length: 180, number: 2, genres: vec![], recording_id: 33, format: Some(TrackFormat::Flac), path: None };
    let related = TrackRelated {
        artist_credits: vec![],
        medium: Some(Medium { id: 4, release_id: 5, position: 2, tracks: 10, track_offset: 0, format: None }),
        recorders: vec![],
        genres: vec![GenreTrack { genre_id: "rock".to_string(), track_id: 3, cnt: 2 }],
    };
    let r = tempo::tempo::tracks::entity_to_resource(&track, &related);
    let keys: Vec<TrackRelation> = r.relationships.iter().map(|p| p.0).collect();
    assert_eq!(keys, vec![TrackRelation::Genres, TrackRelation::Medium]);
    assert_eq!(r.attributes.disc, Some(2));
    assert_eq!(r.attributes.track, 2);
    assert_eq!(r.attributes.duration, 180);
    assert_eq!(r.attributes.mimetype.as_deref(), Some("audio/flac"));
}

#[test]
fn artist_links_keep_the_last_address_of_each_kind() {
    let artist = Artist { id: 1, name: "Band".to_string(), sort_name: "Band".to_string(), description: None };
    let link = |t: ArtistUrlType, u: &str| ArtistUrl { artist_id: 1, url_type: t, url: u.to_string() };
    let related = ArtistRelated {
        relations: vec![
            link(ArtistUrlType::Homepage, "https://old/"),
            link(ArtistUrlType::Discogs, "https://discogs/band"),
            link(ArtistUrlType::Homepage, "https://new/"),
        ],
        images: vec![],
        recordings: vec![],
        artist_credits: vec![],
        releases: vec![],
        tracks: vec![],
    };
    let r = tempo::tempo::artists::entity_to_resource(&artist, &related);
    assert_eq!(
        r.attributes.urls,
        vec![(ArtistUrlType::Homepage, "https://new/".to_string()), (ArtistUrlType::Discogs, "https://discogs/band".to_string())]
    );
}

#[test]
fn a_refused_scrobble_is_answered_as_a_bad_request() {
    let answer = refused_scrobbles_error(ScrobbleError::MissingTrack);
    assert_eq!(answer.status, 400);
    assert_eq!(answer.title, "Invalid scrobble data");
    assert_eq!(answer.detail.as_deref(), Some("Scrobble resource is missing the track relation"));
    match insert_scrobbles_plan(&vec![insert(vec![user_rel(), track_rel(1)]), insert(vec![user_rel()])]) {
        Err(e) => {
            assert_eq!(e.status, 400);
            assert_eq!(e.detail.as_deref(), Some("Scrobble resource is missing the track relation"));
        }
        Ok(_) => panic!("the batch holds a refused scrobble"),
    }
    assert_eq!(insert_scrobbles_plan(&vec![insert(vec![user_rel(), track_rel(1)])]).ok().unwrap().len(), 1);
}
