use tempo::search_index::{make_artists_schema, make_releases_schema, make_tracks_schema, query_fields, FieldOptions, Index};
use std::cmp::Ordering;
use tempo::dedup::{dedup, SameRecord};
use tempo::documents::{GenreRelation, MediumRelation, Meta, ReleaseRelation, ResourceType, UserRelation};
use tempo::entity::{
    Artist, ArtistCredit, ConnectionProvider, Genre, GenreRelease, GenreTrack, Image, ImageFormat,
    ImageRelease, Medium, Release, Scrobble, Track, User, UserConnection, AuthProvider,
};
use tempo::included::{included_cmp, Included};
use tempo::jsonapi::{Related, Relation};
use tempo::search_index::{artist_to_document, get_ids, release_to_document, track_to_document, SearchError, SearchValue};
use tempo::tempo::connections::ConnectionError;
use tempo::tempo::genres::GenreRelated;
use tempo::tempo::mediums::MediumRelated;
use tempo::tempo::releases::ReleaseRelated;
use tempo::tempo::users::UserRelated;

fn release(id: u128) -> Release {
    Release {
        id,
        title: "Kind of Blue".to_string(),
        release_group_id: Some(77),
        release_type: Some("album".to_string()),
        genres: vec!["jazz".to_string(), "modal".to_string()],
        asin: None,
        country: None,
        label: None,
        catalog_no: None,
        status: None,
        year: Some(1959),
        month: Some(8),
        day: Some(17),
        original_year: Some(1958),
        original_month: Some(1),
        original_day: Some(2),
        script: None,
        path: None,
    }
}

fn medium(id: u128, tracks: i32) -> Medium {
    Medium { id, release_id: 1, position: 1, tracks, track_offset: 0, format: Some("CD".to_string()) }
}

fn track(id: u128) -> Track {
    Track {
        id,
        medium_id: 3,
        title: "So What".to_string(),
        length: 545,
        number: 1,
        genres: vec!["jazz".to_string()],
        recording_id: 12,
        format: None,
        path: None,
    }
}

fn credit(artist_id: u128, join: Option<&str>) -> ArtistCredit {
    ArtistCredit { id: "c".to_string(), join_phrase: join.map(|j| j.to_string()), artist_id }
}

fn artist(id: u128, name: &str) -> Artist {
    Artist { id, name: name.to_string(), sort_name: name.to_string(), description: None }
}

fn image(id: &str, format: ImageFormat) -> Image {
    Image {
        id: id.to_string(),
        role: "Front".to_string(),
        format,
        description: Some("cover".to_string()),
        width: 600,
        height: 500,
        size: 1234,
        path: "/covers/a.png".to_string(),
    }
}

#[test]
fn release_resource_counts_discs_and_tracks() {
    let related = ReleaseRelated {
        image: Some(ImageRelease { image_id: "img".to_string(), release_id: 1 }),
        artist_credits: vec![credit(5, Some(" & "))],
        mediums: vec![medium(3, 5), medium(4, 7)],
    };
    let r = tempo::tempo::releases::entity_to_resource(&release(1), &related);
    assert_eq!(r.resource_type, ResourceType::Release);
    assert_eq!(r.id, 1);
    assert_eq!(r.attributes.disctotal, 2);
    assert_eq!(r.attributes.tracktotal, 12);
    assert_eq!(r.attributes.year, Some(1959));
    // the original date repeats the release date
    assert_eq!((r.attributes.original_year, r.attributes.original_month, r.attributes.original_day), (Some(1959), Some(8), Some(17)));
    assert_eq!(r.attributes.release_group_mbid, Some(77));
    assert_eq!(r.attributes.release_type.as_deref(), Some("album"));
    let keys: Vec<ReleaseRelation> = r.relationships.iter().map(|p| p.0).collect();
    assert_eq!(keys, vec![ReleaseRelation::Artists, ReleaseRelation::Mediums, ReleaseRelation::Image]);
    match &r.relationships[1].1.data {
        Relation::Multi(links) => {
            assert_eq!(links.len(), 2);
            assert!(matches!(&links[1], Related::Uuid(ri) if ri.id == 4 && ri.resource_type == ResourceType::Medium));
        }
        _ => panic!("expected a list of mediums"),
    }
    match &r.relationships[2].1.data {
        Relation::Single(Related::String(ri)) => assert_eq!(ri.id, "img"),
        _ => panic!("expected one image"),
    }
}

#[test]
fn release_without_related_records_has_no_relationships() {
    let related = ReleaseRelated { image: None, artist_credits: vec![], mediums: vec![] };
    let r = tempo::tempo::releases::entity_to_resource(&release(2), &related);
    assert_eq!(r.attributes.disctotal, 0);
    assert_eq!(r.attributes.tracktotal, 0);
    assert!(r.relationships.is_empty());
}

#[test]
fn medium_resource_points_to_release_and_tracks() {
    let related = MediumRelated { release: Some(release(9)), tracks: vec![track(20), track(21)] };
    let r = tempo::tempo::mediums::entity_to_resource(&medium(3, 2), &related);
    assert_eq!((r.id, r.attributes.position, r.attributes.tracks), (3, 1, 2));
    assert_eq!(r.attributes.format.as_deref(), Some("CD"));
    let keys: Vec<MediumRelation> = r.relationships.iter().map(|p| p.0).collect();
    assert_eq!(keys, vec![MediumRelation::Release, MediumRelation::Tracks]);
    assert!(matches!(&r.relationships[0].1.data, Relation::Single(Related::Uuid(ri)) if ri.id == 9));
    let alone = tempo::tempo::mediums::entity_to_resource(&medium(3, 2), &MediumRelated { release: None, tracks: vec![] });
    assert!(alone.relationships.is_empty());
}

#[test]
fn genre_resource_counts_tracks() {
    let g = Genre { id: "jazz".to_string(), name: "Jazz".to_string(), disambiguation: "".to_string() };
    let related = GenreRelated {
        tracks: vec![GenreTrack { genre_id: "jazz".to_string(), track_id: 20, cnt: 4 }],
        releases: vec![GenreRelease { genre_id: "jazz".to_string(), release_id: 1, cnt: 2 }],
    };
    let r = tempo::tempo::genres::entity_to_resource(&g, &related);
    assert_eq!(r.id, "jazz");
    assert_eq!(r.attributes.name, "Jazz");
    let keys: Vec<GenreRelation> = r.relationships.iter().map(|p| p.0).collect();
    assert_eq!(keys, vec![GenreRelation::Tracks, GenreRelation::Releases]);
    match &r.relationships[0].1.data {
        Relation::Multi(links) => match &links[0] {
            Related::Uuid(ri) => {
                assert_eq!(ri.id, 20);
                assert!(matches!(&ri.meta, Some(Meta::Genre(m)) if m.count == 4));
            }
            _ => panic!("expected a track reference"),
        },
        _ => panic!("expected a list of tracks"),
    }
}

#[test]
fn user_resource_shows_connected_accounts() {
    let user = User { username: "ann".to_string(), provider: AuthProvider::Local, first_name: Some("Ann".to_string()), last_name: None };
    let related = UserRelated {
        scrobbles: vec![Scrobble { id: 8, at: 100, user: "ann".to_string(), track: 20 }],
        connections: vec![
            UserConnection { user: "ann".to_string(), provider: ConnectionProvider::LastFM, account: Some("annfm".to_string()) },
            UserConnection { user: "ann".to_string(), provider: ConnectionProvider::LastFM, account: None },
        ],
    };
    let r = tempo::tempo::users::entity_to_resource(&user, &related);
    assert_eq!(r.id, "ann");
    assert_eq!(r.attributes.first_name.as_deref(), Some("Ann"));
    let keys: Vec<UserRelation> = r.relationships.iter().map(|p| p.0).collect();
    assert_eq!(keys, vec![UserRelation::Scrobbles, UserRelation::Connections]);
    assert!(matches!(&r.relationships[0].1.data, Relation::Multi(l) if matches!(&l[0], Related::Int(ri) if ri.id == 8)));
    match &r.relationships[1].1.data {
        Relation::Multi(links) => {
            match &links[0] {
                Related::ConnectionProvider(ri) => match &ri.meta {
                    Some(Meta::Connection(c)) => {
                        assert_eq!(c.username, "annfm");
                        assert_eq!(c.profile_url, "https://last.fm/user/annfm");
                    }
                    _ => panic!("expected the account"),
                },
                _ => panic!("expected a connection reference"),
            }
            assert!(matches!(&links[1], Related::ConnectionProvider(ri) if ri.meta.is_none()));
        }
        _ => panic!("expected a list of connections"),
    }
}

#[test]
fn connection_meta_needs_an_account() {
    assert!(matches!(ConnectionProvider::LastFM.meta(&None), Err(ConnectionError::Parse)));
    match ConnectionProvider::LastFM.meta(&Some("a b".to_string())) {
        Ok(Meta::Connection(c)) => assert_eq!(c.profile_url, "https://last.fm/user/a%20b"),
        _ => panic!("expected the account"),
    }
}

#[test]
fn image_resource_gives_media_type() {
    let r = tempo::tempo::images::entity_to_resource(&image("abc", ImageFormat::Png));
    assert_eq!(r.id, "abc");
    assert_eq!(r.attributes.format, "image/png");
    assert_eq!((r.attributes.width, r.attributes.height, r.attributes.size), (600, 500, 1234));
    assert!(r.relationships.is_empty());
    assert_eq!(ImageFormat::Jpeg.mime_type(), "image/jpeg");
}

#[test]
fn included_resources_are_the_same_by_kind_and_id() {
    let a1 = Included::Artist(tempo::tempo::artists::entity_to_resource(&artist(5, "Miles"), &empty_artist_related()));
    let a2 = Included::Artist(tempo::tempo::artists::entity_to_resource(&artist(5, "Miles Davis"), &empty_artist_related()));
    let a3 = Included::Artist(tempo::tempo::artists::entity_to_resource(&artist(6, "Bill"), &empty_artist_related()));
    assert!(a1.same_record(&a2));
    assert!(!a1.same_record(&a3));
    let u = || Included::User(tempo::tempo::users::entity_to_resource(
        &User { username: "ann".to_string(), provider: AuthProvider::Local, first_name: None, last_name: None },
        &UserRelated { scrobbles: vec![], connections: vec![] },
    ));
    // users are never the same, not even as themselves
    assert!(!u().same_record(&u()));
    let kept = dedup(vec![a1, a3, a2, u(), u()]);
    assert_eq!(kept.len(), 4);
    assert!(matches!(&kept[0], Included::Artist(r) if r.attributes.name == "Miles"));
}

#[test]
fn included_resources_sort_by_id() {
    let img = |id: &str| Included::Image(tempo::tempo::images::entity_to_resource(&image(id, ImageFormat::Gif)));
    assert_eq!(included_cmp(&img("a"), &img("b")), Ordering::Less);
    assert_eq!(included_cmp(&img("b"), &img("a")), Ordering::Greater);
    assert_eq!(included_cmp(&img("b"), &img("b")), Ordering::Equal);
    let m = |id: u128| Included::Medium(tempo::tempo::mediums::entity_to_resource(&medium(id, 1), &MediumRelated { release: None, tracks: vec![] }));
    assert_eq!(included_cmp(&m(9), &m(2)), Ordering::Greater);
    assert_eq!(included_cmp(&m(9), &img("a")), Ordering::Less);
    assert_eq!(included_cmp(&img("a"), &m(9)), Ordering::Less);
}

fn empty_artist_related() -> tempo::tempo::artists::ArtistRelated {
    tempo::tempo::artists::ArtistRelated {
        relations: vec![],
        images: vec![],
        recordings: vec![],
        artist_credits: vec![],
        releases: vec![],
        tracks: vec![],
    }
}

#[test]
fn search_documents_hold_the_indexed_text() {
    let d = artist_to_document(Artist { id: 0x550e8400e29b41d4a716446655440000, name: "Miles".to_string(), sort_name: "Davis, Miles".to_string(), description: Some("trumpet".to_string()) });
    assert_eq!(d.id, "550e8400-e29b-41d4-a716-446655440000");
    assert_eq!(d.sort_name, "Davis, Miles");
    assert_eq!(d.description.as_deref(), Some("trumpet"));
    let credits = vec![(credit(5, None), artist(5, "Miles Davis")), (credit(6, Some(" & ")), artist(6, "John Coltrane"))];
    let t = track_to_document((track(1), credits));
    assert_eq!(t.artists, "Miles Davis & John Coltrane");
    assert_eq!(t.genres, "jazz");
    assert_eq!(t.id, "00000000-0000-0000-0000-000000000001");
    let r = release_to_document((release(2), vec![]));
    assert_eq!(r.genres, "jazz modal");
    assert_eq!(r.artists, "");
    assert_eq!(r.release_type.as_deref(), Some("album"));
}

#[test]
fn search_results_give_their_ids_with_scores() {
    let ok = get_ids(vec![
        (0.5f32, SearchValue::Str("550e8400-e29b-41d4-a716-446655440000".to_string())),
        (0.25f32, SearchValue::Str("00000000000000000000000000000007".to_string())),
    ]);
    match ok {
        Ok(v) => assert_eq!(v, vec![(0.5f32, 0x550e8400e29b41d4a716446655440000u128), (0.25f32, 7u128)]),
        Err(_) => panic!("expected ids"),
    }
    assert!(matches!(get_ids(vec![(1.0f32, SearchValue::Other)]), Err(SearchError::InvalidResultType)));
    assert!(matches!(get_ids(vec![(1.0f32, SearchValue::Str("nope".to_string())), (2.0f32, SearchValue::Other)]), Err(SearchError::UuidParseError)));
    assert!(matches!(get_ids::<f32>(vec![]), Ok(v) if v.is_empty()));
}

#[test]
fn index_schemas_and_query_fields() {
    let artists = make_artists_schema();
    assert_eq!(artists[0], ("id", FieldOptions::Stored));
    assert_eq!(artists[3], ("description", FieldOptions::Str));
    assert_eq!(make_tracks_schema().len(), 4);
    assert_eq!(make_releases_schema()[3], ("release_type", FieldOptions::Str));
    assert_eq!(query_fields(Index::Releases), vec!["artists", "title", "release_type", "genres"]);
    assert_eq!(query_fields(Index::Artists), vec!["name", "sort_name", "description"]);
    let names: Vec<&str> = make_tracks_schema().iter().skip(1).map(|f| f.0).collect();
    assert_eq!(query_fields(Index::Tracks), names);
}

#[test]
fn indexing_pairs_credits_with_their_artists() {
    assert_eq!(tempo::search_index::all_data(), vec![Index::Artists, Index::Tracks, Index::Releases]);
    let pairs = tempo::search_index::credited_artists(vec![credit(5, None), credit(6, Some(" & "))], vec![Some(artist(5, "M")), Some(artist(6, "J"))]).unwrap();
    assert_eq!(pairs.len(), 2);
    assert_eq!(pairs[1].1.name, "J");
    assert!(tempo::search_index::credited_artists(vec![credit(5, None)], vec![None]).is_none());
    assert!(tempo::search_index::credited_artists(vec![credit(5, None)], vec![]).is_none());
    assert!(tempo::search_index::credited_artists(vec![], vec![Some(artist(1, "x"))]).unwrap().is_empty());
}

#[test]
fn sorting_included_resources_of_one_kind_is_consistent() {
    let img = |id: &str| Included::Image(tempo::tempo::images::entity_to_resource(&image(id, ImageFormat::Gif)));
    let (a, b, c) = (img("ab"), img("abc"), img("b"));
    assert_eq!(included_cmp(&a, &b), Ordering::Less);
    assert_eq!(included_cmp(&b, &c), Ordering::Less);
    assert_eq!(included_cmp(&a, &c), Ordering::Less);
    assert_eq!(included_cmp(&c, &a), Ordering::Greater);
}
