use tempo::populate::{cover_image, image_size, needs_resize, populate_plan, prepared_cover, track_tasks, PopulateError};
use tempo::imports::{begin_import, cover_fetch_task, cover_rank_task, populate_task};
use tempo::documents::{ArtistRelation, MediumRelation, ReleaseRelation, TrackRelation};
use tempo::entity::{
    Artist, ArtistCredit, ArtistCreditRelease, ArtistCreditTrack, ArtistTrackRelation,
    ArtistTrackRelationType, GenreTrack, Medium, Release, Track,
};
use tempo::imports::{entity_to_resource, import_included, included, related, Import, ImportRelated};
use tempo::entity::InternalRelease;
use tempo::internal::{ImportRelation, InternalResourceType, ResourceType};
use tempo::included::Included;
use tempo::jsonapi::{Related, Relation};

fn release(id: u128) -> Release {
    Release {
        id,
        title: "Album".to_string(),
        release_group_id: None,
        release_type: None,
        genres: vec![],
        asin: None,
        country: None,
        label: None,
        catalog_no: None,
        status: None,
        year: Some(2001),
        month: None,
        day: None,
        original_year: None,
        original_month: None,
        original_day: None,
        script: None,
        path: None,
    }
}

fn medium(id: u128, release_id: u128, tracks: i32) -> Medium {
    Medium { id, release_id, position: 1, tracks, track_offset: 0, format: None }
}

fn track(id: u128, medium_id: u128) -> Track {
    Track { id, medium_id, title: "Song".to_string(), length: 100, number: 1, genres: vec![], recording_id: 7, format: None, path: None }
}

fn sample() -> ImportRelated {
    ImportRelated {
        directory: "dir".to_string(),
        artists: vec![Artist { id: 1, name: "A".to_string(), sort_name: "A".to_string(), description: None }],
        artist_credits: vec![
            ArtistCredit { id: "c1".to_string(), join_phrase: None, artist_id: 1 },
            ArtistCredit { id: "c2".to_string(), join_phrase: Some(" & ".to_string()), artist_id: 2 },
        ],
        releases: vec![release(10)],
        mediums: vec![medium(20, 10, 2), medium(21, 10, 3), medium(22, 99, 1)],
        tracks: vec![track(30, 20), track(31, 21)],
        artist_track_relations: vec![
            ArtistTrackRelation { artist_id: 1, track_id: 30, relation_type: ArtistTrackRelationType::Vocal, relation_value: "lead".to_string() },
            ArtistTrackRelation { artist_id: 2, track_id: 31, relation_type: ArtistTrackRelationType::Vocal, relation_value: "".to_string() },
        ],
        artist_credit_releases: vec![ArtistCreditRelease { artist_credit_id: "c2".to_string(), release_id: 10 }],
        artist_credit_tracks: vec![ArtistCreditTrack { artist_credit_id: "c1".to_string(), track_id: 31 }],
        genres: vec![],
        track_genres: vec![GenreTrack { genre_id: "rock".to_string(), track_id: 31, cnt: 2 }],
        release_genres: vec![],
    }
}

#[test]
fn import_shows_its_records_in_order() {
    let items = import_included(&sample());
    assert_eq!(items.len(), 1 + 1 + 3 + 2);
    match &items[0] {
        Included::Artist(a) => {
            assert_eq!(a.id, 1);
            let keys: Vec<ArtistRelation> = a.relationships.iter().map(|p| p.0).collect();
            assert_eq!(keys, vec![ArtistRelation::Recordings]);
            assert!(matches!(&a.relationships[0].1.data, Relation::Multi(l) if l.len() == 1));
        }
        _ => panic!("expected the artist first"),
    }
    match &items[1] {
        Included::Release(r) => {
            assert_eq!(r.id, 10);
            assert_eq!(r.attributes.disctotal, 2);
            assert_eq!(r.attributes.tracktotal, 5);
            let keys: Vec<ReleaseRelation> = r.relationships.iter().map(|p| p.0).collect();
            assert_eq!(keys, vec![ReleaseRelation::Artists, ReleaseRelation::Mediums]);
            assert!(matches!(&r.relationships[0].1.data, Relation::Multi(l) if l.len() == 1 && matches!(&l[0], Related::Uuid(ri) if ri.id == 2)));
        }
        _ => panic!("expected the release second"),
    }
    match &items[4] {
        Included::Medium(m) => {
            assert_eq!(m.id, 22);
            assert!(m.relationships.is_empty());
        }
        _ => panic!("expected a medium"),
    }
    match &items[2] {
        Included::Medium(m) => {
            let keys: Vec<MediumRelation> = m.relationships.iter().map(|p| p.0).collect();
            assert_eq!(keys, vec![MediumRelation::Release, MediumRelation::Tracks]);
        }
        _ => panic!("expected a medium"),
    }
    match &items[6] {
        Included::Track(t) => {
            assert_eq!(t.id, 31);
            assert_eq!(t.attributes.disc, None);
            let keys: Vec<TrackRelation> = t.relationships.iter().map(|p| p.0).collect();
            assert_eq!(keys, vec![TrackRelation::Artists, TrackRelation::Genres]);
        }
        _ => panic!("expected a track last"),
    }
}

#[test]
fn imports_are_shown_one_after_another() {
    let items = included(vec![sample(), sample()]);
    assert_eq!(items.len(), 14);
    assert!(matches!(&items[7], Included::Artist(a) if a.id == 1));
    assert!(included(vec![]).is_empty());
}

#[test]
fn fetched_release_joins_the_import() {
    let fetched = tempo::search_result::SearchResult {
        artists: vec![
            Artist { id: 1, name: "A".to_string(), sort_name: "A".to_string(), description: None },
            Artist { id: 5, name: "E".to_string(), sort_name: "E".to_string(), description: None },
        ],
        artist_credits: vec![ArtistCredit { id: "c1".to_string(), join_phrase: None, artist_id: 1 }],
        release: release(11),
        mediums: vec![medium(40, 11, 1)],
        tracks: vec![track(30, 20), track(50, 40)],
        artist_track_relations: vec![],
        artist_credit_releases: vec![ArtistCreditRelease { artist_credit_id: "c1".to_string(), release_id: 11 }],
        artist_credit_tracks: vec![],
    };
    let merged = tempo::imports::merge_fetched_release(sample(), fetched);
    assert_eq!(merged.directory, "dir");
    let artist_ids: Vec<u128> = merged.artists.iter().map(|a| a.id).collect();
    assert_eq!(artist_ids, vec![1, 5]);
    assert_eq!(merged.artist_credits.len(), 2);
    let release_ids: Vec<u128> = merged.releases.iter().map(|r| r.id).collect();
    assert_eq!(release_ids, vec![10, 11]);
    assert_eq!(merged.mediums.len(), 4);
    let track_ids: Vec<u128> = merged.tracks.iter().map(|t| t.id).collect();
    assert_eq!(track_ids, vec![30, 31, 50]);
    assert_eq!(merged.artist_credit_releases.len(), 2);
    assert_eq!(merged.track_genres.len(), 1);
}

fn stored_import() -> Import<f32> {
    let rel = sample();
    Import {
        id: 77,
        directory: "music/Album".to_string(),
        source_release: InternalRelease {
            title: "Album".to_string(),
            artists: vec![],
            media: None,
            discs: None,
            tracks: 2,
            country: None,
            label: None,
            release_type: None,
            year: None,
            month: None,
            day: None,
            original_year: None,
            original_month: None,
            original_day: None,
        },
        source_tracks: vec![],
        artists: rel.artists,
        artist_credits: rel.artist_credits,
        releases: rel.releases,
        mediums: rel.mediums,
        tracks: rel.tracks,
        artist_track_relations: rel.artist_track_relations,
        artist_credit_releases: rel.artist_credit_releases,
        artist_credit_tracks: rel.artist_credit_tracks,
        covers: vec![],
        genres: rel.genres,
        track_genres: rel.track_genres,
        release_genres: rel.release_genres,
        release_matches: std::collections::HashMap::new(),
        cover_ratings: vec![0.5, 0.25],
        selected_release: Some(10),
        selected_cover: None,
        started_at: 1_000,
        ended_at: None,
    }
}

#[test]
fn import_resource_points_to_what_it_found() {
    let stored = vec![stored_import()];
    let rel = related(&stored);
    assert_eq!(rel.len(), 1);
    assert_eq!(rel[0].directory, "music/Album");
    assert_eq!(rel[0].mediums.len(), 3);
    let r = entity_to_resource(stored_import(), &rel[0]);
    assert_eq!(r.resource_type, ResourceType::Internal(InternalResourceType::Import));
    assert_eq!(r.id, 77);
    assert_eq!(r.attributes.cover_ratings, vec![0.5, 0.25]);
    assert_eq!(r.attributes.selected_release, Some(10));
    let keys: Vec<ImportRelation> = r.relationships.iter().map(|p| p.0).collect();
    assert_eq!(keys, vec![ImportRelation::Directory, ImportRelation::Releases, ImportRelation::Mediums, ImportRelation::Tracks, ImportRelation::Artists]);
    assert!(matches!(&r.relationships[0].1.data, Relation::Single(Related::String(ri)) if ri.id == "music/Album"));
    match &r.relationships[2].1.data {
        Relation::Multi(links) => {
            let ids: Vec<u128> = links.iter().map(|l| match l { Related::Uuid(ri) => ri.id, _ => 0 }).collect();
            assert_eq!(ids, vec![20, 21, 22]);
        }
        _ => panic!("expected the mediums"),
    }
}

#[test]
fn release_search_names_title_artists_and_tracks() {
    let mut source = stored_import().source_release;
    source.title = "Blue Train".to_string();
    source.artists = vec!["John Coltrane".to_string(), "Lee Morgan".to_string()];
    source.tracks = 5;
    let params = tempo::imports::release_search_params(&source, "[unknown]");
    assert_eq!(params, vec![
        ("query".to_string(), "release:Blue Train artist:John Coltrane, Lee Morgan tracks:5".to_string()),
        ("fmt".to_string(), "json".to_string()),
        ("limit".to_string(), "8".to_string()),
    ]);
    source.artists = vec!["[unknown]".to_string()];
    let params = tempo::imports::release_search_params(&source, "[unknown]");
    assert_eq!(params[0].1, "release:Blue Train artist: tracks:5");
}

#[test]
fn found_releases_are_fetched_one_task_each() {
    let tasks = tempo::imports::fetch_release_tasks(77, &vec![release(10), release(11)]);
    assert_eq!(tasks.len(), 2);
    assert_eq!(tasks[1].payload, Some(tempo::imports::FetchReleaseData { import_id: 77, release_id: 11 }));
    assert_eq!(tasks[0].name, tempo::internal::TaskName::ImportFetchRelease);
    let found = tempo::search_result::CombinedSearchResults {
        artists: vec![],
        artist_credits: vec![],
        releases: vec![release(12)],
        mediums: vec![],
        tracks: vec![],
        artist_track_relations: vec![],
        artist_credit_releases: vec![],
        artist_credit_tracks: vec![],
    };
    let replaced = tempo::imports::with_search_results(sample(), found);
    assert_eq!(replaced.releases.len(), 1);
    assert_eq!(replaced.releases[0].id, 12);
    assert!(replaced.artists.is_empty());
    assert_eq!(replaced.track_genres.len(), 1);
    assert_eq!(replaced.directory, "dir");
}

fn cover() -> tempo::entity::Cover {
    tempo::entity::Cover {
        provider: tempo::entity::ArtProvider::CoverArtArchive,
        url: "http://coverartarchive.org/release/1/front".to_string(),
        width: 500,
        height: 500,
        title: "Album".to_string(),
        artist: "Artist".to_string(),
    }
}

#[test]
fn storing_an_import_needs_a_matched_release_and_an_existing_cover() {
    let mut import = stored_import();
    assert!(matches!(populate_plan(&import), Err(PopulateError::Unmatched)));
    import.release_matches.insert(10, tempo::entity::ReleaseRating { score: 3, assignment: std::collections::HashMap::new() });
    let plan = populate_plan(&import).ok().unwrap();
    assert_eq!(plan.release, 10);
    assert_eq!(plan.cover, None);
    import.covers = vec![cover(), cover()];
    import.selected_cover = Some(1);
    assert_eq!(populate_plan(&import).ok().unwrap().cover, Some(1));
    import.selected_cover = Some(2);
    assert!(matches!(populate_plan(&import), Err(PopulateError::MissingCover { selected: 2, count: 2 })));
    import.selected_cover = Some(-1);
    assert!(matches!(populate_plan(&import), Err(PopulateError::MissingCover { selected: -1, count: 2 })));
    import.selected_release = None;
    assert!(matches!(populate_plan(&import), Err(PopulateError::Loading)));
}

#[test]
fn each_assigned_file_gets_a_track_task() {
    let mut assignment = std::collections::HashMap::new();
    assignment.insert(0usize, 30u128);
    assignment.insert(1usize, 31u128);
    let rating = tempo::entity::ReleaseRating { score: 0, assignment };
    let tasks = track_tasks(77, 10, &rating, &Some("/music/Album/cover.jpg".to_string()), &"task-1".to_string());
    assert_eq!(tasks.len(), 2);
    let mut pairs: Vec<(usize, u128)> = tasks
        .iter()
        .map(|t| {
            let d = t.payload.as_ref().unwrap();
            assert_eq!(d.import, 77);
            assert_eq!(d.release, 10);
            assert_eq!(d.cover.as_deref(), Some("/music/Album/cover.jpg"));
            assert_eq!(t.depends_on, vec!["task-1".to_string()]);
            assert_eq!(t.duration_seconds, 120);
            assert!(matches!(t.name, tempo::internal::TaskName::ImportTrack));
            (d.source, d.track)
        })
        .collect();
    pairs.sort();
    assert_eq!(pairs, vec![(0, 30), (1, 31)]);
}

#[test]
fn covers_are_shrunk_only_when_too_large() {
    assert!(needs_resize(500, 500, 600, 400));
    assert!(needs_resize(500, 500, 400, 600));
    assert!(!needs_resize(500, 500, 500, 500));
    let image = cover_image("abc".to_string(), "CoverFront".to_string(), tempo::entity::ImageFormat::Jpeg, 500, 500, 2048);
    assert_eq!(image.id, "ba7816bf8f01cfea414140de5dae2223b00361a396177a9cb410ff61f20015ad");
    assert_eq!(image.description.as_deref(), Some("Front Cover"));
    assert_eq!(image.size, 2048);
}

const RED_PNG: [u8; 74] = [
    0x89, 0x50, 0x4e, 0x47, 0x0d, 0x0a, 0x1a, 0x0a, 0x00, 0x00, 0x00, 0x0d, 0x49, 0x48, 0x44, 0x52, 0x00, 0x00, 0x00, 0x02, 0x00,
    0x00, 0x00, 0x02, 0x08, 0x06, 0x00, 0x00, 0x00, 0x72, 0xb6, 0x0d, 0x24, 0x00, 0x00, 0x00, 0x11, 0x49, 0x44, 0x41, 0x54, 0x78,
    0x9c, 0x63, 0xf8, 0xcf, 0xc0, 0xf0, 0x1f, 0x84, 0x19, 0x60, 0x0c, 0x00, 0x47, 0xca, 0x07, 0xf9, 0x67, 0x59, 0x6e, 0xb7, 0x00,
    0x00, 0x00, 0x00, 0x49, 0x45, 0x4e, 0x44, 0xae, 0x42, 0x60, 0x82,
];

#[test]
fn covers_are_shrunk_and_written_in_the_chosen_format() {
    assert_eq!(image_size(&RED_PNG).ok(), Some((2, 2)));
    let (small, size) = prepared_cover(&RED_PNG, 1, 1, tempo::entity::ImageFormat::Png).ok().unwrap();
    assert_eq!(size, (1, 1));
    assert_eq!(image_size(&small).ok(), Some((1, 1)));
    let (jpeg, size) = prepared_cover(&RED_PNG, 10, 10, tempo::entity::ImageFormat::Jpeg).ok().unwrap();
    assert_eq!(size, (2, 2));
    assert_eq!(&jpeg[..2], &[0xFF, 0xD8]);
    assert_eq!(image_size(&jpeg).ok(), Some((2, 2)));
    assert!(prepared_cover(b"not an image", 10, 10, tempo::entity::ImageFormat::Png).is_err());
    assert!(image_size(b"not an image").is_err());
}

#[test]
fn an_import_begins_with_nothing_found() {
    let source = stored_import().source_release;
    let track = tempo::entity::InternalTrack {
        title: "Song".to_string(),
        artists: vec!["Artist".to_string()],
        length: Some(180),
        disc: Some(1),
        number: Some(1),
        path: "music/Album/01.flac".to_string(),
    };
    let (import, task): (Import<f32>, _) = begin_import(5, "music/Album".to_string(), source, vec![track], 42).ok().unwrap();
    assert_eq!(import.id, 5);
    assert_eq!(import.directory, "music/Album");
    assert_eq!(import.source_tracks.len(), 1);
    assert_eq!(import.started_at, 42);
    assert!(import.releases.is_empty() && import.covers.is_empty() && import.release_matches.is_empty());
    assert_eq!(import.selected_release, None);
    assert_eq!(import.ended_at, None);
    assert!(matches!(task.name, tempo::internal::TaskName::ImportFetch));
    assert_eq!(task.payload, Some(5));
    assert_eq!(task.duration_seconds, 60);
    let empty = begin_import::<f32>(6, "music/Empty".to_string(), stored_import().source_release, vec![], 42);
    match empty {
        Err(tempo::api_error::Error::BadRequest(Some(m))) => assert_eq!(m, "Import folder does not contain any valid track files"),
        _ => panic!("an empty directory cannot be imported"),
    }
}

#[test]
fn import_tasks_follow_one_another() {
    let populate = populate_task(5);
    assert!(matches!(populate.name, tempo::internal::TaskName::ImportPopulate));
    assert_eq!(populate.payload, Some(5));
    let fetch = cover_fetch_task(5);
    assert!(matches!(fetch.name, tempo::internal::TaskName::ImportFetchCovers));
    assert_eq!(fetch.duration_seconds, 360);
    let rank = cover_rank_task(5, &vec!["t1".to_string(), "t2".to_string()]).unwrap();
    assert!(matches!(rank.name, tempo::internal::TaskName::ImportRankCovers));
    assert_eq!(rank.depends_on, vec!["t1".to_string()]);
    assert!(cover_rank_task(5, &vec![]).is_none());
}

const RED_BMP: [u8; 58] = [
    0x42, 0x4d, 0x3a, 0x00, 0x00, 0x00, 0x00, 0x00, 0x00, 0x00, 0x36, 0x00, 0x00, 0x00, 0x28, 0x00, 0x00, 0x00, 0x01, 0x00, 0x00,
    0x00, 0x01, 0x00, 0x00, 0x00, 0x01, 0x00, 0x18, 0x00, 0x00, 0x00, 0x00, 0x00, 0x04, 0x00, 0x00, 0x00, 0x13, 0x0b, 0x00, 0x00,
    0x13, 0x0b, 0x00, 0x00, 0x00, 0x00, 0x00, 0x00, 0x00, 0x00, 0x00, 0x00, 0x00, 0x00, 0xff, 0x00,
];

#[test]
fn covers_in_other_formats_are_read_too() {
    assert_eq!(image_size(&RED_BMP).ok(), Some((1, 1)));
    let (png, size) = prepared_cover(&RED_BMP, 10, 10, tempo::entity::ImageFormat::Png).ok().unwrap();
    assert_eq!(size, (1, 1));
    assert_eq!(&png[..4], &[0x89, 0x50, 0x4e, 0x47]);
}
