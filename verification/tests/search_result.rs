use tempo::dates::{maybe_date, parse_number};
use tempo::entity::ArtistTrackRelationType;
use tempo::musicbrainz as mb;
use tempo::search_result::{credit_id, genre_names_by_count, CombinedSearchResults, SearchResult};

fn artist(id: u128, name: &str) -> mb::Artist {
    mb::Artist {
        type_id: None,
        type_field: None,
        disambiguation: None,
        id,
        name: name.to_string(),
        sort_name: format!("{name}, The"),
    }
}

fn credit(id: u128, name: &str, join: Option<&str>) -> mb::ArtistCredit {
    mb::ArtistCredit { name: name.to_string(), joinphrase: join.map(|s| s.to_string()), artist: artist(id, name) }
}

fn genre(name: &str, count: u32) -> mb::Genre {
    mb::Genre { id: 0, count, disambiguation: String::new(), name: name.to_string() }
}

fn relation(kind: &str, artist_id: Option<u128>, work: Option<mb::Work>) -> mb::Relation {
    mb::Relation {
        type_field: kind.to_string(),
        artist: artist_id.map(|id| artist(id, "Rel")),
        work,
        attributes: vec![],
    }
}

fn track(id: u128, title: &str, genres: Vec<mb::Genre>, relations: Vec<mb::Relation>, credits: Vec<mb::ArtistCredit>) -> mb::Track {
    mb::Track {
        id,
        recording: mb::Recording {
            relations,
            disambiguation: String::new(),
            id: id + 1000,
            length: Some(1234),
            video: false,
            first_release_date: None,
            title: None,
            genres: Some(genres),
            artist_credit: Some(credits),
        },
        number: "1".to_string(),
        position: 1,
        length: None,
        title: title.to_string(),
    }
}

fn release(id: u128, media: Vec<mb::Medium>) -> mb::Release {
    mb::Release {
        label_info: vec![mb::LabelInfo {
            catalog_number: Some("CAT-1".to_string()),
            label: Some(mb::Label { id: 5, name: "Label".to_string() }),
        }],
        status: Some("Official".to_string()),
        release_group: Some(mb::ReleaseGroup {
            first_release_date: Some("1999-03".to_string()),
            title: "Group".to_string(),
            id: 77,
            disambiguation: None,
            primary_type: Some("Album".to_string()),
        }),
        artist_credit: vec![credit(1, "Band", None)],
        asin: None,
        date: Some("2001-02-03".to_string()),
        id,
        media: Some(media),
        country: Some("DE".to_string()),
        text_representation: Some(mb::TextRepresentation { language: None, script: Some("Latn".to_string()) }),
        title: "Record".to_string(),
        disambiguation: None,
        track_count: None,
    }
}

fn medium(id: Option<u128>, tracks: Vec<mb::Track>) -> mb::Medium {
    mb::Medium { id, position: Some(1), track_offset: None, track_count: tracks.len() as i32, tracks: Some(tracks), format: Some("CD".to_string()) }
}

#[test]
fn credit_ids_join_the_artist_and_the_phrase() {
    assert_eq!(credit_id(&credit(1, "A", Some(" & "))), "00000000-0000-0000-0000-000000000001- & ");
    assert_eq!(credit_id(&credit(1, "A", None)), "00000000-0000-0000-0000-000000000001-");
}

#[test]
fn dates_are_read_piece_by_piece() {
    let d = maybe_date(&Some("2001-02-03".to_string()));
    assert_eq!((d.year, d.month, d.day), (Some(2001), Some(2), Some(3)));
    let d = maybe_date(&Some("1999".to_string()));
    assert_eq!((d.year, d.month, d.day), (Some(1999), None, None));
    let d = maybe_date(&Some("abc-12".to_string()));
    assert_eq!((d.year, d.month, d.day), (None, Some(12), None));
    let d = maybe_date(&None);
    assert_eq!((d.year, d.month, d.day), (None, None, None));
    assert_eq!(parse_number("0042", 100), Some(42));
    assert_eq!(parse_number("101", 100), None);
    assert_eq!(parse_number("", 100), None);
    assert_eq!(parse_number("4x", 100), None);
}

#[test]
fn genres_are_ordered_by_count_keeping_ties_in_order() {
    let names = genre_names_by_count(&vec![genre("rock", 5), genre("pop", 1), genre("jazz", 5), genre("folk", 2)]);
    assert_eq!(names, vec!["pop", "folk", "rock", "jazz"]);
}

#[test]
fn search_result_collects_the_records_of_a_release() {
    let work = mb::Work { relations: Some(vec![relation("composer", Some(31), None)]) };
    let t1 = track(
        100,
        "First",
        vec![genre("rock", 3), genre("pop", 1)],
        vec![relation("vocal", Some(30), None), relation("performance", None, Some(work))],
        vec![credit(1, "Band", Some(" feat. ")), credit(2, "Guest", None)],
    );
    let t2 = track(101, "Second", vec![genre("rock", 2)], vec![], vec![credit(1, "Band", None)]);
    let result = SearchResult::from(release(9, vec![medium(Some(50), vec![t1, t2])]));
    assert_eq!(result.release.id, 9);
    assert_eq!(result.release.title, "Record");
    assert_eq!(result.release.release_group_id, Some(77));
    assert_eq!(result.release.release_type.as_deref(), Some("album"));
    assert_eq!(result.release.label.as_deref(), Some("Label"));
    assert_eq!(result.release.catalog_no.as_deref(), Some("CAT-1"));
    assert_eq!((result.release.year, result.release.month, result.release.day), (Some(2001), Some(2), Some(3)));
    assert_eq!((result.release.original_year, result.release.original_month, result.release.original_day), (Some(1999), Some(3), None));
    assert_eq!(result.release.script.as_deref(), Some("Latn"));
    assert_eq!(result.release.genres, vec!["pop", "rock"]);
    let artist_ids: Vec<u128> = result.artists.iter().map(|a| a.id).collect();
    assert_eq!(artist_ids, vec![1, 1, 2, 30, 31, 1]);
    assert_eq!(result.artist_credits.len(), 4);
    assert_eq!(result.artist_credits[1].id, "00000000-0000-0000-0000-000000000001- feat. ");
    assert_eq!(result.tracks.len(), 2);
    assert_eq!(result.tracks[0].medium_id, 50);
    assert_eq!(result.tracks[0].length, 1234);
    assert_eq!(result.tracks[0].genres, vec!["pop", "rock"]);
    let relations: Vec<(u128, ArtistTrackRelationType)> =
        result.artist_track_relations.iter().map(|r| (r.artist_id, r.relation_type)).collect();
    assert_eq!(relations, vec![(30, ArtistTrackRelationType::Vocal), (31, ArtistTrackRelationType::Composer)]);
    assert_eq!(result.artist_credit_tracks.len(), 3);
    assert_eq!(result.artist_credit_releases.len(), 1);
    assert_eq!(result.artist_credit_releases[0].release_id, 9);
    assert_eq!(result.mediums.len(), 1);
    assert_eq!(result.mediums[0].id, 50);
    assert_eq!(result.mediums[0].tracks, 2);
}

#[test]
fn mediums_without_ids_get_new_ones() {
    let result = SearchResult::from(release(9, vec![medium(None, vec![track(1, "T", vec![], vec![], vec![])])]));
    assert_eq!(result.mediums.len(), 1);
    assert_eq!(result.tracks[0].medium_id, result.mediums[0].id);
}

#[test]
fn combined_results_drop_repeated_records() {
    let t = || track(100, "First", vec![genre("rock", 1)], vec![], vec![credit(1, "Band", None)]);
    let combined = CombinedSearchResults::from(vec![
        release(9, vec![medium(Some(50), vec![t()])]),
        release(9, vec![medium(Some(50), vec![t()])]),
    ]);
    assert_eq!(combined.releases.len(), 1);
    assert_eq!(combined.tracks.len(), 1);
    assert_eq!(combined.mediums.len(), 1);
    assert_eq!(combined.artists.len(), 1);
    assert_eq!(combined.artist_credits.len(), 1);
    assert_eq!(combined.artist_credit_tracks.len(), 1);
    assert_eq!(combined.artist_credit_releases.len(), 1);
}
