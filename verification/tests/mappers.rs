use tempo::documents::{
    ArtistInclude, MediumInclude, ReleaseInclude, ScrobbleInclude, TrackInclude, UserInclude,
};
use tempo::tempo::search::{default_limit, search_query, SearchQueryError};

#[test]
fn artist_includes_pass_release_artists_on() {
    let r = tempo::tempo::artists::map_to_releases_include(&[
        ArtistInclude::Images,
        ArtistInclude::ReleasesArtists,
        ArtistInclude::Tracks,
    ]);
    assert_eq!(r, vec![ReleaseInclude::Artists]);
}

#[test]
fn medium_includes_pass_on() {
    let includes = [MediumInclude::TracksArtists, MediumInclude::ReleaseArtists, MediumInclude::Release];
    assert_eq!(tempo::tempo::mediums::map_to_tracks_include(&includes), vec![TrackInclude::Artists]);
    assert_eq!(tempo::tempo::mediums::map_to_release_include(&includes), vec![ReleaseInclude::Artists]);
}

#[test]
fn release_includes_pass_on() {
    let r = tempo::tempo::releases::map_to_mediums_include(&[
        ReleaseInclude::MediumsTracksArtists,
        ReleaseInclude::Genres,
        ReleaseInclude::MediumsTracks,
    ]);
    assert_eq!(r, vec![MediumInclude::TracksArtists, MediumInclude::Tracks]);
}

#[test]
fn scrobble_includes_pass_on() {
    let r = tempo::tempo::scrobbles::map_to_tracks_include(&[
        ScrobbleInclude::User,
        ScrobbleInclude::TrackMediumRelease,
        ScrobbleInclude::TrackArtists,
    ]);
    assert_eq!(r, vec![TrackInclude::MediumRelease, TrackInclude::Artists]);
}

#[test]
fn track_includes_pass_on() {
    let r = tempo::tempo::tracks::map_to_mediums_include(&[
        TrackInclude::Medium,
        TrackInclude::MediumReleaseGenres,
        TrackInclude::MediumRelease,
    ]);
    assert_eq!(r, vec![MediumInclude::ReleaseGenres, MediumInclude::Release]);
}

#[test]
fn user_includes_pass_on() {
    let r = tempo::tempo::users::map_to_scrobbles_include(&[
        UserInclude::Scrobbles,
        UserInclude::ScrobblesTracksMediumReleaseArtists,
        UserInclude::ScrobblesTracks,
    ]);
    assert_eq!(r, vec![ScrobbleInclude::TrackMediumReleaseArtists, ScrobbleInclude::Track]);
    assert!(tempo::tempo::users::map_to_scrobbles_include(&[]).is_empty());
}

#[test]
fn search_limit_defaults_to_twenty_five() {
    assert_eq!(default_limit(), 25);
}

#[test]
fn search_limits_are_capped() {
    assert_eq!(search_query("abba".to_string(), None).ok().unwrap().limit, 25);
    let q = search_query("abba".to_string(), Some(50)).ok().unwrap();
    assert_eq!((q.query.as_str(), q.limit), ("abba", 50));
    assert!(matches!(search_query("abba".to_string(), Some(51)), Err(SearchQueryError::LimitTooLarge(51))));
    assert_eq!(SearchQueryError::LimitTooLarge(51).status(), 400);
}
