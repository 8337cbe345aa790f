use tempo::entity::InternalRelease;
use tempo::requests::{artist_images_url, img_url, cover_art_archive_url, itunes_search_url, release_lookup_url, release_search_url, session_url, wikipedia_extract_url};

#[test]
fn release_lookup_asks_for_related_records() {
    let url = release_lookup_url(0x550e8400e29b41d4a716446655440000).unwrap();
    assert_eq!(
        url,
        "https://musicbrainz.org/ws/2/release/550e8400-e29b-41d4-a716-446655440000?inc=artists%2Bartist-credits%2Brelease-groups%2Blabels%2Brecordings%2Bgenres%2Bwork-rels%2Bwork-level-rels%2Bartist-rels%2Brecording-rels%2Binstrument-rels%2Brecording-level-rels&fmt=json"
    );
}

#[test]
fn release_search_url_carries_the_query() {
    let release = InternalRelease {
        title: "Blue Train".to_string(),
        artists: vec!["John Coltrane".to_string()],
        media: None,
        discs: None,
        tracks: 5,
        country: None,
        label: None,
        release_type: None,
        year: None,
        month: None,
        day: None,
        original_year: None,
        original_month: None,
        original_day: None,
    };
    assert_eq!(
        release_search_url(&release, "[unknown]").unwrap(),
        "https://musicbrainz.org/ws/2/release/?query=release%3ABlue+Train+artist%3AJohn+Coltrane+tracks%3A5&fmt=json&limit=8"
    );
}

#[test]
fn session_url_is_signed() {
    let url = session_url("key", "tok", "secret").unwrap();
    assert!(url.starts_with("https://ws.audioscrobbler.com/2.0/?format=json&method=auth.getSession&format=json&api_key=key&token=tok&api_sig="));
    let sig = url.rsplit("api_sig=").next().unwrap();
    assert_eq!(sig.len(), 32);
    assert_eq!(sig, format!("{:x}", md5::compute("api_keykeymethodauth.getSessiontokentoksecret".as_bytes())));
}

#[test]
fn cover_and_extract_addresses() {
    assert_eq!(cover_art_archive_url(false, 1, Some(2)).unwrap(), "http://coverartarchive.org/release/00000000-0000-0000-0000-000000000001");
    assert_eq!(cover_art_archive_url(true, 1, Some(2)).unwrap(), "http://coverartarchive.org/release-group/00000000-0000-0000-0000-000000000002");
    assert_eq!(cover_art_archive_url(true, 1, None).unwrap(), "http://coverartarchive.org/release-group/00000000-0000-0000-0000-000000000001");
    assert_eq!(
        itunes_search_url("US", "John Coltrane", "Blue Train").unwrap(),
        "http://itunes.apple.com/search?media=music&entity=album&country=US&term=John%20Coltrane%20Blue%20Train"
    );
    assert_eq!(
        wikipedia_extract_url(0x550e8400e29b41d4a716446655440000).unwrap(),
        "https://musicbrainz.org/artist/550e8400-e29b-41d4-a716-446655440000/wikipedia-extract"
    );
}

#[test]
fn lastfm_image_addresses() {
    let d = img_url("https://www.last.fm/music/Miles+Davis/+images/abc123").unwrap();
    assert_eq!(d.image_id, "abc123");
    assert_eq!(d.image_url, "https://lastfm.freetls.fastly.net/i/u/4096x0/abc123.jpg#abc123");
    assert_eq!(d.image_page, "https://www.last.fm/music/Miles+Davis/+images/abc123");
    assert!(img_url("not a url").is_none());
    assert_eq!(artist_images_url("https://www.last.fm/music/Miles+Davis").unwrap(), "https://www.last.fm/music/Miles+Davis/+images");
}

#[test]
fn connecting_lastfm_sends_the_user_to_its_authentication_page() {
    let url = tempo::entity::ConnectionProvider::LastFM
        .url("https://tempo.example/", "lastfm", &Some("KEY".to_string()), "ID", &Some("https://tempo.example/settings".to_string()))
        .ok()
        .unwrap()
        .unwrap();
    assert_eq!(
        url,
        "http://www.last.fm/api/auth?api_key=KEY&cb=https%3A%2F%2Ftempo.example%2Ftempo%2Fconnections%2Flastfm%2Fcallback%3Fid%3DID%26redirect%3Dhttps%253A%252F%252Ftempo.example%252Fsettings"
    );
    let plain = tempo::entity::ConnectionProvider::LastFM
        .url("https://tempo.example/", "lastfm", &Some("KEY".to_string()), "ID", &None)
        .ok()
        .unwrap()
        .unwrap();
    assert_eq!(
        plain,
        "http://www.last.fm/api/auth?api_key=KEY&cb=https%3A%2F%2Ftempo.example%2Ftempo%2Fconnections%2Flastfm%2Fcallback%3Fid%3DID"
    );
}

#[test]
fn an_unconfigured_service_cannot_be_connected() {
    match tempo::entity::ConnectionProvider::LastFM.url("https://tempo.example/", "lastfm", &None, "ID", &None) {
        Err(tempo::tempo::connections::ConnectionError::NotConfigured(name)) => assert_eq!(name, "lastfm"),
        _ => panic!("Last.fm is not set up"),
    }
    assert!(matches!(
        tempo::entity::ConnectionProvider::LastFM.url("not an address", "lastfm", &Some("KEY".to_string()), "ID", &None),
        Ok(None)
    ));
}
