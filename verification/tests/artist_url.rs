use tempo::artist_url::{artist_urls, parse, relation_kind, MusicBrainzRelationType, Relation};
use tempo::entity::ArtistUrlType;

fn rel(kind: &str, url: Option<&str>) -> Relation {
    Relation { relation_type: kind.to_string(), url: url.map(|s| s.to_string()) }
}

#[test]
fn relation_kinds_are_read_by_name() {
    assert_eq!(relation_kind("free streaming"), MusicBrainzRelationType::FreeStreaming);
    assert_eq!(relation_kind("last.fm"), MusicBrainzRelationType::LastFM);
    assert_eq!(relation_kind("purchase for download"), MusicBrainzRelationType::Other);
}

#[test]
fn streaming_links_are_kept_by_domain() {
    let (url, kind) = parse("https://open.spotify.com/artist/abc", MusicBrainzRelationType::FreeStreaming).unwrap();
    assert_eq!(kind, ArtistUrlType::Spotify);
    assert_eq!(url, "https://open.spotify.com/artist/abc");
    assert!(parse("https://bandcamp.com/x", MusicBrainzRelationType::FreeStreaming).is_none());
    assert_eq!(parse("https://tidal.com/a", MusicBrainzRelationType::Streaming).unwrap().1, ArtistUrlType::Tidal);
    assert_eq!(parse("https://www.instagram.com/a", MusicBrainzRelationType::SocialNetwork).unwrap().1, ArtistUrlType::Instagram);
    assert!(parse("https://example.com/", MusicBrainzRelationType::Other).is_none());
}

#[test]
fn links_are_written_as_the_url_crate_writes_them() {
    let (url, kind) = parse("HTTPS://Example.COM", MusicBrainzRelationType::Homepage).unwrap();
    assert_eq!(url, "https://example.com/");
    assert_eq!(kind, ArtistUrlType::Homepage);
    assert!(parse("not a url", MusicBrainzRelationType::Homepage).is_none());
}

#[test]
fn one_link_of_each_kind_in_kind_order() {
    let urls = artist_urls(
        7,
        &vec![
            rel("youtube", Some("https://youtube.com/a")),
            rel("discogs", Some("https://discogs.com/1")),
            rel("youtube", Some("https://youtube.com/b")),
            rel("wikidata", None),
            rel("unknown", Some("https://x.org/")),
        ],
    );
    let got: Vec<(ArtistUrlType, &str, u128)> = urls.iter().map(|u| (u.url_type, u.url.as_str(), u.artist_id)).collect();
    assert_eq!(
        got,
        vec![
            (ArtistUrlType::Discogs, "https://discogs.com/1", 7),
            (ArtistUrlType::Youtube, "https://youtube.com/a", 7),
        ]
    );
}
