use tempo::covers::{cover_art_archive_target, is_itunes_country, itunes_country, parse_size, CoverArtArchive, Image, Itunes, ItunesResult};
use tempo::entity::ArtProvider;

fn image(front: bool, thumbnails: &[(&str, &str)]) -> Image {
    Image {
        approved: true,
        front,
        thumbnails: thumbnails.iter().map(|(k, v)| (k.to_string(), v.to_string())).collect(),
    }
}

#[test]
fn archive_covers_use_the_largest_thumbnail_of_front_images() {
    let archive = CoverArtArchive {
        images: vec![
            image(true, &[("250", "u250"), ("large", "ularge"), ("1200", "u1200"), ("500", "u500")]),
            image(false, &[("1200", "back")]),
            image(true, &[("small", "s")]),
        ],
    };
    let covers = archive.covers("Title".to_string(), "Artist".to_string());
    assert_eq!(covers.len(), 1);
    assert_eq!(covers[0].url, "u1200");
    assert_eq!(covers[0].width, 1200);
    assert_eq!(covers[0].height, 1200);
    assert_eq!(covers[0].provider, ArtProvider::CoverArtArchive);
    assert_eq!(covers[0].title, "Title");
    assert_eq!(covers[0].artist, "Artist");
}

#[test]
fn thumbnail_names_are_sizes() {
    assert_eq!(parse_size("500"), Some(500));
    assert_eq!(parse_size("+250"), Some(250));
    assert_eq!(parse_size("large"), None);
    assert_eq!(parse_size("+"), None);
    assert_eq!(parse_size(""), None);
}

#[test]
fn archive_is_asked_by_release_group_when_preferred() {
    let (kind, id) = cover_art_archive_target(true, 1, Some(2));
    assert_eq!((kind, id), ("release-group", 2));
    let (kind, id) = cover_art_archive_target(true, 1, None);
    assert_eq!((kind, id), ("release-group", 1));
    let (kind, id) = cover_art_archive_target(false, 1, Some(2));
    assert_eq!((kind, id), ("release", 1));
}

#[test]
fn itunes_covers_come_in_three_sizes() {
    let itunes = Itunes {
        results: vec![ItunesResult {
            artist_name: "Artist".to_string(),
            collection_name: "Album".to_string(),
            artwork_url_100: "https://x/100x100bb.jpg".to_string(),
        }],
    };
    let covers = itunes.covers();
    let urls: Vec<&str> = covers.iter().map(|c| c.url.as_str()).collect();
    assert_eq!(urls, vec!["https://x/5000x5000bb.jpg", "https://x/1200x1200bb.jpg", "https://x/600x600bb.jpg"]);
    let sizes: Vec<usize> = covers.iter().map(|c| c.width).collect();
    assert_eq!(sizes, vec![5000, 1200, 600]);
    assert!(covers.iter().all(|c| c.provider == ArtProvider::Itunes && c.title == "Album" && c.artist == "Artist"));
}

#[test]
fn itunes_store_falls_back_to_the_united_states() {
    assert_eq!(itunes_country(&Some("DE".to_string())), "DE");
    assert_eq!(itunes_country(&Some("XX".to_string())), "US");
    assert_eq!(itunes_country(&None), "US");
    assert!(is_itunes_country("ZW"));
    assert!(!is_itunes_country("de"));
}

#[test]
fn covers_of_failed_providers_are_passed_over() {
    let cover = |url: &str| tempo::entity::Cover {
        provider: tempo::entity::ArtProvider::Itunes,
        url: url.to_string(),
        width: 600,
        height: 600,
        title: "T".to_string(),
        artist: "A".to_string(),
    };
    let all = tempo::covers::gather_covers(vec![Ok(vec![cover("a"), cover("b")]), Err("offline"), Ok(vec![cover("c")])]);
    let urls: Vec<String> = all.iter().map(|c| c.url.clone()).collect();
    assert_eq!(urls, vec!["a", "b", "c"]);
    assert!(tempo::covers::gather_covers::<()>(vec![Err(())]).is_empty());
}

#[test]
fn every_size_marker_of_an_artwork_address_is_replaced() {
    let itunes = Itunes {
        results: vec![ItunesResult {
            artist_name: "Artist".to_string(),
            collection_name: "Album".to_string(),
            artwork_url_100: "https://x/100x100/100x100bb-100x10.jpg".to_string(),
        }],
    };
    let covers = itunes.covers();
    assert_eq!(covers[2].url, "https://x/600x600/600x600bb-100x10.jpg");
}
