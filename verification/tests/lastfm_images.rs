use tempo::entity::ImageFormat;
use tempo::lastfm_images::{artist_image, downloaded_image_format, extract_description, get_urls, GalleryError};

const GALLERY: &str = "https://www.last.fm/music/Artist/+images";

const GALLERY_HTML: &str = r#"<html><body>
<ul class="image-list">
  <li class="image-list-item-wrapper"><a class="image-list-item" href="/music/Artist/+images/abc123"></a></li>
  <li class="image-list-item-wrapper"><a class="image-list-item"></a></li>
  <li class="other"><a class="image-list-item" href="/music/Artist/+images/skipped"></a></li>
  <li class="image-list-item-wrapper"><a class="image-list-item" href="/music/Artist/+images/def456"></a></li>
</ul>
</body></html>"#;

#[test]
fn gallery_links_become_image_addresses() {
    let urls = get_urls(GALLERY, GALLERY_HTML).ok().unwrap();
    assert_eq!(urls.len(), 2);
    assert_eq!(urls[0].image_page, "https://www.last.fm/music/Artist/+images/abc123");
    assert_eq!(urls[0].image_url, "https://lastfm.freetls.fastly.net/i/u/4096x0/abc123.jpg#abc123");
    assert_eq!(urls[0].image_id, "abc123");
    assert_eq!(urls[1].image_id, "def456");
}

#[test]
fn a_page_without_links_has_no_images() {
    assert_eq!(get_urls(GALLERY, "<html><body><p>nothing</p></body></html>").ok().unwrap().len(), 0);
}

#[test]
fn an_unreadable_gallery_address_is_an_error() {
    match get_urls("not an address", GALLERY_HTML) {
        Err(GalleryError::Page(path)) => assert_eq!(path, "/music/Artist/+images/abc123"),
        _ => panic!("the first link cannot be addressed"),
    }
}

#[test]
fn image_descriptions_are_read() {
    let html = r#"<div><p class="gallery-image-description">Photo by <b>Someone</b></p><p class="gallery-image-description">second</p></div>"#;
    assert_eq!(extract_description(html).as_deref(), Some("Photo by Someone"));
    assert_eq!(extract_description("<p>no description</p>"), None);
}

#[test]
fn downloaded_images_keep_their_format() {
    let png = [0x89u8, 0x50, 0x4E, 0x47, 0x0D, 0x0A, 0x1A, 0x0A, 0, 0, 0, 0];
    assert_eq!(downloaded_image_format(&png), Some(ImageFormat::Png));
    let jpeg = [0xFFu8, 0xD8, 0xFF, 0xE0, 0, 0, 0, 0];
    assert_eq!(downloaded_image_format(&jpeg), Some(ImageFormat::Jpeg));
    assert_eq!(downloaded_image_format(b"GIF89a......"), None);
    assert_eq!(downloaded_image_format(b"plain text"), Some(ImageFormat::Jpeg));
    assert_eq!(downloaded_image_format(&[]), Some(ImageFormat::Jpeg));
}

#[test]
fn image_records_are_named_by_their_path() {
    let image = artist_image("abc".to_string(), "Artist".to_string(), ImageFormat::Png, None, 640, 480, 1234);
    assert_eq!(image.id, "ba7816bf8f01cfea414140de5dae2223b00361a396177a9cb410ff61f20015ad");
    assert_eq!(image.role, "Artist");
    assert_eq!(image.width, 640);
    assert_eq!(image.height, 480);
    assert_eq!(image.size, 1234);
    assert_eq!(image.path, "abc");
    let wide = artist_image("abc".to_string(), "Artist".to_string(), ImageFormat::Jpeg, None, 3_000_000_000, 1, 1);
    assert!(wide.width < 0);
}
