//! Artist images from Last.fm: the image pages a gallery links to, the
//! description shown on an image page, the format of a downloaded image and
//! the record kept of it.
use vstd::prelude::*;
use crate::artist_url::url_text_of;
use crate::entity::{Image, ImageFormat};
use crate::extract::{eq_ignore_ascii_case, mime_parts, mime_parts_of, names_equal};
use crate::requests::{img_url, last_path_segment_of, lastfm_image_text, UrlData};
use crate::seqs::filter_map_spec;
use crate::text::{opt_view, to_owned_string};

verus! {

/// The value of the attribute `attr` of each element of an HTML document
/// that a CSS selector picks, in document order (`None` for an element
/// without it), as the `scraper` crate reads the document; `None` where the
/// selector does not parse.
pub uninterp spec fn selected_attrs_of(html: Seq<char>, selector: Seq<char>, attr: Seq<char>) -> Option<Seq<Option<Seq<char>>>>;

/// The texts of a sequence of optional texts.
pub open spec fn opt_views(v: Seq<Option<String>>) -> Seq<Option<Seq<char>>> {
    v.map_values(|h: Option<String>| opt_view(h))
}

/// `Html::parse_document` and `Selector::parse` of the `scraper` crate,
/// then `select` and `attr` on each element picked: its result is named
/// `selected_attrs_of`.
#[verifier::external_body]
fn selected_attrs(html: &str, selector: &str, attr: &str) -> (r: Option<Vec<Option<String>>>)
    ensures
        match r {
            Some(v) => selected_attrs_of(html@, selector@, attr@) == Some(opt_views(v@)),
            None => selected_attrs_of(html@, selector@, attr@) is None,
        },
{
    let selector = match scraper::Selector::parse(selector) {
        Ok(s) => s,
        Err(_) => return None,
    };
    let document = scraper::Html::parse_document(html);
    let mut values = Vec::new();
    for element in document.select(&selector) {
        values.push(element.value().attr(attr).map(|v| v.to_string()));
    }
    Some(values)
}

/// The text of the first element of an HTML document that a CSS selector
/// picks (`None` where it picks none), as the `scraper` crate reads the
/// document; `None` where the selector does not parse.
pub uninterp spec fn first_selected_text_of(html: Seq<char>, selector: Seq<char>) -> Option<Option<Seq<char>>>;

/// `Html::parse_document` and `Selector::parse` of the `scraper` crate,
/// then the text of the first element `select` gives: its result is named
/// `first_selected_text_of`.
#[verifier::external_body]
fn first_selected_text(html: &str, selector: &str) -> (r: Option<Option<String>>)
    ensures
        match r {
            Some(t) => first_selected_text_of(html@, selector@) == Some(opt_view(t)),
            None => first_selected_text_of(html@, selector@) is None,
        },
{
    let selector = match scraper::Selector::parse(selector) {
        Ok(s) => s,
        Err(_) => return None,
    };
    let document = scraper::Html::parse_document(html);
    Some(document.select(&selector).next().map(|element| element.text().collect::<String>()))
}

/// The text of the address `base` with its path set to `path`, as the
/// `url` crate reads and writes it; `None` where `base` does not parse.
pub uninterp spec fn url_with_path_of(base: Seq<char>, path: Seq<char>) -> Option<Seq<char>>;

/// `Url::parse` of the `url` crate, then `set_path` and `to_string`: its
/// result is named `url_with_path_of`.
#[verifier::external_body]
pub(crate) fn url_with_path(base: &str, path: &str) -> (r: Option<String>)
    ensures
        opt_view(r) == url_with_path_of(base@, path@),
{
    match url::Url::parse(base) {
        Ok(mut u) => {
            u.set_path(path);
            Some(u.to_string())
        },
        Err(_) => None,
    }
}

/// The selector of the links from a gallery to its image pages.
pub open spec fn image_selector() -> Seq<char> {
    "ul.image-list li.image-list-item-wrapper a.image-list-item"@
}

/// The selector of the description on an image page.
pub open spec fn description_selector() -> Seq<char> {
    ".gallery-image-description"@
}

/// The image a Last.fm image page shows: the page, the image's address and
/// its id, where the page has an id and the address parses.
pub open spec fn image_data_of(page: Seq<char>) -> Option<(Seq<char>, Seq<char>, Seq<char>)> {
    match last_path_segment_of(page) {
        None => None,
        Some(id) => match url_text_of(lastfm_image_text(id)) {
            None => None,
            Some(u) => Some((page, u, id)),
        },
    }
}

/// The image of the page at `path` of the gallery's site.
pub open spec fn gallery_image(gallery: Seq<char>, path: Seq<char>) -> Option<(Seq<char>, Seq<char>, Seq<char>)> {
    match url_with_path_of(gallery, path) {
        None => None,
        Some(page) => image_data_of(page),
    }
}

/// The links of a gallery that carry a path.
pub open spec fn linked_paths(hrefs: Seq<Option<Seq<char>>>) -> Seq<Seq<char>> {
    filter_map_spec(hrefs, |h: Option<Seq<char>>| h)
}

/// The image data as texts.
pub open spec fn url_data_view(d: UrlData) -> (Seq<char>, Seq<char>, Seq<char>) {
    (d.image_page@, d.image_url@, d.image_id@)
}

/// Why the images of a gallery could not be listed.
pub enum GalleryError {
    /// The selector of image links does not parse.
    Selector,
    /// The gallery's address does not parse, so the page at this path
    /// cannot be addressed.
    Page(String),
    /// This image page has no image id, or the image's address does not
    /// parse.
    NoImageId(String),
}

/// The error for the first link of a gallery whose image cannot be found.
pub open spec fn gallery_error(gallery: Seq<char>, path: Seq<char>, e: GalleryError) -> bool {
    match url_with_path_of(gallery, path) {
        None => e matches GalleryError::Page(p) && p@ == path,
        Some(page) => image_data_of(page) is None && (e matches GalleryError::NoImageId(p) && p@ == page),
    }
}

/// The images a Last.fm gallery page links to: for each image link in the
/// page's HTML that carries a path, in order, the image page at that path
/// of the gallery's site and the image it shows; the first link whose image
/// cannot be found is an error.
pub fn get_urls(gallery: &str, html: &str) -> (r: Result<Vec<UrlData>, GalleryError>)
    ensures
        match selected_attrs_of(html@, image_selector(), "href"@) {
            None => r matches Err(GalleryError::Selector),
            Some(hrefs) => {
                let paths = linked_paths(hrefs);
                &&& r is Ok <==> forall|i: int| 0 <= i < paths.len() ==> #[trigger] gallery_image(gallery@, paths[i]) is Some
                &&& r matches Ok(v) ==> v.len() == paths.len() && forall|i: int|
                    0 <= i < paths.len() ==> gallery_image(gallery@, paths[i]) == Some(#[trigger] url_data_view(v@[i]))
                &&& r matches Err(e) ==> exists|k: int| {
                    &&& 0 <= k < paths.len()
                    &&& forall|i: int| 0 <= i < k ==> #[trigger] gallery_image(gallery@, paths[i]) is Some
                    &&& gallery_error(gallery@, #[trigger] paths[k], e)
                }
            },
        },
{
    let hrefs = match selected_attrs(html, "ul.image-list li.image-list-item-wrapper a.image-list-item", "href") {
        Some(h) => h,
        None => {
            return Err(GalleryError::Selector);
        },
    };
    let ghost hs = opt_views(hrefs@);
    let mut urls: Vec<UrlData> = Vec::new();
    let mut i: usize = 0;
    assert(hs.take(0) =~= Seq::<Option<Seq<char>>>::empty());
    while i < hrefs.len()
        invariant
            i <= hrefs.len(),
            hs == opt_views(hrefs@),
            selected_attrs_of(html@, image_selector(), "href"@) == Some(hs),
            urls.len() == linked_paths(hs.take(i as int)).len(),
            forall|j: int| 0 <= j < urls.len() ==> gallery_image(gallery@, linked_paths(hs.take(i as int))[j]) == Some(
                #[trigger] url_data_view(urls@[j]),
            ),
        decreases hrefs.len() - i,
    {
        let ghost before = linked_paths(hs.take(i as int));
        assert(hs.take(i as int + 1).drop_last() =~= hs.take(i as int));
        assert(hs.take(i as int + 1).last() == hs[i as int]);
        match &hrefs[i] {
            None => {
                assert(linked_paths(hs.take(i as int + 1)) == before);
            },
            Some(path) => {
                assert(linked_paths(hs.take(i as int + 1)) == before.push(path@));
                let page = match url_with_path(gallery, path.as_str()) {
                    Some(p) => p,
                    None => {
                        proof {
                            lemma_gallery_failure(gallery@, hs, i as int + 1, path@, urls@.map_values(|d: UrlData| url_data_view(d)));
                            assert(gallery_image(gallery@, linked_paths(hs)[before.len() as int]) is None);
                        }
                        return Err(GalleryError::Page(to_owned_string(path.as_str())));
                    },
                };
                match img_url(page.as_str()) {
                    Some(d) => {
                        urls.push(d);
                    },
                    None => {
                        proof {
                            lemma_gallery_failure(gallery@, hs, i as int + 1, path@, urls@.map_values(|d: UrlData| url_data_view(d)));
                            assert(gallery_image(gallery@, linked_paths(hs)[before.len() as int]) is None);
                        }
                        return Err(GalleryError::NoImageId(page));
                    },
                }
            },
        }
        i = i + 1;
    }
    assert(hs.take(i as int) =~= hs);
    assert forall|j: int| 0 <= j < linked_paths(hs).len() implies #[trigger] gallery_image(gallery@, linked_paths(hs)[j]) is Some by {
        assert(gallery_image(gallery@, linked_paths(hs)[j]) == Some(url_data_view(urls@[j])));
    }
    Ok(urls)
}

/// Where the image of the next link of a gallery cannot be found, every
/// link before it has one: the links already listed are the first links of
/// the gallery, and the next link follows them.
proof fn lemma_gallery_failure(
    gallery: Seq<char>,
    hs: Seq<Option<Seq<char>>>,
    n: int,
    path: Seq<char>,
    done: Seq<(Seq<char>, Seq<char>, Seq<char>)>,
)
    requires
        0 < n <= hs.len(),
        linked_paths(hs.take(n)) == linked_paths(hs.take(n - 1)).push(path),
        done.len() == linked_paths(hs.take(n - 1)).len(),
        forall|j: int| 0 <= j < done.len() ==> gallery_image(gallery, linked_paths(hs.take(n - 1))[j]) == Some(#[trigger] done[j]),
    ensures
        done.len() < linked_paths(hs).len(),
        linked_paths(hs)[done.len() as int] == path,
        forall|j: int| 0 <= j < done.len() ==> #[trigger] gallery_image(gallery, linked_paths(hs)[j]) is Some,
{
    lemma_linked_paths_prefix(hs, n);
    assert forall|j: int| 0 <= j < done.len() implies #[trigger] gallery_image(gallery, linked_paths(hs)[j]) is Some by {
        assert(linked_paths(hs)[j] == linked_paths(hs.take(n))[j]);
        assert(linked_paths(hs.take(n))[j] == linked_paths(hs.take(n - 1))[j]);
        assert(gallery_image(gallery, linked_paths(hs.take(n - 1))[j]) == Some(done[j]));
    }
    assert(linked_paths(hs)[done.len() as int] == linked_paths(hs.take(n))[done.len() as int]);
}

/// The links of a prefix of a gallery's links are a prefix of its links.
proof fn lemma_linked_paths_prefix(hs: Seq<Option<Seq<char>>>, n: int)
    requires
        0 <= n <= hs.len(),
    ensures
        linked_paths(hs.take(n)).len() <= linked_paths(hs).len(),
        forall|j: int| 0 <= j < linked_paths(hs.take(n)).len() ==> #[trigger] linked_paths(hs)[j] == linked_paths(hs.take(n))[j],
{
    let f = |h: Option<Seq<char>>| h;
    crate::seqs::lemma_filter_map_append(hs.take(n), hs.skip(n), f);
    assert(hs.take(n) + hs.skip(n) =~= hs);
}

/// The description shown on a Last.fm image page: the text of its first
/// description element, if it has one.
pub fn extract_description(html: &str) -> (r: Option<String>)
    ensures
        opt_view(r) == match first_selected_text_of(html@, description_selector()) {
            Some(t) => t,
            None => None,
        },
{
    match first_selected_text(html, ".gallery-image-description") {
        Some(t) => t,
        None => None,
    }
}

/// The media type `infer::get` recognises from the first bytes of a file;
/// `None` where it recognises none.
pub uninterp spec fn inferred_mime_of(bytes: Seq<u8>) -> Option<Seq<char>>;

/// `infer::get` on the bytes, then `mime_type` of what it recognises: its
/// result is named `inferred_mime_of`.
#[verifier::external_body]
fn inferred_mime(bytes: &[u8]) -> (r: Option<String>)
    ensures
        opt_view(r) == inferred_mime_of(bytes@),
{
    match infer::get(bytes) {
        Some(kind) => Some(kind.mime_type().to_string()),
        None => None,
    }
}

/// The image format of a media type read by the `mime` crate: JPEG, PNG or
/// GIF images; `None` for any other type.
pub open spec fn format_of_mime(parts: (Seq<char>, Seq<char>, Option<Seq<char>>)) -> Option<ImageFormat> {
    if !eq_ignore_ascii_case(parts.0, "image"@) {
        None
    } else if eq_ignore_ascii_case(parts.1, "jpeg"@) {
        Some(ImageFormat::Jpeg)
    } else if eq_ignore_ascii_case(parts.1, "png"@) {
        Some(ImageFormat::Png)
    } else if eq_ignore_ascii_case(parts.1, "gif"@) {
        Some(ImageFormat::Gif)
    } else {
        None
    }
}

/// The format of downloaded image bytes: the one their recognised media
/// type names, JPEG where none is recognised or it names no image format.
pub open spec fn downloaded_format(bytes: Seq<u8>) -> ImageFormat {
    match inferred_mime_of(bytes) {
        Some(m) => match mime_parts_of(m) {
            Some(parts) => match format_of_mime(parts) {
                Some(f) => f,
                None => ImageFormat::Jpeg,
            },
            None => ImageFormat::Jpeg,
        },
        None => ImageFormat::Jpeg,
    }
}

/// The format a downloaded artist image is kept in; `None` for GIF images,
/// which are not kept.
pub fn downloaded_image_format(bytes: &[u8]) -> (r: Option<ImageFormat>)
    ensures
        r == if downloaded_format(bytes@) == ImageFormat::Gif {
            None
        } else {
            Some(downloaded_format(bytes@))
        },
{
    let format = match inferred_mime(bytes) {
        None => ImageFormat::Jpeg,
        Some(m) => match mime_parts(m.as_str()) {
            None => ImageFormat::Jpeg,
            Some((media_type, subtype, _)) => {
                if !names_equal(media_type.as_str(), "image") {
                    ImageFormat::Jpeg
                } else if names_equal(subtype.as_str(), "jpeg") {
                    ImageFormat::Jpeg
                } else if names_equal(subtype.as_str(), "png") {
                    ImageFormat::Png
                } else if names_equal(subtype.as_str(), "gif") {
                    ImageFormat::Gif
                } else {
                    ImageFormat::Jpeg
                }
            },
        },
    };
    match format {
        ImageFormat::Gif => None,
        _ => Some(format),
    }
}

/// Whether a character is a lower-case hexadecimal digit.
pub open spec fn is_lower_hex(c: char) -> bool {
    ('0' <= c && c <= '9') || ('a' <= c && c <= 'f')
}

/// The SHA-256 digest of a text's UTF-8 bytes as `sha256::digest` writes
/// it.
pub uninterp spec fn sha256_hex_of(text: Seq<char>) -> Seq<char>;

/// `sha256::digest` of a text: as the crate's source shows, the 32 bytes of
/// the digest as 64 lower-case hexadecimal digits.
#[verifier::external_body]
pub(crate) fn sha256_hex(text: &str) -> (r: String)
    ensures
        r@ == sha256_hex_of(text@),
        r@.len() == 64,
        forall|i: int| 0 <= i < 64 ==> is_lower_hex(#[trigger] r@[i]),
{
    sha256::digest(text)
}

/// The record kept of a downloaded artist image: its id is the digest of
/// the path it is stored at; its sizes are kept as signed 32-bit numbers.
pub fn artist_image(
    path: String,
    role: String,
    format: ImageFormat,
    description: Option<String>,
    width: u32,
    height: u32,
    size: usize,
) -> (r: Image)
    ensures
        r.id@ == sha256_hex_of(path@),
        r.role == role,
        r.format == format,
        r.description == description,
        r.width == width as i32,
        r.height == height as i32,
        r.size == size as i32,
        r.path == path,
{
    let id = sha256_hex(path.as_str());
    Image {
        id,
        role,
        format,
        description,
        width: width as i32,
        height: height as i32,
        size: size as i32,
        path,
    }
}

} // verus!
